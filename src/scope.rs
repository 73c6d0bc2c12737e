use vstd::prelude::*;

use crate::lattice::CellAccessLevels;

verus! {

/// The identity of one marker family: the group that declared it and the
/// access level of its triple inside that group.
#[derive(PartialEq, Eq, Structural, Clone, Copy, Debug)]
pub struct Family {
    pub group: u64,
    pub access: CellAccessLevels,
}

/// A cell expression together with the family its type belongs to.
#[derive(Clone, Debug)]
pub struct CellRef {
    pub expr: String,
    pub family: Family,
}

/// Where a scope gets its owner from.
#[derive(Clone, Debug)]
pub enum OwnerSource {
    /// `use path::Owner =>`: a new owner of the named owner type.
    Explicit(Family),
    /// `use _ =>`: a new owner, of the type the cell names.
    Auto,
    /// `use [self] =>`: the enclosing object's owner bridge for the cell's access level.
    SelfLookup,
    /// `use &name =>` or `use &mut name =>`: an owner already live in the
    /// surrounding scope, of the given family.
    Borrowed { var: String, family: Family, mutable: bool },
}

/// Integer types a bound value may be coerced to.
#[derive(PartialEq, Eq, Structural, Clone, Copy, Debug)]
pub enum IntType {
    I8,
    I16,
    I32,
    I64,
    U8,
    U16,
    U32,
}

/// The coercion written after a binding: `: T` or `as T`.
#[derive(PartialEq, Eq, Structural, Clone, Copy, Debug)]
pub enum Coercion {
    NoCoercion,
    Declared(IntType),
    Cast(IntType),
}

/// A binding pattern as written: `[*|&] [out] [mut] target [: T | as T]`.
#[derive(Clone, Debug)]
pub struct BindingSyntax {
    pub star: bool,
    pub amp: bool,
    pub out: bool,
    pub mutable: bool,
    pub target: String,
    pub coercion: Coercion,
}

/// A scope-access expression: `[let name =] source => ([mut] cell [=> binding])`.
#[derive(Clone, Debug)]
pub struct ScopeExpr {
    pub owner_name: Option<String>,
    pub source: OwnerSource,
    pub cell_mut: bool,
    pub cell: CellRef,
    pub binding: Option<BindingSyntax>,
}

/// Whether the result lands in a new variable of the scope or in one of the
/// surrounding scope.
#[derive(PartialEq, Eq, Structural, Clone, Copy, Debug)]
pub enum Locality {
    Internal,
    External,
}

/// What is bound: the reference the access returns, the value behind it,
/// or a reference to that reference.
#[derive(PartialEq, Eq, Structural, Clone, Copy, Debug)]
pub enum Shape {
    Borrow,
    Deref,
    HardBorrow,
}

/// A binding after normalisation.
#[derive(Clone, Debug)]
pub struct Binding {
    pub shape: Shape,
    pub target: String,
    pub coercion: Option<IntType>,
}

/// The canonical form of a scope-access expression: owner source, access
/// locality, access mutability and cell, with the binding if there is one.
#[derive(Clone, Debug)]
pub struct Canonical {
    pub owner_name: String,
    pub source: OwnerSource,
    pub locality: Locality,
    pub mutable: bool,
    pub cell: CellRef,
    pub binding: Option<Binding>,
}

/// Why a scope-access expression was rejected.
#[derive(PartialEq, Eq, Structural, Clone, Copy, Debug)]
pub enum ScopeError {
    /// `mut cell` followed by a binding.
    MutCellWithBinding,
    /// A binding that starts with both `*` and `&`.
    StarAndAmp,
    /// `out` together with a declared type `: T`.
    DeclaredTypeOnOuter,
    /// A new variable together with a cast `as T`.
    CastOnLocal,
    /// A `&`-borrowed owner used for read-write access.
    SharedOwnerForWrite,
    /// An explicit or borrowed owner of another family than the cell's.
    OwnerFamilyMismatch,
    /// `[self]` lookup, but the enclosing object has no bridge for the cell's family.
    NoMatchingBridge,
}

/// The name the owner is bound to when the expression does not give one.
pub open spec fn default_owner_name() -> Seq<char> {
    "__scope_owner"@
}

/// The first rejection a binding pattern meets, if any.
pub open spec fn binding_error(b: BindingSyntax) -> Option<ScopeError> {
    if b.star && b.amp {
        Some(ScopeError::StarAndAmp)
    } else if b.out && matches!(b.coercion, Coercion::Declared(_)) {
        Some(ScopeError::DeclaredTypeOnOuter)
    } else if !b.out && matches!(b.coercion, Coercion::Cast(_)) {
        Some(ScopeError::CastOnLocal)
    } else {
        None
    }
}

/// `*` binds the value; `&` with `out` binds a reference to the reference;
/// anything else binds the reference itself (`&` before a new variable adds nothing).
pub open spec fn binding_shape(b: BindingSyntax) -> Shape {
    if b.star {
        Shape::Deref
    } else if b.amp && b.out {
        Shape::HardBorrow
    } else {
        Shape::Borrow
    }
}

pub open spec fn coercion_type(c: Coercion) -> Option<IntType> {
    match c {
        Coercion::NoCoercion => None,
        Coercion::Declared(t) => Some(t),
        Coercion::Cast(t) => Some(t),
    }
}

/// The binding that a well-formed pattern normalises to.
pub open spec fn binding_of(b: BindingSyntax) -> (Shape, Seq<char>, Option<IntType>) {
    (binding_shape(b), b.target@, coercion_type(b.coercion))
}

pub open spec fn view_binding(b: Binding) -> (Shape, Seq<char>, Option<IntType>) {
    (b.shape, b.target@, b.coercion)
}

/// The first rejection of the first phase, if any.
pub open spec fn normalize_error(e: ScopeExpr) -> Option<ScopeError> {
    match e.binding {
        None => None,
        Some(b) => if e.cell_mut {
            Some(ScopeError::MutCellWithBinding)
        } else {
            binding_error(b)
        },
    }
}

/// What the first phase makes of an expression it accepts.
pub open spec fn normalized(e: ScopeExpr, c: Canonical) -> bool {
    &&& c.owner_name@ == match e.owner_name {
        Some(n) => n@,
        None => default_owner_name(),
    }
    &&& c.source == e.source
    &&& c.cell == e.cell
    &&& match e.binding {
        None => {
            &&& c.locality == Locality::Internal
            &&& c.mutable == e.cell_mut
            &&& c.binding is None
        },
        Some(b) => {
            &&& c.locality == (if b.out {
                Locality::External
            } else {
                Locality::Internal
            })
            &&& c.mutable == b.mutable
            &&& c.binding is Some
            &&& view_binding(c.binding->Some_0) == binding_of(b)
        },
    }
}

fn coercion_of(c: Coercion) -> (r: Option<IntType>)
    ensures
        r == coercion_type(c),
{
    match c {
        Coercion::NoCoercion => None,
        Coercion::Declared(t) => Some(t),
        Coercion::Cast(t) => Some(t),
    }
}

fn copy_cell(c: &CellRef) -> (r: CellRef)
    ensures
        r == *c,
{
    CellRef { expr: c.expr.clone(), family: c.family }
}

fn copy_source(s: &OwnerSource) -> (r: OwnerSource)
    ensures
        r == *s,
{
    match s {
        OwnerSource::Explicit(f) => OwnerSource::Explicit(*f),
        OwnerSource::Auto => OwnerSource::Auto,
        OwnerSource::SelfLookup => OwnerSource::SelfLookup,
        OwnerSource::Borrowed { var, family, mutable } => OwnerSource::Borrowed {
            var: var.clone(),
            family: *family,
            mutable: *mutable,
        },
    }
}

/// First phase: brings the surface syntax to its canonical form, or rejects it.
pub fn normalize(e: &ScopeExpr) -> (r: Result<Canonical, ScopeError>)
    ensures
        normalize_error(*e) is Some ==> r == Err::<Canonical, ScopeError>(
            normalize_error(*e)->Some_0,
        ),
        normalize_error(*e) is None ==> r is Ok && normalized(*e, r->Ok_0),
{
    let owner_name = match &e.owner_name {
        Some(n) => n.clone(),
        None => "__scope_owner".to_owned(),
    };
    match &e.binding {
        None => Ok(
            Canonical {
                owner_name,
                source: copy_source(&e.source),
                locality: Locality::Internal,
                mutable: e.cell_mut,
                cell: copy_cell(&e.cell),
                binding: None,
            },
        ),
        Some(b) => {
            if e.cell_mut {
                return Err(ScopeError::MutCellWithBinding);
            }
            if b.star && b.amp {
                return Err(ScopeError::StarAndAmp);
            }
            if b.out && matches!(b.coercion, Coercion::Declared(_)) {
                return Err(ScopeError::DeclaredTypeOnOuter);
            }
            if !b.out && matches!(b.coercion, Coercion::Cast(_)) {
                return Err(ScopeError::CastOnLocal);
            }
            let shape = if b.star {
                Shape::Deref
            } else if b.amp && b.out {
                Shape::HardBorrow
            } else {
                Shape::Borrow
            };
            let locality = if b.out {
                Locality::External
            } else {
                Locality::Internal
            };
            Ok(
                Canonical {
                    owner_name,
                    source: copy_source(&e.source),
                    locality,
                    mutable: b.mutable,
                    cell: copy_cell(&e.cell),
                    binding: Some(
                        Binding {
                            shape,
                            target: b.target.clone(),
                            coercion: coercion_of(b.coercion),
                        },
                    ),
                },
            )
        },
    }
}

/// How the scope obtains its owner.
#[derive(Clone, Debug)]
pub enum Acquire {
    /// Build a new owner of the cell's family.
    Construct,
    /// Ask the cell's bridge for a fresh owner.
    FromCell,
    /// Ask the enclosing object, through its bridge at this index of its bridge list.
    FromEnclosing(usize),
    /// Borrow the named owner of the surrounding scope.
    Reborrow(String),
}

/// Which of the cell's two access operations the scope invokes.
#[derive(PartialEq, Eq, Structural, Clone, Copy, Debug)]
pub enum AccessOp {
    ReadOnly,
    ReadWrite,
}

/// The compiled scope: acquire an owner, access the cell once through it,
/// bind the result, run the trailing statements, release the owner unless it
/// was borrowed.
#[derive(Clone, Debug)]
pub struct ScopePlan {
    pub owner_name: String,
    pub acquire: Acquire,
    pub owner_family: Family,
    pub owner_mutable: bool,
    pub access: AccessOp,
    pub cell: CellRef,
    pub locality: Locality,
    pub binding: Option<Binding>,
    pub releases_owner: bool,
}

/// The first rejection of the second phase, if any. `bridges` lists the owner
/// families the enclosing object can hand out.
pub open spec fn lower_error(c: Canonical, bridges: Seq<Family>) -> Option<ScopeError> {
    match c.source {
        OwnerSource::Explicit(f) => if f != c.cell.family {
            Some(ScopeError::OwnerFamilyMismatch)
        } else {
            None
        },
        OwnerSource::Auto => None,
        OwnerSource::SelfLookup => if !bridges.contains(c.cell.family) {
            Some(ScopeError::NoMatchingBridge)
        } else {
            None
        },
        OwnerSource::Borrowed { family, mutable, .. } => if family != c.cell.family {
            Some(ScopeError::OwnerFamilyMismatch)
        } else if c.mutable && !mutable {
            Some(ScopeError::SharedOwnerForWrite)
        } else {
            None
        },
    }
}

/// What the second phase makes of a canonical form it accepts.
pub open spec fn lowered(c: Canonical, bridges: Seq<Family>, p: ScopePlan) -> bool {
    &&& p.owner_name == c.owner_name
    &&& p.cell == c.cell
    &&& p.locality == c.locality
    &&& p.binding == c.binding
    &&& p.owner_family == c.cell.family
    &&& p.access == (if c.mutable {
        AccessOp::ReadWrite
    } else {
        AccessOp::ReadOnly
    })
    &&& p.owner_mutable == match c.source {
        OwnerSource::Borrowed { mutable, .. } => mutable,
        _ => c.mutable,
    }
    &&& p.releases_owner == !(c.source is Borrowed)
    &&& match c.source {
        OwnerSource::Explicit(_) => p.acquire is Construct,
        OwnerSource::Auto => p.acquire is FromCell,
        OwnerSource::SelfLookup => {
            &&& p.acquire is FromEnclosing
            &&& p.acquire->FromEnclosing_0 < bridges.len()
            &&& bridges[p.acquire->FromEnclosing_0 as int] == c.cell.family
        },
        OwnerSource::Borrowed { var, .. } => p.acquire == Acquire::Reborrow(var),
    }
}

fn find_bridge(bridges: &Vec<Family>, f: Family) -> (r: Option<usize>)
    ensures
        r is None <==> !bridges@.contains(f),
        r is Some ==> r->Some_0 < bridges@.len() && bridges@[r->Some_0 as int] == f,
{
    let mut i: usize = 0;
    while i < bridges.len()
        invariant
            i <= bridges@.len(),
            forall|j: int| 0 <= j < i ==> bridges@[j] != f,
        decreases bridges@.len() - i,
    {
        if bridges[i] == f {
            return Some(i);
        }
        i += 1;
    }
    None
}

fn copy_binding(b: &Option<Binding>) -> (r: Option<Binding>)
    ensures
        r == *b,
{
    match b {
        None => None,
        Some(b) => Some(Binding { shape: b.shape, target: b.target.clone(), coercion: b.coercion }),
    }
}

/// Second phase: picks how the owner is acquired, which access operation runs
/// and how the result is bound, or rejects the canonical form.
pub fn lower(c: &Canonical, bridges: &Vec<Family>) -> (r: Result<ScopePlan, ScopeError>)
    ensures
        lower_error(*c, bridges@) is Some ==> r == Err::<ScopePlan, ScopeError>(
            lower_error(*c, bridges@)->Some_0,
        ),
        lower_error(*c, bridges@) is None ==> r is Ok && lowered(*c, bridges@, r->Ok_0),
{
    let family = c.cell.family;
    let (acquire, owner_mutable) = match &c.source {
        OwnerSource::Explicit(f) => {
            if *f != family {
                return Err(ScopeError::OwnerFamilyMismatch);
            }
            (Acquire::Construct, c.mutable)
        },
        OwnerSource::Auto => (Acquire::FromCell, c.mutable),
        OwnerSource::SelfLookup => {
            match find_bridge(bridges, family) {
                Some(i) => (Acquire::FromEnclosing(i), c.mutable),
                None => {
                    return Err(ScopeError::NoMatchingBridge);
                },
            }
        },
        OwnerSource::Borrowed { var, family: f, mutable } => {
            if *f != family {
                return Err(ScopeError::OwnerFamilyMismatch);
            }
            if c.mutable && !*mutable {
                return Err(ScopeError::SharedOwnerForWrite);
            }
            (Acquire::Reborrow(var.clone()), *mutable)
        },
    };
    let releases_owner = !matches!(c.source, OwnerSource::Borrowed { .. });
    Ok(
        ScopePlan {
            owner_name: c.owner_name.clone(),
            acquire,
            owner_family: family,
            owner_mutable,
            access: if c.mutable {
                AccessOp::ReadWrite
            } else {
                AccessOp::ReadOnly
            },
            cell: copy_cell(&c.cell),
            locality: c.locality,
            binding: copy_binding(&c.binding),
            releases_owner,
        },
    )
}

/// The first rejection of the whole compilation, if any.
pub open spec fn rejection(e: ScopeExpr, bridges: Seq<Family>) -> Option<ScopeError> {
    if normalize_error(e) is Some {
        normalize_error(e)
    } else {
        // Every canonical form of `e` is rejected alike by the second phase.
        lower_error(canonical_shape(e), bridges)
    }
}

/// The parts of the canonical form of `e` that the second phase decides on.
pub open spec fn canonical_shape(e: ScopeExpr) -> Canonical {
    Canonical {
        owner_name: arbitrary(),
        source: e.source,
        locality: Locality::Internal,
        mutable: match e.binding {
            None => e.cell_mut,
            Some(b) => b.mutable,
        },
        cell: e.cell,
        binding: None,
    }
}

/// What compiling `e` yields when it is accepted.
pub open spec fn compiled(e: ScopeExpr, bridges: Seq<Family>, p: ScopePlan) -> bool {
    exists|c: Canonical| normalized(e, c) && #[trigger] lowered(c, bridges, p)
}

/// Compiles a scope-access expression: the first phase, then the second.
pub fn compile(e: &ScopeExpr, bridges: &Vec<Family>) -> (r: Result<ScopePlan, ScopeError>)
    ensures
        rejection(*e, bridges@) is Some ==> r == Err::<ScopePlan, ScopeError>(
            rejection(*e, bridges@)->Some_0,
        ),
        rejection(*e, bridges@) is None ==> r is Ok && compiled(*e, bridges@, r->Ok_0),
{
    let c = normalize(e)?;
    assert(lower_error(c, bridges@) == lower_error(canonical_shape(*e), bridges@));
    let p = lower(&c, bridges)?;
    assert(lowered(c, bridges@, p));
    Ok(p)
}

/// The value `v` takes when coerced to `t`, as Rust's `as` does.
pub open spec fn cast_value(v: i64, t: Option<IntType>) -> i64 {
    match t {
        None => v,
        Some(IntType::I8) => (v as i8) as i64,
        Some(IntType::I16) => (v as i16) as i64,
        Some(IntType::I32) => (v as i32) as i64,
        Some(IntType::I64) => v,
        Some(IntType::U8) => (v as u8) as i64,
        Some(IntType::U16) => (v as u16) as i64,
        Some(IntType::U32) => (v as u32) as i64,
    }
}

pub fn coerce(v: i64, t: Option<IntType>) -> (r: i64)
    ensures
        r == cast_value(v, t),
{
    match t {
        None => v,
        Some(IntType::I8) => (v as i8) as i64,
        Some(IntType::I16) => (v as i16) as i64,
        Some(IntType::I32) => (v as i32) as i64,
        Some(IntType::I64) => v,
        Some(IntType::U8) => (v as u8) as i64,
        Some(IntType::U16) => (v as u16) as i64,
        Some(IntType::U32) => (v as u32) as i64,
    }
}

/// What a compiled scope runs against: the value in the accessed cell, the
/// outer variable an external binding writes, and the owner bookkeeping.
#[derive(PartialEq, Eq, Structural, Clone, Copy, Debug)]
pub struct World {
    /// The value held by the accessed cell.
    pub cell: i64,
    /// The outer variable of the surrounding scope.
    pub outer: i64,
    /// The value seen through the scope's binding when the scope ends.
    pub bound: i64,
    /// How many owners have been built so far; also the identity of the next one.
    pub owners_built: u64,
    /// How many times the outer variable has been assigned.
    pub outer_writes: u64,
    /// The identity of the owner the last access went through.
    pub last_owner: u64,
    /// The identity of the owner that lives in the surrounding scope.
    pub borrowed_owner: u64,
}

/// Why running a compiled scope failed.
#[derive(PartialEq, Eq, Structural, Clone, Copy, Debug)]
pub enum RunError {
    /// The trailing statements assign to a binding that cannot be written.
    ImmutableBinding,
    /// The trailing statements assign, but the scope binds nothing.
    NoBinding,
    /// A value or a counter left its range.
    Overflow,
}

pub open spec fn sum(s: Seq<i64>) -> int
    decreases s.len(),
{
    if s.len() == 0 {
        0
    } else {
        sum(s.drop_last()) + s.last()
    }
}

/// Whether adding the statements' amounts one by one to `start` stays in range.
pub open spec fn sums_fit(start: i64, s: Seq<i64>) -> bool {
    forall|k: int|
        0 < k <= s.len() ==> i64::MIN <= #[trigger] (start + sum(s.take(k))) <= i64::MAX
}

/// Whether the binding of `p` can be assigned by the trailing statements.
pub open spec fn writable(p: ScopePlan) -> bool {
    p.access == AccessOp::ReadWrite && p.binding is Some && p.binding->Some_0.shape
        != Shape::HardBorrow
}

/// The value the binding of `p` sees right after the access.
pub open spec fn seen_value(p: ScopePlan, w: World) -> i64 {
    match p.binding {
        Some(b) => if b.shape == Shape::Deref {
            cast_value(w.cell, b.coercion)
        } else {
            w.cell
        },
        None => w.cell,
    }
}

/// Running scope `p` on `w`, with trailing statements that add each amount of
/// `body` to the binding in turn.
pub open spec fn run_result(p: ScopePlan, w: World, body: Seq<i64>) -> Result<World, RunError> {
    let reborrow = p.acquire is Reborrow;
    let external = p.locality == Locality::External && p.binding is Some;
    let seen = seen_value(p, w);
    if !reborrow && w.owners_built == u64::MAX {
        Err(RunError::Overflow)
    } else if body.len() > 0 && p.binding is None {
        Err(RunError::NoBinding)
    } else if body.len() > 0 && !writable(p) {
        Err(RunError::ImmutableBinding)
    } else if !sums_fit(seen, body) || (external && w.outer_writes == u64::MAX) {
        Err(RunError::Overflow)
    } else {
        let fin = (seen + sum(body)) as i64;
        Ok(
            World {
                cell: if p.binding is Some && p.binding->Some_0.shape == Shape::Borrow
                    && writable(p) {
                    fin
                } else {
                    w.cell
                },
                outer: if external {
                    fin
                } else {
                    w.outer
                },
                bound: if p.binding is Some {
                    fin
                } else {
                    w.bound
                },
                owners_built: if reborrow {
                    w.owners_built
                } else {
                    (w.owners_built + 1) as u64
                },
                outer_writes: if external {
                    (w.outer_writes + 1) as u64
                } else {
                    w.outer_writes
                },
                last_owner: if reborrow {
                    w.borrowed_owner
                } else {
                    w.owners_built
                },
                borrowed_owner: w.borrowed_owner,
            },
        )
    }
}

fn add_all(start: i64, body: &Vec<i64>) -> (r: Option<i64>)
    ensures
        r is Some <==> sums_fit(start, body@),
        r is Some ==> r->Some_0 == start + sum(body@),
{
    let mut acc = start;
    let mut i: usize = 0;
    assert(body@.take(0) =~= Seq::<i64>::empty());
    while i < body.len()
        invariant
            i <= body@.len(),
            acc == start + sum(body@.take(i as int)),
            forall|k: int|
                0 < k <= i ==> i64::MIN <= #[trigger] (start + sum(body@.take(k))) <= i64::MAX,
        decreases body@.len() - i,
    {
        assert(body@.take(i + 1).drop_last() =~= body@.take(i as int));
        match acc.checked_add(body[i]) {
            Some(v) => {
                acc = v;
            },
            None => {
                assert(!(i64::MIN <= start + sum(body@.take(i + 1)) <= i64::MAX));
                return None;
            },
        }
        i += 1;
    }
    assert(body@.take(body@.len() as int) =~= body@);
    Some(acc)
}

/// Runs a compiled scope in the world `w`: acquires the owner, accesses the
/// cell once, binds the result, adds each amount of `body` to the binding,
/// and ends the scope.
pub fn run(p: &ScopePlan, w: World, body: &Vec<i64>) -> (r: Result<World, RunError>)
    ensures
        r == run_result(*p, w, body@),
{
    let reborrow = matches!(p.acquire, Acquire::Reborrow(_));
    let external = p.locality == Locality::External && p.binding.is_some();
    let can_write = p.access == AccessOp::ReadWrite && match &p.binding {
        Some(b) => b.shape != Shape::HardBorrow,
        None => false,
    };
    let seen = match &p.binding {
        Some(b) => if b.shape == Shape::Deref {
            coerce(w.cell, b.coercion)
        } else {
            w.cell
        },
        None => w.cell,
    };
    if !reborrow && w.owners_built == u64::MAX {
        return Err(RunError::Overflow);
    }
    if body.len() > 0 && p.binding.is_none() {
        return Err(RunError::NoBinding);
    }
    if body.len() > 0 && !can_write {
        return Err(RunError::ImmutableBinding);
    }
    let fin = match add_all(seen, body) {
        Some(v) => v,
        None => {
            return Err(RunError::Overflow);
        },
    };
    if external && w.outer_writes == u64::MAX {
        return Err(RunError::Overflow);
    }
    let writes_cell = can_write && match &p.binding {
        Some(b) => b.shape == Shape::Borrow,
        None => false,
    };
    Ok(
        World {
            cell: if writes_cell {
                fin
            } else {
                w.cell
            },
            outer: if external {
                fin
            } else {
                w.outer
            },
            bound: if p.binding.is_some() {
                fin
            } else {
                w.bound
            },
            owners_built: if reborrow {
                w.owners_built
            } else {
                w.owners_built + 1
            },
            outer_writes: if external {
                w.outer_writes + 1
            } else {
                w.outer_writes
            },
            last_owner: if reborrow {
                w.borrowed_owner
            } else {
                w.owners_built
            },
            borrowed_owner: w.borrowed_owner,
        },
    )
}

} // verus!
