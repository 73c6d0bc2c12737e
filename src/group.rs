use vstd::prelude::*;

use crate::lattice::{Capability, CellAccessLevels, CellImpl, CellRoles};

verus! {

/// How many owner/cell/marker triples a group declares, and with which access level.
#[derive(PartialEq, Eq, Structural, Clone, Copy, Debug)]
pub enum AccessCategory {
    /// One triple, uniform access.
    Uniform,
    /// One triple, private access.
    Private,
    /// One triple, public access.
    Public,
    /// Two triples in one namespace: a private one and a public one.
    Access,
}

/// Whether a group of category `c` provides owners and cells of level `a`.
pub open spec fn category_supports(c: AccessCategory, a: CellAccessLevels) -> bool {
    match c {
        AccessCategory::Uniform => a == CellAccessLevels::Uniform,
        AccessCategory::Private => a == CellAccessLevels::Private,
        AccessCategory::Public => a == CellAccessLevels::Public,
        AccessCategory::Access => a == CellAccessLevels::Private || a == CellAccessLevels::Public,
    }
}

/// The access levels of the triples a group of category `c` declares, in
/// declaration order (for an access group: the public triple, then the private one).
pub open spec fn category_levels(c: AccessCategory) -> Seq<CellAccessLevels> {
    match c {
        AccessCategory::Uniform => seq![CellAccessLevels::Uniform],
        AccessCategory::Private => seq![CellAccessLevels::Private],
        AccessCategory::Public => seq![CellAccessLevels::Public],
        AccessCategory::Access => seq![CellAccessLevels::Public, CellAccessLevels::Private],
    }
}

/// An expanded group: the kind and category it was declared with. Every
/// capability of the types it declares is computed from these two values.
#[derive(PartialEq, Eq, Structural, Clone, Copy, Debug)]
pub struct CellGroup {
    pub kind: CellImpl,
    pub category: AccessCategory,
}

/// The failure of an accessor that was asked for an access level its group
/// does not provide.
#[derive(PartialEq, Eq, Structural, Clone, Copy, Debug)]
pub struct AccessUnavailable {
    /// The access level that was asked for.
    pub requested: CellAccessLevels,
    /// What was asked for: an owner or a cell.
    pub role: CellRoles,
}

impl CellGroup {
    pub fn new(kind: CellImpl, category: AccessCategory) -> (r: CellGroup)
        ensures
            r.kind == kind,
            r.category == category,
    {
        CellGroup { kind, category }
    }

    pub fn get_cell_impl(&self) -> (r: CellImpl)
        ensures
            r == self.kind,
    {
        self.kind
    }

    /// Whether this group provides owners and cells of `level`.
    pub fn supports(&self, level: CellAccessLevels) -> (r: bool)
        ensures
            r == category_supports(self.category, level),
    {
        match self.category {
            AccessCategory::Uniform => level == CellAccessLevels::Uniform,
            AccessCategory::Private => level == CellAccessLevels::Private,
            AccessCategory::Public => level == CellAccessLevels::Public,
            AccessCategory::Access => level == CellAccessLevels::Private || level
                == CellAccessLevels::Public,
        }
    }

    pub fn has_private_access(&self) -> (r: bool)
        ensures
            r == category_supports(self.category, CellAccessLevels::Private),
    {
        self.supports(CellAccessLevels::Private)
    }

    pub fn has_uniform_access(&self) -> (r: bool)
        ensures
            r == category_supports(self.category, CellAccessLevels::Uniform),
    {
        self.supports(CellAccessLevels::Uniform)
    }

    pub fn has_public_access(&self) -> (r: bool)
        ensures
            r == category_supports(self.category, CellAccessLevels::Public),
    {
        self.supports(CellAccessLevels::Public)
    }

    /// The capability of the `role` member of this group's triple of `level`,
    /// or the failure that names the level when the group has no such triple.
    pub fn provide(&self, level: CellAccessLevels, role: CellRoles) -> (r: Result<
        Capability,
        AccessUnavailable,
    >)
        ensures
            r == provide_result(*self, level, role),
    {
        if self.supports(level) {
            Ok(Capability { kind: self.kind, access: level, role })
        } else {
            Err(AccessUnavailable { requested: level, role })
        }
    }

    /// The capabilities of every type this group declares: for each of its
    /// triples in declaration order, the marker, the owner and the cell.
    pub fn declared_types(&self) -> (r: Vec<Capability>)
        ensures
            r@.len() == 3 * category_levels(self.category).len(),
            forall|i: int|
                0 <= i < r@.len() ==> #[trigger] r@[i] == (Capability {
                    kind: self.kind,
                    access: category_levels(self.category)[i / 3],
                    role: role_at(i % 3),
                }),
    {
        let mut r: Vec<Capability> = Vec::new();
        match self.category {
            AccessCategory::Uniform => {
                push_triple(&mut r, self.kind, CellAccessLevels::Uniform);
            },
            AccessCategory::Private => {
                push_triple(&mut r, self.kind, CellAccessLevels::Private);
            },
            AccessCategory::Public => {
                push_triple(&mut r, self.kind, CellAccessLevels::Public);
            },
            AccessCategory::Access => {
                push_triple(&mut r, self.kind, CellAccessLevels::Public);
                push_triple(&mut r, self.kind, CellAccessLevels::Private);
            },
        }
        r
    }
}

/// What a group answers when asked for the `role` member of its triple of
/// `level`: its capability when the group provides the level, else a refusal
/// naming the level and role asked for.
pub open spec fn provide_result(g: CellGroup, level: CellAccessLevels, role: CellRoles) -> Result<
    Capability,
    AccessUnavailable,
> {
    if category_supports(g.category, level) {
        Ok(Capability { kind: g.kind, access: level, role })
    } else {
        Err(AccessUnavailable { requested: level, role })
    }
}

/// The role of the `j`-th member of a triple.
pub open spec fn role_at(j: int) -> CellRoles {
    if j == 0 {
        CellRoles::Marker
    } else if j == 1 {
        CellRoles::Owner
    } else {
        CellRoles::Cell
    }
}

fn push_triple(v: &mut Vec<Capability>, kind: CellImpl, access: CellAccessLevels)
    ensures
        final(v)@ == old(v)@ + seq![
            Capability { kind, access, role: CellRoles::Marker },
            Capability { kind, access, role: CellRoles::Owner },
            Capability { kind, access, role: CellRoles::Cell },
        ],
{
    v.push(Capability { kind, access, role: CellRoles::Marker });
    v.push(Capability { kind, access, role: CellRoles::Owner });
    v.push(Capability { kind, access, role: CellRoles::Cell });
}

/// The message of a refused request for the `role` member of level `level`.
pub open spec fn unavailable_text(level: CellAccessLevels, role: CellRoles) -> Seq<char> {
    match (level, role) {
        (CellAccessLevels::Private, CellRoles::Marker) => "Tried to request a private marker from a mod that cannot provide one."@,
        (CellAccessLevels::Uniform, CellRoles::Marker) => "Tried to request a uniform marker from a mod that cannot provide one."@,
        (CellAccessLevels::Public, CellRoles::Marker) => "Tried to request a public marker from a mod that cannot provide one."@,
        (CellAccessLevels::Private, CellRoles::Owner) => "Tried to request a private owner from a mod that cannot provide one."@,
        (CellAccessLevels::Uniform, CellRoles::Owner) => "Tried to request a uniform owner from a mod that cannot provide one."@,
        (CellAccessLevels::Public, CellRoles::Owner) => "Tried to request a public owner from a mod that cannot provide one."@,
        (CellAccessLevels::Private, CellRoles::Cell) => "Tried to request a private cell from a mod that cannot provide one."@,
        (CellAccessLevels::Uniform, CellRoles::Cell) => "Tried to request a uniform cell from a mod that cannot provide one."@,
        (CellAccessLevels::Public, CellRoles::Cell) => "Tried to request a public cell from a mod that cannot provide one."@,
    }
}

/// The name a group gives to the `role` member of its triple of `level`:
/// a prefix for the level, then the role.
pub open spec fn declared_name_text(level: CellAccessLevels, role: CellRoles) -> Seq<char> {
    match (level, role) {
        (CellAccessLevels::Private, CellRoles::Marker) => "PvtMarker"@,
        (CellAccessLevels::Uniform, CellRoles::Marker) => "UniMarker"@,
        (CellAccessLevels::Public, CellRoles::Marker) => "PubMarker"@,
        (CellAccessLevels::Private, CellRoles::Owner) => "PvtOwner"@,
        (CellAccessLevels::Uniform, CellRoles::Owner) => "UniOwner"@,
        (CellAccessLevels::Public, CellRoles::Owner) => "PubOwner"@,
        (CellAccessLevels::Private, CellRoles::Cell) => "PvtCell"@,
        (CellAccessLevels::Uniform, CellRoles::Cell) => "UniCell"@,
        (CellAccessLevels::Public, CellRoles::Cell) => "PubCell"@,
    }
}

/// The name of the type with capability `cap` inside its group's namespace.
pub fn declared_name(cap: Capability) -> (r: String)
    ensures
        r@ == declared_name_text(cap.access, cap.role),
{
    match (cap.access, cap.role) {
        (CellAccessLevels::Private, CellRoles::Marker) => "PvtMarker".to_owned(),
        (CellAccessLevels::Uniform, CellRoles::Marker) => "UniMarker".to_owned(),
        (CellAccessLevels::Public, CellRoles::Marker) => "PubMarker".to_owned(),
        (CellAccessLevels::Private, CellRoles::Owner) => "PvtOwner".to_owned(),
        (CellAccessLevels::Uniform, CellRoles::Owner) => "UniOwner".to_owned(),
        (CellAccessLevels::Public, CellRoles::Owner) => "PubOwner".to_owned(),
        (CellAccessLevels::Private, CellRoles::Cell) => "PvtCell".to_owned(),
        (CellAccessLevels::Uniform, CellRoles::Cell) => "UniCell".to_owned(),
        (CellAccessLevels::Public, CellRoles::Cell) => "PubCell".to_owned(),
    }
}

impl AccessUnavailable {
    /// The message naming the access level and role that were asked for.
    pub fn message(&self) -> (r: String)
        ensures
            r@ == unavailable_text(self.requested, self.role),
    {
        match (self.requested, self.role) {
            (CellAccessLevels::Private, CellRoles::Owner) => pvt_owner_unavailable_msg(),
            (CellAccessLevels::Uniform, CellRoles::Owner) => uni_owner_unavailable_msg(),
            (CellAccessLevels::Public, CellRoles::Owner) => pub_owner_unavailable_msg(),
            (CellAccessLevels::Private, CellRoles::Cell) => pvt_cell_unavailable_msg(),
            (CellAccessLevels::Uniform, CellRoles::Cell) => uni_cell_unavailable_msg(),
            (CellAccessLevels::Public, CellRoles::Cell) => pub_cell_unavailable_msg(),
            (CellAccessLevels::Private, CellRoles::Marker) =>
                "Tried to request a private marker from a mod that cannot provide one.".to_owned(),
            (CellAccessLevels::Uniform, CellRoles::Marker) =>
                "Tried to request a uniform marker from a mod that cannot provide one.".to_owned(),
            (CellAccessLevels::Public, CellRoles::Marker) =>
                "Tried to request a public marker from a mod that cannot provide one.".to_owned(),
        }
    }
}

// The messages of the six ways an accessor can be refused.
pub fn pvt_owner_unavailable_msg() -> (r: String)
    ensures
        r@ == "Tried to request a private owner from a mod that cannot provide one."@,
{
    "Tried to request a private owner from a mod that cannot provide one.".to_owned()
}

pub fn uni_owner_unavailable_msg() -> (r: String)
    ensures
        r@ == "Tried to request a uniform owner from a mod that cannot provide one."@,
{
    "Tried to request a uniform owner from a mod that cannot provide one.".to_owned()
}

pub fn pub_owner_unavailable_msg() -> (r: String)
    ensures
        r@ == "Tried to request a public owner from a mod that cannot provide one."@,
{
    "Tried to request a public owner from a mod that cannot provide one.".to_owned()
}

pub fn pvt_cell_unavailable_msg() -> (r: String)
    ensures
        r@ == "Tried to request a private cell from a mod that cannot provide one."@,
{
    "Tried to request a private cell from a mod that cannot provide one.".to_owned()
}

pub fn uni_cell_unavailable_msg() -> (r: String)
    ensures
        r@ == "Tried to request a uniform cell from a mod that cannot provide one."@,
{
    "Tried to request a uniform cell from a mod that cannot provide one.".to_owned()
}

pub fn pub_cell_unavailable_msg() -> (r: String)
    ensures
        r@ == "Tried to request a public cell from a mod that cannot provide one."@,
{
    "Tried to request a public cell from a mod that cannot provide one.".to_owned()
}

} // verus!
