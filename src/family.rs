use vstd::prelude::*;

use std::marker::PhantomData;

use qcell::{TCell, TCellOwner, TLCell, TLCellOwner};

use crate::group::{category_supports, AccessCategory, CellGroup};
use crate::token::{
    t_cell_new, t_cell_ro, t_cell_rw, t_owner_try_new, tl_cell_new, tl_cell_ro, tl_cell_rw,
    tl_owner_try_new,
};
use crate::lattice::{
    Capability, CellAccessLevels, CellImpl, CellRoles, GetEasyPubOwner, GetEasyPvtOwner,
    GetEasyUniOwner, GetPubOwner, GetPvtOwner, GetUniOwner, IsGTCell, IsGTMarker, IsGTOwner,
    IsGTPubAccess, IsGTPubCell, IsGTPubMarker, IsGTPubOwner, IsGTPvtAccess, IsGTPvtCell,
    IsGTPvtMarker, IsGTPvtOwner, IsGTUniAccess, IsGTUniCell, IsGTUniMarker, IsGTUniOwner, IsTCell,
    IsTImpl, IsTLCell, IsTLImpl, IsTLMarker, IsTLOwner, IsTLPubAccess, IsTLPubCell, IsTLPubMarker,
    IsTLPubOwner, IsTLPvtAccess, IsTLPvtCell, IsTLPvtMarker, IsTLPvtOwner, IsTLUniAccess,
    IsTLUniCell, IsTLUniMarker, IsTLUniOwner, IsTMarker, IsTOwner, IsTPubAccess, IsTPubCell,
    IsTPubMarker, IsTPubOwner, IsTPvtAccess, IsTPvtCell, IsTPvtMarker, IsTPvtOwner, IsTUniAccess,
    IsTUniCell, IsTUniMarker, IsTUniOwner,
};

verus! {

/// A group declaration keyword: a type that names one (kind, category) pair
/// and answers the queries of a group declared with it.
pub trait GroupKeyword: Sized + 'static {
    spec fn spec_group() -> CellGroup;

    fn group() -> (r: CellGroup)
        ensures
            r == Self::spec_group(),
    ;

    fn get_cell_impl() -> (r: CellImpl)
        ensures
            r == Self::spec_group().kind,
    {
        Self::group().get_cell_impl()
    }

    fn has_private_access() -> (r: bool)
        ensures
            r == category_supports(Self::spec_group().category, CellAccessLevels::Private),
    {
        Self::group().has_private_access()
    }

    fn has_uniform_access() -> (r: bool)
        ensures
            r == category_supports(Self::spec_group().category, CellAccessLevels::Uniform),
    {
        Self::group().has_uniform_access()
    }

    fn has_public_access() -> (r: bool)
        ensures
            r == category_supports(Self::spec_group().category, CellAccessLevels::Public),
    {
        Self::group().has_public_access()
    }






}

/// An owner of the private family of the group declared with `G`, or `None`
/// while one is live. Asking a group without private access is a mistake of
/// the caller.
pub fn new_private_owner<G: GroupKeyword>() -> (r: Option<Owner<PvtMarker<G>>>)
    requires
        category_supports(G::spec_group().category, CellAccessLevels::Private),
    ensures
        r is Some ==> r->Some_0.spec_capability() == (Capability {
            kind: G::spec_group().kind,
            access: CellAccessLevels::Private,
            role: CellRoles::Owner,
        }),
{
    Owner::try_new()
}

/// A cell of the private family of the group declared with `G`, holding
/// `item`. Asking a group without private access is a mistake of the caller.
pub fn new_private_cell<G: GroupKeyword, V>(item: V) -> (r: Cell<PvtMarker<G>, V>)
    requires
        category_supports(G::spec_group().category, CellAccessLevels::Private),
    ensures
        r.spec_capability() == (Capability {
            kind: G::spec_group().kind,
            access: CellAccessLevels::Private,
            role: CellRoles::Cell,
        }),
{
    Cell::new(item)
}

/// An owner of the uniform family of the group declared with `G`, or `None`
/// while one is live. Asking a group without uniform access is a mistake of
/// the caller.
pub fn new_uniform_owner<G: GroupKeyword>() -> (r: Option<Owner<UniMarker<G>>>)
    requires
        category_supports(G::spec_group().category, CellAccessLevels::Uniform),
    ensures
        r is Some ==> r->Some_0.spec_capability() == (Capability {
            kind: G::spec_group().kind,
            access: CellAccessLevels::Uniform,
            role: CellRoles::Owner,
        }),
{
    Owner::try_new()
}

/// A cell of the uniform family of the group declared with `G`, holding
/// `item`. Asking a group without uniform access is a mistake of the caller.
pub fn new_uniform_cell<G: GroupKeyword, V>(item: V) -> (r: Cell<UniMarker<G>, V>)
    requires
        category_supports(G::spec_group().category, CellAccessLevels::Uniform),
    ensures
        r.spec_capability() == (Capability {
            kind: G::spec_group().kind,
            access: CellAccessLevels::Uniform,
            role: CellRoles::Cell,
        }),
{
    Cell::new(item)
}

/// An owner of the public family of the group declared with `G`, or `None`
/// while one is live. Asking a group without public access is a mistake of
/// the caller.
pub fn new_public_owner<G: GroupKeyword>() -> (r: Option<Owner<PubMarker<G>>>)
    requires
        category_supports(G::spec_group().category, CellAccessLevels::Public),
    ensures
        r is Some ==> r->Some_0.spec_capability() == (Capability {
            kind: G::spec_group().kind,
            access: CellAccessLevels::Public,
            role: CellRoles::Owner,
        }),
{
    Owner::try_new()
}

/// A cell of the public family of the group declared with `G`, holding
/// `item`. Asking a group without public access is a mistake of the caller.
pub fn new_public_cell<G: GroupKeyword, V>(item: V) -> (r: Cell<PubMarker<G>, V>)
    requires
        category_supports(G::spec_group().category, CellAccessLevels::Public),
    ensures
        r.spec_capability() == (Capability {
            kind: G::spec_group().kind,
            access: CellAccessLevels::Public,
            role: CellRoles::Cell,
        }),
{
    Cell::new(item)
}

/// A marker type: the key that ties one owner type to one cell family.
pub trait FamilyMarker: Sized + 'static {
    spec fn spec_kind() -> CellImpl;

    /// Whether the group that declared this marker provides its access level.
    spec fn spec_provided() -> bool;

    spec fn spec_access() -> CellAccessLevels;

    fn marker_kind() -> (r: CellImpl)
        ensures
            r == Self::spec_kind(),
    ;

    fn marker_access() -> (r: CellAccessLevels)
        ensures
            r == Self::spec_access(),
    ;
}

/// The marker of the uniform triple of a group declared with keyword `G`.
pub struct UniMarker<G> {
    group: PhantomData<G>,
}

/// The marker of the public triple of a group declared with keyword `G`.
pub struct PubMarker<G> {
    group: PhantomData<G>,
}

/// The marker of the private triple of a group declared with keyword `G`.
pub struct PvtMarker<G> {
    group: PhantomData<G>,
}

impl<G: GroupKeyword> FamilyMarker for UniMarker<G> {
    open spec fn spec_kind() -> CellImpl {
        G::spec_group().kind
    }

    open spec fn spec_provided() -> bool {
        category_supports(G::spec_group().category, CellAccessLevels::Uniform)
    }

    open spec fn spec_access() -> CellAccessLevels {
        CellAccessLevels::Uniform
    }

    fn marker_kind() -> (r: CellImpl) {
        G::get_cell_impl()
    }

    fn marker_access() -> (r: CellAccessLevels) {
        CellAccessLevels::Uniform
    }
}

impl<G: GroupKeyword> FamilyMarker for PubMarker<G> {
    open spec fn spec_kind() -> CellImpl {
        G::spec_group().kind
    }

    open spec fn spec_provided() -> bool {
        category_supports(G::spec_group().category, CellAccessLevels::Public)
    }

    open spec fn spec_access() -> CellAccessLevels {
        CellAccessLevels::Public
    }

    fn marker_kind() -> (r: CellImpl) {
        G::get_cell_impl()
    }

    fn marker_access() -> (r: CellAccessLevels) {
        CellAccessLevels::Public
    }
}

impl<G: GroupKeyword> FamilyMarker for PvtMarker<G> {
    open spec fn spec_kind() -> CellImpl {
        G::spec_group().kind
    }

    open spec fn spec_provided() -> bool {
        category_supports(G::spec_group().category, CellAccessLevels::Private)
    }

    open spec fn spec_access() -> CellAccessLevels {
        CellAccessLevels::Private
    }

    fn marker_kind() -> (r: CellImpl) {
        G::get_cell_impl()
    }

    fn marker_access() -> (r: CellAccessLevels) {
        CellAccessLevels::Private
    }
}

impl<G> UniMarker<G> {
    pub fn new() -> Self {
        UniMarker { group: PhantomData }
    }
}

impl<G> PubMarker<G> {
    pub fn new() -> Self {
        PubMarker { group: PhantomData }
    }
}

impl<G> PvtMarker<G> {
    pub fn new() -> Self {
        PvtMarker { group: PhantomData }
    }
}

/// The capability of the `role` member of the family keyed by `M`.
pub open spec fn family_capability<M: FamilyMarker>(role: CellRoles) -> Capability {
    Capability { kind: M::spec_kind(), access: M::spec_access(), role }
}

/// The owner token of the family keyed by `M`: a process-wide token for a
/// `TCell` group, a per-thread token for a `TLCell` group. At most one is
/// live per marker (per thread for `TLCell`), and lending it out is what
/// grants access to the family's cells.
#[verifier::reject_recursive_types(M)]
pub struct Owner<M: FamilyMarker> {
    token: Token<M>,
}

#[verifier::reject_recursive_types(M)]
enum Token<M: 'static> {
    Direct(TCellOwner<M>),
    Local(TLCellOwner<M>),
}

impl<M: FamilyMarker> Owner<M> {
    /// The token's primitive is the one of the family's kind.
    #[verifier::type_invariant]
    spec fn token_matches_kind(self) -> bool {
        (self.token is Direct) <==> M::spec_kind() == CellImpl::T
    }

    /// Kind, access level and role of this owner: those of its family.
    pub open spec fn spec_capability(&self) -> Capability {
        family_capability::<M>(CellRoles::Owner)
    }

    /// The owner of this family, or `None` while another one is live.
    pub fn try_new() -> (r: Option<Self>)
        requires
            M::spec_provided(),
        ensures
            r is Some ==> r->Some_0.spec_capability() == family_capability::<M>(CellRoles::Owner),
    {
        match M::marker_kind() {
            CellImpl::T => match t_owner_try_new::<M>() {
                Some(o) => Some(Owner { token: Token::Direct(o) }),
                None => None,
            },
            CellImpl::TL => match tl_owner_try_new::<M>() {
                Some(o) => Some(Owner { token: Token::Local(o) }),
                None => None,
            },
        }
    }

    /// Kind, access level and role of this owner, read from its type.
    pub fn capability(&self) -> (r: Capability)
        ensures
            r == self.spec_capability(),
    {
        Capability { kind: M::marker_kind(), access: M::marker_access(), role: CellRoles::Owner }
    }
}

/// A cell of the family keyed by `M`, holding a `V`. Reading it takes a
/// shared owner of the family, writing it an exclusive one; the cell itself is
/// only ever shared.
#[verifier::reject_recursive_types(M)]
#[verifier::reject_recursive_types(V)]
pub struct Cell<M: FamilyMarker, V> {
    store: Store<M, V>,
}

#[verifier::reject_recursive_types(M)]
#[verifier::reject_recursive_types(V)]
enum Store<M, V> {
    Direct(TCell<M, V>),
    Local(TLCell<M, V>),
}

fn store_rw<'a, M: FamilyMarker, V>(store: &'a Store<M, V>, token: &'a mut Token<M>) -> (r: &'a mut V)
    requires
        (*store is Direct) <==> (*old(token) is Direct),
    ensures
        (*final(token) is Direct) <==> (*old(token) is Direct),
    no_unwind
{
    match (store, token) {
        (Store::Direct(c), Token::Direct(o)) => t_cell_rw(c, o),
        (Store::Local(c), Token::Local(o)) => tl_cell_rw(c, o),
        _ => unreached(),
    }
}

impl<M: FamilyMarker, V> Cell<M, V> {
    /// The cell's primitive is the one of the family's kind, and the family is
    /// one its group provides.
    #[verifier::type_invariant]
    spec fn store_matches_kind(self) -> bool {
        &&& (self.store is Direct) <==> M::spec_kind() == CellImpl::T
        &&& M::spec_provided()
    }

    /// Kind, access level and role of this cell: those of its family.
    pub open spec fn spec_capability(&self) -> Capability {
        family_capability::<M>(CellRoles::Cell)
    }

    pub fn new(value: V) -> (r: Self)
        requires
            M::spec_provided(),
        ensures
            r.spec_capability() == family_capability::<M>(CellRoles::Cell),
    {
        match M::marker_kind() {
            CellImpl::T => Cell { store: Store::Direct(t_cell_new(value)) },
            CellImpl::TL => Cell { store: Store::Local(tl_cell_new(value)) },
        }
    }

    /// Read-only access through a shared owner of the family.
    pub fn ro<'a>(&'a self, owner: &'a Owner<M>) -> &'a V {
        proof {
            use_type_invariant(self);
            use_type_invariant(owner);
        }
        match (&self.store, &owner.token) {
            (Store::Direct(c), Token::Direct(o)) => t_cell_ro(c, o),
            (Store::Local(c), Token::Local(o)) => tl_cell_ro(c, o),
            _ => unreached(),
        }
    }

    /// Read-write access through an exclusive owner of the family.
    pub fn rw<'a>(&'a self, owner: &'a mut Owner<M>) -> &'a mut V {
        proof {
            use_type_invariant(self);
            use_type_invariant(&*owner);
        }
        store_rw(&self.store, &mut owner.token)
    }

    /// Kind, access level and role of this cell, read from its type.
    pub fn capability(&self) -> (r: Capability)
        ensures
            r == self.spec_capability(),
    {
        Capability { kind: M::marker_kind(), access: M::marker_access(), role: CellRoles::Cell }
    }
}

impl<G: GroupKeyword, V> GetEasyUniOwner for Cell<UniMarker<G>, V> {
    type OwnerType = Owner<UniMarker<G>>;

    fn get_new_matching_owner(&self) -> (r: Option<Self::OwnerType>)
        ensures
            r is Some ==> r->Some_0.spec_capability() == self.spec_capability().with_role(
                CellRoles::Owner,
            ),
    {
        proof {
            use_type_invariant(self);
        }
        Owner::try_new()
    }

    fn get_matching_owner_from<S: GetUniOwner<Option<Self::OwnerType>>>(&self, src: &S) -> (r:
        Option<Self::OwnerType>) {
        src.get_uniform_owner()
    }
}

impl<G: GroupKeyword, V> GetEasyPubOwner for Cell<PubMarker<G>, V> {
    type OwnerType = Owner<PubMarker<G>>;

    fn get_new_matching_owner(&self) -> (r: Option<Self::OwnerType>)
        ensures
            r is Some ==> r->Some_0.spec_capability() == self.spec_capability().with_role(
                CellRoles::Owner,
            ),
    {
        proof {
            use_type_invariant(self);
        }
        Owner::try_new()
    }

    fn get_matching_owner_from<S: GetPubOwner<Option<Self::OwnerType>>>(&self, src: &S) -> (r:
        Option<Self::OwnerType>) {
        src.get_public_owner()
    }
}

impl<G: GroupKeyword, V> GetEasyPvtOwner for Cell<PvtMarker<G>, V> {
    type OwnerType = Owner<PvtMarker<G>>;

    fn get_new_matching_owner(&self) -> (r: Option<Self::OwnerType>)
        ensures
            r is Some ==> r->Some_0.spec_capability() == self.spec_capability().with_role(
                CellRoles::Owner,
            ),
    {
        proof {
            use_type_invariant(self);
        }
        Owner::try_new()
    }

    fn get_matching_owner_from<S: GetPvtOwner<Option<Self::OwnerType>>>(&self, src: &S) -> (r:
        Option<Self::OwnerType>) {
        src.get_private_owner()
    }
}

// The eight declaration keywords: `TCell` or `TLCell`, then the category.
pub struct TCellUniGrp;

pub struct TCellAccGrp;

pub struct TCellPubGrp;

pub struct TCellPvtGrp;

pub struct TLCellUniGrp;

pub struct TLCellAccGrp;

pub struct TLCellPubGrp;

pub struct TLCellPvtGrp;

impl GroupKeyword for TCellUniGrp {
    open spec fn spec_group() -> CellGroup {
        CellGroup { kind: CellImpl::T, category: AccessCategory::Uniform }
    }

    fn group() -> (r: CellGroup) {
        CellGroup { kind: CellImpl::T, category: AccessCategory::Uniform }
    }
}

impl GroupKeyword for TCellAccGrp {
    open spec fn spec_group() -> CellGroup {
        CellGroup { kind: CellImpl::T, category: AccessCategory::Access }
    }

    fn group() -> (r: CellGroup) {
        CellGroup { kind: CellImpl::T, category: AccessCategory::Access }
    }
}

impl GroupKeyword for TCellPubGrp {
    open spec fn spec_group() -> CellGroup {
        CellGroup { kind: CellImpl::T, category: AccessCategory::Public }
    }

    fn group() -> (r: CellGroup) {
        CellGroup { kind: CellImpl::T, category: AccessCategory::Public }
    }
}

impl GroupKeyword for TCellPvtGrp {
    open spec fn spec_group() -> CellGroup {
        CellGroup { kind: CellImpl::T, category: AccessCategory::Private }
    }

    fn group() -> (r: CellGroup) {
        CellGroup { kind: CellImpl::T, category: AccessCategory::Private }
    }
}

impl GroupKeyword for TLCellUniGrp {
    open spec fn spec_group() -> CellGroup {
        CellGroup { kind: CellImpl::TL, category: AccessCategory::Uniform }
    }

    fn group() -> (r: CellGroup) {
        CellGroup { kind: CellImpl::TL, category: AccessCategory::Uniform }
    }
}

impl GroupKeyword for TLCellAccGrp {
    open spec fn spec_group() -> CellGroup {
        CellGroup { kind: CellImpl::TL, category: AccessCategory::Access }
    }

    fn group() -> (r: CellGroup) {
        CellGroup { kind: CellImpl::TL, category: AccessCategory::Access }
    }
}

impl GroupKeyword for TLCellPubGrp {
    open spec fn spec_group() -> CellGroup {
        CellGroup { kind: CellImpl::TL, category: AccessCategory::Public }
    }

    fn group() -> (r: CellGroup) {
        CellGroup { kind: CellImpl::TL, category: AccessCategory::Public }
    }
}

impl GroupKeyword for TLCellPvtGrp {
    open spec fn spec_group() -> CellGroup {
        CellGroup { kind: CellImpl::TL, category: AccessCategory::Private }
    }

    fn group() -> (r: CellGroup) {
        CellGroup { kind: CellImpl::TL, category: AccessCategory::Private }
    }
}

// Markers are tagged only under the keywords whose category has their level.
impl IsGTUniAccess for UniMarker<TCellUniGrp> {}

impl IsGTMarker for UniMarker<TCellUniGrp> {}

impl IsGTUniMarker for UniMarker<TCellUniGrp> {}

impl IsTImpl for UniMarker<TCellUniGrp> {}

impl IsTUniAccess for UniMarker<TCellUniGrp> {}

impl IsTMarker for UniMarker<TCellUniGrp> {}

impl IsTUniMarker for UniMarker<TCellUniGrp> {}

impl IsGTUniAccess for UniMarker<TLCellUniGrp> {}

impl IsGTMarker for UniMarker<TLCellUniGrp> {}

impl IsGTUniMarker for UniMarker<TLCellUniGrp> {}

impl IsTLImpl for UniMarker<TLCellUniGrp> {}

impl IsTLUniAccess for UniMarker<TLCellUniGrp> {}

impl IsTLMarker for UniMarker<TLCellUniGrp> {}

impl IsTLUniMarker for UniMarker<TLCellUniGrp> {}

impl IsGTPubAccess for PubMarker<TCellPubGrp> {}

impl IsGTMarker for PubMarker<TCellPubGrp> {}

impl IsGTPubMarker for PubMarker<TCellPubGrp> {}

impl IsTImpl for PubMarker<TCellPubGrp> {}

impl IsTPubAccess for PubMarker<TCellPubGrp> {}

impl IsTMarker for PubMarker<TCellPubGrp> {}

impl IsTPubMarker for PubMarker<TCellPubGrp> {}

impl IsGTPubAccess for PubMarker<TCellAccGrp> {}

impl IsGTMarker for PubMarker<TCellAccGrp> {}

impl IsGTPubMarker for PubMarker<TCellAccGrp> {}

impl IsTImpl for PubMarker<TCellAccGrp> {}

impl IsTPubAccess for PubMarker<TCellAccGrp> {}

impl IsTMarker for PubMarker<TCellAccGrp> {}

impl IsTPubMarker for PubMarker<TCellAccGrp> {}

impl IsGTPubAccess for PubMarker<TLCellPubGrp> {}

impl IsGTMarker for PubMarker<TLCellPubGrp> {}

impl IsGTPubMarker for PubMarker<TLCellPubGrp> {}

impl IsTLImpl for PubMarker<TLCellPubGrp> {}

impl IsTLPubAccess for PubMarker<TLCellPubGrp> {}

impl IsTLMarker for PubMarker<TLCellPubGrp> {}

impl IsTLPubMarker for PubMarker<TLCellPubGrp> {}

impl IsGTPubAccess for PubMarker<TLCellAccGrp> {}

impl IsGTMarker for PubMarker<TLCellAccGrp> {}

impl IsGTPubMarker for PubMarker<TLCellAccGrp> {}

impl IsTLImpl for PubMarker<TLCellAccGrp> {}

impl IsTLPubAccess for PubMarker<TLCellAccGrp> {}

impl IsTLMarker for PubMarker<TLCellAccGrp> {}

impl IsTLPubMarker for PubMarker<TLCellAccGrp> {}

impl IsGTPvtAccess for PvtMarker<TCellPvtGrp> {}

impl IsGTMarker for PvtMarker<TCellPvtGrp> {}

impl IsGTPvtMarker for PvtMarker<TCellPvtGrp> {}

impl IsTImpl for PvtMarker<TCellPvtGrp> {}

impl IsTPvtAccess for PvtMarker<TCellPvtGrp> {}

impl IsTMarker for PvtMarker<TCellPvtGrp> {}

impl IsTPvtMarker for PvtMarker<TCellPvtGrp> {}

impl IsGTPvtAccess for PvtMarker<TCellAccGrp> {}

impl IsGTMarker for PvtMarker<TCellAccGrp> {}

impl IsGTPvtMarker for PvtMarker<TCellAccGrp> {}

impl IsTImpl for PvtMarker<TCellAccGrp> {}

impl IsTPvtAccess for PvtMarker<TCellAccGrp> {}

impl IsTMarker for PvtMarker<TCellAccGrp> {}

impl IsTPvtMarker for PvtMarker<TCellAccGrp> {}

impl IsGTPvtAccess for PvtMarker<TLCellPvtGrp> {}

impl IsGTMarker for PvtMarker<TLCellPvtGrp> {}

impl IsGTPvtMarker for PvtMarker<TLCellPvtGrp> {}

impl IsTLImpl for PvtMarker<TLCellPvtGrp> {}

impl IsTLPvtAccess for PvtMarker<TLCellPvtGrp> {}

impl IsTLMarker for PvtMarker<TLCellPvtGrp> {}

impl IsTLPvtMarker for PvtMarker<TLCellPvtGrp> {}

impl IsGTPvtAccess for PvtMarker<TLCellAccGrp> {}

impl IsGTMarker for PvtMarker<TLCellAccGrp> {}

impl IsGTPvtMarker for PvtMarker<TLCellAccGrp> {}

impl IsTLImpl for PvtMarker<TLCellAccGrp> {}

impl IsTLPvtAccess for PvtMarker<TLCellAccGrp> {}

impl IsTLMarker for PvtMarker<TLCellAccGrp> {}

impl IsTLPvtMarker for PvtMarker<TLCellAccGrp> {}

// Owners take their kind and access level from their marker.
impl<M: FamilyMarker> IsGTOwner for Owner<M> {}

impl<M: FamilyMarker + IsTImpl> IsTImpl for Owner<M> {}

impl<M: FamilyMarker + IsTImpl> IsTOwner for Owner<M> {}

impl<M: FamilyMarker + IsTLImpl> IsTLImpl for Owner<M> {}

impl<M: FamilyMarker + IsTLImpl> IsTLOwner for Owner<M> {}

impl<M: FamilyMarker + IsGTUniAccess> IsGTUniAccess for Owner<M> {}

impl<M: FamilyMarker + IsGTUniAccess> IsGTUniOwner for Owner<M> {}

impl<M: FamilyMarker + IsTUniAccess> IsTUniAccess for Owner<M> {}

impl<M: FamilyMarker + IsTUniAccess> IsTUniOwner for Owner<M> {}

impl<M: FamilyMarker + IsTLUniAccess> IsTLUniAccess for Owner<M> {}

impl<M: FamilyMarker + IsTLUniAccess> IsTLUniOwner for Owner<M> {}

impl<M: FamilyMarker + IsGTPubAccess> IsGTPubAccess for Owner<M> {}

impl<M: FamilyMarker + IsGTPubAccess> IsGTPubOwner for Owner<M> {}

impl<M: FamilyMarker + IsTPubAccess> IsTPubAccess for Owner<M> {}

impl<M: FamilyMarker + IsTPubAccess> IsTPubOwner for Owner<M> {}

impl<M: FamilyMarker + IsTLPubAccess> IsTLPubAccess for Owner<M> {}

impl<M: FamilyMarker + IsTLPubAccess> IsTLPubOwner for Owner<M> {}

impl<M: FamilyMarker + IsGTPvtAccess> IsGTPvtAccess for Owner<M> {}

impl<M: FamilyMarker + IsGTPvtAccess> IsGTPvtOwner for Owner<M> {}

impl<M: FamilyMarker + IsTPvtAccess> IsTPvtAccess for Owner<M> {}

impl<M: FamilyMarker + IsTPvtAccess> IsTPvtOwner for Owner<M> {}

impl<M: FamilyMarker + IsTLPvtAccess> IsTLPvtAccess for Owner<M> {}

impl<M: FamilyMarker + IsTLPvtAccess> IsTLPvtOwner for Owner<M> {}

// Cells take their kind and access level from their marker.
impl<M: FamilyMarker, V> IsGTCell for Cell<M, V> {}

impl<M: FamilyMarker + IsTImpl, V> IsTImpl for Cell<M, V> {}

impl<M: FamilyMarker + IsTImpl, V> IsTCell for Cell<M, V> {}

impl<M: FamilyMarker + IsTLImpl, V> IsTLImpl for Cell<M, V> {}

impl<M: FamilyMarker + IsTLImpl, V> IsTLCell for Cell<M, V> {}

impl<M: FamilyMarker + IsGTUniAccess, V> IsGTUniAccess for Cell<M, V> {}

impl<M: FamilyMarker + IsGTUniAccess, V> IsGTUniCell for Cell<M, V> {}

impl<M: FamilyMarker + IsTUniAccess, V> IsTUniAccess for Cell<M, V> {}

impl<M: FamilyMarker + IsTUniAccess, V> IsTUniCell for Cell<M, V> {}

impl<M: FamilyMarker + IsTLUniAccess, V> IsTLUniAccess for Cell<M, V> {}

impl<M: FamilyMarker + IsTLUniAccess, V> IsTLUniCell for Cell<M, V> {}

impl<M: FamilyMarker + IsGTPubAccess, V> IsGTPubAccess for Cell<M, V> {}

impl<M: FamilyMarker + IsGTPubAccess, V> IsGTPubCell for Cell<M, V> {}

impl<M: FamilyMarker + IsTPubAccess, V> IsTPubAccess for Cell<M, V> {}

impl<M: FamilyMarker + IsTPubAccess, V> IsTPubCell for Cell<M, V> {}

impl<M: FamilyMarker + IsTLPubAccess, V> IsTLPubAccess for Cell<M, V> {}

impl<M: FamilyMarker + IsTLPubAccess, V> IsTLPubCell for Cell<M, V> {}

impl<M: FamilyMarker + IsGTPvtAccess, V> IsGTPvtAccess for Cell<M, V> {}

impl<M: FamilyMarker + IsGTPvtAccess, V> IsGTPvtCell for Cell<M, V> {}

impl<M: FamilyMarker + IsTPvtAccess, V> IsTPvtAccess for Cell<M, V> {}

impl<M: FamilyMarker + IsTPvtAccess, V> IsTPvtCell for Cell<M, V> {}

impl<M: FamilyMarker + IsTLPvtAccess, V> IsTLPvtAccess for Cell<M, V> {}

impl<M: FamilyMarker + IsTLPvtAccess, V> IsTLPvtCell for Cell<M, V> {}

} // verus!
