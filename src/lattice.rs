use vstd::prelude::*;

verus! {

/// Which single-owner-token primitive a group is built on.
#[derive(PartialEq, Eq, Structural, Clone, Copy, Debug)]
pub enum CellImpl {
    /// Process-wide owner tokens.
    T,
    /// Thread-local owner tokens.
    TL,
}

/// The access level a marker, owner or cell is tagged with.
#[derive(PartialEq, Eq, Structural, Clone, Copy, Debug)]
pub enum CellAccessLevels {
    Uniform,
    Private,
    Public,
}

/// The role of a type inside one marker/owner/cell family.
#[derive(PartialEq, Eq, Structural, Clone, Copy, Debug)]
pub enum CellRoles {
    Marker,
    Owner,
    Cell,
}

/// The full capability tag of one generated type.
#[derive(PartialEq, Eq, Structural, Clone, Copy, Debug)]
pub struct Capability {
    pub kind: CellImpl,
    pub access: CellAccessLevels,
    pub role: CellRoles,
}

impl Capability {
    /// The same kind and access level, with another role: the capability of
    /// another member of the same triple.
    pub open spec fn with_role(self, role: CellRoles) -> Capability {
        Capability { kind: self.kind, access: self.access, role }
    }
}

// Implementation kind.
pub trait IsTImpl {
    fn get_cell_impl() -> (r: CellImpl)
        ensures
            r == CellImpl::T,
    {
        CellImpl::T
    }

    fn get_self_cell_impl(&self) -> (r: CellImpl)
        ensures
            r == CellImpl::T,
    {
        CellImpl::T
    }
}

pub trait IsTLImpl {
    fn get_cell_impl() -> (r: CellImpl)
        ensures
            r == CellImpl::TL,
    {
        CellImpl::TL
    }

    fn get_self_cell_impl(&self) -> (r: CellImpl)
        ensures
            r == CellImpl::TL,
    {
        CellImpl::TL
    }
}


// Access levels.
pub trait IsGTPvtAccess {
    fn is_private_access() -> (r: bool)
        ensures
            r == true,
    {
        true
    }

    fn is_uniform_access() -> (r: bool)
        ensures
            r == false,
    {
        false
    }

    fn is_public_access() -> (r: bool)
        ensures
            r == false,
    {
        false
    }

    fn get_access_level() -> (r: CellAccessLevels)
        ensures
            r == CellAccessLevels::Private,
    {
        CellAccessLevels::Private
    }

    fn is_self_private_access(&self) -> (r: bool)
        ensures
            r == true,
    {
        true
    }

    fn is_self_uniform_access(&self) -> (r: bool)
        ensures
            r == false,
    {
        false
    }

    fn is_self_public_access(&self) -> (r: bool)
        ensures
            r == false,
    {
        false
    }

    fn get_self_access_level(&self) -> (r: CellAccessLevels)
        ensures
            r == CellAccessLevels::Private,
    {
        CellAccessLevels::Private
    }
}

pub trait IsTPvtAccess: IsGTPvtAccess + IsTImpl {}

pub trait IsTLPvtAccess: IsGTPvtAccess + IsTLImpl {}

pub trait IsGTUniAccess {
    fn is_private_access() -> (r: bool)
        ensures
            r == false,
    {
        false
    }

    fn is_uniform_access() -> (r: bool)
        ensures
            r == true,
    {
        true
    }

    fn is_public_access() -> (r: bool)
        ensures
            r == false,
    {
        false
    }

    fn get_access_level() -> (r: CellAccessLevels)
        ensures
            r == CellAccessLevels::Uniform,
    {
        CellAccessLevels::Uniform
    }

    fn is_self_private_access(&self) -> (r: bool)
        ensures
            r == false,
    {
        false
    }

    fn is_self_uniform_access(&self) -> (r: bool)
        ensures
            r == true,
    {
        true
    }

    fn is_self_public_access(&self) -> (r: bool)
        ensures
            r == false,
    {
        false
    }

    fn get_self_access_level(&self) -> (r: CellAccessLevels)
        ensures
            r == CellAccessLevels::Uniform,
    {
        CellAccessLevels::Uniform
    }
}

pub trait IsTUniAccess: IsGTUniAccess + IsTImpl {}

pub trait IsTLUniAccess: IsGTUniAccess + IsTLImpl {}

pub trait IsGTPubAccess {
    fn is_private_access() -> (r: bool)
        ensures
            r == false,
    {
        false
    }

    fn is_uniform_access() -> (r: bool)
        ensures
            r == false,
    {
        false
    }

    fn is_public_access() -> (r: bool)
        ensures
            r == true,
    {
        true
    }

    fn get_access_level() -> (r: CellAccessLevels)
        ensures
            r == CellAccessLevels::Public,
    {
        CellAccessLevels::Public
    }

    fn is_self_private_access(&self) -> (r: bool)
        ensures
            r == false,
    {
        false
    }

    fn is_self_uniform_access(&self) -> (r: bool)
        ensures
            r == false,
    {
        false
    }

    fn is_self_public_access(&self) -> (r: bool)
        ensures
            r == true,
    {
        true
    }

    fn get_self_access_level(&self) -> (r: CellAccessLevels)
        ensures
            r == CellAccessLevels::Public,
    {
        CellAccessLevels::Public
    }
}

pub trait IsTPubAccess: IsGTPubAccess + IsTImpl {}

pub trait IsTLPubAccess: IsGTPubAccess + IsTLImpl {}

// Roles, and their intersections with kinds and access levels.
pub trait IsGTMarker {
    fn get_cell_role() -> (r: CellRoles)
        ensures
            r == CellRoles::Marker,
    {
        CellRoles::Marker
    }

    fn get_self_cell_role(&self) -> (r: CellRoles)
        ensures
            r == CellRoles::Marker,
    {
        CellRoles::Marker
    }
}

pub trait IsGTUniMarker: IsGTMarker + IsGTUniAccess {}

pub trait IsGTPubMarker: IsGTMarker + IsGTPubAccess {}

pub trait IsGTPvtMarker: IsGTMarker + IsGTPvtAccess {}

pub trait IsTMarker: IsGTMarker + IsTImpl {}

pub trait IsTUniMarker: IsTMarker + IsTUniAccess {}

pub trait IsTPubMarker: IsTMarker + IsTPubAccess {}

pub trait IsTPvtMarker: IsTMarker + IsTPvtAccess {}

pub trait IsTLMarker: IsGTMarker + IsTLImpl {}

pub trait IsTLUniMarker: IsTLMarker + IsTLUniAccess {}

pub trait IsTLPubMarker: IsTLMarker + IsTLPubAccess {}

pub trait IsTLPvtMarker: IsTLMarker + IsTLPvtAccess {}

pub trait IsGTOwner {
    fn get_cell_role() -> (r: CellRoles)
        ensures
            r == CellRoles::Owner,
    {
        CellRoles::Owner
    }

    fn get_self_cell_role(&self) -> (r: CellRoles)
        ensures
            r == CellRoles::Owner,
    {
        CellRoles::Owner
    }
}

pub trait IsGTUniOwner: IsGTOwner + IsGTUniAccess {}

pub trait IsGTPubOwner: IsGTOwner + IsGTPubAccess {}

pub trait IsGTPvtOwner: IsGTOwner + IsGTPvtAccess {}

pub trait IsTOwner: IsGTOwner + IsTImpl {}

pub trait IsTUniOwner: IsTOwner + IsTUniAccess {}

pub trait IsTPubOwner: IsTOwner + IsTPubAccess {}

pub trait IsTPvtOwner: IsTOwner + IsTPvtAccess {}

pub trait IsTLOwner: IsGTOwner + IsTLImpl {}

pub trait IsTLUniOwner: IsTLOwner + IsTLUniAccess {}

pub trait IsTLPubOwner: IsTLOwner + IsTLPubAccess {}

pub trait IsTLPvtOwner: IsTLOwner + IsTLPvtAccess {}

pub trait IsGTCell {
    fn get_cell_role() -> (r: CellRoles)
        ensures
            r == CellRoles::Cell,
    {
        CellRoles::Cell
    }

    fn get_self_cell_role(&self) -> (r: CellRoles)
        ensures
            r == CellRoles::Cell,
    {
        CellRoles::Cell
    }
}

pub trait IsGTUniCell: IsGTCell + IsGTUniAccess {}

pub trait IsGTPubCell: IsGTCell + IsGTPubAccess {}

pub trait IsGTPvtCell: IsGTCell + IsGTPvtAccess {}

pub trait IsTCell: IsGTCell + IsTImpl {}

pub trait IsTUniCell: IsTCell + IsTUniAccess {}

pub trait IsTPubCell: IsTCell + IsTPubAccess {}

pub trait IsTPvtCell: IsTCell + IsTPvtAccess {}

pub trait IsTLCell: IsGTCell + IsTLImpl {}

pub trait IsTLUniCell: IsTLCell + IsTLUniAccess {}

pub trait IsTLPubCell: IsTLCell + IsTLPubAccess {}

pub trait IsTLPvtCell: IsTLCell + IsTLPvtAccess {}

// Owner bridges. A cell names the owner type that unlocks it, and can either
// make a fresh owner or ask an enclosing object for one of its access level.
// Owners are singletons per marker, so either way the answer may be `None`.
pub trait GetEasyPvtOwner {
    type OwnerType;

    /// A fresh owner of this cell's family, or `None` while one is live.
    fn get_new_matching_owner(&self) -> Option<Self::OwnerType>;

    /// The owner that `src`'s private bridge hands out for this cell's family.
    fn get_matching_owner_from<S: GetPvtOwner<Option<Self::OwnerType>>>(&self, src: &S) -> (r:
        Option<Self::OwnerType>)
        ensures
            src.gives_private_owner(r),
    ;
}

pub trait GetEasyPubOwner {
    type OwnerType;

    /// A fresh owner of this cell's family, or `None` while one is live.
    fn get_new_matching_owner(&self) -> Option<Self::OwnerType>;

    /// The owner that `src`'s public bridge hands out for this cell's family.
    fn get_matching_owner_from<S: GetPubOwner<Option<Self::OwnerType>>>(&self, src: &S) -> (r:
        Option<Self::OwnerType>)
        ensures
            src.gives_public_owner(r),
    ;
}

pub trait GetEasyUniOwner {
    type OwnerType;

    /// A fresh owner of this cell's family, or `None` while one is live.
    fn get_new_matching_owner(&self) -> Option<Self::OwnerType>;

    /// The owner that `src`'s uniform bridge hands out for this cell's family.
    fn get_matching_owner_from<S: GetUniOwner<Option<Self::OwnerType>>>(&self, src: &S) -> (r:
        Option<Self::OwnerType>)
        ensures
            src.gives_uniform_owner(r),
    ;
}

// Implemented by objects that hand out owners of one access level; an object
// may implement each of these once per owner type.
pub trait GetPvtOwner<T> {
    /// Whether `r` is an owner this object's private bridge may hand out.
    spec fn gives_private_owner(&self, r: T) -> bool;

    fn get_private_owner(&self) -> (r: T)
        ensures
            self.gives_private_owner(r),
    ;
}

pub trait GetPubOwner<T> {
    /// Whether `r` is an owner this object's public bridge may hand out.
    spec fn gives_public_owner(&self, r: T) -> bool;

    fn get_public_owner(&self) -> (r: T)
        ensures
            self.gives_public_owner(r),
    ;
}

pub trait GetUniOwner<T> {
    /// Whether `r` is an owner this object's uniform bridge may hand out.
    spec fn gives_uniform_owner(&self, r: T) -> bool;

    fn get_uniform_owner(&self) -> (r: T)
        ensures
            self.gives_uniform_owner(r),
    ;
}

} // verus!
