use cell_wrappers::family::{
    new_private_owner, new_public_owner, new_uniform_owner, Cell, GroupKeyword, Owner, PubMarker,
    PvtMarker, TCellAccGrp, TCellPubGrp, TCellPvtGrp, TCellUniGrp, TLCellAccGrp, TLCellPubGrp,
    TLCellPvtGrp, TLCellUniGrp, UniMarker,
};
use cell_wrappers::lattice::{
    CellAccessLevels, CellImpl, CellRoles, IsGTCell, IsGTMarker, IsGTOwner, IsGTPubAccess,
    IsGTPvtAccess, IsGTUniAccess, IsTImpl, IsTLImpl,
};

// Owners are singletons per marker; tests running in parallel may hold the
// process-wide one for a moment, so wait for it.
fn acquire<O>(attempt: impl Fn() -> Option<O>) -> O {
    loop {
        if let Some(o) = attempt() {
            return o;
        }
        std::hint::spin_loop();
    }
}

#[test]
fn t_uni_declaration_accuracy_test() {
    assert_eq!(TCellUniGrp::get_cell_impl(), CellImpl::T);
    assert_eq!(TCellUniGrp::has_private_access(), false);
    assert_eq!(TCellUniGrp::has_uniform_access(), true);
    assert_eq!(TCellUniGrp::has_public_access(), false);

    assert_eq!(UniMarker::<TCellUniGrp>::get_cell_impl(), CellImpl::T);
    assert_eq!(UniMarker::<TCellUniGrp>::get_cell_role(), CellRoles::Marker);
    assert_eq!(UniMarker::<TCellUniGrp>::get_access_level(), CellAccessLevels::Uniform);

    assert_eq!(Owner::<UniMarker<TCellUniGrp>>::get_cell_impl(), CellImpl::T);
    assert_eq!(Owner::<UniMarker<TCellUniGrp>>::get_cell_role(), CellRoles::Owner);
    assert_eq!(Owner::<UniMarker<TCellUniGrp>>::get_access_level(), CellAccessLevels::Uniform);

    assert_eq!(Cell::<UniMarker<TCellUniGrp>, i32>::get_cell_impl(), CellImpl::T);
    assert_eq!(Cell::<UniMarker<TCellUniGrp>, i32>::get_cell_role(), CellRoles::Cell);
    assert_eq!(Cell::<UniMarker<TCellUniGrp>, i32>::get_access_level(), CellAccessLevels::Uniform);

    let test_owner = acquire(Owner::<UniMarker<TCellUniGrp>>::try_new);

    assert_eq!(test_owner.get_self_cell_impl(), CellImpl::T);
    assert_eq!(test_owner.get_self_cell_role(), CellRoles::Owner);
    assert_eq!(test_owner.get_self_access_level(), CellAccessLevels::Uniform);

    let test_cell = Cell::<UniMarker<TCellUniGrp>, i32>::new(1);

    assert_eq!(test_cell.get_self_cell_impl(), CellImpl::T);
    assert_eq!(test_cell.get_self_cell_role(), CellRoles::Cell);
    assert_eq!(test_cell.get_self_access_level(), CellAccessLevels::Uniform);
    assert_eq!(*test_cell.ro(&test_owner), 1);
    drop(test_owner);
}

#[test]
fn t_uni_pvt_owner_declaration_accuracy_test() {
    // The group has no private owner to give: callers check first.
    assert!(!TCellUniGrp::has_private_access());
    let refused = TCellUniGrp::group().provide(CellAccessLevels::Private, CellRoles::Owner).err().unwrap();
    assert_eq!(refused.requested, CellAccessLevels::Private);
    assert_eq!(refused.role, CellRoles::Owner);
    assert_eq!(
        refused.message(),
        "Tried to request a private owner from a mod that cannot provide one."
    );
}

#[test]
fn t_uni_uni_owner_declaration_accuracy_test() {
    let owner = acquire(new_uniform_owner::<TCellUniGrp>);
    assert_eq!(owner.capability().access, CellAccessLevels::Uniform);
    assert_eq!(owner.capability().kind, CellImpl::T);
}

#[test]
fn t_uni_pub_owner_declaration_accuracy_test() {
    // The group has no public owner to give: callers check first.
    assert!(!TCellUniGrp::has_public_access());
    let refused = TCellUniGrp::group().provide(CellAccessLevels::Public, CellRoles::Owner).err().unwrap();
    assert_eq!(refused.requested, CellAccessLevels::Public);
    assert_eq!(refused.role, CellRoles::Owner);
    assert_eq!(
        refused.message(),
        "Tried to request a public owner from a mod that cannot provide one."
    );
}

#[test]
fn t_pvt_declaration_accuracy_test() {
    assert_eq!(TCellPvtGrp::get_cell_impl(), CellImpl::T);
    assert_eq!(TCellPvtGrp::has_private_access(), true);
    assert_eq!(TCellPvtGrp::has_uniform_access(), false);
    assert_eq!(TCellPvtGrp::has_public_access(), false);

    assert_eq!(PvtMarker::<TCellPvtGrp>::get_cell_impl(), CellImpl::T);
    assert_eq!(PvtMarker::<TCellPvtGrp>::get_cell_role(), CellRoles::Marker);
    assert_eq!(PvtMarker::<TCellPvtGrp>::get_access_level(), CellAccessLevels::Private);

    assert_eq!(Owner::<PvtMarker<TCellPvtGrp>>::get_cell_impl(), CellImpl::T);
    assert_eq!(Owner::<PvtMarker<TCellPvtGrp>>::get_cell_role(), CellRoles::Owner);
    assert_eq!(Owner::<PvtMarker<TCellPvtGrp>>::get_access_level(), CellAccessLevels::Private);

    assert_eq!(Cell::<PvtMarker<TCellPvtGrp>, i32>::get_cell_impl(), CellImpl::T);
    assert_eq!(Cell::<PvtMarker<TCellPvtGrp>, i32>::get_cell_role(), CellRoles::Cell);
    assert_eq!(Cell::<PvtMarker<TCellPvtGrp>, i32>::get_access_level(), CellAccessLevels::Private);

    let test_owner = acquire(Owner::<PvtMarker<TCellPvtGrp>>::try_new);

    assert_eq!(test_owner.get_self_cell_impl(), CellImpl::T);
    assert_eq!(test_owner.get_self_cell_role(), CellRoles::Owner);
    assert_eq!(test_owner.get_self_access_level(), CellAccessLevels::Private);

    let test_cell = Cell::<PvtMarker<TCellPvtGrp>, i32>::new(1);

    assert_eq!(test_cell.get_self_cell_impl(), CellImpl::T);
    assert_eq!(test_cell.get_self_cell_role(), CellRoles::Cell);
    assert_eq!(test_cell.get_self_access_level(), CellAccessLevels::Private);
    assert_eq!(*test_cell.ro(&test_owner), 1);
    drop(test_owner);
}

#[test]
fn t_pvt_pvt_owner_declaration_accuracy_test() {
    let owner = acquire(new_private_owner::<TCellPvtGrp>);
    assert_eq!(owner.capability().access, CellAccessLevels::Private);
    assert_eq!(owner.capability().kind, CellImpl::T);
}

#[test]
fn t_pvt_uni_owner_declaration_accuracy_test() {
    // The group has no uniform owner to give: callers check first.
    assert!(!TCellPvtGrp::has_uniform_access());
    let refused = TCellPvtGrp::group().provide(CellAccessLevels::Uniform, CellRoles::Owner).err().unwrap();
    assert_eq!(refused.requested, CellAccessLevels::Uniform);
    assert_eq!(refused.role, CellRoles::Owner);
    assert_eq!(
        refused.message(),
        "Tried to request a uniform owner from a mod that cannot provide one."
    );
}

#[test]
fn t_pvt_pub_owner_declaration_accuracy_test() {
    // The group has no public owner to give: callers check first.
    assert!(!TCellPvtGrp::has_public_access());
    let refused = TCellPvtGrp::group().provide(CellAccessLevels::Public, CellRoles::Owner).err().unwrap();
    assert_eq!(refused.requested, CellAccessLevels::Public);
    assert_eq!(refused.role, CellRoles::Owner);
    assert_eq!(
        refused.message(),
        "Tried to request a public owner from a mod that cannot provide one."
    );
}

#[test]
fn t_pub_declaration_accuracy_test() {
    assert_eq!(TCellPubGrp::get_cell_impl(), CellImpl::T);
    assert_eq!(TCellPubGrp::has_private_access(), false);
    assert_eq!(TCellPubGrp::has_uniform_access(), false);
    assert_eq!(TCellPubGrp::has_public_access(), true);

    assert_eq!(PubMarker::<TCellPubGrp>::get_cell_impl(), CellImpl::T);
    assert_eq!(PubMarker::<TCellPubGrp>::get_cell_role(), CellRoles::Marker);
    assert_eq!(PubMarker::<TCellPubGrp>::get_access_level(), CellAccessLevels::Public);

    assert_eq!(Owner::<PubMarker<TCellPubGrp>>::get_cell_impl(), CellImpl::T);
    assert_eq!(Owner::<PubMarker<TCellPubGrp>>::get_cell_role(), CellRoles::Owner);
    assert_eq!(Owner::<PubMarker<TCellPubGrp>>::get_access_level(), CellAccessLevels::Public);

    assert_eq!(Cell::<PubMarker<TCellPubGrp>, i32>::get_cell_impl(), CellImpl::T);
    assert_eq!(Cell::<PubMarker<TCellPubGrp>, i32>::get_cell_role(), CellRoles::Cell);
    assert_eq!(Cell::<PubMarker<TCellPubGrp>, i32>::get_access_level(), CellAccessLevels::Public);

    let test_owner = acquire(Owner::<PubMarker<TCellPubGrp>>::try_new);

    assert_eq!(test_owner.get_self_cell_impl(), CellImpl::T);
    assert_eq!(test_owner.get_self_cell_role(), CellRoles::Owner);
    assert_eq!(test_owner.get_self_access_level(), CellAccessLevels::Public);

    let test_cell = Cell::<PubMarker<TCellPubGrp>, i32>::new(1);

    assert_eq!(test_cell.get_self_cell_impl(), CellImpl::T);
    assert_eq!(test_cell.get_self_cell_role(), CellRoles::Cell);
    assert_eq!(test_cell.get_self_access_level(), CellAccessLevels::Public);
    assert_eq!(*test_cell.ro(&test_owner), 1);
    drop(test_owner);
}

#[test]
fn t_pub_pvt_owner_declaration_accuracy_test() {
    // The group has no private owner to give: callers check first.
    assert!(!TCellPubGrp::has_private_access());
    let refused = TCellPubGrp::group().provide(CellAccessLevels::Private, CellRoles::Owner).err().unwrap();
    assert_eq!(refused.requested, CellAccessLevels::Private);
    assert_eq!(refused.role, CellRoles::Owner);
    assert_eq!(
        refused.message(),
        "Tried to request a private owner from a mod that cannot provide one."
    );
}

#[test]
fn t_pub_uni_owner_declaration_accuracy_test() {
    // The group has no uniform owner to give: callers check first.
    assert!(!TCellPubGrp::has_uniform_access());
    let refused = TCellPubGrp::group().provide(CellAccessLevels::Uniform, CellRoles::Owner).err().unwrap();
    assert_eq!(refused.requested, CellAccessLevels::Uniform);
    assert_eq!(refused.role, CellRoles::Owner);
    assert_eq!(
        refused.message(),
        "Tried to request a uniform owner from a mod that cannot provide one."
    );
}

#[test]
fn t_pub_pub_owner_declaration_accuracy_test() {
    let owner = acquire(new_public_owner::<TCellPubGrp>);
    assert_eq!(owner.capability().access, CellAccessLevels::Public);
    assert_eq!(owner.capability().kind, CellImpl::T);
}

#[test]
fn t_acc_declaration_accuracy_test() {
    assert_eq!(TCellAccGrp::get_cell_impl(), CellImpl::T);
    assert_eq!(TCellAccGrp::has_private_access(), true);
    assert_eq!(TCellAccGrp::has_uniform_access(), false);
    assert_eq!(TCellAccGrp::has_public_access(), true);

    assert_eq!(PubMarker::<TCellAccGrp>::get_cell_impl(), CellImpl::T);
    assert_eq!(PubMarker::<TCellAccGrp>::get_cell_role(), CellRoles::Marker);
    assert_eq!(PubMarker::<TCellAccGrp>::get_access_level(), CellAccessLevels::Public);

    assert_eq!(Owner::<PubMarker<TCellAccGrp>>::get_cell_impl(), CellImpl::T);
    assert_eq!(Owner::<PubMarker<TCellAccGrp>>::get_cell_role(), CellRoles::Owner);
    assert_eq!(Owner::<PubMarker<TCellAccGrp>>::get_access_level(), CellAccessLevels::Public);

    assert_eq!(Cell::<PubMarker<TCellAccGrp>, i32>::get_cell_impl(), CellImpl::T);
    assert_eq!(Cell::<PubMarker<TCellAccGrp>, i32>::get_cell_role(), CellRoles::Cell);
    assert_eq!(Cell::<PubMarker<TCellAccGrp>, i32>::get_access_level(), CellAccessLevels::Public);

    let test_owner = acquire(Owner::<PubMarker<TCellAccGrp>>::try_new);

    assert_eq!(test_owner.get_self_cell_impl(), CellImpl::T);
    assert_eq!(test_owner.get_self_cell_role(), CellRoles::Owner);
    assert_eq!(test_owner.get_self_access_level(), CellAccessLevels::Public);

    let test_cell = Cell::<PubMarker<TCellAccGrp>, i32>::new(1);

    assert_eq!(test_cell.get_self_cell_impl(), CellImpl::T);
    assert_eq!(test_cell.get_self_cell_role(), CellRoles::Cell);
    assert_eq!(test_cell.get_self_access_level(), CellAccessLevels::Public);
    assert_eq!(*test_cell.ro(&test_owner), 1);
    drop(test_owner);

    assert_eq!(PvtMarker::<TCellAccGrp>::get_cell_impl(), CellImpl::T);
    assert_eq!(PvtMarker::<TCellAccGrp>::get_cell_role(), CellRoles::Marker);
    assert_eq!(PvtMarker::<TCellAccGrp>::get_access_level(), CellAccessLevels::Private);

    assert_eq!(Owner::<PvtMarker<TCellAccGrp>>::get_cell_impl(), CellImpl::T);
    assert_eq!(Owner::<PvtMarker<TCellAccGrp>>::get_cell_role(), CellRoles::Owner);
    assert_eq!(Owner::<PvtMarker<TCellAccGrp>>::get_access_level(), CellAccessLevels::Private);

    assert_eq!(Cell::<PvtMarker<TCellAccGrp>, i32>::get_cell_impl(), CellImpl::T);
    assert_eq!(Cell::<PvtMarker<TCellAccGrp>, i32>::get_cell_role(), CellRoles::Cell);
    assert_eq!(Cell::<PvtMarker<TCellAccGrp>, i32>::get_access_level(), CellAccessLevels::Private);

    let test_owner = acquire(Owner::<PvtMarker<TCellAccGrp>>::try_new);

    assert_eq!(test_owner.get_self_cell_impl(), CellImpl::T);
    assert_eq!(test_owner.get_self_cell_role(), CellRoles::Owner);
    assert_eq!(test_owner.get_self_access_level(), CellAccessLevels::Private);

    let test_cell = Cell::<PvtMarker<TCellAccGrp>, i32>::new(1);

    assert_eq!(test_cell.get_self_cell_impl(), CellImpl::T);
    assert_eq!(test_cell.get_self_cell_role(), CellRoles::Cell);
    assert_eq!(test_cell.get_self_access_level(), CellAccessLevels::Private);
    assert_eq!(*test_cell.ro(&test_owner), 1);
    drop(test_owner);
}

#[test]
fn t_acc_pvt_owner_declaration_accuracy_test() {
    let owner = acquire(new_private_owner::<TCellAccGrp>);
    assert_eq!(owner.capability().access, CellAccessLevels::Private);
    assert_eq!(owner.capability().kind, CellImpl::T);
}

#[test]
fn t_acc_uni_owner_declaration_accuracy_test() {
    // The group has no uniform owner to give: callers check first.
    assert!(!TCellAccGrp::has_uniform_access());
    let refused = TCellAccGrp::group().provide(CellAccessLevels::Uniform, CellRoles::Owner).err().unwrap();
    assert_eq!(refused.requested, CellAccessLevels::Uniform);
    assert_eq!(refused.role, CellRoles::Owner);
    assert_eq!(
        refused.message(),
        "Tried to request a uniform owner from a mod that cannot provide one."
    );
}

#[test]
fn t_acc_pub_owner_declaration_accuracy_test() {
    let owner = acquire(new_public_owner::<TCellAccGrp>);
    assert_eq!(owner.capability().access, CellAccessLevels::Public);
    assert_eq!(owner.capability().kind, CellImpl::T);
}

#[test]
fn tl_uni_declaration_accuracy_test() {
    assert_eq!(TLCellUniGrp::get_cell_impl(), CellImpl::TL);
    assert_eq!(TLCellUniGrp::has_private_access(), false);
    assert_eq!(TLCellUniGrp::has_uniform_access(), true);
    assert_eq!(TLCellUniGrp::has_public_access(), false);

    assert_eq!(UniMarker::<TLCellUniGrp>::get_cell_impl(), CellImpl::TL);
    assert_eq!(UniMarker::<TLCellUniGrp>::get_cell_role(), CellRoles::Marker);
    assert_eq!(UniMarker::<TLCellUniGrp>::get_access_level(), CellAccessLevels::Uniform);

    assert_eq!(Owner::<UniMarker<TLCellUniGrp>>::get_cell_impl(), CellImpl::TL);
    assert_eq!(Owner::<UniMarker<TLCellUniGrp>>::get_cell_role(), CellRoles::Owner);
    assert_eq!(Owner::<UniMarker<TLCellUniGrp>>::get_access_level(), CellAccessLevels::Uniform);

    assert_eq!(Cell::<UniMarker<TLCellUniGrp>, i32>::get_cell_impl(), CellImpl::TL);
    assert_eq!(Cell::<UniMarker<TLCellUniGrp>, i32>::get_cell_role(), CellRoles::Cell);
    assert_eq!(Cell::<UniMarker<TLCellUniGrp>, i32>::get_access_level(), CellAccessLevels::Uniform);

    let test_owner = acquire(Owner::<UniMarker<TLCellUniGrp>>::try_new);

    assert_eq!(test_owner.get_self_cell_impl(), CellImpl::TL);
    assert_eq!(test_owner.get_self_cell_role(), CellRoles::Owner);
    assert_eq!(test_owner.get_self_access_level(), CellAccessLevels::Uniform);

    let test_cell = Cell::<UniMarker<TLCellUniGrp>, i32>::new(1);

    assert_eq!(test_cell.get_self_cell_impl(), CellImpl::TL);
    assert_eq!(test_cell.get_self_cell_role(), CellRoles::Cell);
    assert_eq!(test_cell.get_self_access_level(), CellAccessLevels::Uniform);
    assert_eq!(*test_cell.ro(&test_owner), 1);
    drop(test_owner);
}

#[test]
fn tl_uni_pvt_owner_declaration_accuracy_test() {
    // The group has no private owner to give: callers check first.
    assert!(!TLCellUniGrp::has_private_access());
    let refused = TLCellUniGrp::group().provide(CellAccessLevels::Private, CellRoles::Owner).err().unwrap();
    assert_eq!(refused.requested, CellAccessLevels::Private);
    assert_eq!(refused.role, CellRoles::Owner);
    assert_eq!(
        refused.message(),
        "Tried to request a private owner from a mod that cannot provide one."
    );
}

#[test]
fn tl_uni_uni_owner_declaration_accuracy_test() {
    let owner = acquire(new_uniform_owner::<TLCellUniGrp>);
    assert_eq!(owner.capability().access, CellAccessLevels::Uniform);
    assert_eq!(owner.capability().kind, CellImpl::TL);
}

#[test]
fn tl_uni_pub_owner_declaration_accuracy_test() {
    // The group has no public owner to give: callers check first.
    assert!(!TLCellUniGrp::has_public_access());
    let refused = TLCellUniGrp::group().provide(CellAccessLevels::Public, CellRoles::Owner).err().unwrap();
    assert_eq!(refused.requested, CellAccessLevels::Public);
    assert_eq!(refused.role, CellRoles::Owner);
    assert_eq!(
        refused.message(),
        "Tried to request a public owner from a mod that cannot provide one."
    );
}

#[test]
fn tl_pvt_declaration_accuracy_test() {
    assert_eq!(TLCellPvtGrp::get_cell_impl(), CellImpl::TL);
    assert_eq!(TLCellPvtGrp::has_private_access(), true);
    assert_eq!(TLCellPvtGrp::has_uniform_access(), false);
    assert_eq!(TLCellPvtGrp::has_public_access(), false);

    assert_eq!(PvtMarker::<TLCellPvtGrp>::get_cell_impl(), CellImpl::TL);
    assert_eq!(PvtMarker::<TLCellPvtGrp>::get_cell_role(), CellRoles::Marker);
    assert_eq!(PvtMarker::<TLCellPvtGrp>::get_access_level(), CellAccessLevels::Private);

    assert_eq!(Owner::<PvtMarker<TLCellPvtGrp>>::get_cell_impl(), CellImpl::TL);
    assert_eq!(Owner::<PvtMarker<TLCellPvtGrp>>::get_cell_role(), CellRoles::Owner);
    assert_eq!(Owner::<PvtMarker<TLCellPvtGrp>>::get_access_level(), CellAccessLevels::Private);

    assert_eq!(Cell::<PvtMarker<TLCellPvtGrp>, i32>::get_cell_impl(), CellImpl::TL);
    assert_eq!(Cell::<PvtMarker<TLCellPvtGrp>, i32>::get_cell_role(), CellRoles::Cell);
    assert_eq!(Cell::<PvtMarker<TLCellPvtGrp>, i32>::get_access_level(), CellAccessLevels::Private);

    let test_owner = acquire(Owner::<PvtMarker<TLCellPvtGrp>>::try_new);

    assert_eq!(test_owner.get_self_cell_impl(), CellImpl::TL);
    assert_eq!(test_owner.get_self_cell_role(), CellRoles::Owner);
    assert_eq!(test_owner.get_self_access_level(), CellAccessLevels::Private);

    let test_cell = Cell::<PvtMarker<TLCellPvtGrp>, i32>::new(1);

    assert_eq!(test_cell.get_self_cell_impl(), CellImpl::TL);
    assert_eq!(test_cell.get_self_cell_role(), CellRoles::Cell);
    assert_eq!(test_cell.get_self_access_level(), CellAccessLevels::Private);
    assert_eq!(*test_cell.ro(&test_owner), 1);
    drop(test_owner);
}

#[test]
fn tl_pvt_pvt_owner_declaration_accuracy_test() {
    let owner = acquire(new_private_owner::<TLCellPvtGrp>);
    assert_eq!(owner.capability().access, CellAccessLevels::Private);
    assert_eq!(owner.capability().kind, CellImpl::TL);
}

#[test]
fn tl_pvt_uni_owner_declaration_accuracy_test() {
    // The group has no uniform owner to give: callers check first.
    assert!(!TLCellPvtGrp::has_uniform_access());
    let refused = TLCellPvtGrp::group().provide(CellAccessLevels::Uniform, CellRoles::Owner).err().unwrap();
    assert_eq!(refused.requested, CellAccessLevels::Uniform);
    assert_eq!(refused.role, CellRoles::Owner);
    assert_eq!(
        refused.message(),
        "Tried to request a uniform owner from a mod that cannot provide one."
    );
}

#[test]
fn tl_pvt_pub_owner_declaration_accuracy_test() {
    // The group has no public owner to give: callers check first.
    assert!(!TLCellPvtGrp::has_public_access());
    let refused = TLCellPvtGrp::group().provide(CellAccessLevels::Public, CellRoles::Owner).err().unwrap();
    assert_eq!(refused.requested, CellAccessLevels::Public);
    assert_eq!(refused.role, CellRoles::Owner);
    assert_eq!(
        refused.message(),
        "Tried to request a public owner from a mod that cannot provide one."
    );
}

#[test]
fn tl_pub_declaration_accuracy_test() {
    assert_eq!(TLCellPubGrp::get_cell_impl(), CellImpl::TL);
    assert_eq!(TLCellPubGrp::has_private_access(), false);
    assert_eq!(TLCellPubGrp::has_uniform_access(), false);
    assert_eq!(TLCellPubGrp::has_public_access(), true);

    assert_eq!(PubMarker::<TLCellPubGrp>::get_cell_impl(), CellImpl::TL);
    assert_eq!(PubMarker::<TLCellPubGrp>::get_cell_role(), CellRoles::Marker);
    assert_eq!(PubMarker::<TLCellPubGrp>::get_access_level(), CellAccessLevels::Public);

    assert_eq!(Owner::<PubMarker<TLCellPubGrp>>::get_cell_impl(), CellImpl::TL);
    assert_eq!(Owner::<PubMarker<TLCellPubGrp>>::get_cell_role(), CellRoles::Owner);
    assert_eq!(Owner::<PubMarker<TLCellPubGrp>>::get_access_level(), CellAccessLevels::Public);

    assert_eq!(Cell::<PubMarker<TLCellPubGrp>, i32>::get_cell_impl(), CellImpl::TL);
    assert_eq!(Cell::<PubMarker<TLCellPubGrp>, i32>::get_cell_role(), CellRoles::Cell);
    assert_eq!(Cell::<PubMarker<TLCellPubGrp>, i32>::get_access_level(), CellAccessLevels::Public);

    let test_owner = acquire(Owner::<PubMarker<TLCellPubGrp>>::try_new);

    assert_eq!(test_owner.get_self_cell_impl(), CellImpl::TL);
    assert_eq!(test_owner.get_self_cell_role(), CellRoles::Owner);
    assert_eq!(test_owner.get_self_access_level(), CellAccessLevels::Public);

    let test_cell = Cell::<PubMarker<TLCellPubGrp>, i32>::new(1);

    assert_eq!(test_cell.get_self_cell_impl(), CellImpl::TL);
    assert_eq!(test_cell.get_self_cell_role(), CellRoles::Cell);
    assert_eq!(test_cell.get_self_access_level(), CellAccessLevels::Public);
    assert_eq!(*test_cell.ro(&test_owner), 1);
    drop(test_owner);
}

#[test]
fn tl_pub_pvt_owner_declaration_accuracy_test() {
    // The group has no private owner to give: callers check first.
    assert!(!TLCellPubGrp::has_private_access());
    let refused = TLCellPubGrp::group().provide(CellAccessLevels::Private, CellRoles::Owner).err().unwrap();
    assert_eq!(refused.requested, CellAccessLevels::Private);
    assert_eq!(refused.role, CellRoles::Owner);
    assert_eq!(
        refused.message(),
        "Tried to request a private owner from a mod that cannot provide one."
    );
}

#[test]
fn tl_pub_uni_owner_declaration_accuracy_test() {
    // The group has no uniform owner to give: callers check first.
    assert!(!TLCellPubGrp::has_uniform_access());
    let refused = TLCellPubGrp::group().provide(CellAccessLevels::Uniform, CellRoles::Owner).err().unwrap();
    assert_eq!(refused.requested, CellAccessLevels::Uniform);
    assert_eq!(refused.role, CellRoles::Owner);
    assert_eq!(
        refused.message(),
        "Tried to request a uniform owner from a mod that cannot provide one."
    );
}

#[test]
fn tl_pub_pub_owner_declaration_accuracy_test() {
    let owner = acquire(new_public_owner::<TLCellPubGrp>);
    assert_eq!(owner.capability().access, CellAccessLevels::Public);
    assert_eq!(owner.capability().kind, CellImpl::TL);
}

#[test]
fn tl_acc_declaration_accuracy_test() {
    assert_eq!(TLCellAccGrp::get_cell_impl(), CellImpl::TL);
    assert_eq!(TLCellAccGrp::has_private_access(), true);
    assert_eq!(TLCellAccGrp::has_uniform_access(), false);
    assert_eq!(TLCellAccGrp::has_public_access(), true);

    assert_eq!(PubMarker::<TLCellAccGrp>::get_cell_impl(), CellImpl::TL);
    assert_eq!(PubMarker::<TLCellAccGrp>::get_cell_role(), CellRoles::Marker);
    assert_eq!(PubMarker::<TLCellAccGrp>::get_access_level(), CellAccessLevels::Public);

    assert_eq!(Owner::<PubMarker<TLCellAccGrp>>::get_cell_impl(), CellImpl::TL);
    assert_eq!(Owner::<PubMarker<TLCellAccGrp>>::get_cell_role(), CellRoles::Owner);
    assert_eq!(Owner::<PubMarker<TLCellAccGrp>>::get_access_level(), CellAccessLevels::Public);

    assert_eq!(Cell::<PubMarker<TLCellAccGrp>, i32>::get_cell_impl(), CellImpl::TL);
    assert_eq!(Cell::<PubMarker<TLCellAccGrp>, i32>::get_cell_role(), CellRoles::Cell);
    assert_eq!(Cell::<PubMarker<TLCellAccGrp>, i32>::get_access_level(), CellAccessLevels::Public);

    let test_owner = acquire(Owner::<PubMarker<TLCellAccGrp>>::try_new);

    assert_eq!(test_owner.get_self_cell_impl(), CellImpl::TL);
    assert_eq!(test_owner.get_self_cell_role(), CellRoles::Owner);
    assert_eq!(test_owner.get_self_access_level(), CellAccessLevels::Public);

    let test_cell = Cell::<PubMarker<TLCellAccGrp>, i32>::new(1);

    assert_eq!(test_cell.get_self_cell_impl(), CellImpl::TL);
    assert_eq!(test_cell.get_self_cell_role(), CellRoles::Cell);
    assert_eq!(test_cell.get_self_access_level(), CellAccessLevels::Public);
    assert_eq!(*test_cell.ro(&test_owner), 1);
    drop(test_owner);

    assert_eq!(PvtMarker::<TLCellAccGrp>::get_cell_impl(), CellImpl::TL);
    assert_eq!(PvtMarker::<TLCellAccGrp>::get_cell_role(), CellRoles::Marker);
    assert_eq!(PvtMarker::<TLCellAccGrp>::get_access_level(), CellAccessLevels::Private);

    assert_eq!(Owner::<PvtMarker<TLCellAccGrp>>::get_cell_impl(), CellImpl::TL);
    assert_eq!(Owner::<PvtMarker<TLCellAccGrp>>::get_cell_role(), CellRoles::Owner);
    assert_eq!(Owner::<PvtMarker<TLCellAccGrp>>::get_access_level(), CellAccessLevels::Private);

    assert_eq!(Cell::<PvtMarker<TLCellAccGrp>, i32>::get_cell_impl(), CellImpl::TL);
    assert_eq!(Cell::<PvtMarker<TLCellAccGrp>, i32>::get_cell_role(), CellRoles::Cell);
    assert_eq!(Cell::<PvtMarker<TLCellAccGrp>, i32>::get_access_level(), CellAccessLevels::Private);

    let test_owner = acquire(Owner::<PvtMarker<TLCellAccGrp>>::try_new);

    assert_eq!(test_owner.get_self_cell_impl(), CellImpl::TL);
    assert_eq!(test_owner.get_self_cell_role(), CellRoles::Owner);
    assert_eq!(test_owner.get_self_access_level(), CellAccessLevels::Private);

    let test_cell = Cell::<PvtMarker<TLCellAccGrp>, i32>::new(1);

    assert_eq!(test_cell.get_self_cell_impl(), CellImpl::TL);
    assert_eq!(test_cell.get_self_cell_role(), CellRoles::Cell);
    assert_eq!(test_cell.get_self_access_level(), CellAccessLevels::Private);
    assert_eq!(*test_cell.ro(&test_owner), 1);
    drop(test_owner);
}

#[test]
fn tl_acc_pvt_owner_declaration_accuracy_test() {
    let owner = acquire(new_private_owner::<TLCellAccGrp>);
    assert_eq!(owner.capability().access, CellAccessLevels::Private);
    assert_eq!(owner.capability().kind, CellImpl::TL);
}

#[test]
fn tl_acc_uni_owner_declaration_accuracy_test() {
    // The group has no uniform owner to give: callers check first.
    assert!(!TLCellAccGrp::has_uniform_access());
    let refused = TLCellAccGrp::group().provide(CellAccessLevels::Uniform, CellRoles::Owner).err().unwrap();
    assert_eq!(refused.requested, CellAccessLevels::Uniform);
    assert_eq!(refused.role, CellRoles::Owner);
    assert_eq!(
        refused.message(),
        "Tried to request a uniform owner from a mod that cannot provide one."
    );
}

#[test]
fn tl_acc_pub_owner_declaration_accuracy_test() {
    let owner = acquire(new_public_owner::<TLCellAccGrp>);
    assert_eq!(owner.capability().access, CellAccessLevels::Public);
    assert_eq!(owner.capability().kind, CellImpl::TL);
}
