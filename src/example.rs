use vstd::prelude::*;

use crate::family::{
    Cell, Owner, PubMarker, PvtMarker, TCellUniGrp, TLCellAccGrp, TLCellPubGrp, TLCellPvtGrp,
    TLCellUniGrp, UniMarker,
};
use crate::lattice::{GetEasyPvtOwner, GetEasyUniOwner, GetPubOwner, GetPvtOwner, GetUniOwner};

verus! {

/// An object holding cells of several groups, which hands out owners for
/// them through its bridges.
pub struct ExampleStruct {
    pub example_uni_cell: Cell<UniMarker<TLCellUniGrp>, i32>,
    pub example_acc_pub_cell: Cell<PubMarker<TLCellAccGrp>, i32>,
    pub example_acc_pvt_cell: Cell<PvtMarker<TLCellAccGrp>, i32>,
    pub example_pub_cell: Cell<PubMarker<TLCellPubGrp>, i32>,
    pub example_pvt_cell: Cell<PvtMarker<TLCellPvtGrp>, i32>,
    pub example_other_cell: Cell<UniMarker<TCellUniGrp>, i32>,
}

impl ExampleStruct {
    /// Every cell starts at zero.
    pub fn new() -> Self {
        ExampleStruct {
            example_uni_cell: Cell::new(0),
            example_acc_pub_cell: Cell::new(0),
            example_acc_pvt_cell: Cell::new(0),
            example_pub_cell: Cell::new(0),
            example_pvt_cell: Cell::new(0),
            example_other_cell: Cell::new(0),
        }
    }

    /// The two scopes with the owners given: the first adds one (wrapping) to
    /// the uniform cell through the exclusive owner; the second copies the
    /// private cell, as a `u8`, into the outer variable.
    pub fn demonstrate_with_owners(
        &self,
        uni_owner: &mut Owner<UniMarker<TLCellUniGrp>>,
        pvt_owner: &Owner<PvtMarker<TLCellPvtGrp>>,
    ) -> (r: Demonstration)
        ensures
            r.uniform_after == incremented(r.uniform_before),
            r.outer == r.private_value as u8,
    {
        let uniform_before = *self.example_uni_cell.ro(&*uni_owner);
        let private_value = *self.example_pvt_cell.ro(pvt_owner);
        let r = demonstration_outcome(uniform_before, private_value);
        *self.example_uni_cell.rw(uni_owner) = r.uniform_after;
        r
    }

    /// The two scopes with owners from this object's bridges, or `None` when
    /// a bridge could not hand one out because another was live.
    pub fn demonstrate_context_selection(&self) -> (r: Option<Demonstration>)
        ensures
            r matches Some(d) ==> d.uniform_after == incremented(d.uniform_before) && d.outer
                == d.private_value as u8,
    {
        let mut uni_owner = match self.example_uni_cell.get_matching_owner_from(self) {
            Some(o) => o,
            None => {
                return None;
            },
        };
        let pvt_owner = match self.example_pvt_cell.get_matching_owner_from(self) {
            Some(o) => o,
            None => {
                return None;
            },
        };
        Some(self.demonstrate_with_owners(&mut uni_owner, &pvt_owner))
    }
}

/// What one run of the demonstration saw: the uniform cell before and after
/// its scope, the private cell's value, and the outer variable at the end.
#[derive(PartialEq, Eq, Structural, Clone, Copy, Debug)]
pub struct Demonstration {
    pub uniform_before: i32,
    pub uniform_after: i32,
    pub private_value: i32,
    pub outer: u8,
}

/// `v + 1`, wrapping at the top of `i32`.
pub open spec fn incremented(v: i32) -> i32 {
    if v == i32::MAX {
        i32::MIN
    } else {
        (v + 1) as i32
    }
}

/// The outcome of the two scopes, from the values they read: the uniform
/// cell is incremented, and the outer variable takes the private value as a `u8`.
pub fn demonstration_outcome(uniform_before: i32, private_value: i32) -> (r: Demonstration)
    ensures
        r == (Demonstration {
            uniform_before,
            uniform_after: incremented(uniform_before),
            private_value,
            outer: private_value as u8,
        }),
{
    let uniform_after = if uniform_before == i32::MAX {
        i32::MIN
    } else {
        uniform_before + 1
    };
    Demonstration { uniform_before, uniform_after, private_value, outer: private_value as u8 }
}

impl GetUniOwner<Option<Owner<UniMarker<TLCellUniGrp>>>> for ExampleStruct {
    /// A fresh owner, or `None` while another one is live in this thread.
    open spec fn gives_uniform_owner(&self, r: Option<Owner<UniMarker<TLCellUniGrp>>>) -> bool {
        true
    }

    fn get_uniform_owner(&self) -> Option<Owner<UniMarker<TLCellUniGrp>>> {
        Owner::try_new()
    }
}

impl GetPubOwner<Option<Owner<PubMarker<TLCellAccGrp>>>> for ExampleStruct {
    /// A fresh owner, or `None` while another one is live in this thread.
    open spec fn gives_public_owner(&self, r: Option<Owner<PubMarker<TLCellAccGrp>>>) -> bool {
        true
    }

    fn get_public_owner(&self) -> Option<Owner<PubMarker<TLCellAccGrp>>> {
        Owner::try_new()
    }
}

impl GetPvtOwner<Option<Owner<PvtMarker<TLCellAccGrp>>>> for ExampleStruct {
    /// A fresh owner, or `None` while another one is live in this thread.
    open spec fn gives_private_owner(&self, r: Option<Owner<PvtMarker<TLCellAccGrp>>>) -> bool {
        true
    }

    fn get_private_owner(&self) -> Option<Owner<PvtMarker<TLCellAccGrp>>> {
        Owner::try_new()
    }
}

impl GetPubOwner<Option<Owner<PubMarker<TLCellPubGrp>>>> for ExampleStruct {
    /// A fresh owner, or `None` while another one is live in this thread.
    open spec fn gives_public_owner(&self, r: Option<Owner<PubMarker<TLCellPubGrp>>>) -> bool {
        true
    }

    fn get_public_owner(&self) -> Option<Owner<PubMarker<TLCellPubGrp>>> {
        Owner::try_new()
    }
}

impl GetPvtOwner<Option<Owner<PvtMarker<TLCellPvtGrp>>>> for ExampleStruct {
    /// A fresh owner, or `None` while another one is live in this thread.
    open spec fn gives_private_owner(&self, r: Option<Owner<PvtMarker<TLCellPvtGrp>>>) -> bool {
        true
    }

    fn get_private_owner(&self) -> Option<Owner<PvtMarker<TLCellPvtGrp>>> {
        Owner::try_new()
    }
}

/// Builds a fresh example object and runs the demonstration on it.
pub fn run_demonstration() -> (r: Option<Demonstration>)
    ensures
        r matches Some(d) ==> d.uniform_after == incremented(d.uniform_before) && d.outer
            == d.private_value as u8,
{
    let example_instance = ExampleStruct::new();
    example_instance.demonstrate_context_selection()
}

} // verus!
