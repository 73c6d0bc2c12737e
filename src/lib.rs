//! Capability-tagged owner/cell systems.
//!
//! - `lattice`: the kind, access-level and role enumerations, and the trait
//!   lattice that tags every marker, owner and cell with them.
//! - `group`: a declared group (kind and category) and what it provides.
//! - `family`: the declaration keywords, the typed markers, owners and cells
//!   of a group, and its owner and cell accessors.
//! - `token`: the owner-token primitive the owners and cells are built on.
//! - `cluster`: resolution of nested group declarations into namespaced groups.
//! - `scope`: the scope-access compiler (surface syntax, canonical form, plan)
//!   and a model of running a compiled scope.
//! - `laws`: properties that hold across these functions.
//! - `example`: an object with cells of several groups and owner bridges.
use vstd::prelude::*;

pub mod cluster;
pub mod example;
pub mod family;
pub mod group;
pub mod lattice;
pub mod laws;
pub mod scope;
pub mod token;

verus! {

} // verus!
