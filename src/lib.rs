//! Classification and gating engine of a host packet guard: which endpoints
//! belong to a guarded game process, and whether a diverted packet passes.
use vstd::prelude::*;

pub mod addr;
pub mod index;
pub mod packet;
pub mod flow;
pub mod fmt;
pub mod config;
pub mod gate;
pub mod events;
pub mod ui;
pub mod capture;
pub mod viewer;

verus! {

/// The concurrent hash set of the `dashmap` crate, which holds the endpoint
/// index and the flow set. Opaque here: what a set holds is named, per
/// element type, next to the wrappers that use it.
#[verifier::external_type_specification]
#[verifier::external_body]
#[verifier::reject_recursive_types(K)]
#[verifier::reject_recursive_types(S)]
pub struct ExDashSet<K, S>(dashmap::DashSet<K, S>);

} // verus!
