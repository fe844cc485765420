//! Core of a desktop assistant backend: a risk-tiered permission policy,
//! a capability dispatcher with an audited per-session action log, and a
//! multi-vendor completion pipeline that rebuilds one response out of an
//! incremental stream.

pub mod json;
pub mod adapter;
pub mod capabilities;
pub mod dispatch;
pub mod models;
pub mod permission;
pub mod search;
pub mod session;
pub mod store;
pub mod stream;
pub mod sysops;
pub mod text;
pub mod value;

use vstd::prelude::*;

verus! {

} // verus!
