use vstd::prelude::*;

pub mod direct;
pub mod dns_client;
pub mod exchange;
pub mod logging;
pub mod text;

verus! {

} // verus!
