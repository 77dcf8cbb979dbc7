//! A three-party escrow: a client deposits the agreed price, and on
//! confirmed delivery the freelancer is paid while the platform keeps a fee.
use vstd::prelude::*;

pub mod account;
pub mod escrow;
pub mod laws;

verus! {

} // verus!
