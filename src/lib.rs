//! Central-system side of a charge-point remote-procedure protocol: the
//! message model, the frame codec, and the command dispatcher.
use vstd::prelude::*;

pub mod cs;
pub mod jsonio;
pub mod ocpp;
pub mod value;
pub mod x509;

verus! {

} // verus!
