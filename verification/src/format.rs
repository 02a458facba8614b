//! The two text forms that cross the boundary between the application and
//! the transport.

use vstd::prelude::*;

verus! {

/// Text on its way out: `Some` carries the body of one frame, `None` says
/// that the value has no text form and nothing is to be transmitted.
pub type Storable = Option<String>;

/// Text on its way in: `Ok` carries the body of a received frame, `Err` a
/// reason why there is none.
pub type Restorable = Result<String, String>;

} // verus!
