//! Connection lifecycle signals and the numeric codes the host glue uses for them.

use vstd::prelude::*;

verus! {

/// The code the host glue passes when a connection has opened.
pub const OPENED_CODE: u32 = 1;

/// The code the host glue passes when a connection has closed.
pub const CLOSED_CODE: u32 = 0;

/// The two lifecycle signals a connection reports to its owner.
#[derive(Clone, Copy, Debug, PartialEq, Eq, Structural)]
pub enum WebSocketStatus {
    Opened,
    Closed,
}

impl WebSocketStatus {
    /// The status a notification code stands for; `None` for a code that
    /// stands for nothing.
    pub open spec fn of_code(code: u32) -> Option<WebSocketStatus> {
        if code == OPENED_CODE {
            Some(WebSocketStatus::Opened)
        } else if code == CLOSED_CODE {
            Some(WebSocketStatus::Closed)
        } else {
            None
        }
    }

    /// The notification code that stands for this status.
    pub open spec fn spec_code(self) -> u32 {
        match self {
            WebSocketStatus::Opened => OPENED_CODE,
            WebSocketStatus::Closed => CLOSED_CODE,
        }
    }

    /// The notification code that stands for this status.
    #[verifier::when_used_as_spec(spec_code)]
    pub fn code(self) -> (code: u32)
        ensures
            code == self.spec_code(),
    {
        match self {
            WebSocketStatus::Opened => OPENED_CODE,
            WebSocketStatus::Closed => CLOSED_CODE,
        }
    }

    /// Decodes a notification code, answering `None` for a code that stands
    /// for no status.
    pub fn try_from_code(code: u32) -> (status: Option<WebSocketStatus>)
        ensures
            status == Self::of_code(code),
    {
        if code == OPENED_CODE {
            Some(WebSocketStatus::Opened)
        } else if code == CLOSED_CODE {
            Some(WebSocketStatus::Closed)
        } else {
            None
        }
    }

    /// Decodes a notification code that is known to stand for a status.
    pub fn from_code(code: u32) -> (status: WebSocketStatus)
        requires
            Self::of_code(code) is Some,
        ensures
            Self::of_code(code) == Some(status),
    {
        match Self::try_from_code(code) {
            Some(status) => status,
            None => unreached(),
        }
    }
}

/// Decoding the code of a status gives that status back.
pub proof fn lemma_code_round_trip(status: WebSocketStatus)
    ensures
        WebSocketStatus::of_code(status.spec_code()) == Some(status),
{
}

/// A code stands for at most one status, and that status carries the code:
/// exactly the two codes `OPENED_CODE` and `CLOSED_CODE` decode.
pub proof fn lemma_decoded_status_carries_code(code: u32)
    ensures
        WebSocketStatus::of_code(code) matches Some(status) ==> status.spec_code() == code,
        WebSocketStatus::of_code(code) is Some <==> (code == OPENED_CODE || code == CLOSED_CODE),
{
}

} // verus!
