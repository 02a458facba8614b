//! What the two host callbacks of a connection compute: the application
//! message for an incoming text frame, and the one for a lifecycle
//! notification. Queuing the message on the component is the caller's part.

use vstd::prelude::*;
use vstd::std_specs::convert::FromSpec;
use crate::format::Restorable;
use crate::status::WebSocketStatus;

verus! {

/// The application message for one incoming text frame: the frame is
/// presented as received text, brought into the form `OUT` that the
/// application chose, and handed to the application's converter.
pub fn on_frame<F, OUT, MSG>(converter: &F, frame: String) -> (msg: MSG) where
    OUT: From<Restorable>,
    F: Fn(OUT) -> MSG,
    requires
        forall|out: OUT|
            call_ensures(OUT::from, (Ok::<String, String>(frame),), out) ==> call_requires(
                *converter,
                (out,),
            ),
    ensures
        exists|out: OUT|
            call_ensures(OUT::from, (Ok::<String, String>(frame),), out) && call_ensures(
                *converter,
                (out,),
                msg,
            ),
        OUT::obeys_from_spec() ==> call_ensures(
            *converter,
            (OUT::from_spec(Ok::<String, String>(frame)),),
            msg,
        ),
{
    let data: Restorable = Ok(frame);
    let out = OUT::from(data);
    converter(out)
}

/// The application message for one lifecycle notification: the code is
/// decoded and the status handed to the application's notification
/// function. A code that stands for no status is not accepted.
pub fn on_status_code<N, MSG>(notification: &N, code: u32) -> (msg: MSG) where
    N: Fn(WebSocketStatus) -> MSG,
    requires
        WebSocketStatus::of_code(code) is Some,
        call_requires(*notification, (WebSocketStatus::of_code(code)->0,)),
    ensures
        call_ensures(*notification, (WebSocketStatus::of_code(code)->0,), msg),
{
    let status = WebSocketStatus::from_code(code);
    notification(status)
}

} // verus!
