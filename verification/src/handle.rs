//! The handle an owner keeps for one connection: it holds the socket
//! reference until the connection is cancelled, and never after.

use vstd::prelude::*;
use vstd::std_specs::convert::IntoSpec;
use crate::format::Storable;

verus! {

/// A handle on at most one live socket reference of type `S`.
///
/// The handle is open from `new` until `cancel`, which takes the reference
/// out for good.
pub struct WebSocketHandle<S>(Option<S>);

impl<S> View for WebSocketHandle<S> {
    type V = Option<S>;

    /// The socket reference the handle holds, if it is still open.
    closed spec fn view(&self) -> Option<S> {
        self.0
    }
}

impl<S> WebSocketHandle<S> {
    /// Whether the handle still holds its socket reference.
    pub open spec fn spec_is_open(&self) -> bool {
        self@ is Some
    }

    /// Wraps a freshly opened socket.
    pub fn new(socket: S) -> (handle: Self)
        ensures
            handle@ == Some(socket),
    {
        WebSocketHandle(Some(socket))
    }

    /// Whether the handle still holds its socket reference.
    #[verifier::when_used_as_spec(spec_is_open)]
    pub fn is_open(&self) -> (open: bool)
        ensures
            open == self.spec_is_open(),
    {
        self.0.is_some()
    }

    /// The socket reference to transmit on, while the handle is open.
    pub fn socket(&self) -> (socket: Option<&S>)
        ensures
            socket is Some <==> self@ is Some,
            socket matches Some(s) ==> self@ == Some(*s),
    {
        self.0.as_ref()
    }

    /// Decides what goes out for `data` on an open handle: the frame body
    /// its text form gives, or `None` when it has none. The handle keeps
    /// its socket.
    pub fn send<IN>(&mut self, data: IN) -> (frame: Storable) where IN: Into<Storable>
        requires
            old(self).is_open(),
        ensures
            final(self)@ == old(self)@,
            IN::obeys_into_spec() ==> frame == data.into_spec(),
            call_ensures(IN::into, (data,), frame),
    {
        data.into()
    }

    /// Closes the handle and hands out the socket reference it held, so
    /// that the caller can close the socket itself, once.
    pub fn cancel(&mut self) -> (socket: S)
        requires
            old(self).is_open(),
        ensures
            old(self)@ == Some(socket),
            final(self)@ is None,
    {
        self.0.take().expect("tried to close websocket twice")
    }
}

} // verus!
