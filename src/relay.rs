//! The relay's decisions: what happens to each delivered payload, and how the
//! publishing and subscribing connections are released.

use vstd::prelude::*;

use crate::backend::value_decoding;
use crate::buffer::{bytes_as_slice, bytes_content};
use crate::codec::{decoding, encoding, DecodeError, TileId};

verus! {

/// Where delivered messages end up: each decoded identifier, or each decode
/// error, in the order the messages arrived.
pub struct Inbox {
    pub decoded: Vec<TileId>,
    pub errors: Vec<DecodeError>,
}

/// The contents of an inbox, as sequences.
pub struct InboxView {
    pub decoded: Seq<TileId>,
    pub errors: Seq<DecodeError>,
}

impl View for Inbox {
    type V = InboxView;

    open spec fn view(&self) -> InboxView {
        InboxView { decoded: self.decoded@, errors: self.errors@ }
    }
}

/// The inbox that holds nothing yet.
pub open spec fn empty_inbox() -> InboxView {
    InboxView { decoded: Seq::empty(), errors: Seq::empty() }
}

/// An inbox after one more message with `payload` was delivered: the decoded
/// identifier or the decode error is appended, and nothing else changes.
pub open spec fn received(v: InboxView, payload: Seq<u8>) -> InboxView {
    recorded(v, decoding(payload))
}

/// An inbox after the outcome `r` of one delivery was recorded.
pub open spec fn recorded(v: InboxView, r: Result<TileId, DecodeError>) -> InboxView {
    match r {
        Ok(t) => InboxView { decoded: v.decoded.push(t), errors: v.errors },
        Err(e) => InboxView { decoded: v.decoded, errors: v.errors.push(e) },
    }
}

impl Inbox {
    /// An inbox with no message in it.
    pub fn new() -> (r: Inbox)
        ensures
            r@ == empty_inbox(),
    {
        Inbox { decoded: Vec::new(), errors: Vec::new() }
    }

    /// Records the outcome of one delivery.
    fn record(&mut self, r: Result<TileId, DecodeError>)
        ensures
            final(self)@ == recorded(old(self)@, r),
    {
        match r {
            Ok(t) => self.decoded.push(t),
            Err(e) => self.errors.push(e),
        }
    }

    /// Handles one delivered payload: decodes it and records the outcome, a
    /// decoded identifier or a decode error, exactly once.
    pub fn receive(&mut self, payload: &[u8]) -> (r: Result<TileId, DecodeError>)
        ensures
            r == decoding(payload@),
            final(self)@ == received(old(self)@, payload@),
    {
        let r = TileId::decode(payload);
        self.record(r);
        r
    }

    /// Handles one delivered payload held in a byte buffer.
    pub fn receive_bytes(&mut self, payload: &bytes::Bytes) -> (r: Result<TileId, DecodeError>)
        ensures
            r == decoding(bytes_content(*payload)),
            final(self)@ == received(old(self)@, bytes_content(*payload)),
    {
        self.receive(bytes_as_slice(payload))
    }

    /// Handles one value delivered by the backend: the decoded identifier, or
    /// the error, malformed payload included, is recorded exactly once.
    pub fn receive_value(&mut self, value: &fred::types::RedisValue) -> (r: Result<
        TileId,
        DecodeError,
    >)
        ensures
            r == value_decoding(*value),
            final(self)@ == recorded(old(self)@, r),
    {
        let r = TileId::from_value(value);
        self.record(r);
        r
    }
}

/// An identifier published through the codec reaches a fresh subscriber as
/// exactly one decoded identifier, equal to it, and no decode error.
pub proof fn lemma_published_id_delivered(t: TileId)
    ensures
        received(empty_inbox(), encoding(t)) == (InboxView {
            decoded: seq![t],
            errors: Seq::empty(),
        }),
{
    crate::codec::lemma_round_trip(t);
    assert(received(empty_inbox(), encoding(t)).decoded =~= seq![t]);
    assert(received(empty_inbox(), encoding(t)).errors =~= Seq::<DecodeError>::empty());
}

/// A payload of the wrong length reaches a fresh subscriber as exactly one
/// length error and no decoded identifier.
pub proof fn lemma_malformed_payload_reported(payload: Seq<u8>)
    requires
        payload.len() != 12,
    ensures
        received(empty_inbox(), payload) == (InboxView {
            decoded: Seq::empty(),
            errors: seq![DecodeError::InvalidLength],
        }),
{
    assert(received(empty_inbox(), payload).decoded =~= Seq::<TileId>::empty());
    assert(received(empty_inbox(), payload).errors =~= seq![DecodeError::InvalidLength]);
}

/// What closing a connection calls for.
#[derive(PartialEq, Eq, Structural, Debug, Clone, Copy)]
pub enum CloseStep {
    /// The connection was open: release it now.
    Release,
    /// The connection was released before: nothing more to do.
    AlreadyClosed,
}

/// Which of the relay's two connections are still open.
#[derive(PartialEq, Eq, Structural, Debug, Clone, Copy)]
pub struct Connections {
    pub publisher_open: bool,
    pub subscriber_open: bool,
}

/// The step that closing a connection in state `open` calls for.
pub open spec fn close_step(open: bool) -> CloseStep {
    if open {
        CloseStep::Release
    } else {
        CloseStep::AlreadyClosed
    }
}

/// The connections after the publisher is closed.
pub open spec fn publisher_closed(c: Connections) -> Connections {
    Connections { publisher_open: false, ..c }
}

/// The connections after the subscriber is closed.
pub open spec fn subscriber_closed(c: Connections) -> Connections {
    Connections { subscriber_open: false, ..c }
}

/// Whether both connections have been released.
pub open spec fn all_released(c: Connections) -> bool {
    !c.publisher_open && !c.subscriber_open
}

impl Connections {
    /// Both connections open, as after start-up.
    pub fn new() -> (r: Connections)
        ensures
            r.publisher_open && r.subscriber_open,
    {
        Connections { publisher_open: true, subscriber_open: true }
    }

    /// Closes the publishing connection; the subscriber is left as it was.
    pub fn close_publisher(&mut self) -> (r: CloseStep)
        ensures
            r == close_step(old(self).publisher_open),
            *final(self) == publisher_closed(*old(self)),
    {
        let step = if self.publisher_open {
            CloseStep::Release
        } else {
            CloseStep::AlreadyClosed
        };
        self.publisher_open = false;
        step
    }

    /// Closes the subscribing connection; the publisher is left as it was.
    pub fn close_subscriber(&mut self) -> (r: CloseStep)
        ensures
            r == close_step(old(self).subscriber_open),
            *final(self) == subscriber_closed(*old(self)),
    {
        let step = if self.subscriber_open {
            CloseStep::Release
        } else {
            CloseStep::AlreadyClosed
        };
        self.subscriber_open = false;
        step
    }

    /// Whether both connections have been released.
    pub fn is_released(&self) -> (r: bool)
        ensures
            r == all_released(*self),
    {
        !self.publisher_open && !self.subscriber_open
    }
}

/// Closing a connection a second time asks for no second release and changes
/// nothing.
pub proof fn lemma_close_twice(c: Connections)
    ensures
        close_step(publisher_closed(c).publisher_open) == CloseStep::AlreadyClosed,
        publisher_closed(publisher_closed(c)) == publisher_closed(c),
        close_step(subscriber_closed(c).subscriber_open) == CloseStep::AlreadyClosed,
        subscriber_closed(subscriber_closed(c)) == subscriber_closed(c),
{
}

/// Closing the two connections in either order ends in the same state, with
/// both released, and each is released exactly when it was open.
pub proof fn lemma_close_in_either_order(c: Connections)
    ensures
        subscriber_closed(publisher_closed(c)) == publisher_closed(subscriber_closed(c)),
        all_released(subscriber_closed(publisher_closed(c))),
        close_step(subscriber_closed(c).publisher_open) == close_step(c.publisher_open),
        close_step(publisher_closed(c).subscriber_open) == close_step(c.subscriber_open),
{
}

} // verus!
