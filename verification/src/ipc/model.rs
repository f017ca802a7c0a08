//! The bridge as mathematics: what it holds, and what each of its
//! operations makes of that.
//!
//! The executable bridge is specified against these functions, and the laws
//! of the bridge are proved of them.

use vstd::prelude::*;
use crate::clock::NANOS_PER_SEC;
use crate::ipc::codec::{decoded, encoded_line};
use crate::ipc::json::Json;
use crate::ipc::message::{IPCMessageType, WireMessage};
use crate::ipc::request_id::{issued_stamp, request_id_text};
use crate::ipc::text::{decimal_text, is_blank};

verus! {

/// The mathematical content of a request that waits for its response.
pub struct PendingModel<C> {
    /// The id that the response will carry.
    pub id: Seq<char>,
    /// The stamp that the id was made of.
    pub stamp: u128,
    /// The name of the request.
    pub event: Seq<char>,
    /// What to call with the outcome.
    pub callback: C,
    /// When the request was made, in nanoseconds on the caller's clock.
    pub created_at: u64,
    /// How long the response may take, in seconds.
    pub timeout_secs: u64,
}

impl<C> PendingModel<C> {
    /// Whether the request is overdue at `now`: its age is more than its
    /// timeout.
    pub open spec fn expired(self, now: u64) -> bool {
        now >= self.created_at && now - self.created_at > self.timeout_secs * NANOS_PER_SEC
    }
}

/// The mathematical content of one registration of a handler.
pub struct ListenerModel<H> {
    /// The event that the handler listens for.
    pub event: Seq<char>,
    /// The handler.
    pub handler: H,
}

/// The mathematical content of an [`IPCBridge`].
pub struct BridgeModel<C, H> {
    /// Whether the worker's input channel is there.
    pub attached: bool,
    /// The requests that wait for a response, oldest first.
    pub pending: Seq<PendingModel<C>>,
    /// The handlers, in the order in which they were registered.
    pub listeners: Seq<ListenerModel<H>>,
    /// The messages that wait for the channel, in the order in which they
    /// were sent.
    pub queue: Seq<WireMessage>,
    /// Whether the line of the first queued message was handed out and its
    /// delivery is not confirmed yet.
    pub flushing: bool,
    /// The timeout of a request that names none, in seconds.
    pub default_timeout_secs: u64,
    /// The least stamp that no request id was made of.
    pub next_stamp: u128,
}

/// The handlers among `listeners` that listen for `event`, in the order in
/// which they were registered.
pub open spec fn handlers_of<H>(listeners: Seq<ListenerModel<H>>, event: Seq<char>) -> Seq<H>
    decreases listeners.len(),
{
    if listeners.len() == 0 {
        Seq::empty()
    } else if listeners.last().event == event {
        handlers_of(listeners.drop_last(), event).push(listeners.last().handler)
    } else {
        handlers_of(listeners.drop_last(), event)
    }
}

/// The requests among `entries` that are not overdue at `now`, in their
/// order.
pub open spec fn survivors<C>(entries: Seq<PendingModel<C>>, now: u64) -> Seq<PendingModel<C>>
    decreases entries.len(),
{
    if entries.len() == 0 {
        Seq::empty()
    } else if entries.last().expired(now) {
        survivors(entries.drop_last(), now)
    } else {
        survivors(entries.drop_last(), now).push(entries.last())
    }
}

/// The requests among `entries` that are overdue at `now`, in their order.
pub open spec fn overdue<C>(entries: Seq<PendingModel<C>>, now: u64) -> Seq<PendingModel<C>>
    decreases entries.len(),
{
    if entries.len() == 0 {
        Seq::empty()
    } else if entries.last().expired(now) {
        overdue(entries.drop_last(), now).push(entries.last())
    } else {
        overdue(entries.drop_last(), now)
    }
}

/// The lines that a queue delivers, in order: the line of each message that
/// can be encoded. A message that cannot be encoded is passed over.
pub open spec fn delivery(queue: Seq<WireMessage>) -> Seq<Seq<char>>
    decreases queue.len(),
{
    if queue.len() == 0 {
        Seq::empty()
    } else {
        match encoded_line(queue.first()) {
            Ok(line) => seq![line] + delivery(queue.drop_first()),
            Err(_) => delivery(queue.drop_first()),
        }
    }
}

/// A queue without the messages at its head that cannot be encoded.
pub open spec fn deliverable(queue: Seq<WireMessage>) -> Seq<WireMessage>
    decreases queue.len(),
{
    if queue.len() > 0 && encoded_line(queue.first()) is Err {
        deliverable(queue.drop_first())
    } else {
        queue
    }
}

/// The detail of the error that an overdue request is answered with: the
/// timeout that it ran out of, in seconds, as in `30s`.
pub open spec fn timed_out_text(timeout_secs: u64) -> Seq<char> {
    decimal_text(timeout_secs as nat) + "s"@
}

/// What a response gives to the callback of its request: the error where
/// the response carries one, else the payload.
pub open spec fn response_result(m: WireMessage) -> Result<Json, Seq<char>> {
    match m.error {
        Some(error) => Err(error),
        None => Ok(m.payload),
    }
}

impl<C, H> BridgeModel<C, H> {
    /// A bridge with nothing in it and no channel.
    pub open spec fn fresh(timeout_secs: u64) -> Self {
        BridgeModel {
            attached: false,
            pending: Seq::empty(),
            listeners: Seq::empty(),
            queue: Seq::empty(),
            flushing: false,
            default_timeout_secs: timeout_secs,
            next_stamp: 0,
        }
    }

    /// What always holds of a bridge. Every pending id is the id of its
    /// stamp; the stamps grow along the table and stay below the next one,
    /// so that no id stands twice and none is ever made again. And a line
    /// is out for delivery only while the channel is there and the queue
    /// begins with a message that can be encoded.
    pub open spec fn well_formed(self) -> bool {
        &&& forall|i: int|
            0 <= i < self.pending.len() ==> {
                &&& (#[trigger] self.pending[i]).id == request_id_text(self.pending[i].stamp as nat)
                &&& self.pending[i].stamp < self.next_stamp
            }
        &&& forall|i: int, j: int|
            0 <= i < j < self.pending.len() ==> (#[trigger] self.pending[i]).stamp < (
            #[trigger] self.pending[j]).stamp
        &&& self.flushing ==> self.attached && self.queue.len() > 0 && encoded_line(
            self.queue.first(),
        ) is Ok
    }

    /// Whether a request with this id waits for its response.
    pub open spec fn holds(self, id: Seq<char>) -> bool {
        exists|i: int| 0 <= i < self.pending.len() && (#[trigger] self.pending[i]).id == id
    }

    /// Where in the table the request with this id stands, if it is there.
    pub open spec fn index_of(self, id: Seq<char>) -> Option<int> {
        if self.holds(id) {
            Some(choose|i: int| 0 <= i < self.pending.len() && (#[trigger] self.pending[i]).id == id)
        } else {
            None
        }
    }

    /// The bridge without the pending request at index `i`.
    pub open spec fn resolved(self, i: int) -> Self {
        BridgeModel { pending: self.pending.remove(i), ..self }
    }

    /// The bridge without the pending request of this id, if it held one.
    pub open spec fn without(self, id: Seq<char>) -> Self {
        match self.index_of(id) {
            Some(i) => self.resolved(i),
            None => self,
        }
    }

    /// The bridge with the channel there.
    pub open spec fn attach(self) -> Self {
        BridgeModel { attached: true, ..self }
    }

    /// The bridge with one more message at the end of the queue.
    pub open spec fn queued(self, m: WireMessage) -> Self {
        BridgeModel { queue: self.queue.push(m), ..self }
    }

    /// The bridge with one more handler.
    pub open spec fn listening(self, event: Seq<char>, handler: H) -> Self {
        BridgeModel { listeners: self.listeners.push(ListenerModel { event, handler }), ..self }
    }

    /// The bridge after `m` was sent: queued where there is no channel and
    /// the message can be encoded, else as before.
    pub open spec fn sent(self, m: WireMessage) -> Self {
        if encoded_line(m) is Ok && !self.attached {
            self.queued(m)
        } else {
            self
        }
    }

    /// The bridge after the next queued line was asked for: with the
    /// channel there, the messages at the head of the queue that cannot be
    /// encoded are gone, and the line of the first one left, if any, is
    /// out for delivery.
    pub open spec fn flushed(self) -> Self {
        if self.attached {
            BridgeModel {
                queue: deliverable(self.queue),
                flushing: deliverable(self.queue).len() > 0,
                ..self
            }
        } else {
            self
        }
    }

    /// The line that is handed out when the next queued line is asked for.
    pub open spec fn next_line(self) -> Option<Seq<char>> {
        if self.attached && deliverable(self.queue).len() > 0 {
            Some(encoded_line(deliverable(self.queue).first())->Ok_0)
        } else {
            None
        }
    }

    /// The bridge after the delivery of the line that is out was confirmed:
    /// its message has left the queue.
    pub open spec fn confirmed(self) -> Self {
        if self.flushing {
            BridgeModel { queue: self.queue.drop_first(), flushing: false, ..self }
        } else {
            self
        }
    }

    /// The stamp that the next request id is made of, where the clock reads
    /// `stamp`: the reading itself, unless an id was made of it or of a
    /// later one before; then the first stamp that is still free.
    pub open spec fn issued_stamp(self, stamp: u128) -> u128 {
        issued_stamp(self.next_stamp, stamp)
    }

    /// The entry of a new request.
    pub open spec fn new_request(
        self,
        event: Seq<char>,
        timeout_secs: u64,
        callback: C,
        now: u64,
        stamp: u128,
    ) -> PendingModel<C> {
        PendingModel {
            id: request_id_text(self.issued_stamp(stamp) as nat),
            stamp: self.issued_stamp(stamp),
            event,
            callback,
            created_at: now,
            timeout_secs,
        }
    }

    /// The message of a new request.
    pub open spec fn request_message(self, event: Seq<char>, payload: Json, stamp: u128)
        -> WireMessage {
        WireMessage::request(request_id_text(self.issued_stamp(stamp) as nat), event, payload)
    }

    /// The bridge with one more pending request, whose stamp is used up.
    pub open spec fn registered(self, entry: PendingModel<C>) -> Self {
        BridgeModel {
            pending: self.pending.push(entry),
            next_stamp: (entry.stamp + 1) as u128,
            ..self
        }
    }

    /// The bridge after a request was made at time `now`, with the clock
    /// for ids reading `stamp`: the request waits for its response, and its
    /// message was sent. Nothing changes where the stamps are used up.
    pub open spec fn requested(
        self,
        event: Seq<char>,
        payload: Json,
        timeout_secs: u64,
        callback: C,
        now: u64,
        stamp: u128,
    ) -> Self {
        if self.issued_stamp(stamp) == u128::MAX {
            self
        } else {
            self.registered(self.new_request(event, timeout_secs, callback, now, stamp)).sent(
                self.request_message(event, payload, stamp),
            )
        }
    }

    /// Where in the table the request stands that `m` answers: `m` is a
    /// response, carries an id, and a request with that id waits.
    pub open spec fn respondent(self, m: WireMessage) -> Option<int> {
        if m.kind == IPCMessageType::Response && m.id is Some {
            self.index_of(m.id->0)
        } else {
            None
        }
    }

    /// The bridge after the message `m` came in: the request that it
    /// answers, if any, waits no longer.
    pub open spec fn received(self, m: WireMessage) -> Self {
        match self.respondent(m) {
            Some(i) => self.resolved(i),
            None => self,
        }
    }

    /// The bridge after a sweep at time `now`: the overdue requests wait no
    /// longer.
    pub open spec fn swept(self, now: u64) -> Self {
        BridgeModel { pending: survivors(self.pending, now), ..self }
    }
}

/// The detail of the error of a request that no id is left for.
pub open spec fn ids_used_up() -> Seq<char> {
    "Request ids are used up"@
}

/// The bridge after the inbound line `line` was taken in.
pub open spec fn after_line<C, H>(bridge: BridgeModel<C, H>, line: Seq<char>) -> BridgeModel<
    C,
    H,
> {
    if is_blank(line) {
        bridge
    } else {
        match decoded(line) {
            Err(_) => bridge,
            Ok(m) => bridge.received(m),
        }
    }
}

/// The lines of messages that can all be encoded, in their order.
pub open spec fn lines_of(messages: Seq<WireMessage>) -> Seq<Seq<char>> {
    Seq::new(messages.len(), |i: int| encoded_line(messages[i])->Ok_0)
}

/// Whether every message can be encoded.
pub open spec fn all_encodable(messages: Seq<WireMessage>) -> bool {
    forall|i: int| 0 <= i < messages.len() ==> encoded_line(#[trigger] messages[i]) is Ok
}

impl<C, H> BridgeModel<C, H> {
    /// The bridge after the messages were sent one after the other.
    pub open spec fn sent_all(self, messages: Seq<WireMessage>) -> Self
        decreases messages.len(),
    {
        if messages.len() == 0 {
            self
        } else {
            self.sent_all(messages.drop_last()).sent(messages.last())
        }
    }

    /// The bridge after up to `rounds` rounds of asking for the next queued
    /// line and confirming its delivery; the rounds end early with the
    /// first that is given no line.
    pub open spec fn after_drain(self, rounds: nat) -> Self
        decreases rounds,
    {
        if rounds == 0 {
            self
        } else {
            match self.next_line() {
                None => self.flushed(),
                Some(_) => self.flushed().confirmed().after_drain((rounds - 1) as nat),
            }
        }
    }

    /// The lines that are handed out, in order, by up to `rounds` rounds of
    /// asking for the next queued line and confirming its delivery.
    pub open spec fn drained(self, rounds: nat) -> Seq<Seq<char>>
        decreases rounds,
    {
        if rounds == 0 {
            Seq::empty()
        } else {
            match self.next_line() {
                None => Seq::empty(),
                Some(line) => seq![line] + self.flushed().confirmed().drained((rounds - 1) as nat),
            }
        }
    }
}

} // verus!
