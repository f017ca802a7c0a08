//! The bridge: requests that wait for their response, listeners for named
//! events, and the buffer of messages that wait for the worker's input
//! channel.
//!
//! The bridge is a state machine and does no I/O. Its caller owns the
//! channel and the clock: it writes the lines that the bridge hands out,
//! feeds it the lines that it reads, tells it the time, and runs the
//! callbacks and handlers that the bridge gives back.

use std::collections::VecDeque;
use vstd::prelude::*;
use vstd::string::StringExecFns;
use crate::clock::{unix_nanos, NANOS_PER_SEC};
use crate::ipc::codec::{decoded, encode_message_for_stdin, encoded_line, parse_trimmed};
use crate::ipc::error::IPCError;
use crate::ipc::json::{json_model, Json};
use crate::ipc::message::{IPCMessage, IPCMessageType, WireMessage};
use crate::ipc::model::{
    after_line,
    deliverable,
    handlers_of,
    ids_used_up,
    overdue,
    response_result,
    survivors,
    timed_out_text,
    BridgeModel,
    ListenerModel,
    PendingModel,
};
use crate::ipc::request_id::{issue_request_id, request_id_text};
use crate::ipc::text::{decimal_string, is_blank, lemma_blank_iff_trimmed_empty, trim};

verus! {

/// The timeout of a request that names none, in seconds.
pub const DEFAULT_REQUEST_TIMEOUT_SECS: u64 = 30;

/// The time between two sweeps for overdue requests, in seconds.
pub const TIMEOUT_SWEEP_INTERVAL_SECS: u64 = 1;

/// A request that waits for its response.
struct PendingRequest<C> {
    id: String,
    stamp: u128,
    event: String,
    callback: C,
    created_at: u64,
    timeout_secs: u64,
}

impl<C> View for PendingRequest<C> {
    type V = PendingModel<C>;

    closed spec fn view(&self) -> PendingModel<C> {
        PendingModel {
            id: self.id@,
            stamp: self.stamp,
            event: self.event@,
            callback: self.callback,
            created_at: self.created_at,
            timeout_secs: self.timeout_secs,
        }
    }
}

/// One registration of a handler.
struct Listener<H> {
    event: String,
    handler: H,
}

impl<H> View for Listener<H> {
    type V = ListenerModel<H>;

    closed spec fn view(&self) -> ListenerModel<H> {
        ListenerModel { event: self.event@, handler: self.handler }
    }
}

/// What to do with a message that was sent.
#[derive(Debug)]
pub enum Outbound {
    /// Write this line to the worker's input channel and flush it.
    Write(String),
    /// Nothing: there is no channel yet, and the message waits in the queue.
    Queued,
}

/// A request that was registered and sent.
#[derive(Debug)]
pub struct RequestSent {
    /// The id of the request, by which it can be cancelled.
    pub id: String,
    /// What to do with its message.
    pub outbound: Outbound,
}

/// The callback of a request whose response came, and what to call it with.
pub struct Completion<C> {
    pub callback: C,
    pub result: Result<serde_json::Value, String>,
}

/// The callback of a request that ran out of time, and the `Timeout` error
/// to call it with.
pub struct Expired<C> {
    pub id: String,
    pub callback: C,
    pub error: IPCError,
}

/// What an inbound line turned out to be.
pub enum Inbound<C> {
    /// A blank line: to be passed over.
    Blank,
    /// Not a message: to be logged and passed over.
    Malformed(IPCError),
    /// A message. First `completion`, where there is one, is to be run;
    /// then each handler that listens for the message's event is to be
    /// called with its payload, in the order of registration; then the
    /// message goes to the general hook.
    Message { message: IPCMessage, completion: Option<Completion<C>> },
}

/// The content of the outcome that a callback is called with.
pub open spec fn result_model(result: Result<serde_json::Value, String>) -> Result<
    Json,
    Seq<char>,
> {
    match result {
        Ok(payload) => Ok(json_model(payload)),
        Err(error) => Err(error@),
    }
}

/// Whether `action` is what is to be done with the message `m` on a bridge
/// in state `bridge`: its line is to be written where the channel is
/// there, and nothing is to be done where it is not.
pub open spec fn outbound_matches<C, H>(
    bridge: BridgeModel<C, H>,
    m: WireMessage,
    action: Outbound,
) -> bool {
    if bridge.attached {
        action matches Outbound::Write(text) && encoded_line(m) matches Ok(line) && text@ == line
    } else {
        action is Queued
    }
}

/// Whether `r` is the outcome of sending `m` on a bridge in state `bridge`:
/// the action for its line, or the `SerializationError` of a message that
/// cannot be encoded.
pub open spec fn send_outcome<C, H>(
    bridge: BridgeModel<C, H>,
    m: WireMessage,
    r: Result<Outbound, IPCError>,
) -> bool {
    match encoded_line(m) {
        Ok(_) => r matches Ok(action) && outbound_matches(bridge, m, action),
        Err(detail) => r matches Err(e) && e is SerializationError && e.detail() == detail,
    }
}

/// Whether `r` is the outcome of a request made on a bridge in state
/// `bridge` with the clock for ids reading `stamp`: the id of the issued
/// stamp and the action for the message, or the `SerializationError` of a
/// message that cannot be encoded, or the error `Other` where the stamps
/// are used up.
pub open spec fn request_outcome<C, H>(
    bridge: BridgeModel<C, H>,
    event: Seq<char>,
    payload: Json,
    stamp: u128,
    r: Result<RequestSent, IPCError>,
) -> bool {
    if bridge.issued_stamp(stamp) == u128::MAX {
        r matches Err(e) && e is Other && e.detail() == ids_used_up()
    } else {
        match encoded_line(bridge.request_message(event, payload, stamp)) {
            Ok(_) => r matches Ok(sent) && sent.id@ == request_id_text(
                bridge.issued_stamp(stamp) as nat,
            ) && outbound_matches(
                bridge,
                bridge.request_message(event, payload, stamp),
                sent.outbound,
            ),
            Err(detail) => r matches Err(e) && e is SerializationError && e.detail() == detail,
        }
    }
}

/// Whether `completion` is what the message `m` owes to the request that
/// it answers on a bridge in state `bridge`: that request's callback with
/// the response's result, or nothing where `m` answers no request.
pub open spec fn completion_matches<C, H>(
    bridge: BridgeModel<C, H>,
    m: WireMessage,
    completion: Option<Completion<C>>,
) -> bool {
    match bridge.respondent(m) {
        Some(i) => completion matches Some(c) && c.callback == bridge.pending[i].callback
            && result_model(c.result) == response_result(m),
        None => completion is None,
    }
}

/// Whether `r` is what the inbound line `line` turns out to be on a bridge
/// in state `bridge`.
pub open spec fn inbound_matches<C, H>(
    bridge: BridgeModel<C, H>,
    line: Seq<char>,
    r: Inbound<C>,
) -> bool {
    if is_blank(line) {
        r is Blank
    } else {
        match decoded(line) {
            Err(detail) => r matches Inbound::Malformed(e) && e is ParseError && e.detail()
                == detail,
            Ok(m) => r matches Inbound::Message { message, completion } && message@ == m
                && completion_matches(bridge, m, completion),
        }
    }
}

/// Whether `found` holds, entry for entry, what the overdue requests
/// `due` are answered with.
pub open spec fn expired_matches<C>(due: Seq<PendingModel<C>>, found: Seq<Expired<C>>) -> bool {
    &&& found.len() == due.len()
    &&& forall|k: int|
        0 <= k < found.len() ==> {
            &&& (#[trigger] found[k]).id@ == due[k].id
            &&& found[k].callback == due[k].callback
            &&& found[k].error is Timeout
            &&& found[k].error.detail() == timed_out_text(due[k].timeout_secs)
        }
}

/// The bridge between the application and the worker.
///
/// `C` is what a request's callback is to the caller, `H` what an event
/// handler is: the bridge keeps them and hands them back, and never calls
/// them.
pub struct IPCBridge<C, H> {
    attached: bool,
    pending: Vec<PendingRequest<C>>,
    listeners: Vec<Listener<H>>,
    queue: VecDeque<IPCMessage>,
    flushing: bool,
    request_timeout_secs: u64,
    next_stamp: u128,
}

impl<C, H> View for IPCBridge<C, H> {
    type V = BridgeModel<C, H>;

    closed spec fn view(&self) -> BridgeModel<C, H> {
        BridgeModel {
            attached: self.attached,
            pending: self.pending@.map_values(|p: PendingRequest<C>| p@),
            listeners: self.listeners@.map_values(|l: Listener<H>| l@),
            queue: self.queue@.map_values(|m: IPCMessage| m@),
            flushing: self.flushing,
            default_timeout_secs: self.request_timeout_secs,
            next_stamp: self.next_stamp,
        }
    }
}

impl<C, H> IPCBridge<C, H> {
    /// A bridge with the default timeout, no channel, and nothing pending,
    /// registered or queued.
    pub fn new() -> (bridge: Self)
        ensures
            bridge@ == BridgeModel::<C, H>::fresh(DEFAULT_REQUEST_TIMEOUT_SECS),
            bridge@.well_formed(),
    {
        Self::with_timeout(DEFAULT_REQUEST_TIMEOUT_SECS)
    }

    /// A bridge whose requests time out after `timeout_secs` seconds where
    /// they name no timeout of their own.
    pub fn with_timeout(timeout_secs: u64) -> (bridge: Self)
        ensures
            bridge@ == BridgeModel::<C, H>::fresh(timeout_secs),
            bridge@.well_formed(),
    {
        let bridge = IPCBridge {
            attached: false,
            pending: Vec::new(),
            listeners: Vec::new(),
            queue: VecDeque::new(),
            flushing: false,
            request_timeout_secs: timeout_secs,
            next_stamp: 0,
        };
        assert(bridge@.pending =~= Seq::empty());
        assert(bridge@.listeners =~= Seq::empty());
        assert(bridge@.queue =~= Seq::empty());
        bridge
    }

    /// The timeout of a request that names none, in seconds.
    pub fn request_timeout_secs(&self) -> (secs: u64)
        ensures
            secs == self@.default_timeout_secs,
    {
        self.request_timeout_secs
    }

    /// Whether the channel is there.
    pub fn is_attached(&self) -> (attached: bool)
        ensures
            attached == self@.attached,
    {
        self.attached
    }

    /// Notes that the worker's input channel is there. From now on a
    /// message that is sent is to be written at once. What waits in the
    /// queue is delivered by [`Self::flush_message_queue`].
    pub fn set_stdin(&mut self)
        requires
            old(self)@.well_formed(),
        ensures
            final(self)@ == old(self)@.attach(),
            final(self)@.well_formed(),
    {
        self.attached = true;
        proof {
            assert(self@ == old(self)@.attach());
        }
    }

    /// Puts a message at the end of the queue, whether the channel is there
    /// or not.
    pub fn queue_message(&mut self, msg: IPCMessage)
        requires
            old(self)@.well_formed(),
        ensures
            final(self)@ == old(self)@.queued(msg@),
            final(self)@.well_formed(),
    {
        self.queue.push_back(msg);
        proof {
            assert(self@.queue =~= old(self)@.queue.push(msg@));
            assert(old(self)@.queue.len() > 0 ==> self@.queue.first() == old(self)@.queue.first());
            assert(self@ == old(self)@.queued(msg@));
        }
    }

    /// How many messages wait in the queue.
    pub fn queue_size(&self) -> (n: usize)
        ensures
            n == self@.queue.len(),
    {
        self.queue.len()
    }

    /// How many requests wait for their response.
    pub fn pending_request_count(&self) -> (n: usize)
        ensures
            n == self@.pending.len(),
    {
        self.pending.len()
    }

    /// Registers a handler for the events called `event`. Handlers for one
    /// event are called in the order in which they were registered.
    pub fn on(&mut self, event: &str, handler: H)
        requires
            old(self)@.well_formed(),
        ensures
            final(self)@ == old(self)@.listening(event@, handler),
            final(self)@.well_formed(),
    {
        self.listeners.push(Listener { event: event.to_owned(), handler });
        proof {
            assert(self@.listeners =~= old(self)@.listeners.push(
                ListenerModel { event: event@, handler },
            ));
            assert(self@ == old(self)@.listening(event@, handler));
        }
    }

    /// The handlers that listen for `event`, in the order in which they
    /// were registered.
    pub fn handlers_for(&self, event: &str) -> (found: Vec<&H>)
        ensures
            found@.len() == handlers_of(self@.listeners, event@).len(),
            forall|k: int|
                0 <= k < found@.len() ==> *(#[trigger] found@[k]) == handlers_of(
                    self@.listeners,
                    event@,
                )[k],
    {
        let probe = event.to_owned();
        let mut found: Vec<&H> = Vec::new();
        let mut i: usize = 0;
        while i < self.listeners.len()
            invariant
                i <= self.listeners.len(),
                probe@ == event@,
                found@.len() == handlers_of(self@.listeners.subrange(0, i as int), event@).len(),
                forall|k: int|
                    0 <= k < found@.len() ==> *(#[trigger] found@[k]) == handlers_of(
                        self@.listeners.subrange(0, i as int),
                        event@,
                    )[k],
            decreases self.listeners.len() - i,
        {
            proof {
                let next = self@.listeners.subrange(0, i + 1);
                assert(next.drop_last() =~= self@.listeners.subrange(0, i as int));
                assert(next.last() == self.listeners@[i as int]@);
            }
            if self.listeners[i].event == probe {
                found.push(&self.listeners[i].handler);
            }
            i = i + 1;
        }
        proof {
            assert(self@.listeners.subrange(0, i as int) =~= self@.listeners);
        }
        found
    }

    /// Where in the table the request with this id stands.
    fn find_pending(&self, id: &str) -> (r: Option<usize>)
        requires
            self@.well_formed(),
        ensures
            match r {
                Some(i) => self@.index_of(id@) == Some(i as int) && i < self@.pending.len()
                    && self@.pending[i as int].id == id@,
                None => self@.index_of(id@) is None && !self@.holds(id@),
            },
    {
        let probe = id.to_owned();
        let mut i: usize = 0;
        while i < self.pending.len()
            invariant
                i <= self.pending.len(),
                probe@ == id@,
                self@.well_formed(),
                forall|k: int| 0 <= k < i ==> (#[trigger] self@.pending[k]).id != id@,
            decreases self.pending.len() - i,
        {
            if self.pending[i].id == probe {
                proof {
                    self@.lemma_index_is_unique(i as int, id@);
                }
                return Some(i);
            }
            i = i + 1;
        }
        None
    }

    /// Cancels the request with this id. It tells whether the request was
    /// waiting; if so it waits no longer, and its callback is dropped
    /// without being called.
    pub fn cancel_request(&mut self, id: &str) -> (found: bool)
        requires
            old(self)@.well_formed(),
        ensures
            found == old(self)@.holds(id@),
            final(self)@ == old(self)@.without(id@),
            final(self)@.well_formed(),
    {
        match self.find_pending(id) {
            Some(i) => {
                proof {
                    old(self)@.lemma_resolved_is_well_formed(i as int);
                }
                let _ = self.pending.remove(i);
                proof {
                    assert(self@.pending =~= old(self)@.pending.remove(i as int));
                }
                true
            },
            None => false,
        }
    }
}

impl<C, H> Default for IPCBridge<C, H> {
    /// The bridge that [`IPCBridge::new`] makes.
    fn default() -> (bridge: Self)
        ensures
            bridge@ == BridgeModel::<C, H>::fresh(DEFAULT_REQUEST_TIMEOUT_SECS),
            bridge@.well_formed(),
    {
        Self::new()
    }
}

impl<C> PendingRequest<C> {
    /// Whether the request is overdue at `now`.
    fn is_expired(&self, now: u64) -> (b: bool)
        ensures
            b == self@.expired(now),
    {
        let nanos_per_sec: u128 = NANOS_PER_SEC as u128;
        assert(nanos_per_sec == 1_000_000_000);
        now >= self.created_at && ((now - self.created_at) as u128) > (self.timeout_secs as u128)
            * nanos_per_sec
    }
}

impl<C, H> IPCBridge<C, H> {
    /// Sends a message to the worker.
    ///
    /// The message is encoded first; one that cannot be encoded is refused
    /// with a `SerializationError` and goes nowhere. With the channel there,
    /// the line is handed out to be written and flushed at once. Without
    /// it, the message is put at the end of the queue; that is no error.
    pub fn send_to_node(&mut self, msg: IPCMessage) -> (r: Result<Outbound, IPCError>)
        requires
            old(self)@.well_formed(),
        ensures
            final(self)@ == old(self)@.sent(msg@),
            final(self)@.well_formed(),
            send_outcome(old(self)@, msg@, r),
    {
        match encode_message_for_stdin(&msg) {
            Err(e) => Err(e),
            Ok(line) => {
                if self.attached {
                    Ok(Outbound::Write(line))
                } else {
                    self.queue_message(msg);
                    Ok(Outbound::Queued)
                }
            },
        }
    }

    /// Sends an event to the worker, with no reply expected. It returns as
    /// [`Self::send_to_node`] does for the event message.
    pub fn emit(&mut self, event: &str, payload: serde_json::Value) -> (r: Result<
        Outbound,
        IPCError,
    >)
        requires
            old(self)@.well_formed(),
        ensures
            final(self)@ == old(self)@.sent(WireMessage::event(event@, json_model(payload))),
            final(self)@.well_formed(),
            send_outcome(old(self)@, WireMessage::event(event@, json_model(payload)), r),
    {
        let msg = IPCMessage::event(event, payload);
        self.send_to_node(msg)
    }

    /// Asks for the next queued line to deliver.
    ///
    /// With the channel there, the messages at the head of the queue that
    /// cannot be encoded are dropped, and the line of the first one left is
    /// handed out. Its message stays at the head of the queue until
    /// [`Self::flush_confirmed`] is called: where the write fails, nothing
    /// is to be done, and the message is still the next to go. `None` says
    /// that nothing is left to deliver, or that there is no channel.
    pub fn flush_message_queue(&mut self) -> (line: Option<String>)
        requires
            old(self)@.well_formed(),
        ensures
            final(self)@ == old(self)@.flushed(),
            final(self)@.well_formed(),
            match line {
                Some(text) => old(self)@.next_line() == Some(text@),
                None => old(self)@.next_line() is None,
            },
    {
        if !self.attached {
            return None;
        }
        while self.queue.len() > 0
            invariant
                self@.well_formed(),
                self@.attached,
                old(self)@.attached,
                deliverable(self@.queue) == deliverable(old(self)@.queue),
                self@.pending == old(self)@.pending,
                self@.listeners == old(self)@.listeners,
                self@.default_timeout_secs == old(self)@.default_timeout_secs,
                self@.next_stamp == old(self)@.next_stamp,
            decreases self.queue.len(),
        {
            let head = &self.queue[0];
            assert(self@.queue.first() == head@);
            match encode_message_for_stdin(head) {
                Ok(line) => {
                    let ghost before = self@;
                    self.flushing = true;
                    proof {
                        assert(deliverable(before.queue) == before.queue);
                        assert(self@ == old(self)@.flushed());
                    }
                    return Some(line);
                },
                Err(_) => {
                    let ghost before = self@.queue;
                    let _ = self.queue.pop_front();
                    proof {
                        assert(self@.queue =~= before.drop_first());
                    }
                },
            }
        }
        self.flushing = false;
        proof {
            assert(self@.queue =~= Seq::empty());
            assert(self@ == old(self)@.flushed());
        }
        None
    }

    /// Confirms that the line handed out last by
    /// [`Self::flush_message_queue`] was written: its message leaves the
    /// queue. Where no line is out, nothing changes.
    pub fn flush_confirmed(&mut self)
        requires
            old(self)@.well_formed(),
        ensures
            final(self)@ == old(self)@.confirmed(),
            final(self)@.well_formed(),
    {
        if self.flushing {
            let _ = self.queue.pop_front();
            self.flushing = false;
            proof {
                assert(self@.queue =~= old(self)@.queue.drop_first());
                assert(self@ == old(self)@.confirmed());
            }
        }
    }

    /// Makes a request at time `now`, with the clock for ids reading
    /// `stamp`.
    ///
    /// The request gets the id of the stamp that is issued for it, which no
    /// request of this bridge had before; it waits for its response from
    /// `now` on, for `timeout_secs` seconds; and its message is sent as
    /// [`Self::send_to_node`] sends it. Where the message cannot be
    /// encoded, the error is returned and the request waits all the same,
    /// to run out of time later. Where the stamps are used up, nothing
    /// happens but the error.
    pub fn request_at(
        &mut self,
        event: &str,
        payload: serde_json::Value,
        timeout_secs: u64,
        callback: C,
        now: u64,
        stamp: u128,
    ) -> (r: Result<RequestSent, IPCError>)
        requires
            old(self)@.well_formed(),
        ensures
            final(self)@ == old(self)@.requested(
                event@,
                json_model(payload),
                timeout_secs,
                callback,
                now,
                stamp,
            ),
            final(self)@.well_formed(),
            request_outcome(old(self)@, event@, json_model(payload), stamp, r),
    {
        let id = match issue_request_id(&mut self.next_stamp, stamp) {
            Some(id) => id,
            None => {
                return Err(IPCError::Other(String::from_str("Request ids are used up")));
            },
        };
        let issued: u128 = self.next_stamp - 1;
        let msg = IPCMessage::request(id.as_str(), event, payload);
        let entry = PendingRequest {
            id: id.clone(),
            stamp: issued,
            event: event.to_owned(),
            callback,
            created_at: now,
            timeout_secs,
        };
        proof {
            old(self)@.lemma_registered_is_well_formed(entry@);
        }
        self.pending.push(entry);
        proof {
            assert(self@.pending =~= old(self)@.pending.push(entry@));
            assert(self@ == old(self)@.registered(entry@));
        }
        match self.send_to_node(msg) {
            Ok(outbound) => Ok(RequestSent { id, outbound }),
            Err(e) => Err(e),
        }
    }

    /// Makes a request with the bridge's default timeout. The stamp for the
    /// id is read from the system clock; the rest is
    /// [`Self::request_at`].
    ///
    /// The clock cannot make the request fail: while the bridge has a stamp
    /// left, the request is registered, and the only error is that of a
    /// message that cannot be encoded. The error `Other` comes exactly
    /// where the stamps of this bridge are used up, and then nothing
    /// changes.
    pub fn request(&mut self, event: &str, payload: serde_json::Value, callback: C, now: u64) -> (r:
        Result<RequestSent, IPCError>)
        requires
            old(self)@.well_formed(),
        ensures
            final(self)@.well_formed(),
            (r matches Err(e) && e is Other) <==> old(self)@.next_stamp == u128::MAX,
            old(self)@.next_stamp == u128::MAX ==> final(self)@ == old(self)@,
            old(self)@.next_stamp < u128::MAX ==> final(self)@.pending.len() == old(
                self,
            )@.pending.len() + 1,
            exists|stamp: u128|
                {
                    &&& stamp < u128::MAX
                    &&& final(self)@ == (#[trigger] old(self)@.requested(
                        event@,
                        json_model(payload),
                        old(self)@.default_timeout_secs,
                        callback,
                        now,
                        stamp,
                    ))
                    &&& request_outcome(old(self)@, event@, json_model(payload), stamp, r)
                },
    {
        let timeout_secs = self.request_timeout_secs;
        self.request_with_timeout(event, payload, timeout_secs, callback, now)
    }

    /// Makes a request that may take `timeout_secs` seconds. The stamp for
    /// the id is read from the system clock; the rest is
    /// [`Self::request_at`].
    ///
    /// The clock cannot make the request fail: while the bridge has a stamp
    /// left, the request is registered, and the only error is that of a
    /// message that cannot be encoded. The error `Other` comes exactly
    /// where the stamps of this bridge are used up, and then nothing
    /// changes.
    pub fn request_with_timeout(
        &mut self,
        event: &str,
        payload: serde_json::Value,
        timeout_secs: u64,
        callback: C,
        now: u64,
    ) -> (r: Result<RequestSent, IPCError>)
        requires
            old(self)@.well_formed(),
        ensures
            final(self)@.well_formed(),
            (r matches Err(e) && e is Other) <==> old(self)@.next_stamp == u128::MAX,
            old(self)@.next_stamp == u128::MAX ==> final(self)@ == old(self)@,
            old(self)@.next_stamp < u128::MAX ==> final(self)@.pending.len() == old(
                self,
            )@.pending.len() + 1,
            exists|stamp: u128|
                {
                    &&& stamp < u128::MAX
                    &&& final(self)@ == (#[trigger] old(self)@.requested(
                        event@,
                        json_model(payload),
                        timeout_secs,
                        callback,
                        now,
                        stamp,
                    ))
                    &&& request_outcome(old(self)@, event@, json_model(payload), stamp, r)
                },
    {
        let stamp = unix_nanos();
        self.request_at(event, payload, timeout_secs, callback, now, stamp)
    }

    /// Takes in one line that the worker wrote.
    ///
    /// A blank line is passed over, and so is a line that is no message:
    /// neither changes anything. A response whose id belongs to a request
    /// that waits takes that request out of the table and hands back its
    /// callback, with the payload, or with the error where the response
    /// carries one. A response that answers no waiting request, one that is
    /// late or was never asked for, is a message like any other and nothing
    /// is owed for it. Every message is handed back for the handlers of its
    /// event (see [`Self::handlers_for`]) and for the general hook.
    pub fn handle_stdout_line(&mut self, line: &str) -> (r: Inbound<C>)
        requires
            old(self)@.well_formed(),
        ensures
            final(self)@ == after_line(old(self)@, line@),
            final(self)@.well_formed(),
            inbound_matches(old(self)@, line@, r),
            r matches Inbound::Message { message, completion } ==> message@.well_formed(),
    {
        proof {
            lemma_blank_iff_trimmed_empty(line@);
        }
        let input = trim(line);
        if input.is_empty() {
            return Inbound::Blank;
        }
        let message = match parse_trimmed(input) {
            Ok(message) => message,
            Err(e) => {
                return Inbound::Malformed(e);
            },
        };
        let found = if message.msg_type == IPCMessageType::Response {
            match &message.id {
                Some(id) => self.find_pending(id.as_str()),
                None => None,
            }
        } else {
            None
        };
        let completion = match found {
            None => None,
            Some(i) => {
                proof {
                    old(self)@.lemma_resolved_is_well_formed(i as int);
                }
                let entry = self.pending.remove(i);
                proof {
                    assert(self@.pending =~= old(self)@.pending.remove(i as int));
                    assert(self@ == old(self)@.resolved(i as int));
                    assert(entry@ == old(self)@.pending[i as int]);
                }
                let result = match &message.error {
                    Some(error) => Err(error.clone()),
                    None => Ok(message.payload.clone()),
                };
                Some(Completion { callback: entry.callback, result })
            },
        };
        Inbound::Message { message, completion }
    }

    /// Sweeps the table at time `now`: every request whose age is more than
    /// its timeout is taken out and handed back, oldest first, with the
    /// error to call its callback with. The others wait on.
    pub fn check_timeouts(&mut self, now: u64) -> (found: Vec<Expired<C>>)
        requires
            old(self)@.well_formed(),
        ensures
            final(self)@ == old(self)@.swept(now),
            final(self)@.well_formed(),
            expired_matches(overdue(old(self)@.pending, now), found@),
    {
        let ghost table = self@.pending;
        let ghost n = table.len() as int;
        let ghost mut seen: int = 0;
        let mut found: Vec<Expired<C>> = Vec::new();
        let mut i: usize = 0;
        proof {
            assert(table.subrange(0, 0) =~= Seq::empty());
            assert(table.subrange(0, n) =~= table);
            assert(self@.pending =~= survivors(table.subrange(0, 0), now) + table.subrange(
                0,
                n,
            ));
        }
        while i < self.pending.len()
            invariant
                0 <= seen <= n,
                n == table.len(),
                table == old(self)@.pending,
                self@.well_formed(),
                i == survivors(table.subrange(0, seen), now).len(),
                self@.pending == survivors(table.subrange(0, seen), now) + table.subrange(
                    seen,
                    n,
                ),
                expired_matches(overdue(table.subrange(0, seen), now), found@),
                self@.attached == old(self)@.attached,
                self@.listeners == old(self)@.listeners,
                self@.queue == old(self)@.queue,
                self@.flushing == old(self)@.flushing,
                self@.default_timeout_secs == old(self)@.default_timeout_secs,
                self@.next_stamp == old(self)@.next_stamp,
            decreases n - seen,
        {
            proof {
                assert(seen < n);
                let next = table.subrange(0, seen + 1);
                assert(next.drop_last() =~= table.subrange(0, seen));
                assert(next.last() == table[seen]);
                assert(self@.pending[i as int] == table[seen]);
            }
            if self.pending[i].is_expired(now) {
                let ghost before = self@;
                proof {
                    before.lemma_resolved_is_well_formed(i as int);
                }
                let entry = self.pending.remove(i);
                let error = IPCError::Timeout(
                    decimal_string(entry.timeout_secs as u128).concat("s"),
                );
                found.push(Expired { id: entry.id, callback: entry.callback, error });
                proof {
                    assert(self@.pending =~= before.pending.remove(i as int));
                    assert(self@ == before.resolved(i as int));
                    assert(self@.pending =~= survivors(table.subrange(0, seen + 1), now)
                        + table.subrange(seen + 1, n));
                }
            } else {
                proof {
                    assert(self@.pending =~= survivors(table.subrange(0, seen + 1), now)
                        + table.subrange(seen + 1, n));
                }
                i = i + 1;
            }
            proof {
                seen = seen + 1;
            }
        }
        proof {
            assert(seen == n) by {
                if seen < n {
                    assert(self@.pending.len() == i + (n - seen));
                }
            }
            assert(table.subrange(0, n) =~= table);
            assert(self@.pending =~= survivors(table, now));
            assert(self@ == old(self)@.swept(now));
        }
        found
    }
}

} // verus!
