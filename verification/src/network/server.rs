//! The broadcast hub: the registry of connected slaves and the queues of
//! frames on their way to them.
//!
//! The hub is a state machine. The caller owns the sockets: it registers a
//! connection once its handshake is complete, hands inbound frames to the
//! hub, takes outbound frames from the hub in queue order and writes them,
//! and tells the hub when a connection has gone. Every outbound frame of a
//! connection passes through that connection's queue, so the order in which
//! a slave sees frames is the order in which they were queued.

use std::collections::VecDeque;
use vstd::prelude::*;
use vstd::string::*;
use crate::sync::protocol::SyncMessage;
use crate::sync::wire::{encode, encoded_as};
use crate::vecs::reversed;

verus! {

/// The character of a decimal digit.
pub open spec fn digit_char(digit: int) -> char {
    if digit == 0 {
        '0'
    } else if digit == 1 {
        '1'
    } else if digit == 2 {
        '2'
    } else if digit == 3 {
        '3'
    } else if digit == 4 {
        '4'
    } else if digit == 5 {
        '5'
    } else if digit == 6 {
        '6'
    } else if digit == 7 {
        '7'
    } else if digit == 8 {
        '8'
    } else {
        '9'
    }
}

/// A number in decimal, without sign or leading zeros.
pub open spec fn decimal(n: nat) -> Seq<char>
    decreases n,
{
    if n < 10 {
        seq![digit_char(n as int)]
    } else {
        decimal(n / 10).push(digit_char((n % 10) as int))
    }
}

/// The address that a hub listens on: every interface, at its port.
pub open spec fn listen_address_of(port: u16) -> Seq<char> {
    "0.0.0.0:"@ + decimal(port as nat)
}

fn digit_text(digit: u16) -> (text: &'static str)
    requires
        digit < 10,
    ensures
        text@ == seq![digit_char(digit as int)],
{
    proof {
        reveal_strlit("0");
        reveal_strlit("1");
        reveal_strlit("2");
        reveal_strlit("3");
        reveal_strlit("4");
        reveal_strlit("5");
        reveal_strlit("6");
        reveal_strlit("7");
        reveal_strlit("8");
        reveal_strlit("9");
    }
    let text = if digit == 0 {
        "0"
    } else if digit == 1 {
        "1"
    } else if digit == 2 {
        "2"
    } else if digit == 3 {
        "3"
    } else if digit == 4 {
        "4"
    } else if digit == 5 {
        "5"
    } else if digit == 6 {
        "6"
    } else if digit == 7 {
        "7"
    } else if digit == 8 {
        "8"
    } else {
        "9"
    };
    assert(text@ =~= seq![digit_char(digit as int)]);
    text
}

fn decimal_text(n: u16) -> (text: String)
    ensures
        text@ == decimal(n as nat),
    decreases n,
{
    if n < 10 {
        digit_text(n).to_owned()
    } else {
        let mut text = decimal_text(n / 10);
        text.append(digit_text(n % 10));
        text
    }
}

/// A frame on its way to a slave.
#[derive(Debug, Clone, PartialEq, Eq)]
pub enum Frame {
    /// An encoded protocol message.
    Text(String),
    /// The answer to a ping, carrying the ping's bytes.
    Pong(Vec<u8>),
}

pub enum FrameView {
    Text(Seq<char>),
    Pong(Seq<u8>),
}

impl View for Frame {
    type V = FrameView;

    open spec fn view(&self) -> FrameView {
        match *self {
            Frame::Text(text) => FrameView::Text(text@),
            Frame::Pong(data) => FrameView::Pong(data@),
        }
    }
}

/// What a slave's connection delivered.
#[derive(Debug, Clone, PartialEq, Eq)]
pub enum Inbound {
    /// A transport ping, to be answered with a pong of the same bytes.
    Ping(Vec<u8>),
    /// The close frame.
    Close,
    /// The connection failed while reading.
    Failed,
    /// Any other frame. Slaves send no protocol messages; whatever arrives
    /// is dropped.
    Other,
}

/// Whether to go on reading from a connection.
#[derive(Debug, Clone, Copy, PartialEq, Eq, Structural)]
pub enum ConnectionStep {
    Continue,
    Stop,
}

/// One registered connection as contracts see it.
pub struct ClientView {
    pub id: Seq<char>,
    /// The receiving end of the queue has gone away: nothing can be queued
    /// any more, and the next broadcast finds that out.
    pub broken: bool,
    /// Frames queued and not yet taken, oldest first.
    pub outbox: Seq<FrameView>,
}

struct ClientEntry {
    id: String,
    broken: bool,
    outbox: VecDeque<Frame>,
}

impl View for ClientEntry {
    type V = ClientView;

    closed spec fn view(&self) -> ClientView {
        ClientView {
            id: self.id@,
            broken: self.broken,
            outbox: self.outbox@.map_values(|f: Frame| f@),
        }
    }
}

impl ClientEntry {
    fn enqueue(&mut self, frame: Frame)
        ensures
            final(self)@ == (ClientView { outbox: old(self)@.outbox.push(frame@), ..old(self)@ }),
    {
        self.outbox.push_back(frame);
        assert(self.outbox@.map_values(|f: Frame| f@) =~= old(self).outbox@.map_values(
            |f: Frame| f@,
        ).push(frame@));
    }

    fn dequeue(&mut self) -> (frame: Frame)
        requires
            old(self)@.outbox.len() > 0,
        ensures
            frame@ == old(self)@.outbox[0],
            final(self)@ == (ClientView { outbox: old(self)@.outbox.skip(1), ..old(self)@ }),
    {
        assert(old(self).outbox@.len() == old(self)@.outbox.len());
        let frame = self.outbox.pop_front().unwrap();
        assert(self.outbox@.map_values(|f: Frame| f@) =~= old(self).outbox@.map_values(
            |f: Frame| f@,
        ).skip(1));
        frame
    }

    fn close(&mut self)
        ensures
            final(self)@ == (ClientView { broken: true, outbox: Seq::empty(), ..old(self)@ }),
    {
        self.broken = true;
        self.outbox.clear();
        assert(self.outbox@.map_values(|f: Frame| f@) =~= Seq::<FrameView>::empty());
    }
}

/// A connection just registered: open, with nothing queued.
pub open spec fn fresh_client(id: Seq<char>) -> ClientView {
    ClientView { id, broken: false, outbox: Seq::empty() }
}

/// No two connections share an identity.
pub open spec fn distinct_ids(clients: Seq<ClientView>) -> bool {
    forall|i: int, j: int| 0 <= i < j < clients.len() ==> clients[i].id != clients[j].id
}

/// Whether a connection of this identity is registered.
pub open spec fn registered(clients: Seq<ClientView>, id: Seq<char>) -> bool {
    exists|k: int| 0 <= k < clients.len() && #[trigger] clients[k].id == id
}

/// The place of the connection of this identity, where one is registered.
pub open spec fn slot_of(clients: Seq<ClientView>, id: Seq<char>) -> int {
    choose|k: int| 0 <= k < clients.len() && #[trigger] clients[k].id == id
}

/// A connection with one more frame at the end of its queue.
pub open spec fn with_frame(client: ClientView, frame: FrameView) -> ClientView {
    ClientView { outbox: client.outbox.push(frame), ..client }
}

/// The registry after one frame has been fanned out: every open connection
/// has the frame at the end of its queue, and every broken connection has
/// left the registry. The order of the remaining connections is kept.
pub open spec fn fan_out(clients: Seq<ClientView>, frame: FrameView) -> Seq<ClientView>
    decreases clients.len(),
{
    if clients.len() == 0 {
        Seq::empty()
    } else {
        let earlier = fan_out(clients.drop_last(), frame);
        let client = clients.last();
        if client.broken {
            earlier
        } else {
            earlier.push(with_frame(client, frame))
        }
    }
}

/// The registry after a run of frames has been fanned out one after the
/// other.
pub open spec fn fan_out_all(clients: Seq<ClientView>, frames: Seq<FrameView>) -> Seq<ClientView>
    decreases frames.len(),
{
    if frames.len() == 0 {
        clients
    } else {
        fan_out(fan_out_all(clients, frames.drop_last()), frames.last())
    }
}

/// Every connection that a fan-out leaves in the registry was open before
/// it, and the fan-out removes none twice: the result is no longer than the
/// registry and its identities are still unique.
pub proof fn lemma_fan_out_keeps_open(clients: Seq<ClientView>, frame: FrameView)
    ensures
        fan_out(clients, frame).len() <= clients.len(),
        forall|j: int|
            0 <= j < fan_out(clients, frame).len() ==> !(#[trigger] fan_out(clients, frame)[j]).broken
                && registered(clients, fan_out(clients, frame)[j].id),
        distinct_ids(clients) ==> distinct_ids(fan_out(clients, frame)),
    decreases clients.len(),
{
    if clients.len() > 0 {
        let front = clients.drop_last();
        let client = clients.last();
        let earlier = fan_out(front, frame);
        let out = fan_out(clients, frame);
        lemma_fan_out_keeps_open(front, frame);
        assert forall|j: int| 0 <= j < out.len() implies !(#[trigger] out[j]).broken && registered(
            clients,
            out[j].id,
        ) by {
            if j < earlier.len() {
                assert(out[j] == earlier[j]);
                let k = slot_of(front, earlier[j].id);
                assert(clients[k].id == out[j].id);
            } else {
                assert(clients[clients.len() - 1].id == out[j].id);
            }
        }
        if distinct_ids(clients) {
            assert(distinct_ids(front));
            assert forall|i: int, j: int| 0 <= i < j < out.len() implies out[i].id != out[j].id by {
                if j == earlier.len() {
                    let k = slot_of(front, earlier[i].id);
                    assert(clients[k].id == earlier[i].id);
                    assert(clients[k].id != clients[clients.len() - 1].id);
                }
            }
        }
    }
}

/// Delivery. Fanning a frame out gives every open connection exactly one
/// copy of it, at the end of its queue, and all of them the same frame.
/// Nothing is asked of the other connections: whether they are open or broken
/// makes no difference to this one.
pub proof fn lemma_fan_out_delivers(clients: Seq<ClientView>, frame: FrameView, i: int)
    requires
        distinct_ids(clients),
        0 <= i < clients.len(),
        !clients[i].broken,
    ensures
        distinct_ids(fan_out(clients, frame)),
        registered(fan_out(clients, frame), clients[i].id),
        fan_out(clients, frame)[slot_of(fan_out(clients, frame), clients[i].id)] == with_frame(
            clients[i],
            frame,
        ),
    decreases clients.len(),
{
    let out = fan_out(clients, frame);
    let front = clients.drop_last();
    let earlier = fan_out(front, frame);
    lemma_fan_out_keeps_open(clients, frame);
    lemma_fan_out_keeps_open(front, frame);
    // Find one place in the result that holds the connection's new state.
    let place = if i == clients.len() - 1 {
        earlier.len() as int
    } else {
        lemma_fan_out_delivers(front, frame, i);
        slot_of(earlier, clients[i].id)
    };
    assert(0 <= place < out.len() && out[place] == with_frame(clients[i], frame));
    assert(out[place].id == clients[i].id);
    let chosen = slot_of(out, clients[i].id);
    if chosen < place {
        assert(out[chosen].id != out[place].id);
    } else if place < chosen {
        assert(out[place].id != out[chosen].id);
    }
}

/// Failure isolation. A broken connection in the registry changes nothing
/// for the others: the fan-out ends as it would have without it.
pub proof fn lemma_broken_connection_is_isolated(clients: Seq<ClientView>, frame: FrameView, at: int)
    requires
        0 <= at < clients.len(),
        clients[at].broken,
    ensures
        fan_out(clients, frame) == fan_out(clients.remove(at), frame),
    decreases clients.len(),
{
    let front = clients.drop_last();
    if at == clients.len() - 1 {
        assert(clients.remove(at) =~= front);
    } else {
        lemma_broken_connection_is_isolated(front, frame, at);
        assert(clients.remove(at).drop_last() =~= front.remove(at));
        assert(clients.remove(at).last() == clients.last());
    }
}

/// Order. A connection that is open when a run of frames is fanned out has
/// the whole run at the end of its queue, in the order of the run. Frames
/// leave a queue from its front, so the slave sees them in that order.
pub proof fn lemma_fan_out_all_keeps_order(clients: Seq<ClientView>, frames: Seq<FrameView>, i: int)
    requires
        distinct_ids(clients),
        0 <= i < clients.len(),
        !clients[i].broken,
    ensures
        distinct_ids(fan_out_all(clients, frames)),
        registered(fan_out_all(clients, frames), clients[i].id),
        fan_out_all(clients, frames)[slot_of(fan_out_all(clients, frames), clients[i].id)] == (
        ClientView { outbox: clients[i].outbox + frames, ..clients[i] }),
    decreases frames.len(),
{
    let id = clients[i].id;
    if frames.len() == 0 {
        assert(clients[i].outbox + frames =~= clients[i].outbox);
        let chosen = slot_of(clients, id);
        if chosen < i {
            assert(clients[chosen].id != clients[i].id);
        } else if i < chosen {
            assert(clients[i].id != clients[chosen].id);
        }
    } else {
        let before = fan_out_all(clients, frames.drop_last());
        lemma_fan_out_all_keeps_order(clients, frames.drop_last(), i);
        let k = slot_of(before, id);
        lemma_fan_out_delivers(before, frames.last(), k);
        assert((clients[i].outbox + frames.drop_last()).push(frames.last()) =~= clients[i].outbox
            + frames);
    }
}

/// Why a hub is not listening: the address it tried and what the system
/// said.
#[derive(Debug, Clone, PartialEq, Eq)]
pub struct BindError {
    pub address: String,
    pub reason: String,
}

/// The text of a failure to bind.
pub open spec fn bind_failure_text(address: Seq<char>, reason: Seq<char>) -> Seq<char> {
    "Failed to bind to "@ + address + ": "@ + reason
}

impl BindError {
    /// The failure in words: the address, then the system's reason.
    pub fn describe(&self) -> (text: String)
        ensures
            text@ == bind_failure_text(self.address@, self.reason@),
    {
        let mut text = "Failed to bind to ".to_owned();
        text.append(self.address.as_str());
        text.append(": ");
        text.append(self.reason.as_str());
        text
    }
}

/// What one fan-out did.
#[derive(Debug, Clone, Copy, PartialEq, Eq, Structural)]
pub struct BroadcastReport {
    /// Connections that had the frame queued.
    pub delivered: usize,
    /// Connections found broken, and removed.
    pub failed: usize,
}

/// The broadcast hub of a master.
pub struct MasterServer {
    port: u16,
    clients: Vec<ClientEntry>,
}

impl MasterServer {
    /// The registry, in order of registration.
    pub closed spec fn clients(&self) -> Seq<ClientView> {
        self.clients@.map_values(|e: ClientEntry| e@)
    }

    pub closed spec fn spec_port(&self) -> u16 {
        self.port
    }

    /// The hub's invariant: identities are unique.
    pub open spec fn wf(&self) -> bool {
        distinct_ids(self.clients())
    }

    /// A hub for the given port, with no connection.
    pub fn new(port: u16) -> (hub: Self)
        ensures
            hub.wf(),
            hub.clients() == Seq::<ClientView>::empty(),
            hub.spec_port() == port,
    {
        let hub = MasterServer { port, clients: Vec::new() };
        assert(hub.clients() =~= Seq::<ClientView>::empty());
        hub
    }

    #[verifier::when_used_as_spec(spec_port)]
    pub fn port(&self) -> (port: u16)
        ensures
            port == self.spec_port(),
    {
        self.port
    }

    /// Number of registered connections. For display: by the time the
    /// caller looks at the number, the registry may have changed.
    pub fn get_connected_clients_count(&self) -> (count: usize)
        ensures
            count == self.clients().len(),
    {
        self.clients.len()
    }

    fn find(&self, id: &String) -> (found: Option<usize>)
        requires
            self.wf(),
        ensures
            found is Some == registered(self.clients(), id@),
            found matches Some(k) ==> k == slot_of(self.clients(), id@) && k < self.clients().len()
                && self.clients()[k as int].id == id@,
    {
        let mut k: usize = 0;
        while k < self.clients.len()
            invariant
                self.wf(),
                k <= self.clients@.len(),
                forall|j: int| 0 <= j < k ==> self.clients()[j].id != id@,
                self.clients().len() == self.clients@.len(),
            decreases self.clients@.len() - k,
        {
            if self.clients[k].id == *id {
                proof {
                    let clients = self.clients();
                    assert(clients[k as int].id == id@);
                    let c = slot_of(clients, id@);
                    assert(0 <= c < clients.len() && clients[c].id == id@);
                    if c < k {
                        assert(clients[c].id != clients[k as int].id);
                    } else if k < c {
                        assert(clients[k as int].id != clients[c].id);
                    }
                }
                return Some(k);
            }
            k = k + 1;
        }
        None
    }

    /// Whether a connection of this identity is registered.
    pub fn is_registered(&self, client_id: &String) -> (found: bool)
        requires
            self.wf(),
        ensures
            found == registered(self.clients(), client_id@),
    {
        self.find(client_id).is_some()
    }

    /// Registers a connection whose handshake is complete. Its queue starts
    /// empty. An identity already in the registry is taken over: the old
    /// queue is dropped with whatever it held.
    pub fn register(&mut self, client_id: String)
        requires
            old(self).wf(),
        ensures
            final(self).wf(),
            final(self).spec_port() == old(self).spec_port(),
            registered(old(self).clients(), client_id@) ==> final(self).clients() == old(
                self,
            ).clients().update(slot_of(old(self).clients(), client_id@), fresh_client(client_id@)),
            !registered(old(self).clients(), client_id@) ==> final(self).clients() == old(
                self,
            ).clients().push(fresh_client(client_id@)),
    {
        let entry = ClientEntry { id: client_id, broken: false, outbox: VecDeque::new() };
        assert(entry@ == fresh_client(client_id@)) by {
            assert(entry.outbox@.map_values(|f: Frame| f@) =~= Seq::<FrameView>::empty());
        }
        match self.find(&entry.id) {
            Some(k) => {
                self.clients.set(k, entry);
                assert(self.clients() =~= old(self).clients().update(k as int, fresh_client(client_id@)));
            },
            None => {
                self.clients.push(entry);
                assert(self.clients() =~= old(self).clients().push(fresh_client(client_id@)));
            },
        }
    }

    /// Removes a connection: it has closed, failed, or its stream has ended.
    /// Returns whether it was registered.
    pub fn unregister(&mut self, client_id: &String) -> (removed: bool)
        requires
            old(self).wf(),
        ensures
            final(self).wf(),
            final(self).spec_port() == old(self).spec_port(),
            removed == registered(old(self).clients(), client_id@),
            removed ==> final(self).clients() == old(self).clients().remove(
                slot_of(old(self).clients(), client_id@),
            ),
            !removed ==> final(self).clients() == old(self).clients(),
    {
        match self.find(client_id) {
            Some(k) => {
                let _ = self.clients.remove(k);
                assert(self.clients() =~= old(self).clients().remove(k as int));
                true
            },
            None => false,
        }
    }

    /// Marks a connection's queue as broken: its receiving end has gone away
    /// while the connection is still registered. What was queued is lost.
    pub fn close_channel(&mut self, client_id: &String)
        requires
            old(self).wf(),
        ensures
            final(self).wf(),
            final(self).spec_port() == old(self).spec_port(),
            registered(old(self).clients(), client_id@) ==> {
                let k = slot_of(old(self).clients(), client_id@);
                final(self).clients() == old(self).clients().update(
                    k,
                    ClientView { broken: true, outbox: Seq::empty(), ..old(self).clients()[k] },
                )
            },
            !registered(old(self).clients(), client_id@) ==> final(self).clients() == old(
                self,
            ).clients(),
    {
        match self.find(client_id) {
            Some(k) => {
                self.clients[k].close();
                assert(self.clients() =~= old(self).clients().update(
                    k as int,
                    ClientView { broken: true, outbox: Seq::empty(), ..old(self).clients()[k as int] },
                ));
            },
            None => {},
        }
    }

    /// Takes the oldest queued frame of a connection, for writing to its
    /// socket. `None` where nothing is queued, the queue is broken, or the
    /// connection is not registered.
    pub fn next_outbound(&mut self, client_id: &String) -> (frame: Option<Frame>)
        requires
            old(self).wf(),
        ensures
            final(self).wf(),
            final(self).spec_port() == old(self).spec_port(),
            registered(old(self).clients(), client_id@) && old(self).clients()[slot_of(
                old(self).clients(),
                client_id@,
            )].outbox.len() > 0 ==> {
                let k = slot_of(old(self).clients(), client_id@);
                let client = old(self).clients()[k];
                &&& frame matches Some(f) && f@ == client.outbox[0]
                &&& final(self).clients() == old(self).clients().update(
                    k,
                    ClientView { outbox: client.outbox.skip(1), ..client },
                )
            },
            !(registered(old(self).clients(), client_id@) && old(self).clients()[slot_of(
                old(self).clients(),
                client_id@,
            )].outbox.len() > 0) ==> frame is None && final(self).clients() == old(self).clients(),
    {
        match self.find(client_id) {
            Some(k) => {
                if self.clients[k].outbox.len() == 0 {
                    assert(self.clients()[k as int].outbox.len() == self.clients@[k as int].outbox@.len());
                    return None;
                }
                assert(self.clients()[k as int].outbox.len() == self.clients@[k as int].outbox@.len());
                let frame = self.clients[k].dequeue();
                assert(self.clients() =~= old(self).clients().update(
                    k as int,
                    ClientView {
                        outbox: old(self).clients()[k as int].outbox.skip(1),
                        ..old(self).clients()[k as int]
                    },
                ));
                Some(frame)
            },
            None => None,
        }
    }

    /// Fans an encoded message out: queues the same text for every open
    /// connection, and removes every connection found broken. One broken
    /// connection does not keep the text from the others, and no failure is
    /// an error of the hub: failures are counted in the report.
    pub fn broadcast(&mut self, text: &str) -> (report: BroadcastReport)
        requires
            old(self).wf(),
        ensures
            final(self).wf(),
            final(self).spec_port() == old(self).spec_port(),
            final(self).clients() == fan_out(old(self).clients(), FrameView::Text(text@)),
            report.delivered == final(self).clients().len(),
            report.delivered + report.failed == old(self).clients().len(),
    {
        let ghost all = self.clients();
        let ghost entries = self.clients@;
        let ghost frame = FrameView::Text(text@);
        let mut taken: Vec<ClientEntry> = Vec::new();
        std::mem::swap(&mut self.clients, &mut taken);
        let total = taken.len();
        let mut rest = reversed(taken);
        let mut kept: Vec<ClientEntry> = Vec::new();
        let mut failed: usize = 0;
        let mut k: usize = 0;
        proof {
            assert(all.len() == total);
            assert(all.take(0) =~= Seq::<ClientView>::empty());
            assert(kept@.map_values(|e: ClientEntry| e@) =~= fan_out(all.take(0), frame));
        }
        while rest.len() > 0
            invariant
                self.port == old(self).port,
                all == entries.map_values(|e: ClientEntry| e@),
                all.len() == total,
                frame == FrameView::Text(text@),
                k + rest@.len() == all.len(),
                forall|j: int| 0 <= j < rest@.len() ==> rest@[j] == entries[entries.len() - 1 - j],
                kept@.map_values(|e: ClientEntry| e@) == fan_out(all.take(k as int), frame),
                kept@.len() + failed == k,
            decreases rest@.len(),
        {
            let ghost before = kept@.map_values(|e: ClientEntry| e@);
            let mut entry = rest.pop().unwrap();
            proof {
                assert(entry == entries[k as int]);
                assert(entry@ == all[k as int]);
                assert(all.take(k + 1).drop_last() =~= all.take(k as int));
                assert(all.take(k + 1).last() == all[k as int]);
            }
            if entry.broken {
                failed = failed + 1;
            } else {
                let queued = Frame::Text(text.to_owned());
                assert(queued@ == frame);
                entry.enqueue(queued);
                assert(entry@ == with_frame(all[k as int], frame));
                kept.push(entry);
                assert(kept@.map_values(|e: ClientEntry| e@) =~= before.push(
                    with_frame(all[k as int], frame),
                ));
            }
            k = k + 1;
        }
        proof {
            assert(all.take(k as int) =~= all);
            lemma_fan_out_keeps_open(all, frame);
        }
        self.clients = kept;
        BroadcastReport { delivered: self.clients.len(), failed }
    }

    /// Handles what a connection delivered. A ping is answered: a pong with
    /// the ping's bytes is queued for that connection, unless its queue is
    /// broken, which is not an error here. A close frame or a read failure
    /// ends the connection, which leaves the registry. Anything else is
    /// dropped.
    pub fn on_inbound(&mut self, client_id: &String, inbound: Inbound) -> (step: ConnectionStep)
        requires
            old(self).wf(),
        ensures
            final(self).wf(),
            final(self).spec_port() == old(self).spec_port(),
            step == (if inbound is Close || inbound is Failed {
                ConnectionStep::Stop
            } else {
                ConnectionStep::Continue
            }),
            final(self).clients() == after_inbound(old(self).clients(), client_id@, inbound),
    {
        match inbound {
            Inbound::Ping(data) => {
                match self.find(client_id) {
                    Some(k) => {
                        if !self.clients[k].broken {
                            assert(!self.clients()[k as int].broken);
                            self.clients[k].enqueue(Frame::Pong(data));
                            assert(self.clients() =~= old(self).clients().update(
                                k as int,
                                with_frame(old(self).clients()[k as int], FrameView::Pong(data@)),
                            ));
                        } else {
                            assert(self.clients()[k as int].broken);
                        }
                    },
                    None => {},
                }
                ConnectionStep::Continue
            },
            Inbound::Close => {
                let _ = self.unregister(client_id);
                ConnectionStep::Stop
            },
            Inbound::Failed => {
                let _ = self.unregister(client_id);
                ConnectionStep::Stop
            },
            Inbound::Other => ConnectionStep::Continue,
        }
    }

    /// Encodes a message once and fans the text out. Where printing the
    /// message gives a text, that one text is queued for every open
    /// connection, as `broadcast` does it. Where it gives none, there is no
    /// report: nothing is queued, nothing is removed, and the hub goes on
    /// with the next message.
    pub fn broadcast_message(&mut self, message: &SyncMessage) -> (report: Option<BroadcastReport>)
        requires
            old(self).wf(),
        ensures
            final(self).wf(),
            final(self).spec_port() == old(self).spec_port(),
            exists|text: Option<Seq<char>>| #[trigger]
                encoded_as(message@, text) && broadcast_outcome(
                    old(self).clients(),
                    text,
                    final(self).clients(),
                    report,
                ),
    {
        match encode(message) {
            Some(text) => {
                let report = self.broadcast(text.as_str());
                proof {
                    let printed = Some(text@);
                    assert(encoded_as(message@, printed) && broadcast_outcome(
                        old(self).clients(),
                        printed,
                        self.clients(),
                        Some(report),
                    ));
                }
                Some(report)
            },
            None => {
                proof {
                    let printed = None::<Seq<char>>;
                    assert(encoded_as(message@, printed) && broadcast_outcome(
                        old(self).clients(),
                        printed,
                        self.clients(),
                        None::<BroadcastReport>,
                    ));
                }
                None
            },
        }
    }

    /// Takes note of the attempt to bind the listening socket. A failure
    /// ends the start, and is reported with the address that was tried; the
    /// hub does not try again by itself, since a later attempt that the
    /// operator makes may well succeed. The registry is as it was either way.
    pub fn start(&self, bound: Result<(), String>) -> (out: Result<(), BindError>)
        ensures
            match bound {
                Ok(_) => out is Ok,
                Err(reason) => out matches Err(e) && e.reason == reason && e.address@
                    == listen_address_of(self.spec_port()),
            },
    {
        match bound {
            Ok(_) => Ok(()),
            Err(reason) => Err(BindError { address: self.listen_address(), reason }),
        }
    }

    /// The address to listen on: all interfaces, at the hub's port.
    pub fn listen_address(&self) -> (address: String)
        ensures
            address@ == listen_address_of(self.spec_port()),
    {
        let mut address = "0.0.0.0:".to_owned();
        let digits = decimal_text(self.port);
        address.append(digits.as_str());
        address
    }
}

/// What fanning out the text of a message comes to, given what printing
/// the message gave. With a text, the registry is as `fan_out` leaves it and
/// the report counts the connections that kept and the connections that
/// left. Without one, the registry is as it was and there is no report.
pub open spec fn broadcast_outcome(
    before: Seq<ClientView>,
    text: Option<Seq<char>>,
    after: Seq<ClientView>,
    report: Option<BroadcastReport>,
) -> bool {
    match text {
        Some(t) => {
            &&& after == fan_out(before, FrameView::Text(t))
            &&& report matches Some(r)
            &&& r.delivered == after.len()
            &&& r.delivered + r.failed == before.len()
        },
        None => after == before && report is None,
    }
}

/// The registry after a connection has delivered `inbound`.
pub open spec fn after_inbound(clients: Seq<ClientView>, id: Seq<char>, inbound: Inbound) -> Seq<
    ClientView,
> {
    if !registered(clients, id) {
        clients
    } else {
        let k = slot_of(clients, id);
        match inbound {
            Inbound::Ping(data) => if clients[k].broken {
                clients
            } else {
                clients.update(k, with_frame(clients[k], FrameView::Pong(data@)))
            },
            Inbound::Close => clients.remove(k),
            Inbound::Failed => clients.remove(k),
            Inbound::Other => clients,
        }
    }
}

} // verus!