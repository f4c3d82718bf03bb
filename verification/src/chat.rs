use vstd::prelude::*;

use crate::store::has_user_uuid;
use crate::store::history_line;
use crate::store::history_window_start;
use crate::store::lemma_lookup_user;
use crate::store::lookup_user;
use crate::store::Store;

verus! {

/// How many in-flight lines the broadcast bus retains for slow receivers.
pub const BUS_CAPACITY: usize = 100;

/// One connection's cursor into the broadcast bus: the index of the next
/// line it has yet to observe.
#[derive(Clone, Copy)]
pub struct ChatReceiver {
    pub next: usize,
}

/// The chat fan-out state: the connection registry and the broadcast bus.
/// `sent` records every line ever published, in send order; receivers only
/// ever observe a suffix of it, bounded by the retained capacity.
pub struct ChatHub {
    pub clients: Vec<String>,
    pub sent: Vec<String>,
    pub capacity: usize,
}

/// A connection identifier is present in the registry.
pub open spec fn has_client(hub: ChatHub, client_id: Seq<char>) -> bool {
    exists|i: int| 0 <= i < hub.clients@.len() && (#[trigger] hub.clients@[i])@ == client_id
}

/// One publication: the line is appended to the send history and nothing
/// else of the hub changes.
pub open spec fn published(pre: ChatHub, post: ChatHub, line: String) -> bool {
    &&& post.sent@ == pre.sent@.push(line)
    &&& post.clients@ == pre.clients@
    &&& post.capacity == pre.capacity
}

/// The lines a receiver has yet to observe, oldest first.
pub open spec fn pending(r: ChatReceiver, hub: ChatHub) -> Seq<String> {
    hub.sent@.skip(r.next as int)
}

/// What one call of `recv` yielded.
pub enum RecvOutcome {
    /// Nothing is pending.
    Empty,
    /// The receiver fell behind the retained window and was moved forward.
    Lagged,
    /// The oldest pending line.
    Message(String),
}

impl ChatHub {
    /// The hub's invariants: a positive retained capacity and no connection
    /// identifier registered twice.
    pub open spec fn wf(self) -> bool {
        &&& self.capacity >= 1
        &&& forall|i: int, j: int|
            0 <= i < j < self.clients@.len() ==> (#[trigger] self.clients@[i])@ != (
            #[trigger] self.clients@[j])@
    }

    /// A receiver is consistent with this hub: it points no further than the
    /// end of the send history.
    pub open spec fn receiver_wf(self, r: ChatReceiver) -> bool {
        r.next <= self.sent@.len()
    }

    /// An empty hub with the given retained capacity.
    pub fn new(capacity: usize) -> (r: ChatHub)
        requires
            capacity >= 1,
        ensures
            r.wf(),
            r.clients@ == Seq::<String>::empty(),
            r.sent@ == Seq::<String>::empty(),
            r.capacity == capacity,
    {
        ChatHub { clients: Vec::new(), sent: Vec::new(), capacity }
    }

    /// Registers a connection identifier; registering one a second time
    /// changes nothing.
    #[verifier::loop_isolation(false)]
    pub fn register(&mut self, client_id: String)
        requires
            old(self).wf(),
        ensures
            final(self).wf(),
            final(self).sent@ == old(self).sent@,
            final(self).capacity == old(self).capacity,
            has_client(*final(self), client_id@),
            has_client(*old(self), client_id@) ==> *final(self) == *old(self),
            !has_client(*old(self), client_id@) ==> final(self).clients@ == old(
                self,
            ).clients@.push(client_id),
    {
        let n = self.clients.len();
        for i in 0..n
            invariant
                *self == *old(self),
                n == self.clients@.len(),
                forall|k: int| 0 <= k < i ==> (#[trigger] self.clients@[k])@ != client_id@,
        {
            if crate::text::str_eq(self.clients[i].as_str(), client_id.as_str()) {
                assert(has_client(*self, client_id@)) by {
                    assert((self.clients@[i as int])@ == client_id@);
                }
                return ;
            }
        }
        let ghost pre = self.clients@;
        self.clients.push(client_id);
        proof {
            assert((self.clients@[pre.len() as int])@ == client_id@);
            assert forall|a: int, b: int|
                0 <= a < b < self.clients@.len() implies (#[trigger] self.clients@[a])@ != (
            #[trigger] self.clients@[b])@ by {
                assert(self.clients@[a] == pre[a]);
                if b < pre.len() {
                    assert(self.clients@[b] == pre[b]);
                }
            }
        }
    }

    /// Removes a connection identifier from the registry, if present;
    /// afterwards it is not registered.
    #[verifier::loop_isolation(false)]
    pub fn unregister(&mut self, client_id: &str)
        requires
            old(self).wf(),
        ensures
            final(self).wf(),
            final(self).sent@ == old(self).sent@,
            final(self).capacity == old(self).capacity,
            !has_client(*final(self), client_id@),
            has_client(*old(self), client_id@) ==> exists|i: int|
                0 <= i < old(self).clients@.len() && (#[trigger] old(self).clients@[i])@
                    == client_id@ && final(self).clients@ == old(self).clients@.remove(i),
            !has_client(*old(self), client_id@) ==> *final(self) == *old(self),
    {
        let n = self.clients.len();
        for i in 0..n
            invariant
                *self == *old(self),
                n == self.clients@.len(),
                forall|k: int| 0 <= k < i ==> (#[trigger] self.clients@[k])@ != client_id@,
        {
            if crate::text::str_eq(self.clients[i].as_str(), client_id) {
                let ghost pre = self.clients@;
                self.clients.remove(i);
                proof {
                    pre.remove_ensures(i as int);
                    assert forall|k: int|
                        0 <= k < self.clients@.len() implies (#[trigger] self.clients@[k])@
                        != client_id@ by {
                        if k < i {
                            assert(self.clients@[k] == pre[k]);
                        } else {
                            assert(self.clients@[k] == pre[k + 1]);
                        }
                    }
                    assert forall|a: int, b: int|
                        0 <= a < b < self.clients@.len() implies (#[trigger] self.clients@[a])@
                        != (#[trigger] self.clients@[b])@ by {
                        let a0: int = if a < i { a } else { a + 1 };
                        let b0: int = if b < i { b } else { b + 1 };
                        assert(self.clients@[a] == pre[a0]);
                        assert(self.clients@[b] == pre[b0]);
                    }
                }
                return ;
            }
        }
    }

    /// Hands out a receiver that will observe everything published from this
    /// moment on, in send order.
    pub fn subscribe(&self) -> (r: ChatReceiver)
        ensures
            self.receiver_wf(r),
            r.next == self.sent@.len(),
            pending(r, *self) == Seq::<String>::empty(),
    {
        let r = ChatReceiver { next: self.sent.len() };
        proof {
            assert(pending(r, *self) =~= Seq::<String>::empty());
        }
        r
    }

    /// Publishes one line to every subscriber: it is appended to the send
    /// history, and nothing else changes.
    pub fn publish(&mut self, line: String)
        requires
            old(self).wf(),
        ensures
            final(self).wf(),
            published(*old(self), *final(self), line),
    {
        self.sent.push(line);
    }

    /// Takes the oldest pending line for a receiver, if any. A receiver that
    /// fell behind the retained window is moved forward to the oldest
    /// retained line and told so; otherwise lines come strictly in send
    /// order, each delivered at most once.
    pub fn recv(&self, r: &mut ChatReceiver) -> (o: RecvOutcome)
        requires
            self.wf(),
            self.receiver_wf(*old(r)),
        ensures
            self.receiver_wf(*final(r)),
            old(r).next == self.sent@.len() ==> o is Empty && *final(r) == *old(r),
            self.sent@.len() - old(r).next > self.capacity ==> o is Lagged && final(r).next
                == self.sent@.len() - self.capacity,
            old(r).next < self.sent@.len() && self.sent@.len() - old(r).next <= self.capacity
                ==> (o matches RecvOutcome::Message(m) && m == self.sent@[old(r).next as int]
                && final(r).next == old(r).next + 1),
    {
        let len = self.sent.len();
        if r.next == len {
            RecvOutcome::Empty
        } else if len - r.next > self.capacity {
            r.next = len - self.capacity;
            RecvOutcome::Lagged
        } else {
            let m = self.sent[r.next].clone();
            r.next = r.next + 1;
            RecvOutcome::Message(m)
        }
    }
}

/// Law: a line published on the bus is observed by every subscribed
/// receiver, the publisher's own included: publishing appends the line to
/// each receiver's pending stream, after everything published before it, so
/// receivers see lines in send order.
pub proof fn lemma_publish_fanout(pre: ChatHub, post: ChatHub, line: String, r: ChatReceiver)
    requires
        published(pre, post, line),
        pre.receiver_wf(r),
    ensures
        post.receiver_wf(r),
        pending(r, post) == pending(r, pre).push(line),
{
    assert(pending(r, post) =~= pending(r, pre).push(line));
}

/// Law: a receiver that keeps up drains its pending stream strictly in
/// order: a delivered line is the oldest pending one, and exactly it leaves
/// the stream.
pub proof fn lemma_recv_in_order(hub: ChatHub, pre: ChatReceiver, post: ChatReceiver, m: String)
    requires
        pre.next < hub.sent@.len(),
        post.next == pre.next + 1,
        m == hub.sent@[pre.next as int],
    ensures
        pending(pre, hub).len() > 0,
        m == pending(pre, hub).first(),
        pending(post, hub) == pending(pre, hub).drop_first(),
{
    assert(pending(post, hub) =~= pending(pre, hub).drop_first());
}

/// How the attempt to persist an inbound message ended.
#[derive(Clone, Copy, PartialEq, Eq, Structural, Debug)]
pub enum PersistOutcome {
    Saved,
    Failed,
}

/// Publishes a chat line after the attempt to persist its message. A failed
/// attempt is logged and dropped by the caller; the bus is updated the same
/// way whatever the outcome, so fan-out never waits on storage.
pub fn broadcast_message(hub: &mut ChatHub, persist: PersistOutcome, line: String)
    requires
        old(hub).wf(),
    ensures
        final(hub).wf(),
        published(*old(hub), *final(hub), line),
{
    match persist {
        PersistOutcome::Saved => {},
        PersistOutcome::Failed => {},
    }
    hub.publish(line)
}

/// Law: fan-out is independent of persistence: from the same hub, handling
/// the same line under any two persistence outcomes publishes it both times
/// and leaves the same bus and registry behind.
pub proof fn lemma_fanout_independent_of_persistence(
    pre: ChatHub,
    post1: ChatHub,
    post2: ChatHub,
    line: String,
)
    requires
        published(pre, post1, line),
        published(pre, post2, line),
    ensures
        post1.sent@ == post2.sent@,
        post1.clients@ == post2.clients@,
        post1.sent@.last() == line,
{
}

/// What serde_json's parse of an inbound chat frame yields: the message body
/// when the frame is a JSON object whose "message", "ip" and "mac" fields
/// are strings, nothing otherwise. A function of the frame text alone.
pub uninterp spec fn client_message_body_of(raw: Seq<char>) -> Option<Seq<char>>;

/// Relies on serde_json::from_str: reads an inbound chat frame and hands out
/// its message body.
#[verifier::external_body]
fn parse_client_message(raw: &str) -> (r: Option<String>)
    ensures
        r is Some <==> client_message_body_of(raw@) is Some,
        r matches Some(m) ==> client_message_body_of(raw@) == Some(m@),
{
    let v: serde_json::Value = serde_json::from_str(raw).ok()?;
    let m = v.get("message")?.as_str()?;
    v.get("ip")?.as_str()?;
    v.get("mac")?.as_str()?;
    Some(m.to_string())
}

/// One live chat line: the sender's username, a separator, and the body.
pub open spec fn chat_line(username: Seq<char>, body: Seq<char>) -> Seq<char> {
    username + ": "@ + body
}

/// Renders the line broadcast for a chat message.
pub fn format_chat_line(username: &str, body: &str) -> (r: String)
    ensures
        r@ == chat_line(username@, body@),
{
    String::from_str(username).concat(": ").concat(body)
}

/// One frame arriving on a connection's socket.
pub enum InboundFrame {
    /// A text frame, expected to hold a chat message.
    Text(String),
    /// The peer closed the connection.
    Close,
    /// Any other frame kind; ignored.
    Other,
}

/// What the reader loop does with one inbound frame.
pub enum ReaderAction {
    /// Persist the body (best-effort) and broadcast the line.
    Publish(String, String),
    /// Skip the frame.
    Ignore,
    /// Clean the connection up and stop.
    Disconnect,
}

/// Decides what one inbound frame leads to, as the reader loop does: a text
/// frame that parses as a chat message is persisted and broadcast under the
/// sender's display name, an unparseable one is skipped, a close frame ends
/// the connection, and any other frame is ignored.
pub fn reader_step(frame: &InboundFrame, username: &str) -> (a: ReaderAction)
    ensures
        frame matches InboundFrame::Text(raw) ==> {
            &&& (client_message_body_of(raw@) matches Some(b) ==> (a matches ReaderAction::Publish(
                body,
                line,
            ) && body@ == b && line@ == chat_line(username@, b)))
            &&& (client_message_body_of(raw@) is None ==> a is Ignore)
        },
        frame is Close ==> a is Disconnect,
        frame is Other ==> a is Ignore,
{
    match frame {
        InboundFrame::Text(raw) => match parse_client_message(raw.as_str()) {
            Some(body) => {
                let line = format_chat_line(username, body.as_str());
                ReaderAction::Publish(body, line)
            },
            None => ReaderAction::Ignore,
        },
        InboundFrame::Close => ReaderAction::Disconnect,
        InboundFrame::Other => ReaderAction::Ignore,
    }
}

/// Carries one parsed chat message through persistence and fan-out, as the
/// reader loop does: the message row is appended to the store and the line
/// is then broadcast. The two effects are independent: the hub changes only
/// by the publication, the store only by the appended row.
pub fn deliver_chat_message(
    store: &mut Store,
    hub: &mut ChatHub,
    body: &str,
    line: String,
    user_uuid: u128,
    now: i64,
)
    requires
        old(store).wf(),
        old(hub).wf(),
        old(store).messages@.len() > 0 ==> old(store).messages@.last().created_at <= now,
    ensures
        final(store).wf(),
        final(hub).wf(),
        published(*old(hub), *final(hub), line),
        crate::store::only_messages_differ(*final(store), *old(store)),
        final(store).messages@.len() == old(store).messages@.len() + 1,
        final(store).messages@.last().message@ == body@,
        final(store).messages@.last().user_uuid == Some(user_uuid),
        final(store).messages@.last().created_at == now,
{
    store.save_message_to_db(body, user_uuid, now);
    hub.publish(line);
}

/// Why a connection could not be set up.
#[derive(Clone, Copy, PartialEq, Eq, Structural, Debug)]
pub enum ChatError {
    /// No users row carries the caller's identifier.
    UnknownUser,
}

/// Everything a freshly connected client holds: its display name, its
/// registry entry, its bus cursor, and the replayed history.
pub struct ConnectedClient {
    pub username: String,
    pub client_id: String,
    pub receiver: ChatReceiver,
    pub history: Vec<String>,
}

/// Sets a new connection up as the socket handler does on upgrade: resolves
/// the caller's username, registers the connection identifier, replays the
/// recent message history, and subscribes to the bus. Fails exactly when the
/// caller's user is unknown, leaving the hub untouched.
pub fn connect_client(store: &Store, hub: &mut ChatHub, user_uuid: u128, client_id: String) -> (r:
    Result<ConnectedClient, ChatError>)
    requires
        store.wf(),
        old(hub).wf(),
    ensures
        final(hub).wf(),
        final(hub).sent@ == old(hub).sent@,
        final(hub).capacity == old(hub).capacity,
        r is Err <==> !has_user_uuid(store.users@, user_uuid),
        r is Err ==> *final(hub) == *old(hub),
        r matches Err(e) ==> e == ChatError::UnknownUser,
        r matches Ok(c) ==> {
            &&& lookup_user(store.users@, user_uuid) matches Some(u) && c.username@ == u.username@
            &&& c.client_id@ == client_id@
            &&& has_client(*final(hub), client_id@)
            &&& (!has_client(*old(hub), client_id@) ==> final(hub).clients@ == old(
                hub,
            ).clients@.push(c.client_id))
            &&& (has_client(*old(hub), client_id@) ==> *final(hub) == *old(hub))
            &&& final(hub).receiver_wf(c.receiver)
            &&& c.receiver.next == final(hub).sent@.len()
            &&& c.history@.len() == store.messages@.len() - history_window_start(
                store.messages@.len() as int,
            )
            &&& forall|k: int|
                0 <= k < c.history@.len() ==> (#[trigger] c.history@[k])@ == history_line(
                    store.users@,
                    store.messages@[history_window_start(store.messages@.len() as int) + k],
                )
        },
{
    proof {
        lemma_lookup_user(store.users@, user_uuid);
    }
    let user = match store.find_user_by_uuid(user_uuid) {
        Some(u) => u,
        None => {
            return Err(ChatError::UnknownUser);
        },
    };
    proof {
        let i = choose|i: int|
            0 <= i < store.users@.len() && #[trigger] store.users@[i] == user && user.user_uuid
                == user_uuid;
        assert(lookup_user(store.users@, user_uuid) == Some(user));
    }
    let history = store.send_message_history();
    let kept_id = client_id.clone();
    hub.register(client_id);
    let receiver = hub.subscribe();
    Ok(ConnectedClient { username: user.username, client_id: kept_id, receiver, history })
}

/// Cleans a connection up when its reader loop ends: the identifier leaves
/// the registry, and the rest of the hub is untouched.
pub fn disconnect_client(hub: &mut ChatHub, client_id: &str)
    requires
        old(hub).wf(),
    ensures
        final(hub).wf(),
        final(hub).sent@ == old(hub).sent@,
        final(hub).capacity == old(hub).capacity,
        !has_client(*final(hub), client_id@),
        has_client(*old(hub), client_id@) ==> exists|i: int|
            0 <= i < old(hub).clients@.len() && (#[trigger] old(hub).clients@[i])@ == client_id@
                && final(hub).clients@ == old(hub).clients@.remove(i),
        !has_client(*old(hub), client_id@) ==> *final(hub) == *old(hub),
{
    hub.unregister(client_id);
}

/// What wakes the writer loop.
pub enum WriterEvent {
    /// The keepalive timer fired.
    PingTick,
    /// A broadcast line arrived for this connection.
    Received(String),
}

/// What the writer loop sends next.
pub enum WriterAction {
    /// A protocol-level ping.
    SendPing,
    /// The broadcast line, forwarded verbatim.
    Forward(String),
}

/// Decides the writer loop's next send: a keepalive ping on each timer
/// tick, and every received broadcast line forwarded verbatim.
pub fn writer_step(event: WriterEvent) -> (a: WriterAction)
    ensures
        event is PingTick ==> a is SendPing,
        event matches WriterEvent::Received(line) ==> a matches WriterAction::Forward(l) && l
            == line,
{
    match event {
        WriterEvent::PingTick => WriterAction::SendPing,
        WriterEvent::Received(line) => WriterAction::Forward(line),
    }
}

/// Reacts to the outcome of one socket send in the writer loop: a failed
/// send removes the connection from the registry and stops the loop; a
/// successful one changes nothing and keeps it running.
pub fn writer_after_send(hub: &mut ChatHub, client_id: &str, send_ok: bool) -> (keep_going: bool)
    requires
        old(hub).wf(),
    ensures
        final(hub).wf(),
        keep_going == send_ok,
        send_ok ==> *final(hub) == *old(hub),
        !send_ok ==> !has_client(*final(hub), client_id@) && final(hub).sent@ == old(hub).sent@
            && final(hub).capacity == old(hub).capacity,
        !send_ok && has_client(*old(hub), client_id@) ==> exists|i: int|
            0 <= i < old(hub).clients@.len() && (#[trigger] old(hub).clients@[i])@ == client_id@
                && final(hub).clients@ == old(hub).clients@.remove(i),
        !send_ok && !has_client(*old(hub), client_id@) ==> *final(hub) == *old(hub),
{
    if send_ok {
        true
    } else {
        hub.unregister(client_id);
        false
    }
}

} // verus!
