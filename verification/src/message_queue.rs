//! The connection's two queues. The return queue holds classified incoming
//! messages and the registered pending waiters; delivery broadcasts each
//! matching message to every waiter whose single-slot mailbox is still empty,
//! so responses correlate to requests by arrival order relative to
//! registration. The write queue holds outbound commands in issuance order.

use vstd::prelude::*;
use vstd::pervasive::VecAdditionalExecFns;

use crate::command::{spec_serialize_command, CommandView, FtSwarmCommand};
use crate::message_parser::{S2RMessage, S2RMessageView};
use crate::Serialized;

verus! {

/// The message kinds a registered waiter accepts.
#[derive(Debug, Clone, Copy, PartialEq, Eq, Structural)]
pub enum WaiterKind {
    Subscription,
    RpcResponseOrError,
}

pub open spec fn spec_matches_kind(kind: WaiterKind, m: S2RMessageView) -> bool {
    match kind {
        WaiterKind::Subscription => m is Subscription,
        WaiterKind::RpcResponseOrError => m is RPCResponse || m is Error,
    }
}

pub fn matches_kind(kind: WaiterKind, m: &S2RMessage) -> (r: bool)
    ensures
        r == spec_matches_kind(kind, m@),
{
    match kind {
        WaiterKind::Subscription => matches!(m, S2RMessage::Subscription(_)),
        WaiterKind::RpcResponseOrError => matches!(
            m,
            S2RMessage::RPCResponse(_) | S2RMessage::Error(_)
        ),
    }
}

/// Mathematical model of a pending waiter.
pub struct WaiterView {
    pub id: usize,
    pub kind: WaiterKind,
    pub slot: Option<S2RMessageView>,
}

/// One pending request: a unique id, the kind of message it accepts, and a
/// single-slot mailbox that delivery fills at most once.
pub struct Waiter {
    pub id: usize,
    pub kind: WaiterKind,
    pub slot: Option<S2RMessage>,
}

impl View for Waiter {
    type V = WaiterView;

    open spec fn view(&self) -> WaiterView {
        WaiterView {
            id: self.id,
            kind: self.kind,
            slot: match &self.slot {
                Some(m) => Some(m@),
                None => None,
            },
        }
    }
}

impl DeepView for Waiter {
    type V = WaiterView;

    open spec fn deep_view(&self) -> WaiterView {
        self.view()
    }
}

/// Mathematical model of the return queue.
pub struct ReturnQueueView {
    pub queue: Seq<S2RMessageView>,
    pub waiters: Seq<WaiterView>,
}

pub struct ReturnQueue {
    queue: Vec<S2RMessage>,
    waiters: Vec<Waiter>,
}

impl View for ReturnQueue {
    type V = ReturnQueueView;

    closed spec fn view(&self) -> ReturnQueueView {
        ReturnQueueView { queue: self.queue.deep_view(), waiters: self.waiters.deep_view() }
    }
}

/// Delivery to one waiter: a matching message lands in an empty mailbox;
/// a full mailbox and a mismatched message are left alone.
pub open spec fn spec_deliver(w: WaiterView, m: S2RMessageView) -> WaiterView {
    if w.slot is None && spec_matches_kind(w.kind, m) {
        WaiterView { id: w.id, kind: w.kind, slot: Some(m) }
    } else {
        w
    }
}

/// Arrival of one classified message: log lines are diagnostic only and
/// vanish; every other message is queued and broadcast to all waiters.
pub open spec fn spec_push(q: ReturnQueueView, m: S2RMessageView) -> ReturnQueueView {
    if m is Log {
        q
    } else {
        ReturnQueueView {
            queue: q.queue.push(m),
            waiters: q.waiters.map_values(|w: WaiterView| spec_deliver(w, m)),
        }
    }
}

/// Registration appends a fresh waiter with an empty mailbox.
pub open spec fn spec_register(q: ReturnQueueView, id: usize, kind: WaiterKind) -> ReturnQueueView {
    ReturnQueueView {
        queue: q.queue,
        waiters: q.waiters.push(WaiterView { id, kind, slot: None }),
    }
}

/// Index of the first waiter with the given id, or -1 when none is registered.
pub open spec fn find_waiter_spec(ws: Seq<WaiterView>, id: usize) -> int
    decreases ws.len(),
{
    if ws.len() == 0 {
        -1
    } else if ws[0].id == id {
        0
    } else {
        let r = find_waiter_spec(ws.skip(1), id);
        if r < 0 {
            -1
        } else {
            r + 1
        }
    }
}

/// Index of the first queued message of the given kind, or -1.
pub open spec fn find_msg_spec(q: Seq<S2RMessageView>, kind: WaiterKind) -> int
    decreases q.len(),
{
    if q.len() == 0 {
        -1
    } else if spec_matches_kind(kind, q[0]) {
        0
    } else {
        let r = find_msg_spec(q.skip(1), kind);
        if r < 0 {
            -1
        } else {
            r + 1
        }
    }
}

/// Removal of the first queued message of the given kind, if any.
pub open spec fn spec_take(q: ReturnQueueView, kind: WaiterKind) -> (ReturnQueueView, Option<
    S2RMessageView,
>) {
    let i = find_msg_spec(q.queue, kind);
    if i < 0 {
        (q, None)
    } else {
        (
            ReturnQueueView { queue: q.queue.remove(i), waiters: q.waiters },
            Some(q.queue[i]),
        )
    }
}

/// Resolution of a waiter: a delivered message removes the waiter and is
/// handed out; an empty mailbox leaves the waiter registered.
pub open spec fn spec_take_waiter(q: ReturnQueueView, id: usize) -> (ReturnQueueView, Option<
    S2RMessageView,
>) {
    let i = find_waiter_spec(q.waiters, id);
    if i < 0 {
        (q, None)
    } else {
        match q.waiters[i].slot {
            None => (q, None),
            Some(m) => (
                ReturnQueueView { queue: q.queue, waiters: q.waiters.remove(i) },
                Some(m),
            ),
        }
    }
}

/// Abandonment of a waiter, whatever its mailbox holds.
pub open spec fn spec_drop_waiter(q: ReturnQueueView, id: usize) -> ReturnQueueView {
    let i = find_waiter_spec(q.waiters, id);
    if i < 0 {
        q
    } else {
        ReturnQueueView { queue: q.queue, waiters: q.waiters.remove(i) }
    }
}

pub proof fn lemma_find_waiter(ws: Seq<WaiterView>, id: usize)
    ensures
        ({
            let r = find_waiter_spec(ws, id);
            &&& r == -1 || (0 <= r < ws.len())
            &&& r == -1 ==> forall|j: int| 0 <= j < ws.len() ==> ws[j].id != id
            &&& r >= 0 ==> ws[r].id == id && (forall|j: int| 0 <= j < r ==> ws[j].id != id)
        }),
    decreases ws.len(),
{
    if ws.len() > 0 && ws[0].id != id {
        lemma_find_waiter(ws.skip(1), id);
        assert forall|j: int| 1 <= j < ws.len() implies ws[j] == ws.skip(1)[j - 1] by {}
    }
}

proof fn lemma_find_msg(q: Seq<S2RMessageView>, kind: WaiterKind)
    ensures
        ({
            let r = find_msg_spec(q, kind);
            &&& r == -1 || (0 <= r < q.len())
            &&& r == -1 ==> forall|j: int| 0 <= j < q.len() ==> !spec_matches_kind(kind, q[j])
            &&& r >= 0 ==> spec_matches_kind(kind, q[r]) && (forall|j: int|
                0 <= j < r ==> !spec_matches_kind(kind, q[j]))
        }),
    decreases q.len(),
{
    if q.len() > 0 && !spec_matches_kind(kind, q[0]) {
        lemma_find_msg(q.skip(1), kind);
        assert forall|j: int| 1 <= j < q.len() implies q[j] == q.skip(1)[j - 1] by {}
    }
}

proof fn lemma_find_waiter_unique(ws: Seq<WaiterView>, id: usize, i: int)
    requires
        0 <= i < ws.len(),
        ws[i].id == id,
        forall|j: int| 0 <= j < i ==> ws[j].id != id,
    ensures
        find_waiter_spec(ws, id) == i,
    decreases ws.len(),
{
    if i > 0 {
        assert forall|j: int| 1 <= j < ws.len() implies ws[j] == ws.skip(1)[j - 1] by {}
        lemma_find_waiter_unique(ws.skip(1), id, i - 1);
    }
}

proof fn lemma_find_msg_unique(q: Seq<S2RMessageView>, kind: WaiterKind, i: int)
    requires
        0 <= i < q.len(),
        spec_matches_kind(kind, q[i]),
        forall|j: int| 0 <= j < i ==> !spec_matches_kind(kind, q[j]),
    ensures
        find_msg_spec(q, kind) == i,
    decreases q.len(),
{
    if i > 0 {
        assert forall|j: int| 1 <= j < q.len() implies q[j] == q.skip(1)[j - 1] by {}
        lemma_find_msg_unique(q.skip(1), kind, i - 1);
    }
}

impl ReturnQueue {
    pub fn new() -> (r: ReturnQueue)
        ensures
            r@.queue.len() == 0,
            r@.waiters.len() == 0,
    {
        let r = ReturnQueue { queue: Vec::new(), waiters: Vec::new() };
        proof {
            assert(r@.queue =~= Seq::<S2RMessageView>::empty());
            assert(r@.waiters =~= Seq::<WaiterView>::empty());
        }
        r
    }

    /// Takes one classified message in: log lines are dropped, everything
    /// else is queued and broadcast to the pending waiters.
    #[verifier::loop_isolation(false)]
    pub fn push(&mut self, value: S2RMessage)
        ensures
            final(self)@ == spec_push(old(self)@, value@),
    {
        if matches!(value, S2RMessage::Log(_)) {
            return ;
        }
        let ghost m = value@;
        let n = self.waiters.len();
        let mut i: usize = 0;
        while i < n
            invariant
                n == self.waiters.len(),
                i <= n,
                self.queue == old(self).queue,
                forall|j: int|
                    0 <= j < i ==> self.waiters.deep_view()[j] == spec_deliver(
                        old(self)@.waiters[j],
                        m,
                    ),
                forall|j: int| i <= j < n ==> self.waiters.deep_view()[j] == old(self)@.waiters[j],
            decreases n - i,
        {
            let ghost pre_w = self.waiters@;
            let ghost pre_dv = self.waiters.deep_view();
            let deliver = self.waiters[i].slot.is_none() && matches_kind(
                self.waiters[i].kind,
                &value,
            );
            if deliver {
                let id = self.waiters[i].id;
                let kind = self.waiters[i].kind;
                self.waiters.set(i, Waiter { id, kind, slot: Some(value.dup()) });
            }
            proof {
                assert(self.waiters@[i as int].deep_view() == spec_deliver(
                    old(self)@.waiters[i as int],
                    m,
                ));
                assert forall|j: int| 0 <= j < n && j != i implies self.waiters@[j] == pre_w[j] by {}
                assert forall|j: int| 0 <= j <= i implies self.waiters.deep_view()[j]
                    == spec_deliver(old(self)@.waiters[j], m) by {
                    assert(self.waiters.deep_view()[j] == self.waiters@[j].deep_view());
                    if j < i {
                        assert(pre_dv[j] == spec_deliver(old(self)@.waiters[j], m));
                        assert(pre_dv[j] == pre_w[j].deep_view());
                        assert(self.waiters@[j] == pre_w[j]);
                    }
                }
                assert forall|j: int| i + 1 <= j < n implies self.waiters.deep_view()[j] == old(
                    self,
                )@.waiters[j] by {
                    assert(self.waiters.deep_view()[j] == self.waiters@[j].deep_view());
                    assert(pre_dv[j] == old(self)@.waiters[j]);
                    assert(pre_dv[j] == pre_w[j].deep_view());
                    assert(self.waiters@[j] == pre_w[j]);
                }
            }
            i = i + 1;
        }
        self.queue.push(value);
        proof {
            assert(final(self)@.queue =~= spec_push(old(self)@, m).queue);
            assert(final(self)@.waiters =~= spec_push(old(self)@, m).waiters);
        }
    }

    /// Removes and returns the first queued subscription message, if any.
    #[verifier::loop_isolation(false)]
    pub fn take_subscription(&mut self) -> (r: Option<S2RMessage>)
        ensures
            final(self)@ == spec_take(old(self)@, WaiterKind::Subscription).0,
            match r {
                Some(m) => spec_take(old(self)@, WaiterKind::Subscription).1 == Some(m@),
                None => spec_take(old(self)@, WaiterKind::Subscription).1 is None,
            },
    {
        self.take_kind(WaiterKind::Subscription)
    }

    /// Removes and returns the first queued RPC response or error, if any.
    pub fn take_rpc_response_or_error(&mut self) -> (r: Option<S2RMessage>)
        ensures
            final(self)@ == spec_take(old(self)@, WaiterKind::RpcResponseOrError).0,
            match r {
                Some(m) => spec_take(old(self)@, WaiterKind::RpcResponseOrError).1 == Some(m@),
                None => spec_take(old(self)@, WaiterKind::RpcResponseOrError).1 is None,
            },
    {
        self.take_kind(WaiterKind::RpcResponseOrError)
    }

    /// Removes and returns the first queued message of the given kind.
    #[verifier::loop_isolation(false)]
    fn take_kind(&mut self, kind: WaiterKind) -> (r: Option<S2RMessage>)
        ensures
            final(self)@ == spec_take(old(self)@, kind).0,
            match r {
                Some(m) => spec_take(old(self)@, kind).1 == Some(m@),
                None => spec_take(old(self)@, kind).1 is None,
            },
    {
        proof {
            lemma_find_msg(old(self)@.queue, kind);
        }
        let n = self.queue.len();
        let mut i: usize = 0;
        while i < n
            invariant
                n == self.queue.len(),
                i <= n,
                self == old(self),
                forall|j: int| 0 <= j < i ==> !spec_matches_kind(kind, self.queue.deep_view()[j]),
            decreases n - i,
        {
            if matches_kind(kind, &self.queue[i]) {
                proof {
                    lemma_find_msg_unique(old(self)@.queue, kind, i as int);
                }
                let m = self.queue.remove(i);
                proof {
                    assert(final(self)@.queue =~= old(self)@.queue.remove(i as int));
                    assert(final(self)@.waiters =~= old(self)@.waiters);
                }
                return Some(m);
            }
            i = i + 1;
        }
        None
    }

    /// Registers a pending waiter under the given id.
    pub fn register_waiter(&mut self, id: usize, kind: WaiterKind)
        ensures
            final(self)@ == spec_register(old(self)@, id, kind),
    {
        self.waiters.push(Waiter { id, kind, slot: None });
        proof {
            assert(final(self)@.waiters =~= spec_register(old(self)@, id, kind).waiters);
        }
    }

    /// Resolves the waiter with the given id: hands out its delivered
    /// message and unregisters it, or returns nothing while the mailbox
    /// is still empty.
    #[verifier::loop_isolation(false)]
    pub fn take_waiter(&mut self, id: usize) -> (r: Option<S2RMessage>)
        ensures
            final(self)@ == spec_take_waiter(old(self)@, id).0,
            match r {
                Some(m) => spec_take_waiter(old(self)@, id).1 == Some(m@),
                None => spec_take_waiter(old(self)@, id).1 is None,
            },
    {
        proof {
            lemma_find_waiter(old(self)@.waiters, id);
        }
        let n = self.waiters.len();
        let mut i: usize = 0;
        while i < n
            invariant
                n == self.waiters.len(),
                i <= n,
                self == old(self),
                forall|j: int| 0 <= j < i ==> self.waiters.deep_view()[j].id != id,
            decreases n - i,
        {
            if self.waiters[i].id == id {
                proof {
                    lemma_find_waiter_unique(old(self)@.waiters, id, i as int);
                }
                if self.waiters[i].slot.is_some() {
                    let w = self.waiters.remove(i);
                    proof {
                        assert(final(self)@.waiters =~= old(self)@.waiters.remove(i as int));
                    }
                    return w.slot;
                } else {
                    return None;
                }
            }
            i = i + 1;
        }
        None
    }

    /// Unregisters the waiter with the given id, resolved or not.
    #[verifier::loop_isolation(false)]
    pub fn drop_waiter(&mut self, id: usize)
        ensures
            final(self)@ == spec_drop_waiter(old(self)@, id),
    {
        proof {
            lemma_find_waiter(old(self)@.waiters, id);
        }
        let n = self.waiters.len();
        let mut i: usize = 0;
        while i < n
            invariant
                n == self.waiters.len(),
                i <= n,
                self == old(self),
                forall|j: int| 0 <= j < i ==> self.waiters.deep_view()[j].id != id,
            decreases n - i,
        {
            if self.waiters[i].id == id {
                proof {
                    lemma_find_waiter_unique(old(self)@.waiters, id, i as int);
                }
                self.waiters.remove(i);
                proof {
                    assert(final(self)@.waiters =~= old(self)@.waiters.remove(i as int));
                }
                return ;
            }
            i = i + 1;
        }
    }

    /// How many waiters are registered; the pending-request registry stays
    /// bounded because every resolution removes one.
    pub fn waiter_count(&self) -> (r: usize)
        ensures
            r == self@.waiters.len(),
    {
        self.waiters.len()
    }

    /// How many messages sit in the backlog queue.
    pub fn queue_len(&self) -> (r: usize)
        ensures
            r == self@.queue.len(),
    {
        self.queue.len()
    }
}

/// The outbound command queue, first in first out.
pub struct WriteQueue {
    queue: Vec<FtSwarmCommand>,
}

impl View for WriteQueue {
    type V = Seq<CommandView>;

    closed spec fn view(&self) -> Seq<CommandView> {
        self.queue.deep_view()
    }
}

impl WriteQueue {
    pub fn new() -> (r: WriteQueue)
        ensures
            r@.len() == 0,
    {
        let r = WriteQueue { queue: Vec::new() };
        proof {
            assert(r@ =~= Seq::<CommandView>::empty());
        }
        r
    }

    /// Appends a command; commands leave in issuance order.
    pub fn push(&mut self, value: FtSwarmCommand)
        ensures
            final(self)@ == old(self)@.push(value@),
    {
        self.queue.push(value);
        proof {
            assert(final(self)@ =~= old(self)@.push(value@));
        }
    }

    /// Removes the oldest queued command and serializes it to its wire line.
    pub fn pop(&mut self) -> (r: Option<String>)
        ensures
            match r {
                Some(line) => old(self)@.len() > 0 && line@ == spec_serialize_command(
                    old(self)@[0],
                ) && final(self)@ == old(self)@.skip(1),
                None => old(self)@.len() == 0 && final(self)@ == old(self)@,
            },
    {
        if self.queue.len() == 0 {
            return None;
        }
        let cmd = self.queue.remove(0);
        proof {
            assert(final(self)@ =~= old(self)@.skip(1));
        }
        Some(cmd.serialize())
    }
}

} // verus!
