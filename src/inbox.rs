use vstd::prelude::*;
use crate::codec::{datagram_messages, decode_datagram, DecodeError};
use crate::packet::Message;

verus! {

/// The shared inbox of the threaded strategy: the reader thread appends
/// messages at the tail, and the drain step once per cycle removes them all
/// from the head. The caller guards it with one lock.
///
/// Two ghost histories record what was ever received and what was ever
/// delivered; the pending messages are always the received ones that have
/// not been delivered yet.
pub struct OscMessageQueue {
    queue: Vec<Message>,
    received: Ghost<Seq<Message>>,
    delivered: Ghost<Seq<Message>>,
}

impl OscMessageQueue {
    /// The messages waiting to be drained, head first.
    pub closed spec fn pending(&self) -> Seq<Message> {
        self.queue@
    }

    /// Every message ever pushed, in order.
    pub closed spec fn received(&self) -> Seq<Message> {
        self.received@
    }

    /// Every message ever drained, in order.
    pub closed spec fn delivered(&self) -> Seq<Message> {
        self.delivered@
    }

    /// What was delivered, followed by what is pending, is what was received.
    pub closed spec fn wf(&self) -> bool {
        self.delivered@ + self.queue@ == self.received@
    }

    /// The well-formedness in terms of the public views.
    pub proof fn lemma_wf(&self)
        requires
            self.wf(),
        ensures
            self.delivered() + self.pending() == self.received(),
    {
    }

    /// An empty inbox with empty histories.
    pub fn new() -> (r: Self)
        ensures
            r.wf(),
            r.pending() == Seq::<Message>::empty(),
            r.received() == Seq::<Message>::empty(),
            r.delivered() == Seq::<Message>::empty(),
    {
        OscMessageQueue { queue: Vec::new(), received: Ghost(Seq::empty()), delivered: Ghost(Seq::empty()) }
    }

    /// The number of pending messages.
    pub fn len(&self) -> (r: usize)
        ensures
            r == self.pending().len(),
    {
        self.queue.len()
    }

    /// Appends one message at the tail.
    pub fn push(&mut self, m: Message)
        requires
            old(self).wf(),
        ensures
            final(self).wf(),
            final(self).pending() == old(self).pending().push(m),
            final(self).received() == old(self).received().push(m),
            final(self).delivered() == old(self).delivered(),
    {
        proof {
            self.received@ = self.received@.push(m);
            assert(self.delivered@ + self.queue@.push(m) =~= (self.delivered@ + self.queue@).push(m));
        }
        self.queue.push(m);
    }

    /// Appends the messages of `ms` at the tail, in order.
    pub fn push_all(&mut self, ms: Vec<Message>)
        requires
            old(self).wf(),
        ensures
            final(self).wf(),
            final(self).pending() == old(self).pending() + ms@,
            final(self).received() == old(self).received() + ms@,
            final(self).delivered() == old(self).delivered(),
    {
        let mut rest = ms;
        let ghost all = rest@;
        let ghost p0 = self.pending();
        let ghost r0 = self.received();
        while rest.len() > 0
            invariant
                self.wf(),
                self.delivered() == old(self).delivered(),
                p0 == old(self).pending(),
                r0 == old(self).received(),
                p0 + all == self.pending() + rest@,
                r0 + all == self.received() + rest@,
            decreases rest.len(),
        {
            let ghost before = rest@;
            let m = rest.remove(0);
            assert(before == seq![m] + rest@) by {
                assert(before =~= seq![m] + rest@);
            };
            assert(self.pending().push(m) + rest@ =~= self.pending() + before);
            assert(self.received().push(m) + rest@ =~= self.received() + before);
            self.push(m);
        }
        assert(rest@ =~= Seq::<Message>::empty());
        assert(self.pending() + rest@ =~= self.pending());
        assert(self.received() + rest@ =~= self.received());
    }

    /// Decodes one datagram and appends its messages at the tail, in order.
    /// A datagram that does not decode leaves the inbox as it was.
    pub fn push_datagram(&mut self, bytes: &[u8]) -> (r: Result<(), DecodeError>)
        requires
            old(self).wf(),
        ensures
            final(self).wf(),
            r is Ok <==> datagram_messages(bytes@) is Some,
            final(self).delivered() == old(self).delivered(),
            final(self).pending() == after_datagram(old(self).pending(), bytes@),
            final(self).received() == after_datagram(old(self).received(), bytes@),
    {
        match decode_datagram(bytes) {
            Ok(ms) => {
                self.push_all(ms);
                Ok(())
            },
            Err(e) => Err(e),
        }
    }

    /// Removes every pending message, head first, in one step: none is seen
    /// twice and none is lost between reading and clearing.
    pub fn drain(&mut self) -> (r: Vec<Message>)
        requires
            old(self).wf(),
        ensures
            final(self).wf(),
            r@ == old(self).pending(),
            final(self).pending() == Seq::<Message>::empty(),
            final(self).received() == old(self).received(),
            final(self).delivered() == old(self).delivered() + r@,
    {
        let mut r: Vec<Message> = Vec::new();
        r.append(&mut self.queue);
        proof {
            self.delivered@ = self.delivered@ + r@;
            assert(self.delivered@ + self.queue@ =~= self.delivered@);
        }
        r
    }
}

/// `q` followed by the messages of one datagram; `q` itself where the
/// datagram does not decode.
pub open spec fn after_datagram(q: Seq<Message>, bytes: Seq<u8>) -> Seq<Message> {
    match datagram_messages(bytes) {
        Some(ms) => q + ms,
        None => q,
    }
}

/// A datagram that fails to decode leaves no trace: the next well-formed
/// datagram adds exactly its own messages, as if the bad one never came.
pub proof fn lemma_decode_failure_is_isolated(q: Seq<Message>, bad: Seq<u8>, good: Seq<u8>)
    requires
        datagram_messages(bad) is None,
        datagram_messages(good) is Some,
    ensures
        after_datagram(after_datagram(q, bad), good) == q + datagram_messages(good)->Some_0,
{
}

/// Once the inbox has been drained, the messages delivered over all drains
/// are exactly those received, in the order received, none twice.
pub proof fn lemma_drained_inbox_delivered_all(q: OscMessageQueue)
    requires
        q.wf(),
        q.pending().len() == 0,
    ensures
        q.delivered() == q.received(),
{
    assert(q.delivered() + q.pending() =~= q.delivered());
}

/// The registry of bound sockets of the threaded strategy: append only, and
/// each entry keeps the index at which it was registered.
pub struct SocketRegistry<T> {
    entries: Vec<T>,
}

impl<T> View for SocketRegistry<T> {
    type V = Seq<T>;

    closed spec fn view(&self) -> Seq<T> {
        self.entries@
    }
}

impl<T> SocketRegistry<T> {
    /// An empty registry.
    pub fn new() -> (r: Self)
        ensures
            r@ == Seq::<T>::empty(),
    {
        SocketRegistry { entries: Vec::new() }
    }

    /// The number of registered entries.
    pub fn len(&self) -> (r: usize)
        ensures
            r == self@.len(),
    {
        self.entries.len()
    }

    /// Registers `item` at the next index and returns that index; the
    /// earlier entries keep theirs.
    pub fn register(&mut self, item: T) -> (i: usize)
        ensures
            i == old(self)@.len(),
            final(self)@ == old(self)@.push(item),
    {
        let i = self.entries.len();
        self.entries.push(item);
        i
    }

    /// The entry registered at index `i`.
    pub fn get(&self, i: usize) -> (r: &T)
        requires
            i < self@.len(),
        ensures
            *r == self@[i as int],
    {
        &self.entries[i]
    }
}

} // verus!
