use vstd::prelude::*;
use crate::codec::{datagram_messages, decode_datagram, DecodeError};
use crate::packet::Message;

verus! {

/// Where the cooperative poller's single receive operation stands.
#[derive(Clone, Copy, Debug, PartialEq, Eq)]
pub enum ReceiveState {
    /// No receive is in flight.
    Idle,
    /// A receive is in flight and has not completed.
    Pending,
    /// The receive completed and its result was surfaced this cycle.
    Finished,
}

/// The start of a cycle: the new state, and whether a receive is started.
/// A receive starts unless one is already in flight.
pub open spec fn begin_cycle_step(s: ReceiveState) -> (ReceiveState, bool) {
    match s {
        ReceiveState::Pending => (ReceiveState::Pending, false),
        _ => (ReceiveState::Pending, true),
    }
}

/// A completion of the receive: the new state, and whether its result is
/// surfaced. Only the completion of the receive in flight is surfaced.
pub open spec fn complete_step(s: ReceiveState) -> (ReceiveState, bool) {
    match s {
        ReceiveState::Pending => (ReceiveState::Finished, true),
        _ => (s, false),
    }
}

/// The state after `k` completions from `s`, and how many were surfaced.
pub open spec fn completions(s: ReceiveState, k: nat) -> (ReceiveState, nat)
    decreases k,
{
    if k == 0 {
        (s, 0)
    } else {
        let (s1, n) = completions(s, (k - 1) as nat);
        let (s2, surfaced) = complete_step(s1);
        (s2, if surfaced { n + 1 } else { n })
    }
}

/// A new receive is started only when no receive is in flight, so the
/// result of the previous one has been consumed; afterwards one is in
/// flight.
pub proof fn lemma_no_second_receive(s: ReceiveState)
    ensures
        begin_cycle_step(s).1 ==> s != ReceiveState::Pending,
        begin_cycle_step(s).0 == ReceiveState::Pending,
{
}

/// However many completions are reported within one cycle, at most one
/// receive result is surfaced.
pub proof fn lemma_one_result_per_cycle(s: ReceiveState, k: nat)
    ensures
        completions(begin_cycle_step(s).0, k).1 <= 1,
        completions(begin_cycle_step(s).0, k).1 == 1 ==> completions(begin_cycle_step(s).0, k).0
            == ReceiveState::Finished,
        completions(begin_cycle_step(s).0, k).1 == 0 ==> completions(begin_cycle_step(s).0, k).0
            == ReceiveState::Pending,
    decreases k,
{
    if k > 0 {
        lemma_one_result_per_cycle(s, (k - 1) as nat);
    }
}

/// What a completion hands to the dispatch step: the messages of the
/// datagram received, none for a receive error, the decoder's error for a
/// datagram that does not decode.
pub open spec fn completion_result(received: Option<&[u8]>) -> Option<Seq<Message>> {
    match received {
        None => Some(Seq::empty()),
        Some(bytes) => datagram_messages(bytes@),
    }
}

/// The cooperative poller: one receive in flight at a time, driven once per
/// host cycle. The caller runs the blocking receive off its own line of
/// execution and reports its completion.
pub struct ReceivePoller {
    pub state: ReceiveState,
}

impl ReceivePoller {
    /// A poller with no receive in flight.
    pub fn new() -> (r: Self)
        ensures
            r.state == ReceiveState::Idle,
    {
        ReceivePoller { state: ReceiveState::Idle }
    }

    /// Starts a cycle. Returns whether the caller must start a new receive.
    pub fn begin_cycle(&mut self) -> (start: bool)
        ensures
            (final(self).state, start) == begin_cycle_step(old(self).state),
    {
        match self.state {
            ReceiveState::Pending => false,
            _ => {
                self.state = ReceiveState::Pending;
                true
            },
        }
    }

    /// Reports that the receive completed: with the datagram's bytes, or
    /// with `None` for a receive error. Where a receive was in flight, its
    /// messages are returned in order; otherwise nothing is surfaced.
    pub fn complete(&mut self, received: Option<&[u8]>) -> (r: Result<Vec<Message>, DecodeError>)
        ensures
            final(self).state == complete_step(old(self).state).0,
            !complete_step(old(self).state).1 ==> r is Ok && r->Ok_0@.len() == 0,
            complete_step(old(self).state).1 ==> {
                &&& (r is Ok <==> completion_result(received) is Some)
                &&& (r is Ok ==> completion_result(received) == Some(r->Ok_0@))
            },
    {
        match self.state {
            ReceiveState::Pending => {
                self.state = ReceiveState::Finished;
                match received {
                    None => Ok(Vec::new()),
                    Some(bytes) => decode_datagram(bytes),
                }
            },
            _ => Ok(Vec::new()),
        }
    }
}

} // verus!
