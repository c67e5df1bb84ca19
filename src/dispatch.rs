use vstd::prelude::*;
use crate::inbox::OscMessageQueue;
use crate::packet::Message;

verus! {

/// The host event that carries one decoded message.
#[derive(Debug, PartialEq)]
pub struct OscMessageEvent {
    pub message: Message,
}

/// One event per message, in the messages' order.
pub open spec fn events_of(ms: Seq<Message>) -> Seq<OscMessageEvent> {
    ms.map_values(|m: Message| OscMessageEvent { message: m })
}

/// Appends one event per message to the cycle's event stream, in order.
pub fn publish(events: &mut Vec<OscMessageEvent>, msgs: Vec<Message>)
    ensures
        final(events)@ == old(events)@ + events_of(msgs@),
{
    let mut rest = msgs;
    let ghost all = rest@;
    let ghost start = events@;
    while rest.len() > 0
        invariant
            start + events_of(all) == events@ + events_of(rest@),
        decreases rest.len(),
    {
        let ghost before = rest@;
        let m = rest.remove(0);
        events.push(OscMessageEvent { message: m });
        assert(events_of(before) =~= seq![OscMessageEvent { message: m }] + events_of(rest@));
        assert(events@ + events_of(rest@) =~= events@.drop_last() + events_of(before));
    }
    assert(events@ + events_of(rest@) =~= events@);
}

/// The drain step of the threaded strategy, once per cycle: every pending
/// message of the inbox becomes an event, head first, and the inbox is left
/// empty. The caller holds the inbox's lock throughout.
pub fn osc_handling_in_thread_update(queue: &mut OscMessageQueue, events: &mut Vec<OscMessageEvent>)
    requires
        old(queue).wf(),
    ensures
        final(queue).wf(),
        final(queue).pending() == Seq::<Message>::empty(),
        final(queue).received() == old(queue).received(),
        final(queue).delivered() == old(queue).delivered() + old(queue).pending(),
        final(events)@ == old(events)@ + events_of(old(queue).pending()),
{
    let msgs = queue.drain();
    publish(events, msgs);
}

} // verus!
