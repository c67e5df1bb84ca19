use osc_ingest::{
    decode_datagram, flatten, Argument, Bundle, Message, OscMessageQueue, Packet, ReceivePoller,
    ReceiveState, SocketRegistry, TimeTag,
};
use rosc::{encoder, OscBundle, OscMessage, OscPacket, OscTime, OscType};

fn msg(addr: &str, args: Vec<Argument>) -> Message {
    Message { addr: addr.to_string(), args }
}

fn tag() -> TimeTag {
    TimeTag { seconds: 0, fractional: 1 }
}

fn bundle(content: Vec<Packet>) -> Packet {
    Packet::Bundle(Bundle { timetag: tag(), content })
}

fn addrs(ms: &[Message]) -> Vec<String> {
    ms.iter().map(|m| m.addr.clone()).collect()
}

fn osc_msg(addr: &str, args: Vec<OscType>) -> OscPacket {
    OscPacket::Message(OscMessage { addr: addr.to_string(), args })
}

fn osc_bundle(content: Vec<OscPacket>) -> OscPacket {
    OscPacket::Bundle(OscBundle { timetag: OscTime { seconds: 0, fractional: 1 }, content })
}

#[test]
fn flatten_single_message() {
    let out = flatten(Packet::Message(msg("/a", vec![Argument::Int(3)])));
    assert_eq!(out, vec![msg("/a", vec![Argument::Int(3)])]);
}

#[test]
fn flatten_nested_depth_first() {
    let p = bundle(vec![
        Packet::Message(msg("/1", vec![])),
        bundle(vec![
            Packet::Message(msg("/2", vec![])),
            bundle(vec![Packet::Message(msg("/3", vec![]))]),
            Packet::Message(msg("/4", vec![])),
        ]),
        bundle(vec![]),
        Packet::Message(msg("/5", vec![])),
    ]);
    assert_eq!(addrs(&flatten(p)), vec!["/1", "/2", "/3", "/4", "/5"]);
}

#[test]
fn flatten_deep_nesting_keeps_the_message() {
    let mut p = Packet::Message(msg("/deep", vec![Argument::Bool(true)]));
    for _ in 0..50 {
        p = bundle(vec![p]);
    }
    assert_eq!(flatten(p), vec![msg("/deep", vec![Argument::Bool(true)])]);
}

#[test]
fn flatten_empty_bundle() {
    assert!(flatten(bundle(vec![])).is_empty());
}

#[test]
fn decode_scenario_three_arguments() {
    let bytes = encoder::encode(&osc_msg(
        "/test",
        vec![OscType::Int(1), OscType::Float(2.0), OscType::String("a".to_string())],
    ))
    .unwrap();
    let ms = decode_datagram(&bytes).unwrap();
    assert_eq!(ms.len(), 1);
    assert_eq!(ms[0].addr, "/test");
    assert_eq!(
        ms[0].args,
        vec![Argument::Int(1), Argument::Float(2.0f32.to_bits()), Argument::String("a".to_string())]
    );
    assert_eq!(osc_ingest::get_type_tags(&ms[0].args), "ifs");
}

#[test]
fn decode_round_trip_all_variants() {
    let args = vec![
        OscType::Int(-7),
        OscType::Float(-1.5),
        OscType::String("hello".to_string()),
        OscType::Blob(vec![1, 2, 3, 4, 5]),
        OscType::Time(OscTime { seconds: 10, fractional: 20 }),
        OscType::Long(-9_000_000_000),
        OscType::Double(6.25),
        OscType::Char('x'),
        OscType::Color(rosc::OscColor { red: 1, green: 2, blue: 3, alpha: 4 }),
        OscType::Midi(rosc::OscMidiMessage { port: 5, status: 6, data1: 7, data2: 8 }),
        OscType::Bool(true),
        OscType::Bool(false),
        OscType::Array(rosc::OscArray { content: vec![OscType::Int(1), OscType::Nil] }),
        OscType::Nil,
        OscType::Inf,
    ];
    let bytes = encoder::encode(&osc_msg("/all", args)).unwrap();
    let ms = decode_datagram(&bytes).unwrap();
    let expected = msg(
        "/all",
        vec![
            Argument::Int(-7),
            Argument::Float((-1.5f32).to_bits()),
            Argument::String("hello".to_string()),
            Argument::Blob(vec![1, 2, 3, 4, 5]),
            Argument::Time(TimeTag { seconds: 10, fractional: 20 }),
            Argument::Long(-9_000_000_000),
            Argument::Double(6.25f64.to_bits()),
            Argument::Char('x'),
            Argument::Color(osc_ingest::Color { red: 1, green: 2, blue: 3, alpha: 4 }),
            Argument::Midi(osc_ingest::MidiMessage { port: 5, status: 6, data1: 7, data2: 8 }),
            Argument::Bool(true),
            Argument::Bool(false),
            Argument::Array(vec![Argument::Int(1), Argument::Nil]),
            Argument::Nil,
            Argument::Inf,
        ],
    );
    assert_eq!(ms, vec![expected]);
}

#[test]
fn decode_rejects_malformed_bytes() {
    assert!(decode_datagram(&[]).is_err());
    assert!(decode_datagram(b"garbage!").is_err());
    let err = decode_datagram(&[0, 0, 0, 0]).unwrap_err();
    assert!(!err.reason.is_empty());
}

#[test]
fn decode_nested_bundles_in_order() {
    let p = osc_bundle(vec![
        osc_bundle(vec![osc_msg("/first", vec![OscType::Int(1)])]),
        osc_bundle(vec![osc_msg("/second", vec![OscType::Int(2)])]),
    ]);
    let ms = decode_datagram(&encoder::encode(&p).unwrap()).unwrap();
    assert_eq!(addrs(&ms), vec!["/first", "/second"]);
    assert_eq!(ms[1].args, vec![Argument::Int(2)]);
}

#[test]
fn inbox_keeps_bundle_together_before_later_message() {
    let p = osc_bundle(vec![
        osc_bundle(vec![osc_msg("/first", vec![])]),
        osc_bundle(vec![osc_msg("/second", vec![])]),
    ]);
    let mut q = OscMessageQueue::new();
    q.push_datagram(&encoder::encode(&p).unwrap()).unwrap();
    q.push_datagram(&encoder::encode(&osc_msg("/third", vec![])).unwrap()).unwrap();
    assert_eq!(addrs(&q.drain()), vec!["/first", "/second", "/third"]);
}

#[test]
fn inbox_decode_failure_does_not_block_next() {
    let mut q = OscMessageQueue::new();
    assert!(q.push_datagram(b"not osc").is_err());
    assert_eq!(q.len(), 0);
    q.push_datagram(&encoder::encode(&osc_msg("/ok", vec![OscType::Int(9)])).unwrap()).unwrap();
    assert_eq!(q.drain(), vec![msg("/ok", vec![Argument::Int(9)])]);
}

#[test]
fn inbox_drain_empties_and_keeps_order() {
    let mut q = OscMessageQueue::new();
    q.push(msg("/a", vec![]));
    q.push(msg("/b", vec![]));
    assert_eq!(q.len(), 2);
    let first = q.drain();
    assert_eq!(addrs(&first), vec!["/a", "/b"]);
    assert_eq!(q.len(), 0);
    assert!(q.drain().is_empty());
    q.push_all(vec![msg("/c", vec![]), msg("/d", vec![])]);
    assert_eq!(addrs(&q.drain()), vec!["/c", "/d"]);
}

#[test]
fn poller_one_receive_at_a_time() {
    let mut p = ReceivePoller::new();
    assert_eq!(p.state, ReceiveState::Idle);
    assert!(p.begin_cycle());
    assert_eq!(p.state, ReceiveState::Pending);
    // Not ready this cycle: the next cycle starts nothing new.
    assert!(!p.begin_cycle());
    let bytes = encoder::encode(&osc_msg("/x", vec![OscType::Int(4)])).unwrap();
    let got = p.complete(Some(&bytes)).unwrap();
    assert_eq!(got, vec![msg("/x", vec![Argument::Int(4)])]);
    assert_eq!(p.state, ReceiveState::Finished);
    // A second completion in the same cycle surfaces nothing.
    assert!(p.complete(Some(&bytes)).unwrap().is_empty());
    assert_eq!(p.state, ReceiveState::Finished);
    assert!(p.begin_cycle());
}

#[test]
fn poller_receive_error_and_decode_error() {
    let mut p = ReceivePoller::new();
    assert!(p.begin_cycle());
    assert!(p.complete(None).unwrap().is_empty());
    assert!(p.begin_cycle());
    assert!(p.complete(Some(b"bad")).is_err());
    assert_eq!(p.state, ReceiveState::Finished);
}

#[test]
fn poller_completion_without_receive_is_ignored() {
    let mut p = ReceivePoller::new();
    let bytes = encoder::encode(&osc_msg("/x", vec![])).unwrap();
    assert!(p.complete(Some(&bytes)).unwrap().is_empty());
    assert_eq!(p.state, ReceiveState::Idle);
}

#[test]
fn registry_indices_are_stable() {
    let mut r: SocketRegistry<u32> = SocketRegistry::new();
    assert_eq!(r.register(10), 0);
    assert_eq!(r.register(20), 1);
    assert_eq!(r.len(), 2);
    assert_eq!(*r.get(0), 10);
    assert_eq!(*r.get(1), 20);
}
