use vstd::prelude::*;

verus! {

/// An OSC time tag: seconds since 1900 and the fraction of a second.
#[derive(Clone, Copy, Debug, PartialEq, Eq)]
pub struct TimeTag {
    pub seconds: u32,
    pub fractional: u32,
}

/// An RGBA color argument.
#[derive(Clone, Copy, Debug, PartialEq, Eq)]
pub struct Color {
    pub red: u8,
    pub green: u8,
    pub blue: u8,
    pub alpha: u8,
}

/// A MIDI message tunnelled through OSC.
#[derive(Clone, Copy, Debug, PartialEq, Eq)]
pub struct MidiMessage {
    pub port: u8,
    pub status: u8,
    pub data1: u8,
    pub data2: u8,
}

/// One argument of an OSC message.
///
/// Floating-point arguments are held as their IEEE 754 bit patterns, so that
/// a value is reproduced exactly on its way through the library.
#[derive(Debug, PartialEq)]
pub enum Argument {
    Int(i32),
    /// A 32-bit float, as the bits of its IEEE 754 encoding.
    Float(u32),
    String(String),
    Blob(Vec<u8>),
    Time(TimeTag),
    Long(i64),
    /// A 64-bit float, as the bits of its IEEE 754 encoding.
    Double(u64),
    Char(char),
    Color(Color),
    Midi(MidiMessage),
    Bool(bool),
    Array(Vec<Argument>),
    Nil,
    Inf,
}

/// An OSC message: an address and its ordered arguments.
#[derive(Debug, PartialEq)]
pub struct Message {
    pub addr: String,
    pub args: Vec<Argument>,
}

/// An OSC bundle: a time tag and an ordered sequence of packets.
#[derive(Debug, PartialEq)]
pub struct Bundle {
    pub timetag: TimeTag,
    pub content: Vec<Packet>,
}

/// An OSC packet: a single message or a bundle of nested packets.
#[derive(Debug, PartialEq)]
pub enum Packet {
    Message(Message),
    Bundle(Bundle),
}

/// The messages of a packet, depth first and left to right.
pub open spec fn flat(p: Packet) -> Seq<Message>
    decreases p,
{
    match p {
        Packet::Message(m) => seq![m],
        Packet::Bundle(b) => flat_seq(b.content@),
    }
}

/// The messages of a sequence of packets, in order.
pub open spec fn flat_seq(ps: Seq<Packet>) -> Seq<Message>
    decreases ps,
{
    if ps.len() == 0 {
        Seq::empty()
    } else {
        flat(ps[0]) + flat_seq(ps.subrange(1, ps.len() as int))
    }
}

/// Flattening a sequence of packets splits at any boundary: the messages of
/// `s + t` are those of `s` followed by those of `t`.
pub proof fn lemma_flat_seq_append(s: Seq<Packet>, t: Seq<Packet>)
    ensures
        flat_seq(s + t) == flat_seq(s) + flat_seq(t),
    decreases s.len(),
{
    if s.len() == 0 {
        assert(s + t =~= t);
        assert(flat_seq(s) + flat_seq(t) =~= flat_seq(t));
    } else {
        let rest = s.subrange(1, s.len() as int);
        assert((s + t).subrange(1, (s + t).len() as int) =~= rest + t);
        lemma_flat_seq_append(rest, t);
        assert(flat_seq(s + t) =~= flat_seq(s) + flat_seq(t));
    }
}

/// The messages of a bundle are, depth first and left to right, those of
/// its children: for any split of its content into a left and a right part,
/// every message of the left part comes before every message of the right.
pub proof fn lemma_flatten_bundle_order(b: Bundle, i: int)
    requires
        0 <= i <= b.content@.len(),
    ensures
        flat(Packet::Bundle(b)) == flat_seq(b.content@.subrange(0, i)) + flat_seq(
            b.content@.subrange(i, b.content@.len() as int),
        ),
{
    let c = b.content@;
    assert(c =~= c.subrange(0, i) + c.subrange(i, c.len() as int));
    lemma_flat_seq_append(c.subrange(0, i), c.subrange(i, c.len() as int));
}

/// Nesting does not change the messages: a bundle whose one child is `q`
/// flattens to exactly the messages of `q`, so a message wrapped in bundles
/// to any depth flattens to itself alone.
pub proof fn lemma_flatten_single_child(b: Bundle)
    requires
        b.content@.len() == 1,
    ensures
        flat(Packet::Bundle(b)) == flat(b.content@[0]),
{
    let c = b.content@;
    assert(c.subrange(1, 1) =~= Seq::<Packet>::empty());
    assert(flat_seq(c.subrange(1, 1)) == Seq::<Message>::empty());
    assert(flat_seq(c) =~= flat(c[0]));
}

/// Appends the messages of `p` to `out`, depth first and left to right.
pub fn flatten_into(p: Packet, out: &mut Vec<Message>)
    ensures
        final(out)@ == old(out)@ + flat(p),
    decreases p,
{
    let ghost whole = p;
    match p {
        Packet::Message(m) => {
            out.push(m);
        },
        Packet::Bundle(b) => {
            let mut rest = b.content;
            let ghost start = out@;
            assert(forall|k: int| 0 <= k < rest@.len() ==> decreases_to!(whole => #[trigger] rest@[k])) by {
                assert(decreases_to!(whole => b));
            };
            while rest.len() > 0
                invariant
                    p == whole,
                    start + flat(whole) == out@ + flat_seq(rest@),
                    forall|k: int| 0 <= k < rest@.len() ==> decreases_to!(whole => #[trigger] rest@[k]),
                decreases rest.len(),
            {
                let ghost before = rest@;
                let child = rest.remove(0);
                assert(rest@ == before.subrange(1, before.len() as int));
                flatten_into(child, out);
            }
        },
    }
}

/// The messages of `p`, depth first and left to right.
pub fn flatten(p: Packet) -> (r: Vec<Message>)
    ensures
        r@ == flat(p),
{
    let mut out: Vec<Message> = Vec::new();
    flatten_into(p, &mut out);
    out
}

} // verus!
