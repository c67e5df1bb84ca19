use vstd::prelude::*;
use vstd::string::*;
use crate::packet::{Argument, Message};

verus! {

/// The character of one decimal digit.
pub open spec fn digit_char(d: nat) -> char {
    if d == 0 { '0' } else if d == 1 { '1' } else if d == 2 { '2' } else if d == 3 { '3' }
    else if d == 4 { '4' } else if d == 5 { '5' } else if d == 6 { '6' } else if d == 7 { '7' }
    else if d == 8 { '8' } else { '9' }
}

/// The decimal digits of `n`, most significant first, without leading zeros.
pub open spec fn digits(n: nat) -> Seq<char>
    decreases n,
{
    if n < 10 {
        seq![digit_char(n)]
    } else {
        digits(n / 10).push(digit_char(n % 10))
    }
}

/// The decimal rendering of `v`, with a leading minus sign when negative.
pub open spec fn decimal(v: int) -> Seq<char> {
    if v < 0 {
        seq!['-'] + digits((-v) as nat)
    } else {
        digits(v as nat)
    }
}

/// The parts, with `sep` between each two neighbours.
pub open spec fn join(parts: Seq<Seq<char>>, sep: Seq<char>) -> Seq<char>
    decreases parts.len(),
{
    if parts.len() == 0 {
        Seq::empty()
    } else if parts.len() == 1 {
        parts[0]
    } else {
        join(parts.drop_last(), sep) + sep + parts.last()
    }
}

/// Relies on std's `ToString` for `i64`: the decimal digits of the value,
/// after a minus sign when it is negative.
#[verifier::external_body]
pub(crate) fn decimal_text(v: i64) -> (r: String)
    ensures
        r@ == decimal(v as int),
{
    v.to_string()
}

/// Relies on std's `ToString` for `char`: the one character itself.
#[verifier::external_body]
fn char_text(c: char) -> (r: String)
    ensures
        r@ == seq![c],
{
    c.to_string()
}

/// The type tag of an argument: `i` for integers and booleans, `f` for
/// floats, `s` for strings, `b` for blobs, and `?` for any other kind.
pub open spec fn tag_of(a: Argument) -> Seq<char> {
    match a {
        Argument::Int(_) | Argument::Bool(_) => seq!['i'],
        Argument::Float(_) | Argument::Double(_) => seq!['f'],
        Argument::String(_) => seq!['s'],
        Argument::Blob(_) => seq!['b'],
        _ => seq!['?'],
    }
}

/// The type tags of the arguments, one character each, in order.
pub open spec fn tags_of(args: Seq<Argument>) -> Seq<char>
    decreases args.len(),
{
    if args.len() == 0 {
        Seq::empty()
    } else {
        tags_of(args.drop_last()) + tag_of(args.last())
    }
}

/// A blob as a bracketed list of its bytes in decimal, separated by `, `.
pub open spec fn blob_text(b: Seq<u8>) -> Seq<char> {
    seq!['['] + join(byte_texts(b), seq![',', ' ']) + seq![']']
}

/// The decimal rendering of each byte, in order.
pub open spec fn byte_texts(b: Seq<u8>) -> Seq<Seq<char>> {
    b.map_values(|x: u8| decimal(x as int))
}

/// The rendering of an argument's value for the debug line. Floats have
/// none here: their text is the host's to give.
pub open spec fn value_text(a: Argument) -> Option<Seq<char>> {
    match a {
        Argument::Int(v) => Some(decimal(v as int)),
        Argument::Long(v) => Some(decimal(v as int)),
        Argument::Bool(v) => Some(if v { "true"@ } else { "false"@ }),
        Argument::String(s) => Some(s@),
        Argument::Blob(b) => Some(blob_text(b@)),
        Argument::Char(c) => Some(seq![c]),
        Argument::Float(_) | Argument::Double(_) => None,
        Argument::Time(_) => Some("Time"@),
        Argument::Color(_) => Some("Color"@),
        Argument::Midi(_) => Some("Midi"@),
        Argument::Array(_) => Some("Array"@),
        Argument::Nil => Some("Nil"@),
        Argument::Inf => Some("Inf"@),
    }
}

/// The characters of each string, in order.
pub open spec fn texts(v: Seq<String>) -> Seq<Seq<char>> {
    v.map_values(|s: String| s@)
}

/// The debug line of a message at time `ts`, given the renderings of its
/// argument values.
pub open spec fn debug_line_of(ts: Seq<char>, m: Message, values: Seq<Seq<char>>) -> Seq<char> {
    let body = if m.args@.len() == 0 {
        m.addr@
    } else {
        m.addr@ + seq![' '] + join(values, seq![' '])
    };
    seq!['['] + ts + "] Received OSC Message: "@ + body + " (type tags: '"@ + tags_of(m.args@)
        + "')"@
}

/// The type tag of one argument.
pub fn get_type_string(a: &Argument) -> (r: String)
    ensures
        r@ == tag_of(*a),
{
    proof {
        reveal_strlit("i");
        reveal_strlit("f");
        reveal_strlit("s");
        reveal_strlit("b");
        reveal_strlit("?");
    }
    match a {
        Argument::Int(_) | Argument::Bool(_) => String::from_str("i"),
        Argument::Float(_) | Argument::Double(_) => String::from_str("f"),
        Argument::String(_) => String::from_str("s"),
        Argument::Blob(_) => String::from_str("b"),
        _ => String::from_str("?"),
    }
}

/// The type tags of the arguments, one character each, in order.
pub fn get_type_tags(args: &Vec<Argument>) -> (r: String)
    ensures
        r@ == tags_of(args@),
{
    let mut r = String::new();
    let mut i: usize = 0;
    while i < args.len()
        invariant
            i <= args@.len(),
            r@ == tags_of(args@.subrange(0, i as int)),
        decreases args.len() - i,
    {
        let t = get_type_string(&args[i]);
        r.append(t.as_str());
        assert(args@.subrange(0, i + 1).drop_last() =~= args@.subrange(0, i as int));
        i += 1;
    }
    assert(args@.subrange(0, i as int) =~= args@);
    r
}

/// Appends `parts`, with `sep` between each two neighbours, to `out`.
fn append_joined(out: &mut String, parts: &Vec<String>, sep: &str)
    ensures
        final(out)@ == old(out)@ + join(texts(parts@), sep@),
{
    let ghost views = texts(parts@);
    let ghost start = out@;
    let mut i: usize = 0;
    while i < parts.len()
        invariant
            i <= parts@.len(),
            views == texts(parts@),
            out@ == start + join(views.subrange(0, i as int), sep@),
        decreases parts.len() - i,
    {
        let ghost before = out@;
        if i > 0 {
            out.append(sep);
        }
        out.append(parts[i].as_str());
        proof {
            let prefix = views.subrange(0, i + 1);
            assert(prefix.drop_last() =~= views.subrange(0, i as int));
            if i == 0 {
                assert(views.subrange(0, 0) =~= Seq::<Seq<char>>::empty());
                assert(out@ =~= start + join(prefix, sep@));
            } else {
                assert(out@ =~= start + join(prefix, sep@));
            }
        }
        i += 1;
    }
    assert(views.subrange(0, i as int) =~= views);
}

/// A blob as a bracketed list of its bytes in decimal.
fn blob_string(b: &Vec<u8>) -> (r: String)
    ensures
        r@ == blob_text(b@),
{
    let mut parts: Vec<String> = Vec::new();
    let mut i: usize = 0;
    while i < b.len()
        invariant
            i <= b@.len(),
            parts@.len() == i,
            forall|k: int| 0 <= k < i ==> #[trigger] parts@[k]@ == decimal(b@[k] as int),
        decreases b.len() - i,
    {
        let t = decimal_text(b[i] as i64);
        parts.push(t);
        i += 1;
    }
    assert(texts(parts@) =~= byte_texts(b@));
    let mut r = String::new();
    r.append("[");
    append_joined(&mut r, &parts, ", ");
    r.append("]");
    proof {
        reveal_strlit("[");
        reveal_strlit("]");
        reveal_strlit(", ");
        assert("["@ =~= seq!['[']);
        assert("]"@ =~= seq![']']);
        assert(", "@ =~= seq![',', ' ']);
        assert(r@ =~= blob_text(b@));
    }
    r
}

/// The rendering of an argument's value for the debug line; `None` for a
/// float, whose text the host gives.
pub fn get_string(a: &Argument) -> (r: Option<String>)
    ensures
        r is Some <==> value_text(*a) is Some,
        r is Some ==> value_text(*a) == Some(r->Some_0@),
{
    match a {
        Argument::Int(v) => Some(decimal_text(*v as i64)),
        Argument::Long(v) => Some(decimal_text(*v)),
        Argument::Bool(v) => Some(String::from_str(if *v { "true" } else { "false" })),
        Argument::String(s) => Some(s.clone()),
        Argument::Blob(b) => Some(blob_string(b)),
        Argument::Char(c) => Some(char_text(*c)),
        Argument::Float(_) | Argument::Double(_) => None,
        Argument::Time(_) => Some(String::from_str("Time")),
        Argument::Color(_) => Some(String::from_str("Color")),
        Argument::Midi(_) => Some(String::from_str("Midi")),
        Argument::Array(_) => Some(String::from_str("Array")),
        Argument::Nil => Some(String::from_str("Nil")),
        Argument::Inf => Some(String::from_str("Inf")),
    }
}

/// The debug line of `msg` received at `timestamp`: the time, the address,
/// the argument values separated by spaces, and the type tags.
pub fn debug_line(timestamp: &str, msg: &Message, values: &Vec<String>) -> (r: String)
    ensures
        r@ == debug_line_of(timestamp@, *msg, texts(values@)),
{
    let m = msg;
    let mut r = String::from_str("[");
    proof {
        reveal_strlit("[");
        reveal_strlit(" ");
        assert("["@ =~= seq!['[']);
        assert(" "@ =~= seq![' ']);
    }
    r.append(timestamp);
    r.append("] Received OSC Message: ");
    let ghost head = r@;
    r.append(msg.addr.as_str());
    if msg.args.len() > 0 {
        r.append(" ");
        append_joined(&mut r, values, " ");
    }
    let ghost body = if m.args@.len() == 0 {
        m.addr@
    } else {
        m.addr@ + seq![' '] + join(texts(values@), seq![' '])
    };
    assert(r@ =~= head + body);
    r.append(" (type tags: '");
    let tags = get_type_tags(&msg.args);
    r.append(tags.as_str());
    r.append("')");
    assert(r@ =~= debug_line_of(timestamp@, *msg, texts(values@)));
    r
}

} // verus!
