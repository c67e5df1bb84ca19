use vstd::prelude::*;
use rosc::{OscPacket, OscType};
use crate::packet::{flat, flatten, Argument, Bundle, Color, Message, MidiMessage, Packet, TimeTag};

verus! {

#[verifier::external_type_specification]
#[verifier::external_body]
pub struct ExOscPacket(OscPacket);

#[verifier::external_type_specification]
#[verifier::external_body]
pub struct ExOscType(OscType);

/// Why a datagram could not be decoded, in the decoder's own words.
#[derive(Debug, PartialEq)]
pub struct DecodeError {
    pub reason: String,
}

/// The packet that rosc's UDP decoder reads from a datagram, or `None` where
/// it rejects the bytes.
pub uninterp spec fn decoded_udp(bytes: Seq<u8>) -> Option<Packet>;

/// Relies on rosc::decoder::decode_udp: it reads one packet from the front of
/// the datagram, and what it returns depends on the bytes alone.
#[verifier::external_body]
fn decode_udp(bytes: &[u8]) -> (r: Result<Packet, DecodeError>)
    ensures
        r is Ok <==> decoded_udp(bytes@) is Some,
        r is Ok ==> decoded_udp(bytes@) == Some(r->Ok_0),
{
    match rosc::decoder::decode_udp(bytes) {
        Ok((_, packet)) => Ok(packet_from_osc(packet)),
        Err(e) => Err(DecodeError { reason: e.to_string() }),
    }
}

/// Converts a packet of rosc's decoder into the library's own, one for one.
#[verifier::external_body]
fn packet_from_osc(p: OscPacket) -> Packet {
    match p {
        OscPacket::Message(m) => Packet::Message(Message {
            addr: m.addr,
            args: m.args.into_iter().map(arg_from_osc).collect(),
        }),
        OscPacket::Bundle(b) => Packet::Bundle(Bundle {
            timetag: TimeTag { seconds: b.timetag.seconds, fractional: b.timetag.fractional },
            content: b.content.into_iter().map(packet_from_osc).collect(),
        }),
    }
}

/// Converts an argument of rosc's decoder into the library's own, one for
/// one; floats keep their bit patterns.
#[verifier::external_body]
fn arg_from_osc(a: OscType) -> Argument {
    match a {
        OscType::Int(v) => Argument::Int(v),
        OscType::Float(v) => Argument::Float(v.to_bits()),
        OscType::String(v) => Argument::String(v),
        OscType::Blob(v) => Argument::Blob(v),
        OscType::Long(v) => Argument::Long(v),
        OscType::Double(v) => Argument::Double(v.to_bits()),
        OscType::Char(v) => Argument::Char(v),
        OscType::Bool(v) => Argument::Bool(v),
        OscType::Array(v) => Argument::Array(v.content.into_iter().map(arg_from_osc).collect()),
        OscType::Nil => Argument::Nil,
        OscType::Inf => Argument::Inf,
        other => record_arg_from_osc(other),
    }
}

/// Converts the arguments of rosc that are records (time tag, color, MIDI)
/// into the library's own, one for one; hands the others back.
#[verifier::external_body]
fn record_arg_from_osc(a: OscType) -> Argument {
    match a {
        OscType::Time(t) => Argument::Time(TimeTag { seconds: t.seconds, fractional: t.fractional }),
        OscType::Color(c) => Argument::Color(Color { red: c.red, green: c.green, blue: c.blue, alpha: c.alpha }),
        OscType::Midi(m) => Argument::Midi(MidiMessage { port: m.port, status: m.status, data1: m.data1, data2: m.data2 }),
        other => arg_from_osc(other),
    }
}

/// The messages that a datagram carries, depth first and left to right, or
/// `None` where the datagram does not decode.
pub open spec fn datagram_messages(bytes: Seq<u8>) -> Option<Seq<Message>> {
    match decoded_udp(bytes) {
        Some(p) => Some(flat(p)),
        None => None,
    }
}

/// Decodes one datagram and flattens its packet into messages.
///
/// A datagram that does not decode gives the decoder's error; nothing is
/// lost or reordered for one that does.
pub fn decode_datagram(bytes: &[u8]) -> (r: Result<Vec<Message>, DecodeError>)
    ensures
        r is Ok <==> datagram_messages(bytes@) is Some,
        r is Ok ==> datagram_messages(bytes@) == Some(r->Ok_0@),
{
    match decode_udp(bytes) {
        Ok(packet) => Ok(flatten(packet)),
        Err(e) => Err(e),
    }
}

} // verus!
