//! Ingestion of Open Sound Control datagrams: the packet model, decoding and
//! flattening of bundles, the two ingestion strategies (a cooperative poller
//! and a mutex-guarded inbox filled by a reader thread), the dispatch of
//! messages as host events, the debug formatter, and the configuration of
//! receivers and senders.
mod codec;
mod config;
mod dispatch;
mod format;
mod inbox;
mod packet;
mod poller;

pub use packet::{Argument, Bundle, Color, Message, MidiMessage, Packet, TimeTag};
pub use packet::{flat, flat_seq, flatten, flatten_into, lemma_flat_seq_append, lemma_flatten_bundle_order, lemma_flatten_single_child};
pub use codec::{decode_datagram, datagram_messages, decoded_udp, DecodeError};
pub use inbox::{after_datagram, lemma_decode_failure_is_isolated, lemma_drained_inbox_delivered_all, OscMessageQueue, SocketRegistry};
pub use poller::{begin_cycle_step, complete_step, completion_result, completions, lemma_no_second_receive, lemma_one_result_per_cycle, ReceivePoller, ReceiveState};
pub use format::{blob_text, byte_texts, debug_line, debug_line_of, decimal, digit_char, digits, get_string, get_type_string, get_type_tags, join, tag_of, tags_of, texts, value_text};
pub use config::{is_ipv6_addr, local_host, socket_address, OscReceiver, OscReceiverPlugin, OscSender};
pub use dispatch::{events_of, osc_handling_in_thread_update, publish, OscMessageEvent};
