//! The messages that client and server exchange over the WebSocket, as JSON
//! objects tagged by a `type` field. Encoding to and from JSON happens outside
//! the library; here the messages are plain values.

use vstd::prelude::*;

verus! {

/// The largest clipboard text, in UTF-8 bytes, that is relayed (1 MiB).
pub const MAX_CLIP_BYTES: usize = 1024 * 1024;

/// A message of the wire protocol.
#[derive(Debug)]
pub enum WireMessage {
    /// Clipboard text copied on `source_machine`; `timestamp` is RFC 3339 UTC.
    Clip { text: String, source_machine: String, timestamp: String },
    /// Keepalive request.
    Ping,
    /// Keepalive answer.
    Pong,
}

/// A wire message with its texts as character sequences.
pub enum WireView {
    Clip { text: Seq<char>, source_machine: Seq<char>, timestamp: Seq<char> },
    Ping,
    Pong,
}

impl View for WireMessage {
    type V = WireView;

    open spec fn view(&self) -> WireView {
        match self {
            WireMessage::Clip { text, source_machine, timestamp } => WireView::Clip {
                text: text@,
                source_machine: source_machine@,
                timestamp: timestamp@,
            },
            WireMessage::Ping => WireView::Ping,
            WireMessage::Pong => WireView::Pong,
        }
    }
}

impl Clone for WireMessage {
    fn clone(&self) -> (r: Self)
        ensures
            r == *self,
    {
        match self {
            WireMessage::Clip { text, source_machine, timestamp } => WireMessage::Clip {
                text: text.clone(),
                source_machine: source_machine.clone(),
                timestamp: timestamp.clone(),
            },
            WireMessage::Ping => WireMessage::Ping,
            WireMessage::Pong => WireMessage::Pong,
        }
    }
}

/// The number of bytes of the UTF-8 encoding of a text.
pub open spec fn utf8_len(s: Seq<char>) -> nat {
    vstd::utf8::encode_utf8(s).len()
}

/// Whether a received text frame is small enough to be looked at: its UTF-8
/// encoding holds at most `MAX_CLIP_BYTES` bytes.
pub fn frame_within_limit(raw: &str) -> (r: bool)
    ensures
        r == (utf8_len(raw@) <= MAX_CLIP_BYTES),
{
    raw.as_bytes().len() <= MAX_CLIP_BYTES
}

/// Whether the text of a clip holds at most `MAX_CLIP_BYTES` UTF-8 bytes; other
/// messages always pass.
pub open spec fn clip_fits(m: WireMessage) -> bool {
    match m {
        WireMessage::Clip { text, .. } => utf8_len(text@) <= MAX_CLIP_BYTES,
        _ => true,
    }
}

/// Checks the size of a clip's text against `MAX_CLIP_BYTES`.
pub fn clip_within_limit(m: &WireMessage) -> (r: bool)
    ensures
        r == clip_fits(*m),
{
    match m {
        WireMessage::Clip { text, .. } => text.as_str().as_bytes().len() <= MAX_CLIP_BYTES,
        _ => true,
    }
}


/// A clip fits exactly when its text takes at most `MAX_CLIP_BYTES` bytes in
/// UTF-8: the machine name, the timestamp and which characters the text holds
/// play no part.
pub proof fn lemma_clip_fits_by_byte_length(text: String, source_machine: String, timestamp: String)
    ensures
        clip_fits(WireMessage::Clip { text, source_machine, timestamp }) <==> utf8_len(text@) <= MAX_CLIP_BYTES,
        clip_fits(WireMessage::Ping),
        clip_fits(WireMessage::Pong),
{
}

/// Clips whose texts have the same UTF-8 length fit alike.
pub proof fn lemma_equal_sizes_fit_alike(a: WireMessage, b: WireMessage)
    requires
        a is Clip,
        b is Clip,
        utf8_len(a->text@) == utf8_len(b->text@),
    ensures
        clip_fits(a) == clip_fits(b),
{
}

/// A character takes at most four bytes in UTF-8.
pub proof fn lemma_utf8_len_at_most_four_per_char(s: Seq<char>)
    ensures
        utf8_len(s) <= 4 * s.len(),
    decreases s.len(),
{
    if s.len() > 0 {
        lemma_utf8_len_at_most_four_per_char(s.drop_first());
        assert(vstd::utf8::encode_utf8(s) == vstd::utf8::encode_scalar(s[0] as u32) + vstd::utf8::encode_utf8(s.drop_first()));
    }
}

/// Every clip of at most a quarter of `MAX_CLIP_BYTES` characters fits, whatever
/// characters (ASCII or not) it holds.
pub proof fn lemma_short_clips_fit(m: WireMessage)
    requires
        m is Clip,
        4 * m->text@.len() <= MAX_CLIP_BYTES,
    ensures
        clip_fits(m),
{
    lemma_utf8_len_at_most_four_per_char(m->text@);
}

} // verus!
