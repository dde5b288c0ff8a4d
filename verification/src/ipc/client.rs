use vstd::prelude::*;
use vstd::string::StringSliceAdditionalSpecFns;
use vstd::utf8::{decode_utf8, encode_scalar, encode_utf8, encode_utf8_decode_utf8};

verus! {

/// Sends a single request to a running bridge.
pub struct IPCClient;

/// The line terminator that ends every request on the socket.
pub const REQUEST_TERMINATOR: u8 = 10;

/// The bytes of one request whose JSON text is `json`: its UTF-8 encoding, then a newline.
pub open spec fn request_bytes(json: Seq<char>) -> Seq<u8> {
    encode_utf8(json).push(REQUEST_TERMINATOR)
}

/// Whether `bytes` hold no line terminator.
pub open spec fn holds_no_terminator(bytes: Seq<u8>) -> bool {
    forall|k: int| 0 <= k < bytes.len() ==> #[trigger] bytes[k] != REQUEST_TERMINATOR
}

impl IPCClient {
    /// The bytes written to the socket for one request whose JSON text is `json`: its
    /// UTF-8 bytes followed by one newline.
    pub fn frame_request(json: &str) -> (bytes: Vec<u8>)
        ensures
            bytes@ == request_bytes(json@),
            bytes@ == json.spec_bytes().push(REQUEST_TERMINATOR),
    {
        let mut bytes = vstd::slice::slice_to_vec(json.as_bytes());
        bytes.push(REQUEST_TERMINATOR);
        bytes
    }
}

/// The UTF-8 encoding of a character other than a newline holds no newline byte: a
/// one-byte encoding is the character itself, and every byte of a longer one has its
/// high bit set.
proof fn lemma_scalar_holds_no_terminator(c: char)
    requires
        c != '\n',
    ensures
        holds_no_terminator(encode_scalar(c as u32)),
{
    let v = c as u32;
    assert(v <= 0x10FFFF);
    assert(v != 10);
    assert(v <= 0x7F ==> (v & 0x7F) as u8 != 10) by (bit_vector)
        requires
            v != 10,
    ;
    assert((0xC0 | ((v >> 6) & 0x1F) as u8) != 10) by (bit_vector);
    assert((0xE0 | ((v >> 12) & 0x0F) as u8) != 10) by (bit_vector);
    assert((0xF0 | ((v >> 18) & 0x7) as u8) != 10) by (bit_vector);
    assert((0x80 | (v & 0x3F) as u8) != 10) by (bit_vector);
    assert((0x80 | ((v >> 6) & 0x3F) as u8) != 10) by (bit_vector);
    assert((0x80 | ((v >> 12) & 0x3F) as u8) != 10) by (bit_vector);
}

/// A text without a newline encodes to bytes without a newline.
proof fn lemma_text_holds_no_terminator(text: Seq<char>)
    requires
        forall|k: int| 0 <= k < text.len() ==> text[k] != '\n',
    ensures
        holds_no_terminator(encode_utf8(text)),
    decreases text.len(),
{
    if text.len() > 0 {
        lemma_scalar_holds_no_terminator(text[0]);
        lemma_text_holds_no_terminator(text.drop_first());
        let head = encode_scalar(text[0] as u32);
        let tail = encode_utf8(text.drop_first());
        assert(encode_utf8(text) == head + tail);
        assert forall|k: int| 0 <= k < (head + tail).len() implies #[trigger] (head
            + tail)[k] != REQUEST_TERMINATOR by {
            if k < head.len() {
                assert((head + tail)[k] == head[k]);
            } else {
                assert((head + tail)[k] == tail[k - head.len()]);
            }
        }
    }
}

/// A request whose JSON text holds no newline is exactly one line: the newline that ends it
/// is its only one, and the bytes before it decode back to the JSON text. A reader that
/// splits the stream at newlines therefore gets back the text that was sent.
pub proof fn lemma_request_is_one_line(json: Seq<char>)
    requires
        forall|k: int| 0 <= k < json.len() ==> json[k] != '\n',
    ensures
        request_bytes(json).last() == REQUEST_TERMINATOR,
        holds_no_terminator(request_bytes(json).drop_last()),
        decode_utf8(request_bytes(json).drop_last()) == json,
{
    lemma_text_holds_no_terminator(json);
    assert(request_bytes(json).drop_last() =~= encode_utf8(json));
    encode_utf8_decode_utf8(json);
}

} // verus!
