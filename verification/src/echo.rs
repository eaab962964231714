use vstd::prelude::*;
use vstd::slice::slice_to_vec;
use vstd::string::*;
use vstd::utf8::*;

verus! {

broadcast use vstd::string::group_string_axioms;

/// How many bytes a session reads from its peer at a time.
pub const READ_BUFFER_SIZE: usize = 1024;

/// The text that the chat server puts before each message it answers.
pub open spec fn reply_prefix() -> Seq<char> {
    "服务器响应: "@
}

/// What `String::from_utf8_lossy` makes of `bytes`: the text they encode in
/// UTF-8, with each ill-formed part replaced by U+FFFD.
pub uninterp spec fn utf8_lossy(bytes: Seq<u8>) -> Seq<char>;

/// Calls `String::from_utf8_lossy` (std). Trusted: the result is the text
/// that std makes of the bytes, which depends on the bytes alone; where the
/// bytes are valid UTF-8, it is their decoding. What std puts in place of
/// ill-formed bytes is not stated beyond the name `utf8_lossy`.
#[verifier::external_body]
fn decode_lossy(bytes: &[u8]) -> (text: String)
    ensures
        text@ == utf8_lossy(bytes@),
        valid_utf8(bytes@) ==> text@ == decode_utf8(bytes@),
{
    String::from_utf8_lossy(bytes).into_owned()
}

/// The bytes the chat server sends back for a message: the prefix, then the
/// message as text, both in UTF-8.
pub open spec fn reply_bytes(received: Seq<u8>) -> Seq<u8> {
    encode_utf8(reply_prefix()) + encode_utf8(utf8_lossy(received))
}

/// The chat server's answer to what one read gave: nothing when the read
/// was empty (the peer closed the connection), otherwise the prefix followed
/// by the message read as text.
pub fn server_reply(received: &[u8]) -> (reply: Option<Vec<u8>>)
    ensures
        received@.len() == 0 <==> reply is None,
        reply matches Some(r) ==> r@ == reply_bytes(received@),
        reply matches Some(r) ==> valid_utf8(received@) ==> r@ == encode_utf8(reply_prefix())
            + received@,
{
    if received.len() == 0 {
        return None;
    }
    let message = decode_lossy(received);
    let mut reply = "服务器响应: ".as_bytes_vec();
    let mut body = message.as_str().as_bytes_vec();
    reply.append(&mut body);
    proof {
        if valid_utf8(received@) {
            decode_utf8_encode_utf8(received@);
        }
    }
    Some(reply)
}

/// The echo server's answer to what one read gave: nothing when the read was
/// empty (the peer closed the connection), otherwise the same bytes.
pub fn echo_reply(received: &[u8]) -> (reply: Option<Vec<u8>>)
    ensures
        received@.len() == 0 <==> reply is None,
        reply matches Some(r) ==> r@ == received@,
{
    if received.len() == 0 {
        None
    } else {
        Some(slice_to_vec(received))
    }
}

} // verus!
