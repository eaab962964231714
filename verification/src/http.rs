use vstd::prelude::*;
use vstd::string::*;
use vstd::utf8::*;

use crate::decimal::{
    decimal, decimal_value, is_decimal_text_of, lemma_decimal_is_text_of, lemma_decimal_round_trip,
    push_decimal,
};

verus! {

broadcast use vstd::string::group_string_axioms;

/// The one request line the server answers with its index page.
pub open spec fn index_request_line() -> Seq<char> {
    "GET / HTTP/1.1"@
}

/// The page a request is answered with.
#[derive(PartialEq, Eq, Structural, Debug, Clone, Copy)]
pub enum Page {
    /// The index page, answered with status 200.
    Index,
    /// Any other request, answered with status 404.
    NotFound,
}

/// The status line of the response that carries a page.
pub open spec fn status_line_of(page: Page) -> Seq<char> {
    match page {
        Page::Index => "HTTP/1.1 200 OK"@,
        Page::NotFound => "HTTP/1.1 404 NOT FOUND"@,
    }
}

/// The file that holds a page.
pub open spec fn file_name_of(page: Page) -> Seq<char> {
    match page {
        Page::Index => "hello.html"@,
        Page::NotFound => "404.html"@,
    }
}

/// The bytes that come before the body of a response with the given status
/// line and a body of `body_len` bytes: the status line, the
/// `Content-Length` header, and the blank line.
pub open spec fn response_head(status_line: Seq<char>, body_len: nat) -> Seq<u8> {
    encode_utf8(status_line) + encode_utf8("\r\nContent-Length: "@) + decimal(body_len)
        + encode_utf8("\r\n\r\n"@)
}

/// The bytes of the response with the given status line whose body is
/// `contents`, encoded in UTF-8.
pub open spec fn response_bytes(status_line: Seq<char>, contents: Seq<char>) -> Seq<u8> {
    response_head(status_line, encode_utf8(contents).len()) + encode_utf8(contents)
}

impl Page {
    pub fn status_line(&self) -> (line: &'static str)
        ensures
            line@ == status_line_of(*self),
    {
        match self {
            Page::Index => "HTTP/1.1 200 OK",
            Page::NotFound => "HTTP/1.1 404 NOT FOUND",
        }
    }

    pub fn file_name(&self) -> (name: &'static str)
        ensures
            name@ == file_name_of(*self),
    {
        match self {
            Page::Index => "hello.html",
            Page::NotFound => "404.html",
        }
    }
}

/// The page for a request line: the index page for exactly
/// `GET / HTTP/1.1`, the not-found page for any other line.
pub fn route(request_line: &str) -> (page: Page)
    ensures
        page == (if request_line@ == index_request_line() {
            Page::Index
        } else {
            Page::NotFound
        }),
{
    let line = String::from_str(request_line);
    let index = String::from_str("GET / HTTP/1.1");
    if line == index {
        Page::Index
    } else {
        Page::NotFound
    }
}

/// Appends the UTF-8 bytes of `text` to `out`.
pub(crate) fn push_str_bytes(out: &mut Vec<u8>, text: &str)
    ensures
        final(out)@ == old(out)@ + encode_utf8(text@),
{
    let mut bytes = text.as_bytes_vec();
    out.append(&mut bytes);
}

/// The response with the given status line whose body is `contents`:
/// the status line, a `Content-Length` header with the byte length of the
/// body, a blank line, and the body.
pub fn http_response(status_line: &str, contents: &str) -> (response: Vec<u8>)
    ensures
        response@ == response_bytes(status_line@, contents@),
{
    let mut response: Vec<u8> = Vec::new();
    push_str_bytes(&mut response, status_line);
    push_str_bytes(&mut response, "\r\nContent-Length: ");
    push_decimal(&mut response, contents.as_bytes().len());
    push_str_bytes(&mut response, "\r\n\r\n");
    push_str_bytes(&mut response, contents);
    assert(response@ =~= response_bytes(status_line@, contents@));
    response
}

/// A response ends with its body, and the value of its `Content-Length`
/// header, read as a decimal number, is the byte length of that body.
pub proof fn lemma_content_length_is_body_length(status_line: Seq<char>, contents: Seq<char>)
    ensures
        ({
            let body = encode_utf8(contents);
            let response = response_bytes(status_line, contents);
            &&& response == response_head(status_line, body.len()) + body
            &&& response.subrange(response.len() - body.len(), response.len() as int) == body
            &&& decimal_value(decimal(body.len())) == body.len()
        }),
{
    let body = encode_utf8(contents);
    let response = response_bytes(status_line, contents);
    assert(response.subrange(response.len() - body.len(), response.len() as int) =~= body);
    lemma_decimal_round_trip(body.len());
}

/// Every response is its status line, `\r\nContent-Length: `, the byte
/// length of its body written in decimal as `{}` writes it, a blank line, and
/// the body itself.
pub proof fn lemma_response_declares_body_length(status_line: Seq<char>, contents: Seq<char>)
    ensures
        exists|length_field: Seq<u8>|
            #[trigger] is_decimal_text_of(length_field, encode_utf8(contents).len())
                && response_bytes(status_line, contents) == encode_utf8(status_line) + encode_utf8(
                "\r\nContent-Length: "@,
            ) + length_field + encode_utf8("\r\n\r\n"@) + encode_utf8(contents),
{
    let n = encode_utf8(contents).len();
    lemma_decimal_is_text_of(n);
    assert(response_bytes(status_line, contents) =~= encode_utf8(status_line) + encode_utf8(
        "\r\nContent-Length: "@,
    ) + decimal(n) + encode_utf8("\r\n\r\n"@) + encode_utf8(contents));
}

} // verus!
