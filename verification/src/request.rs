//! A request as it arrives: its first line names a method and a path, and
//! what follows the first blank line is its body.

use crate::text::{chars_of, find, first_occurrence, lemma_first_occurrence, lemma_next, next, seek, Mark};
use vstd::prelude::*;
use vstd::slice::slice_subrange;
use vstd::string::*;
use vstd::utf8::{decode_utf8, valid_utf8};

verus! {

/// What the service reads out of a request. A part that the text lacks is
/// empty: reading never fails.
#[derive(Clone, Debug, PartialEq, Eq)]
pub struct Request {
    /// The first word of the request line.
    pub method: String,
    /// The second word of the request line.
    pub path: String,
    /// Everything behind the first blank line.
    pub body: String,
}

/// A request as plain sequences of characters.
pub struct RequestView {
    pub method: Seq<char>,
    pub path: Seq<char>,
    pub body: Seq<char>,
}

impl View for Request {
    type V = RequestView;

    open spec fn view(&self) -> RequestView {
        RequestView { method: self.method@, path: self.path@, body: self.body@ }
    }
}

/// The line break pair twice over, which parts the head of a request from
/// its body.
pub open spec fn blank_line() -> Seq<char> {
    seq!['\r', '\n', '\r', '\n']
}

/// The request line: the text up to its first line feed, or all of it where
/// it has none. (A carriage return before the line feed is white space and
/// so never part of a word.)
pub open spec fn request_line(text: Seq<char>) -> Seq<char> {
    text.take(next(text, 0, Mark::Is('\n')))
}

/// Where the first word of `s` at or after `from` begins.
pub open spec fn word_start(s: Seq<char>, from: int) -> int {
    next(s, from, Mark::NonSpace)
}

/// Where the first word of `s` at or after `from` ends.
pub open spec fn word_end(s: Seq<char>, from: int) -> int {
    next(s, word_start(s, from), Mark::Space)
}

/// The first word of `s` at or after `from`: the longest run without white
/// space that begins at the first character that is none. Empty where only
/// white space is left.
pub open spec fn word(s: Seq<char>, from: int) -> Seq<char> {
    s.subrange(word_start(s, from), word_end(s, from))
}

/// The method of a request: the first word of its request line.
pub open spec fn method_of(text: Seq<char>) -> Seq<char> {
    word(request_line(text), 0)
}

/// The path of a request: the second word of its request line.
pub open spec fn path_of(text: Seq<char>) -> Seq<char> {
    word(request_line(text), word_end(request_line(text), 0))
}

/// The body of a request: what follows the first blank line, and nothing
/// where the text has no blank line.
pub open spec fn body_of(text: Seq<char>) -> Seq<char> {
    let at = first_occurrence(text, blank_line(), 0);
    if at < text.len() {
        text.skip(at + 4)
    } else {
        Seq::empty()
    }
}

/// What reading `text` as a request gives.
pub open spec fn parsed(text: Seq<char>) -> RequestView {
    RequestView { method: method_of(text), path: path_of(text), body: body_of(text) }
}

/// The identifier that a path names: its second segment. The path begins
/// at the first `/` of the text and ends before the next white space; the
/// identifier is what stands behind the second `/` of the path, up to the
/// next `/` or the end of the path. Empty where the path has no second
/// `/`, and where the text has no `/` at all.
///
/// The text may be a path or a whole request: this is `42` for
/// `/users/42/posts` and for `GET /users/42 HTTP/1.1`, and empty for
/// `/users`, for `GET /users HTTP/1.1` and for `GET /users/ HTTP/1.1`.
pub open spec fn id_segment(req: Seq<char>) -> Seq<char> {
    let first = next(req, 0, Mark::Is('/'));
    let second = next(req, first + 1, Mark::SlashOrSpace);
    if second < req.len() && req[second] == '/' {
        req.subrange(second + 1, next(req, second + 1, Mark::SlashOrSpace))
    } else {
        Seq::empty()
    }
}

/// What `String::from_utf8_lossy` makes of `bytes`.
pub uninterp spec fn utf8_lossy(bytes: Seq<u8>) -> Seq<char>;

/// `String::from_utf8_lossy`, which turns bytes into text and puts U+FFFD
/// in the place of what is no UTF-8. The text is a function of the bytes;
/// of bytes that are UTF-8 it is the decoding.
#[verifier::external_body]
fn lossy_text(buf: &[u8]) -> (text: String)
    ensures
        text@ == utf8_lossy(buf@),
        valid_utf8(buf@) ==> text@ == decode_utf8(buf@),
{
    String::from_utf8_lossy(buf).into_owned()
}

/// The identifier that a path or a request line names: see [`id_segment`].
pub fn get_id<'a>(req: &'a str) -> (id: &'a str)
    ensures
        id@ == id_segment(req@),
{
    let cs = chars_of(req);
    let first: usize = seek(cs.as_slice(), 0, Mark::Is('/'));
    proof {
        lemma_next(cs@, 0, Mark::Is('/'));
    }
    if first >= cs.len() {
        return req.substring_char(0, 0);
    }
    let second: usize = seek(cs.as_slice(), first + 1, Mark::SlashOrSpace);
    proof {
        lemma_next(cs@, first + 1, Mark::SlashOrSpace);
    }
    if second >= cs.len() || cs[second] != '/' {
        return req.substring_char(0, 0);
    }
    let end: usize = seek(cs.as_slice(), second + 1, Mark::SlashOrSpace);
    proof {
        lemma_next(cs@, second + 1, Mark::SlashOrSpace);
    }
    req.substring_char(second + 1, end)
}

/// The body of a request: see [`body_of`].
pub fn get_body<'a>(req: &'a str) -> (body: &'a str)
    ensures
        body@ == body_of(req@),
{
    let cs = chars_of(req);
    let separator = chars_of("\r\n\r\n");
    proof {
        reveal_strlit("\r\n\r\n");
        assert(separator@ =~= blank_line());
        lemma_first_occurrence(cs@, blank_line(), 0);
    }
    let at: usize = find(cs.as_slice(), separator.as_slice(), 0);
    if at < cs.len() {
        req.substring_char(at + 4, cs.len())
    } else {
        req.substring_char(0, 0)
    }
}

/// Reads a request out of its text.
pub fn parse_request_text(text: &str) -> (req: Request)
    ensures
        req@ == parsed(text@),
{
    let cs = chars_of(text);
    let line_end: usize = seek(cs.as_slice(), 0, Mark::Is('\n'));
    proof {
        lemma_next(cs@, 0, Mark::Is('\n'));
    }
    let line = slice_subrange(cs.as_slice(), 0, line_end);
    assert(line@ =~= request_line(text@));
    let method_start: usize = seek(line, 0, Mark::NonSpace);
    proof {
        lemma_next(line@, 0, Mark::NonSpace);
    }
    let method_end: usize = seek(line, method_start, Mark::Space);
    proof {
        lemma_next(line@, method_start as int, Mark::Space);
    }
    let path_start: usize = seek(line, method_end, Mark::NonSpace);
    proof {
        lemma_next(line@, method_end as int, Mark::NonSpace);
    }
    let path_end: usize = seek(line, path_start, Mark::Space);
    proof {
        lemma_next(line@, path_start as int, Mark::Space);
    }
    let method = text.substring_char(method_start, method_end).to_owned();
    let path = text.substring_char(path_start, path_end).to_owned();
    assert(method@ =~= method_of(text@));
    assert(path@ =~= path_of(text@));

    let body = get_body(text).to_owned();
    Request { method, path, body }
}

/// Reads a request out of the bytes that arrived. Bytes that are no UTF-8
/// are read as U+FFFD.
pub fn parse_request(buf: &[u8]) -> (req: Request)
    ensures
        req@ == parsed(utf8_lossy(buf@)),
        valid_utf8(buf@) ==> req@ == parsed(decode_utf8(buf@)),
{
    let text = lossy_text(buf);
    parse_request_text(text.as_str())
}

} // verus!
