//! Message framing of the tool protocol: a `Content-Length` header block,
//! a blank line, then that many bytes of JSON.

use vstd::prelude::*;
use vstd::string::*;
use vstd::utf8::encode_utf8;

use crate::scope::opt_str_view;
use crate::text::{
    decimal_text, eq_ignore_ascii_case, eq_ignoring_ascii_case, is_white_space, lemma_decimal_text_digits,
    lemma_parse_decimal_text, parse_usize, parsed_usize, push_decimal, split_once, split_once_at,
    is_first_index_of, str_eq, trim, trim_line_breaks, trimmed, trimmed_end, trimmed_start,
    without_line_breaks,
};

verus! {

/// What has been read of a header block so far.
#[derive(Clone, Copy, Debug)]
pub struct HeaderState {
    /// The last `Content-Length` value seen.
    pub content_length: Option<usize>,
    /// Whether any line has been read.
    pub saw_header: bool,
}

/// Why a header block could not be read.
#[derive(Debug)]
pub enum FrameError {
    /// The input ended inside a header block.
    UnexpectedEof,
    /// A `Content-Length` value is not an unsigned number; holds the value.
    InvalidContentLength(String),
    /// The header block ended without a `Content-Length`.
    MissingContentLength,
    /// The body is not a JSON document; holds the decoder's message.
    InvalidJson(String),
}

/// What to do after reading one line of a header block.
#[derive(Debug)]
pub enum HeaderStep {
    /// Read the next line.
    Continue(HeaderState),
    /// The header block is complete; read this many bytes of body.
    Body(usize),
    /// The input ended cleanly before any message.
    EndOfInput,
    /// The header block is malformed.
    Fail(FrameError),
}

/// The view of a header-reading error.
pub enum FrameErrorView {
    UnexpectedEof,
    InvalidContentLength(Seq<char>),
    MissingContentLength,
    InvalidJson(Seq<char>),
}

/// The view of a header-reading step.
pub enum HeaderStepView {
    Continue(HeaderState),
    Body(usize),
    EndOfInput,
    Fail(FrameErrorView),
}

pub open spec fn frame_error_view(e: FrameError) -> FrameErrorView {
    match e {
        FrameError::UnexpectedEof => FrameErrorView::UnexpectedEof,
        FrameError::InvalidContentLength(v) => FrameErrorView::InvalidContentLength(v@),
        FrameError::MissingContentLength => FrameErrorView::MissingContentLength,
        FrameError::InvalidJson(d) => FrameErrorView::InvalidJson(d@),
    }
}

pub open spec fn step_view(s: HeaderStep) -> HeaderStepView {
    match s {
        HeaderStep::Continue(st) => HeaderStepView::Continue(st),
        HeaderStep::Body(n) => HeaderStepView::Body(n),
        HeaderStep::EndOfInput => HeaderStepView::EndOfInput,
        HeaderStep::Fail(e) => HeaderStepView::Fail(frame_error_view(e)),
    }
}

/// The name of the header that gives the body length.
pub open spec fn content_length_name() -> Seq<char> {
    "Content-Length"@
}

/// The state before any header line is read.
pub open spec fn initial_header_state() -> HeaderState {
    HeaderState { content_length: None, saw_header: false }
}

/// How one line (`None` at the end of input) moves the reading of a header
/// block on. Lines carry their line break; a line that is only a line break
/// ends the block. A `Content-Length` header, whose name is matched without
/// regard to ASCII case, sets the body length; other lines are skipped.
pub open spec fn header_transition(state: HeaderState, line: Option<Seq<char>>) -> HeaderStepView {
    match line {
        None => if state.saw_header {
            HeaderStepView::Fail(FrameErrorView::UnexpectedEof)
        } else {
            HeaderStepView::EndOfInput
        },
        Some(l) => if l == "\n"@ || l == "\r\n"@ {
            match state.content_length {
                Some(n) => HeaderStepView::Body(n),
                None => HeaderStepView::Fail(FrameErrorView::MissingContentLength),
            }
        } else {
            let seen = HeaderState { content_length: state.content_length, saw_header: true };
            match split_once_at(without_line_breaks(l), ':') {
                Some((name, value)) => if eq_ignoring_ascii_case(name, content_length_name()) {
                    match parsed_usize(trimmed(value)) {
                        Some(n) => HeaderStepView::Continue(
                            HeaderState { content_length: Some(n), saw_header: true },
                        ),
                        None => HeaderStepView::Fail(
                            FrameErrorView::InvalidContentLength(trimmed(value)),
                        ),
                    }
                } else {
                    HeaderStepView::Continue(seen)
                },
                None => HeaderStepView::Continue(seen),
            }
        },
    }
}

/// The state before any header line is read.
pub fn header_start() -> (r: HeaderState)
    ensures
        r == initial_header_state(),
{
    HeaderState { content_length: None, saw_header: false }
}

/// Moves the reading of a header block on by one line, or by the end of
/// input when `line` is `None`.
pub fn header_step(state: HeaderState, line: Option<&str>) -> (r: HeaderStep)
    ensures
        step_view(r) == header_transition(state, opt_str_view(line)),
{
    match line {
        None => if state.saw_header {
            HeaderStep::Fail(FrameError::UnexpectedEof)
        } else {
            HeaderStep::EndOfInput
        },
        Some(l) => {
            if str_eq(l, "\n") || str_eq(l, "\r\n") {
                return match state.content_length {
                    Some(n) => HeaderStep::Body(n),
                    None => HeaderStep::Fail(FrameError::MissingContentLength),
                };
            }
            let seen = HeaderState { content_length: state.content_length, saw_header: true };
            let stripped = trim_line_breaks(l);
            match split_once(stripped.as_str(), ':') {
                Some((name, value)) => {
                    if eq_ignore_ascii_case(name.as_str(), "Content-Length") {
                        let v = trim(value.as_str());
                        match parse_usize(v.as_str()) {
                            Some(n) => HeaderStep::Continue(
                                HeaderState { content_length: Some(n), saw_header: true },
                            ),
                            None => HeaderStep::Fail(FrameError::InvalidContentLength(v)),
                        }
                    } else {
                        HeaderStep::Continue(seen)
                    }
                },
                None => HeaderStep::Continue(seen),
            }
        },
    }
}

impl FrameError {
    /// The message of this error.
    pub fn message(&self) -> (r: String)
        ensures
            r@ == match *self {
                FrameError::UnexpectedEof => "unexpected EOF while reading MCP headers"@,
                FrameError::InvalidContentLength(v) => "invalid Content-Length header: "@ + v@,
                FrameError::MissingContentLength => "missing Content-Length header"@,
                FrameError::InvalidJson(d) => "invalid MCP JSON payload: "@ + d@,
            },
    {
        match self {
            FrameError::UnexpectedEof => "unexpected EOF while reading MCP headers".to_owned(),
            FrameError::InvalidContentLength(v) => {
                let mut r = "invalid Content-Length header: ".to_owned();
                r.append(v.as_str());
                r
            },
            FrameError::MissingContentLength => "missing Content-Length header".to_owned(),
            FrameError::InvalidJson(d) => {
                let mut r = "invalid MCP JSON payload: ".to_owned();
                r.append(d.as_str());
                r
            },
        }
    }
}

/// The header line that announces a body of `len` bytes.
pub open spec fn length_line(len: usize) -> Seq<char> {
    "Content-Length: "@ + decimal_text(len as nat) + "\r\n"@
}

/// The header block written before a body of `len` bytes.
pub open spec fn frame_header_text(len: usize) -> Seq<char> {
    length_line(len) + "\r\n"@
}

/// The bytes written for one message: the header block, then the body.
pub fn frame_message(body: &[u8]) -> (r: Vec<u8>)
    ensures
        r@ == encode_utf8(frame_header_text(body@.len() as usize)) + body@,
{
    let mut header = "Content-Length: ".to_owned();
    push_decimal(&mut header, body.len() as u64);
    header.append("\r\n\r\n");
    proof {
        reveal_strlit("\r\n\r\n");
        reveal_strlit("\r\n");
    }
    assert(header@ =~= frame_header_text(body@.len() as usize));
    let mut r = header.as_str().as_bytes_vec();
    let ghost head = r@;
    let mut i: usize = 0;
    while i < body.len()
        invariant
            i <= body@.len(),
            r@ == head + body@.take(i as int),
        decreases body@.len() - i,
    {
        r.push(body[i]);
        i = i + 1;
        assert(r@ =~= head + body@.take(i as int));
    }
    assert(body@.take(body@.len() as int) =~= body@);
    r
}

proof fn lemma_decimal_not_white(n: nat)
    ensures
        !is_white_space(decimal_text(n).last()),
        !is_white_space(decimal_text(n)[0]),
        decimal_text(n).last() != '\r' && decimal_text(n).last() != '\n',
        forall|i: int| 0 <= i < decimal_text(n).len() ==> #[trigger] decimal_text(n)[i] != ':',
{
    lemma_decimal_text_digits(n);
    assert(crate::text::is_digit(decimal_text(n)[decimal_text(n).len() - 1]));
    assert(crate::text::is_digit(decimal_text(n)[0]));
}

/// Reading back the header block written for a body of `len` bytes gives
/// `len`: from any state, the length line sets the body length to `len`,
/// and the blank line that follows ends the block with a body of `len`
/// bytes.
pub proof fn lemma_frame_header_round_trip(state: HeaderState, len: usize)
    ensures
        frame_header_text(len) == length_line(len) + "\r\n"@,
        header_transition(state, Some(length_line(len))) == HeaderStepView::Continue(
            HeaderState { content_length: Some(len), saw_header: true },
        ),
        header_transition(
            HeaderState { content_length: Some(len), saw_header: true },
            Some("\r\n"@),
        ) == HeaderStepView::Body(len),
{
    reveal_strlit("Content-Length: ");
    reveal_strlit("Content-Length");
    reveal_strlit("\r\n");
    reveal_strlit("\n");
    let d = decimal_text(len as nat);
    lemma_decimal_not_white(len as nat);
    lemma_parse_decimal_text(len);
    let line = length_line(len);
    let body = "Content-Length: "@ + d;
    assert(line.len() > 2);
    assert(line != "\n"@);
    assert(line != "\r\n"@);
    assert(line.drop_last() =~= body + seq!['\r']);
    assert((body + seq!['\r']).drop_last() =~= body);
    assert(body.last() == d.last());
    assert(without_line_breaks(body) == body);
    assert(line.last() == '\n');
    assert(without_line_breaks(line) == without_line_breaks(body + seq!['\r']));
    assert((body + seq!['\r']).last() == '\r');
    assert(without_line_breaks(body + seq!['\r']) == without_line_breaks(body));
    assert(without_line_breaks(line) == body);
    assert(is_first_index_of(body, ':', 14));
    let k = choose|i: int| is_first_index_of(body, ':', i);
    assert(k == 14) by {
        if k < 14 {
        } else if k > 14 {
            assert(body[14] == ':');
        }
    }
    assert(body.take(14) =~= content_length_name());
    let value = body.skip(15);
    assert(value =~= seq![' '] + d);
    assert(value.drop_first() =~= d);
    assert(value[0] == ' ');
    assert(trimmed_start(value) == trimmed_start(d));
    assert(trimmed_start(value) == d);
    assert(trimmed_start(d) == d);
    assert(trimmed_end(d) == d);
    assert(trimmed(value) == d);
}

} // verus!
