//! Records of the input log and the commands they carry.
//!
//! The protocol is positional: the first header names the command, and a
//! window resize takes its row and column counts from the second and third.

use vstd::prelude::*;
use vstd::utf8::valid_utf8;
use crate::bytes::{
    bytes_eq, cols_name, is_utf8, keystroke_tag, keystroke_tag_bytes, kind_name, kind_name_bytes,
    parse_u16, parse_u16_spec, rows_name, window_tag, window_tag_bytes, rows_name_bytes,
    cols_name_bytes,
};

verus! {

/// One header of a record: a name and a value, both raw bytes.
#[derive(Clone, Debug)]
pub struct Header {
    pub name: Vec<u8>,
    pub value: Vec<u8>,
}

impl View for Header {
    type V = (Seq<u8>, Seq<u8>);

    open spec fn view(&self) -> (Seq<u8>, Seq<u8>) {
        (self.name@, self.value@)
    }
}

impl Header {
    pub fn new(name: Vec<u8>, value: Vec<u8>) -> (r: Header)
        ensures
            r@ == (name@, value@),
    {
        Header { name, value }
    }
}

/// A record of a log stream: ordered headers and an opaque body.
#[derive(Clone, Debug)]
pub struct Record {
    pub headers: Vec<Header>,
    pub body: Vec<u8>,
}

pub ghost struct RecordView {
    pub headers: Seq<(Seq<u8>, Seq<u8>)>,
    pub body: Seq<u8>,
}

pub open spec fn headers_view(hs: Seq<Header>) -> Seq<(Seq<u8>, Seq<u8>)> {
    hs.map_values(|h: Header| h@)
}

impl View for Record {
    type V = RecordView;

    open spec fn view(&self) -> RecordView {
        RecordView { headers: headers_view(self.headers@), body: self.body@ }
    }
}

impl Record {
    pub fn new(headers: Vec<Header>, body: Vec<u8>) -> (r: Record)
        ensures
            r@ == (RecordView { headers: headers_view(headers@), body: body@ }),
    {
        Record { headers, body }
    }
}

/// A command from the input log.
#[derive(Clone, Debug)]
pub enum Command {
    /// Bytes to write to the terminal as they are.
    Keystroke(Vec<u8>),
    /// New dimensions of the terminal.
    WindowResize { rows: u16, cols: u16 },
}

pub ghost enum CommandView {
    Keystroke(Seq<u8>),
    WindowResize { rows: u16, cols: u16 },
}

impl View for Command {
    type V = CommandView;

    open spec fn view(&self) -> CommandView {
        match self {
            Command::Keystroke(b) => CommandView::Keystroke(b@),
            Command::WindowResize { rows, cols } => CommandView::WindowResize {
                rows: *rows,
                cols: *cols,
            },
        }
    }
}

/// The header of a window resize that was missing or out of place.
#[derive(PartialEq, Eq, Structural, Clone, Copy, Debug)]
pub enum Dimension {
    Rows,
    Cols,
}

/// Why a record is not a command.
#[derive(PartialEq, Eq, Structural, Clone, Copy, Debug)]
pub enum DecodeError {
    /// The record has no header.
    NoHeaders,
    /// The first header is not named `type`.
    FirstHeaderNotType,
    /// The `type` header names no known command.
    UnrecognizedType,
    /// A window resize lacks `rows` as its second header or `cols` as its third.
    MissingHeader(Dimension),
    /// A header value that must be text is not UTF-8.
    InvalidEncoding,
    /// A dimension is not an unsigned 16-bit decimal integer.
    InvalidNumber,
}

pub open spec fn dimension_name(d: Dimension) -> Seq<u8> {
    match d {
        Dimension::Rows => rows_name(),
        Dimension::Cols => cols_name(),
    }
}

/// The dimension in header `i`, which must be named after `d`.
pub open spec fn dimension_spec(hs: Seq<(Seq<u8>, Seq<u8>)>, i: int, d: Dimension) -> Result<
    u16,
    DecodeError,
> {
    if hs.len() <= i || hs[i].0 != dimension_name(d) {
        Err(DecodeError::MissingHeader(d))
    } else if !valid_utf8(hs[i].1) {
        Err(DecodeError::InvalidEncoding)
    } else {
        match parse_u16_spec(hs[i].1) {
            Some(v) => Ok(v),
            None => Err(DecodeError::InvalidNumber),
        }
    }
}

/// The command that a record carries, or why it carries none.
pub open spec fn decode_spec(r: RecordView) -> Result<CommandView, DecodeError> {
    if r.headers.len() == 0 {
        Err(DecodeError::NoHeaders)
    } else if r.headers[0].0 != kind_name() {
        Err(DecodeError::FirstHeaderNotType)
    } else if !valid_utf8(r.headers[0].1) {
        Err(DecodeError::InvalidEncoding)
    } else if r.headers[0].1 == keystroke_tag() {
        Ok(CommandView::Keystroke(r.body))
    } else if r.headers[0].1 == window_tag() {
        match dimension_spec(r.headers, 1, Dimension::Rows) {
            Err(e) => Err(e),
            Ok(rows) => match dimension_spec(r.headers, 2, Dimension::Cols) {
                Err(e) => Err(e),
                Ok(cols) => Ok(CommandView::WindowResize { rows, cols }),
            },
        }
    } else {
        Err(DecodeError::UnrecognizedType)
    }
}

pub open spec fn decoded_view(r: Result<Command, DecodeError>) -> Result<CommandView, DecodeError> {
    match r {
        Ok(c) => Ok(c@),
        Err(e) => Err(e),
    }
}

fn decode_dimension(hs: &Vec<Header>, i: usize, d: Dimension) -> (r: Result<u16, DecodeError>)
    ensures
        r == dimension_spec(headers_view(hs@), i as int, d),
{
    let ghost hv = headers_view(hs@);
    if i >= hs.len() {
        return Err(DecodeError::MissingHeader(d));
    }
    assert(hv[i as int] == hs@[i as int]@);
    let name = match d {
        Dimension::Rows => rows_name_bytes(),
        Dimension::Cols => cols_name_bytes(),
    };
    let h = &hs[i];
    if !bytes_eq(h.name.as_slice(), name.as_slice()) {
        return Err(DecodeError::MissingHeader(d));
    }
    if !is_utf8(h.value.as_slice()) {
        return Err(DecodeError::InvalidEncoding);
    }
    match parse_u16(h.value.as_slice()) {
        Some(v) => Ok(v),
        None => Err(DecodeError::InvalidNumber),
    }
}

/// Decodes a record of the input log into a command. Nothing of a record
/// that fails is kept: the result is a whole command or an error.
pub fn decode(record: &Record) -> (r: Result<Command, DecodeError>)
    ensures
        decoded_view(r) == decode_spec(record@),
{
    let ghost hv = record@.headers;
    if record.headers.len() == 0 {
        return Err(DecodeError::NoHeaders);
    }
    let first = &record.headers[0];
    assert(hv[0] == record.headers@[0]@);
    let kind = kind_name_bytes();
    if !bytes_eq(first.name.as_slice(), kind.as_slice()) {
        return Err(DecodeError::FirstHeaderNotType);
    }
    if !is_utf8(first.value.as_slice()) {
        return Err(DecodeError::InvalidEncoding);
    }
    let keystroke = keystroke_tag_bytes();
    if bytes_eq(first.value.as_slice(), keystroke.as_slice()) {
        return Ok(Command::Keystroke(record.body.clone()));
    }
    let window = window_tag_bytes();
    if bytes_eq(first.value.as_slice(), window.as_slice()) {
        let rows = match decode_dimension(&record.headers, 1, Dimension::Rows) {
            Ok(v) => v,
            Err(e) => return Err(e),
        };
        let cols = match decode_dimension(&record.headers, 2, Dimension::Cols) {
            Ok(v) => v,
            Err(e) => return Err(e),
        };
        return Ok(Command::WindowResize { rows, cols });
    }
    Err(DecodeError::UnrecognizedType)
}

} // verus!
