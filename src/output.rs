//! Records written to the output log: terminal output, and the notice of a
//! crash.

use vstd::prelude::*;
use crate::bytes::{kind_name, kind_name_bytes, out_tag, out_tag_bytes};
use crate::command::{headers_view, Header};

verus! {

/// A record to append to the output log.
#[derive(Clone, Debug)]
pub struct OutputRecord {
    pub headers: Vec<Header>,
    /// Milliseconds since the Unix epoch.
    pub timestamp: u64,
    pub body: Vec<u8>,
}

pub ghost struct OutputRecordView {
    pub headers: Seq<(Seq<u8>, Seq<u8>)>,
    pub timestamp: u64,
    pub body: Seq<u8>,
}

impl View for OutputRecord {
    type V = OutputRecordView;

    open spec fn view(&self) -> OutputRecordView {
        OutputRecordView {
            headers: headers_view(self.headers@),
            timestamp: self.timestamp,
            body: self.body@,
        }
    }
}

/// The one header of every output record: `type = out`.
pub open spec fn out_headers() -> Seq<(Seq<u8>, Seq<u8>)> {
    seq![(kind_name(), out_tag())]
}

/// The output record that carries `body`, stamped `timestamp`.
pub open spec fn out_record_spec(body: Seq<u8>, timestamp: u64) -> OutputRecordView {
    OutputRecordView { headers: out_headers(), timestamp, body }
}

/// The text of the crash notice: a red "server crashed :-!" on a line of
/// its own.
pub open spec fn crash_text() -> Seq<u8> {
    seq![
        13u8, 10, 27, 91, 51, 49, 109, 115, 101, 114, 118, 101, 114, 32, 99, 114, 97, 115, 104,
        101, 100, 32, 58, 45, 33, 27, 91, 48, 109, 13,
    ]
}

/// Wraps bytes read from the terminal as a record of the output log.
pub fn output_record(body: Vec<u8>, timestamp: u64) -> (r: OutputRecord)
    ensures
        r@ == out_record_spec(body@, timestamp),
{
    let mut headers: Vec<Header> = Vec::new();
    headers.push(Header::new(kind_name_bytes(), out_tag_bytes()));
    let r = OutputRecord { headers, timestamp, body };
    assert(r@.headers =~= out_headers());
    r
}

/// The record that tells readers of the output log that the bridge crashed.
pub fn crash_notice(timestamp: u64) -> (r: OutputRecord)
    ensures
        r@ == out_record_spec(crash_text(), timestamp),
{
    let text: Vec<u8> = vec![
        13u8, 10, 27, 91, 51, 49, 109, 115, 101, 114, 118, 101, 114, 32, 99, 114, 97, 115, 104,
        101, 100, 32, 58, 45, 33, 27, 91, 48, 109, 13,
    ];
    output_record(text, timestamp)
}

} // verus!
