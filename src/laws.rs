//! What holds of the decoder and the loop over all inputs, proved from their
//! specifications.

use vstd::prelude::*;
use vstd::utf8::{pop_first_scalar, valid_first_scalar, valid_utf8};
use crate::bridge::{run_spec, step_spec, stop_spec, ActionView, Bridge, EventView, StopReason};
use crate::bytes::{
    all_digits, cols_name, digits_value, is_digit, keystroke_tag, kind_name, parse_u16_spec,
    rows_name, unsigned_digits, window_tag,
};
use crate::command::{decode_spec, CommandView, DecodeError, RecordView};
use crate::output::out_record_spec;

verus! {

/// The decimal numeral of `n`: its digits, most significant first, no
/// leading zero.
pub open spec fn decimal(n: nat) -> Seq<u8>
    decreases n,
{
    if n < 10 {
        seq![(48 + n) as u8]
    } else {
        decimal(n / 10).push((48 + n % 10) as u8)
    }
}

/// Every byte string of ASCII characters is well-formed UTF-8.
pub proof fn ascii_is_utf8(s: Seq<u8>)
    requires
        forall|i: int| 0 <= i < s.len() ==> s[i] < 128,
    ensures
        valid_utf8(s),
    decreases s.len(),
{
    if s.len() > 0 {
        let b = s[0];
        assert((b & 0x7f) <= 0x7f) by (bit_vector);
        assert(valid_first_scalar(s));
        assert(pop_first_scalar(s) =~= s.drop_first());
        ascii_is_utf8(s.drop_first());
    }
}

proof fn decimal_digits(n: nat)
    ensures
        decimal(n).len() > 0,
        all_digits(decimal(n)),
        digits_value(decimal(n)) == n,
    decreases n,
{
    if n >= 10 {
        decimal_digits(n / 10);
        assert(decimal(n).drop_last() =~= decimal(n / 10));
        assert(decimal(n).last() == (48 + n % 10) as u8);
        assert(digits_value(decimal(n)) == (n / 10) * 10 + n % 10);
        assert((n / 10) * 10 + n % 10 == n) by (nonlinear_arith);
        assert forall|i: int| 0 <= i < decimal(n).len() implies is_digit(#[trigger] decimal(n)[i]) by {
            if i < decimal(n).len() - 1 {
                assert(decimal(n)[i] == decimal(n / 10)[i]);
            }
        }
    } else {
        assert(decimal(n).drop_last() =~= Seq::<u8>::empty());
        assert(digits_value(Seq::<u8>::empty()) == 0);
    }
}

/// Parsing the decimal numeral of a 16-bit value gives that value back, and
/// the numeral is well-formed UTF-8.
pub proof fn decimal_round_trip(v: u16)
    ensures
        valid_utf8(decimal(v as nat)),
        parse_u16_spec(decimal(v as nat)) == Some(v),
{
    decimal_digits(v as nat);
    assert(unsigned_digits(decimal(v as nat)) == decimal(v as nat));
    ascii_is_utf8(decimal(v as nat));
}

/// A record whose first header is `type = keystroke` decodes into a
/// keystroke that carries the record's body, byte for byte.
pub proof fn keystroke_decodes(r: RecordView)
    requires
        r.headers.len() > 0,
        r.headers[0] == (kind_name(), keystroke_tag()),
    ensures
        decode_spec(r) == Ok::<CommandView, DecodeError>(CommandView::Keystroke(r.body)),
{
    ascii_is_utf8(keystroke_tag());
}

/// A record `type = window`, `rows = <rows>`, `cols = <cols>`, the numbers in
/// decimal, decodes into a resize to exactly those dimensions.
pub proof fn window_decodes(r: RecordView, rows: u16, cols: u16)
    requires
        r.headers.len() >= 3,
        r.headers[0] == (kind_name(), window_tag()),
        r.headers[1] == (rows_name(), decimal(rows as nat)),
        r.headers[2] == (cols_name(), decimal(cols as nat)),
    ensures
        decode_spec(r) == Ok::<CommandView, DecodeError>(CommandView::WindowResize { rows, cols }),
{
    ascii_is_utf8(window_tag());
    assert(window_tag() != keystroke_tag()) by {
        assert(window_tag().len() != keystroke_tag().len());
    }
    decimal_round_trip(rows);
    decimal_round_trip(cols);
}

/// A window record that lacks `rows` as its second header or `cols` as its
/// third, or whose dimension is not a 16-bit decimal number, fails to decode;
/// the loop then stops and neither writes to nor resizes the terminal.
pub proof fn malformed_window_rejected(s: Bridge, r: RecordView)
    requires
        s.stopped.is_none(),
        r.headers.len() > 0,
        r.headers[0] == (kind_name(), window_tag()),
        r.headers.len() < 2 || r.headers[1].0 != rows_name() || parse_u16_spec(r.headers[1].1)
            is None || r.headers.len() < 3 || r.headers[2].0 != cols_name() || parse_u16_spec(
            r.headers[2].1,
        ) is None,
    ensures
        decode_spec(r) is Err,
        step_spec(s, EventView::Command(r)) == stop_spec(
            s,
            StopReason::Decode(decode_spec(r)->Err_0),
        ),
{
    ascii_is_utf8(window_tag());
    assert(window_tag() != keystroke_tag()) by {
        assert(window_tag().len() != keystroke_tag().len());
    }
}

/// Once the loop has stopped it answers every event with `Idle`.
pub proof fn stopped_stays_idle(s: Bridge, events: Seq<EventView>)
    requires
        s.stopped.is_some(),
    ensures
        run_spec(s, events) == Seq::new(events.len(), |i: int| ActionView::Idle),
    decreases events.len(),
{
    if events.len() > 0 {
        stopped_stays_idle(s, events.drop_first());
    }
    assert(run_spec(s, events) =~= Seq::new(events.len(), |i: int| ActionView::Idle));
}

/// Keystroke records are written to the terminal in the order they arrive,
/// each exactly as its body.
pub proof fn keystrokes_written_in_order(s: Bridge, records: Seq<RecordView>)
    requires
        s.stopped.is_none(),
        forall|i: int|
            0 <= i < records.len() ==> (#[trigger] records[i]).headers.len() > 0
                && records[i].headers[0] == (kind_name(), keystroke_tag()),
    ensures
        run_spec(s, records.map_values(|r: RecordView| EventView::Command(r))) == records.map_values(
            |r: RecordView| ActionView::Write(r.body),
        ),
    decreases records.len(),
{
    let events = records.map_values(|r: RecordView| EventView::Command(r));
    if records.len() > 0 {
        keystroke_decodes(records[0]);
        keystrokes_written_in_order(s, records.drop_first());
        assert(events.drop_first() =~= records.drop_first().map_values(
            |r: RecordView| EventView::Command(r),
        ));
    }
    assert(run_spec(s, events) =~= records.map_values(|r: RecordView| ActionView::Write(r.body)));
}

/// Chunks read from the terminal are appended to the output log in the order
/// they were read, each as a record tagged `type = out`.
pub proof fn output_appended_in_order(s: Bridge, chunks: Seq<(Seq<u8>, u64)>)
    requires
        s.stopped.is_none(),
    ensures
        run_spec(
            s,
            chunks.map_values(|c: (Seq<u8>, u64)| EventView::Output { chunk: c.0, timestamp: c.1 }),
        ) == chunks.map_values(
            |c: (Seq<u8>, u64)| ActionView::Append(out_record_spec(c.0, c.1)),
        ),
    decreases chunks.len(),
{
    let events = chunks.map_values(
        |c: (Seq<u8>, u64)| EventView::Output { chunk: c.0, timestamp: c.1 },
    );
    if chunks.len() > 0 {
        output_appended_in_order(s, chunks.drop_first());
        assert(events.drop_first() =~= chunks.drop_first().map_values(
            |c: (Seq<u8>, u64)| EventView::Output { chunk: c.0, timestamp: c.1 },
        ));
    }
    assert(run_spec(s, events) =~= chunks.map_values(
        |c: (Seq<u8>, u64)| ActionView::Append(out_record_spec(c.0, c.1)),
    ));
}

/// When the output log's append session fails, the loop stops without a
/// crash notice and asks for no further append, whatever follows.
pub proof fn append_failure_ends_output(s: Bridge, events: Seq<EventView>)
    requires
        s.stopped.is_none(),
    ensures
        run_spec(s, seq![EventView::AckFailed] + events) == seq![
            ActionView::Stop(StopReason::AckFailure),
        ] + Seq::new(events.len(), |i: int| ActionView::Idle),
{
    let all = seq![EventView::AckFailed] + events;
    assert(all.drop_first() =~= events);
    stopped_stays_idle(stop_spec(s, StopReason::AckFailure).0, events);
}

} // verus!
