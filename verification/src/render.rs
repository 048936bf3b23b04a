// Builds the text the program prints: the carriage-return status line, padded
// to a fixed width so a shorter line fully overwrites a longer one, and the
// final summary line.  The text is built byte by byte in verified code, so
// the contracts give the exact bytes out.

use vstd::prelude::*;
use crate::progress::Render;

verus! {

/// The column width a status line is padded to.
pub const STATUS_WIDTH: usize = 81;

/// The decimal digits of `n`, most significant first, without leading zeros
/// (a single `'0'` for zero).
pub open spec fn dec_of(n: nat) -> Seq<u8>
    decreases n,
{
    if n < 10 {
        seq![(48 + n) as u8]
    } else {
        dec_of(n / 10).push((48 + n % 10) as u8)
    }
}

/// `"speed: "`
pub open spec fn speed_label() -> Seq<u8> {
    seq![115u8, 112u8, 101u8, 101u8, 100u8, 58u8, 32u8]
}

/// `" bytes/s"`
pub open spec fn rate_unit_label() -> Seq<u8> {
    seq![32u8, 98u8, 121u8, 116u8, 101u8, 115u8, 47u8, 115u8]
}

/// `" processed: "`
pub open spec fn processed_label() -> Seq<u8> {
    seq![32u8, 112u8, 114u8, 111u8, 99u8, 101u8, 115u8, 115u8, 101u8, 100u8, 58u8, 32u8]
}

/// `" %"`
pub open spec fn percent_label() -> Seq<u8> {
    seq![32u8, 37u8]
}

/// `"Done! use "`
pub open spec fn done_prefix() -> Seq<u8> {
    seq![68u8, 111u8, 110u8, 101u8, 33u8, 32u8, 117u8, 115u8, 101u8, 32u8]
}

/// `" msec"`
pub open spec fn done_suffix() -> Seq<u8> {
    seq![32u8, 109u8, 115u8, 101u8, 99u8]
}

/// The body of a status line: the throughput, and the percentage exactly
/// when one was computed.
pub open spec fn status_text_spec(st: Render) -> Seq<u8> {
    let head = speed_label() + dec_of(st.bytes_per_sec as nat) + rate_unit_label();
    match st.percent {
        Some(p) => head + processed_label() + dec_of(p as nat) + percent_label(),
        None => head,
    }
}

/// `s` padded on the right with spaces up to `width` bytes; text longer than
/// the width is kept whole, not cut.
pub open spec fn padded_spec(s: Seq<u8>, width: int) -> Seq<u8> {
    if s.len() >= width {
        s
    } else {
        s + Seq::new((width - s.len()) as nat, |i: int| 32u8)
    }
}

/// A whole status line: a carriage return, then the padded status text.
pub open spec fn status_line_spec(st: Render) -> Seq<u8> {
    seq![13u8] + padded_spec(status_text_spec(st), STATUS_WIDTH as int)
}

/// The final summary line's text: the total elapsed milliseconds.
pub open spec fn done_line_spec(millis: u64) -> Seq<u8> {
    done_prefix() + dec_of(millis as nat) + done_suffix()
}

/// The decimal digits of `n`, most significant first.
pub fn u64_to_dec(n: u64) -> (r: Vec<u8>)
    ensures
        r@ == dec_of(n as nat),
    decreases n,
{
    if n < 10 {
        let mut v: Vec<u8> = Vec::new();
        v.push((48 + n) as u8);
        proof {
            assert(v@ =~= dec_of(n as nat));
        }
        v
    } else {
        proof {
            assert(n / 10 < n) by (nonlinear_arith)
                requires
                    n >= 10,
            ;
        }
        let mut v = u64_to_dec(n / 10);
        v.push(48 + (n % 10) as u8);
        v
    }
}

fn append_speed_label(v: &mut Vec<u8>)
    ensures
        final(v)@ == old(v)@ + speed_label(),
{
    v.push(115u8);
    v.push(112u8);
    v.push(101u8);
    v.push(101u8);
    v.push(100u8);
    v.push(58u8);
    v.push(32u8);
    proof {
        assert(v@ =~= old(v)@ + speed_label());
    }
}

fn append_rate_unit_label(v: &mut Vec<u8>)
    ensures
        final(v)@ == old(v)@ + rate_unit_label(),
{
    v.push(32u8);
    v.push(98u8);
    v.push(121u8);
    v.push(116u8);
    v.push(101u8);
    v.push(115u8);
    v.push(47u8);
    v.push(115u8);
    proof {
        assert(v@ =~= old(v)@ + rate_unit_label());
    }
}

fn append_processed_label(v: &mut Vec<u8>)
    ensures
        final(v)@ == old(v)@ + processed_label(),
{
    v.push(32u8);
    v.push(112u8);
    v.push(114u8);
    v.push(111u8);
    v.push(99u8);
    v.push(101u8);
    v.push(115u8);
    v.push(115u8);
    v.push(101u8);
    v.push(100u8);
    v.push(58u8);
    v.push(32u8);
    proof {
        assert(v@ =~= old(v)@ + processed_label());
    }
}

fn append_percent_label(v: &mut Vec<u8>)
    ensures
        final(v)@ == old(v)@ + percent_label(),
{
    v.push(32u8);
    v.push(37u8);
    proof {
        assert(v@ =~= old(v)@ + percent_label());
    }
}

/// Pads `v` on the right with spaces until it is `width` bytes long; a longer
/// `v` is left as it is.
fn pad_to(v: &mut Vec<u8>, width: usize)
    ensures
        final(v)@ == padded_spec(old(v)@, width as int),
{
    while v.len() < width
        invariant
            old(v)@.len() <= v@.len(),
            v@.len() <= width || v@.len() == old(v)@.len(),
            forall|i: int| 0 <= i < old(v)@.len() ==> v@[i] == old(v)@[i],
            forall|i: int| old(v)@.len() <= i < v@.len() ==> v@[i] == 32u8,
        decreases width - v@.len(),
    {
        v.push(32u8);
    }
    proof {
        assert(v@ =~= padded_spec(old(v)@, width as int));
    }
}

/// The exact bytes of one status line: carriage return, the figures, and
/// space padding to the fixed width.
pub fn status_line(st: &Render) -> (r: Vec<u8>)
    ensures
        r@ == status_line_spec(*st),
{
    let mut text: Vec<u8> = Vec::new();
    append_speed_label(&mut text);
    let mut digits = u64_to_dec(st.bytes_per_sec);
    text.append(&mut digits);
    append_rate_unit_label(&mut text);
    match st.percent {
        Some(p) => {
            append_processed_label(&mut text);
            let mut percent_digits = u64_to_dec(p);
            text.append(&mut percent_digits);
            append_percent_label(&mut text);
        },
        None => {},
    }
    pad_to(&mut text, STATUS_WIDTH);
    let mut line: Vec<u8> = Vec::new();
    line.push(13u8);
    line.append(&mut text);
    proof {
        assert(line@ =~= status_line_spec(*st));
    }
    line
}

/// The exact bytes of the final summary line's text.
pub fn done_line(millis: u64) -> (r: Vec<u8>)
    ensures
        r@ == done_line_spec(millis),
{
    let mut text: Vec<u8> = Vec::new();
    text.push(68u8);
    text.push(111u8);
    text.push(110u8);
    text.push(101u8);
    text.push(33u8);
    text.push(32u8);
    text.push(117u8);
    text.push(115u8);
    text.push(101u8);
    text.push(32u8);
    proof {
        assert(text@ =~= done_prefix());
    }
    let mut digits = u64_to_dec(millis);
    text.append(&mut digits);
    text.push(32u8);
    text.push(109u8);
    text.push(115u8);
    text.push(101u8);
    text.push(99u8);
    proof {
        assert(text@ =~= done_line_spec(millis));
    }
    text
}

} // verus!
