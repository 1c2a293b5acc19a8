//! Fixed-width decimal formatting for the status line of the display,
//! and the small numeric helper the refresh policy uses.

use vstd::prelude::*;

verus! {

/// The magnitude of the difference of two byte-sized values.
pub fn absolute_difference(a: u8, b: u8) -> (r: u8)
    ensures
        a >= b ==> r == a - b,
        a < b ==> r == b - a,
{
    let wide: i16 = a as i16 - b as i16;
    if wide < 0 {
        (-wide) as u8
    } else {
        wide as u8
    }
}

/// Writes the three final decimal digits of `num` into the last three
/// bytes of the buffer, most significant first; the rest of the buffer
/// is left as it was.
pub fn format_two_digit(num: u8, buf: &mut Vec<u8>)
    requires
        old(buf).len() >= 3,
    ensures
        final(buf).len() == old(buf).len(),
        forall|i: int| 0 <= i < final(buf).len() - 3 ==> final(buf)[i] == old(buf)[i],
        final(buf)[final(buf).len() - 3] as int == 48 + (num as int / 100) % 10,
        final(buf)[final(buf).len() - 2] as int == 48 + (num as int / 10) % 10,
        final(buf)[final(buf).len() - 1] as int == 48 + num as int % 10,
{
    let len = buf.len();
    buf.set(len - 3, 48 + (num / 100) % 10);
    buf.set(len - 2, 48 + (num / 10) % 10);
    buf.set(len - 1, 48 + num % 10);
}

/// Writes a sign byte and the three final decimal digits of the
/// magnitude of `num` into the last four bytes of the buffer, most
/// significant first.  The magnitude of the domain minimum is not
/// representable and is outside the contract.
pub fn format_two_digit_16(num: i16, buf: &mut Vec<u8>)
    requires
        old(buf).len() >= 4,
        num != i16::MIN,
    ensures
        final(buf).len() == old(buf).len(),
        forall|i: int| 0 <= i < final(buf).len() - 4 ==> final(buf)[i] == old(buf)[i],
        final(buf)[final(buf).len() - 4] as int == (if num < 0 {
            45int
        } else {
            32int
        }),
        final(buf)[final(buf).len() - 3] as int == 48 + (abs16(num) / 100) % 10,
        final(buf)[final(buf).len() - 2] as int == 48 + (abs16(num) / 10) % 10,
        final(buf)[final(buf).len() - 1] as int == 48 + abs16(num) % 10,
{
    let len = buf.len();
    let abs_num: u16 = if num < 0 {
        (-num) as u16
    } else {
        num as u16
    };

    buf.set(len - 4, if num < 0 { 45 } else { 32 });
    buf.set(len - 3, 48 + ((abs_num / 100) % 10) as u8);
    buf.set(len - 2, 48 + ((abs_num / 10) % 10) as u8);
    buf.set(len - 1, 48 + (abs_num % 10) as u8);
}

/// The magnitude of a sixteen-bit value, as an unbounded integer.
pub open spec fn abs16(num: i16) -> int {
    if num < 0 {
        -(num as int)
    } else {
        num as int
    }
}

} // verus!
