//! Unit conversions: seconds into hours, minutes and seconds, and bytes into
//! tenths of a binary gigabyte.

use crate::text::{
    decimal, digit_char, is_digit, lemma_one_decimal_shape, one_decimal, push_one_decimal,
};
use vstd::prelude::*;

verus! {

/// An uptime broken into whole hours, minutes and seconds. Hours never carry
/// into days.
#[derive(Clone, Copy, Debug, PartialEq, Eq, Structural)]
pub struct Uptime {
    pub hours: u64,
    pub minutes: u64,
    pub seconds: u64,
}

/// The hours in `total` seconds.
pub open spec fn uptime_hours(total: nat) -> nat {
    total / 3600
}

/// The minutes left in `total` seconds once the whole hours are taken out.
pub open spec fn uptime_minutes(total: nat) -> nat {
    (total % 3600) / 60
}

/// The seconds left in `total` seconds once the whole minutes are taken out.
pub open spec fn uptime_seconds(total: nat) -> nat {
    total % 60
}

impl Uptime {
    /// The number of seconds that the three parts stand for.
    pub open spec fn total(self) -> nat {
        (self.hours * 3600 + self.minutes * 60 + self.seconds) as nat
    }

    /// Splits a number of seconds into hours, minutes and seconds.
    pub fn from_seconds(total: u64) -> (r: Uptime)
        ensures
            r.hours == uptime_hours(total as nat),
            r.minutes == uptime_minutes(total as nat),
            r.seconds == uptime_seconds(total as nat),
            r.minutes < 60,
            r.seconds < 60,
            r.total() == total,
    {
        Uptime { hours: total / 3600, minutes: (total % 3600) / 60, seconds: total % 60 }
    }
}

/// The three parts of an uptime add up to the seconds that they were taken
/// from, and minutes and seconds each stay below sixty.
pub proof fn lemma_uptime_parts_add_up(total: nat)
    ensures
        uptime_hours(total) * 3600 + uptime_minutes(total) * 60 + uptime_seconds(total) == total,
        uptime_minutes(total) < 60,
        uptime_seconds(total) < 60,
{
}

/// The bytes in one binary gigabyte: 1024 * 1024 * 1024.
pub const BYTES_PER_GB: u64 = 1_073_741_824;

/// A size in bytes as tenths of a gigabyte, rounded to the nearest tenth; a
/// size that lies exactly between two tenths goes to the even one.
pub open spec fn gb_tenths(bytes: nat) -> nat {
    let scaled = bytes * 10;
    let below = scaled / (BYTES_PER_GB as nat);
    let rest = scaled % (BYTES_PER_GB as nat);
    if rest * 2 > BYTES_PER_GB || (rest * 2 == BYTES_PER_GB && below % 2 == 1) {
        below + 1
    } else {
        below
    }
}

/// How far `tenths` tenths of a gigabyte lie from `bytes`, in tenths of a
/// byte.
pub open spec fn gb_distance(bytes: nat, tenths: nat) -> nat {
    let exact = bytes * 10;
    let shown = tenths * BYTES_PER_GB;
    if exact >= shown {
        (exact - shown) as nat
    } else {
        (shown - exact) as nat
    }
}

/// A size in bytes as tenths of a gigabyte.
pub fn gigabyte_tenths(bytes: u64) -> (r: u64)
    ensures
        r == gb_tenths(bytes as nat),
{
    let scaled: u128 = (bytes as u128) * 10;
    let below: u128 = scaled / (BYTES_PER_GB as u128);
    let rest: u128 = scaled % (BYTES_PER_GB as u128);
    let half: u128 = (BYTES_PER_GB as u128) / 2;
    if rest > half || (rest == half && below % 2 == 1) {
        (below + 1) as u64
    } else {
        below as u64
    }
}

/// A larger size never shows as fewer tenths of a gigabyte.
pub proof fn lemma_gb_tenths_monotonic(smaller: nat, larger: nat)
    requires
        smaller <= larger,
    ensures
        gb_tenths(smaller) <= gb_tenths(larger),
{
}

/// No number of tenths lies nearer to a size than the one it shows as, and
/// where another lies as near, the one shown is even.
pub proof fn lemma_gb_tenths_is_nearest(bytes: nat, other: nat)
    ensures
        gb_distance(bytes, gb_tenths(bytes)) * 2 <= BYTES_PER_GB,
        gb_distance(bytes, gb_tenths(bytes)) <= gb_distance(bytes, other),
        other != gb_tenths(bytes) && gb_distance(bytes, other) == gb_distance(
            bytes,
            gb_tenths(bytes),
        ) ==> gb_tenths(bytes) % 2 == 0,
{
}

/// Whole gigabytes show as a whole number of tenths: `n` gigabytes are
/// `10 * n` tenths.
pub proof fn lemma_gb_tenths_of_whole_gigabytes(n: nat)
    ensures
        gb_tenths((n * BYTES_PER_GB) as nat) == n * 10,
{
}

/// A size in bytes as it is shown: in gigabytes with one decimal place,
/// followed by the unit.
pub open spec fn gigabytes_text(bytes: nat) -> Seq<char> {
    one_decimal(gb_tenths(bytes)) + " GB"@
}

/// Appends a size in bytes to `out`, in gigabytes with one decimal place and
/// the unit.
pub fn push_gigabytes(out: &mut String, bytes: u64)
    ensures
        final(out)@ == old(out)@ + gigabytes_text(bytes as nat),
{
    push_one_decimal(out, gigabyte_tenths(bytes));
    out.append(" GB");
    assert(out@ =~= old(out)@ + gigabytes_text(bytes as nat));
}

/// A size in bytes as it is shown: in gigabytes with one decimal place,
/// followed by the unit.
pub fn format_gigabytes(bytes: u64) -> (r: String)
    ensures
        r@ == gigabytes_text(bytes as nat),
{
    let mut out = String::new();
    push_gigabytes(&mut out, bytes);
    assert(out@ =~= gigabytes_text(bytes as nat));
    out
}

/// A size of any magnitude is shown with exactly one decimal digit: digits,
/// a point, one digit, a space and the unit.
pub proof fn lemma_gigabytes_text_has_one_decimal(bytes: nat)
    ensures
        ({
            let number = one_decimal(gb_tenths(bytes));
            let text = gigabytes_text(bytes);
            &&& text == number + " GB"@
            &&& number.len() >= 3
            &&& number.subrange(0, number.len() - 2) == decimal(gb_tenths(bytes) / 10)
            &&& forall|i: int| 0 <= i < number.len() - 2 ==> is_digit(#[trigger] number[i])
            &&& number[number.len() - 2] == '.'
            &&& number.last() == digit_char(gb_tenths(bytes) % 10)
            &&& is_digit(number.last())
        }),
{
    lemma_one_decimal_shape(gb_tenths(bytes));
}

} // verus!
