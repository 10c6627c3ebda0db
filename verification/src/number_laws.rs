//! What holds of every number and every text that the library compares, holds to a range or
//! counts.
use crate::cvars::knobs::{
    display_from_flag, is_string_valued, samples_asked, zoom_index, DisplayMode,
};
use crate::single::{lemma_five, whole_part_grows, Single};
use crate::text::{comes_before, diverges_at, precedes_asymmetric, same_text, text_in};
use vstd::arithmetic::div_mod::{lemma_basic_div, lemma_div_by_multiple, lemma_fundamental_div_mod};
use vstd::arithmetic::power2::{lemma2_to64, lemma_pow2_adds, lemma_pow2_pos, pow2};
use vstd::prelude::*;

verus! {

/// The bits past either infinity are no number's.
pub open spec fn beyond(v: Single) -> bool {
    0x7F80_0000 < v.bits < 0x8000_0000 || 0xFF80_0000 < v.bits
}

/// The bits of either zero.
pub open spec fn zero(v: Single) -> bool {
    v.bits == 0 || v.bits == 0x8000_0000
}

/// Numbers are ordered as their bits are: upwards without a sign, downwards with one, and one
/// with a sign below one without. The two zeros are one number, and what is no number stands in
/// no order at all.
pub proof fn numbers_are_ordered_as_their_bits(a: Single, b: Single, below: bool, at_most: bool, equal: bool, no_number: bool)
    requires
        call_ensures(Single::is_below, (a, b), below),
        call_ensures(Single::is_at_most, (a, b), at_most),
        call_ensures(Single::equals, (a, b), equal),
        call_ensures(Single::is_nan, (a,), no_number),
    ensures
        no_number <==> beyond(a),
        beyond(a) || beyond(b) ==> !below && !at_most && !equal,
        !beyond(a) && !beyond(b) ==> {
            &&& a.bits < 0x8000_0000 && b.bits < 0x8000_0000 ==> (below <==> a.bits < b.bits) && (at_most <==> a.bits <= b.bits)
                && (equal <==> a.bits == b.bits)
            &&& a.bits >= 0x8000_0000 && b.bits >= 0x8000_0000 ==> (below <==> a.bits > b.bits) && (at_most <==> a.bits >= b.bits)
                && (equal <==> a.bits == b.bits)
            &&& a.bits >= 0x8000_0000 && b.bits < 0x8000_0000 ==> at_most && (below <==> !(zero(a) && zero(b))) && (equal
                <==> zero(a) && zero(b))
            &&& a.bits < 0x8000_0000 && b.bits >= 0x8000_0000 ==> !below && (at_most <==> zero(a) && zero(b)) && (equal
                <==> zero(a) && zero(b))
        },
{
}

/// Among all patterns, those with a sign stand before those without, and on either side the order
/// is that of the bits; no two patterns share a place.
pub proof fn every_pattern_has_its_own_place(a: Single, b: Single, after: bool, before: bool)
    requires
        call_ensures(Single::sorts_after, (a, b), after),
        call_ensures(Single::sorts_after, (b, a), before),
    ensures
        a.bits == b.bits ==> !after && !before,
        a.bits != b.bits ==> after != before,
        a.bits < 0x8000_0000 && b.bits >= 0x8000_0000 ==> after,
        a.bits < 0x8000_0000 && b.bits < 0x8000_0000 ==> (after <==> a.bits > b.bits),
        a.bits >= 0x8000_0000 && b.bits >= 0x8000_0000 ==> (after <==> a.bits < b.bits),
{
}

/// A finite number lies between the infinities, and anything but a zero is on.
pub proof fn a_switch_is_off_at_zero_alone(v: Single, finite: bool, on: bool, mode: DisplayMode)
    requires
        call_ensures(Single::is_finite, (v,), finite),
        call_ensures(Single::is_nonzero, (v,), on),
        call_ensures(display_from_flag, (v,), mode),
    ensures
        finite <==> v.bits < 0x7F80_0000 || 0x8000_0000 <= v.bits < 0xFF80_0000,
        on <==> !zero(v),
        mode == DisplayMode::Windowed <==> !zero(v),
        mode == DisplayMode::Fullscreen <==> zero(v),
{
    reveal(Single::nonzero);
}

/// Holding a number keeps it where it lies inside and takes the nearer end where it does not; the
/// larger and the smaller of two are each one of them, and the other where one is no number.
pub proof fn a_number_is_held_to_its_range(v: Single, low: Single, high: Single, kept: Single, larger: Single, smaller: Single)
    requires
        low.at_most(high),
        call_ensures(Single::clamp, (v, low, high), kept),
        call_ensures(Single::max, (v, low), larger),
        call_ensures(Single::min, (v, high), smaller),
    ensures
        low.at_most(v) && v.at_most(high) ==> kept == v,
        v.below(low) ==> kept == low,
        high.below(v) ==> kept == high,
        beyond(v) ==> kept == v && larger == low && smaller == high,
        low.at_most(larger) && smaller.at_most(high),
        !beyond(v) ==> v.at_most(larger) && smaller.at_most(v) && (larger == v || larger == low) && (smaller == v || smaller
            == high),
{
    reveal(Single::clamped);
}

proof fn lemma_doubled(a: Single, b: Single)
    requires
        0x0080_0000 <= a.bits,
        a.bits < 0x7F00_0000,
        b.bits == a.bits + 0x0080_0000,
    ensures
        b.units() == 2 * a.units(),
{
    let e = a.bits as int / 0x80_0000;
    let f = a.bits as int % 0x80_0000;
    assert(b.bits as int / 0x80_0000 == e + 1);
    assert(b.bits as int % 0x80_0000 == f);
    lemma_pow2_adds(1, (e - 1) as nat);
    lemma2_to64();
    let p = pow2((e - 1) as nat) as int;
    assert((0x80_0000 + f) * (2 * p) == 2 * ((0x80_0000 + f) * p)) by (nonlinear_arith);
}

/// Twice a number counts twice as much, or one more than that for the half that was dropped; a
/// number below one counts nothing; and a larger number counts no less.
pub proof fn a_doubled_number_counts_double(a: Single, b: Single, of_a: u32, of_b: u32)
    requires
        call_ensures(Single::to_count, (a,), of_a),
        call_ensures(Single::to_count, (b,), of_b),
        0x0080_0000 <= a.bits,
        a.bits < 0x7F00_0000,
        b.bits == a.bits + 0x0080_0000,
    ensures
        of_b < u32::MAX ==> of_b == 2 * of_a || of_b == 2 * of_a + 1,
        of_a == u32::MAX ==> of_b == u32::MAX,
        of_a <= of_b,
{
    reveal(Single::count);
    lemma_doubled(a, b);
    lemma_pow2_pos(149);
    let p = pow2(149) as int;
    let u = a.units() as int;
    lemma_fundamental_div_mod(u, p);
    lemma_fundamental_div_mod(2 * u, p);
    let q = u / p;
    let d = (2 * u) / p;
    assert(d == 2 * q || d == 2 * q + 1) by (nonlinear_arith)
        requires
            p > 0,
            u == p * q + u % p,
            0 <= u % p < p,
            2 * u == p * d + (2 * u) % p,
            0 <= (2 * u) % p < p,
    ;
}

/// From two to the twenty-third up to its double every number is whole, and counts as the whole
/// number that its bits spell; below one a number counts nothing, and so does one below zero or
/// none at all.
pub proof fn a_whole_number_counts_as_itself(fraction: u32, whole: u32, v: Single, count: u32, step: u8)
    requires
        fraction < 0x80_0000,
        call_ensures(Single::to_count, (Single { bits: (0x4B00_0000 + fraction) as u32 },), whole),
        call_ensures(Single::to_count, (v,), count),
        call_ensures(Single::to_step, (v,), step),
    ensures
        whole == 0x80_0000 + fraction,
        v.bits < 0x3F80_0000 ==> count == 0,
        v.bits >= 0x8000_0000 || beyond(v) ==> count == 0,
        count <= 255 ==> step == count,
        count > 255 ==> step == 255,
{
    reveal(Single::count);
    let w = Single { bits: (0x4B00_0000 + fraction) as u32 };
    assert(w.bits as int / 0x80_0000 == 150);
    assert(w.bits as int % 0x80_0000 == fraction);
    lemma_pow2_pos(149);
    lemma_div_by_multiple(0x80_0000 + fraction as int, pow2(149) as int);
    if v.bits < 0x3F80_0000 {
        let one = Single { bits: 0x3F80_0000 };
        lemma_pow2_adds(23, 126);
        lemma2_to64();
        assert(one.bits as int / 0x80_0000 == 127 && one.bits as int % 0x80_0000 == 0);
        assert(one.units() == pow2(149));
        whole_part_grows(v, one);
        lemma_basic_div(v.units() as int, pow2(149) as int);
    }
}

/// A number's integer is its count as far as that goes, and with the other sign the other way.
pub proof fn an_integer_carries_its_sign(v: Single, opposite: Single, count: u32, up: i64, down: i64)
    requires
        v.bits < 0x8000_0000,
        opposite.bits == v.bits + 0x8000_0000,
        call_ensures(Single::to_count, (v,), count),
        call_ensures(Single::to_integer, (v,), up),
        call_ensures(Single::to_integer, (opposite,), down),
    ensures
        count < u32::MAX ==> up == count,
        beyond(v) ==> up == 0 && down == 0,
        up < i64::MAX ==> down == -up,
        up == i64::MAX ==> down == i64::MIN || down == -up,
{
    reveal(Single::count);
    reveal(Single::integer);
}

/// A zoom level is the count held to five, and the samples asked for are the count held between
/// one and sixteen.
pub proof fn levels_and_samples_are_counts(v: Single, count: u32, level: u8, samples: u32)
    requires
        call_ensures(Single::to_count, (v,), count),
        call_ensures(zoom_index, (v,), level),
        call_ensures(samples_asked, (v,), samples),
    ensures
        count <= 5 ==> level == count,
        count > 5 ==> level == 5,
        count == 0 ==> samples == 1,
        1 <= count <= 16 ==> samples == count,
        count > 16 ==> samples == 16,
{
    reveal(Single::clamped);
    reveal(Single::count);
    let five = Single { bits: 0x40A0_0000 };
    lemma_five();
    lemma_pow2_pos(149);
    lemma_basic_div(0, pow2(149) as int);
    assert((Single { bits: 0 }).whole_part() == 0);
    if !v.not_a_number() && !v.negative() {
        if five.below(v) {
            whole_part_grows(five, v);
        } else {
            whole_part_grows(v, five);
        }
    }
}

/// The names that take a text are four: the window's size, the backend, and the realm's address
/// and name.
pub proof fn four_settings_take_a_text(key: &str, r: bool)
    requires
        call_ensures(is_string_valued, (key,), r),
    ensures
        r <==> key@ == "gxresolution"@ || key@ == "gxapi"@ || key@ == "realmlist"@ || key@ == "realmname"@,
{
}

/// A text comes before another where the first character in which they differ is the smaller, or
/// where it ends first; of two texts that differ one comes before the other, and not both.
pub proof fn texts_are_ordered_by_their_first_difference(a: &str, b: &str, at: int, first: bool, second: bool)
    requires
        call_ensures(comes_before, (a, b), first),
        call_ensures(comes_before, (b, a), second),
        0 <= at <= a@.len(),
        at < b@.len(),
        forall|i: int| 0 <= i < at ==> a@[i] == b@[i],
    ensures
        at == a@.len() ==> first && !second,
        at < a@.len() && a@[at] < b@[at] ==> first && !second,
        at < a@.len() && b@[at] < a@[at] ==> second && !first,
{
    if at == a@.len() || (at < a@.len() && a@[at] < b@[at]) {
        assert(diverges_at(a@, b@, at));
        precedes_asymmetric(a@, b@);
    } else if b@[at] < a@[at] {
        assert(diverges_at(b@, a@, at));
        precedes_asymmetric(b@, a@);
    }
}

/// A text is found in a list where an entry has the same characters, and nowhere else.
pub proof fn a_text_is_found_by_its_characters(list: &Vec<String>, a: &str, b: &str, same: bool, found: bool, i: int)
    requires
        call_ensures(same_text, (a, b), same),
        call_ensures(text_in, (list, a), found),
    ensures
        same <==> a@ == b@,
        0 <= i < list@.len() && list@[i]@ == a@ ==> found,
        (forall|k: int| 0 <= k < list@.len() ==> (#[trigger] list@[k])@ != a@) ==> !found,
{
}

} // verus!
