//! Text helpers: comparison, ASCII case folding, map order and decimal spelling.
use vstd::prelude::*;
use vstd::string::StrSliceExecFns;
use vstd::string::StringExecFns;

verus! {

/// Two texts hold the same characters.
pub open spec fn same_chars(a: Seq<char>, b: Seq<char>) -> bool {
    a == b
}

/// `str`'s `==`: true exactly when the two texts hold the same characters.
pub assume_specification[ <str as PartialEq>::eq ](a: &str, b: &str) -> (r: bool)
    ensures
        r == same_chars(a@, b@),
;

/// `str::to_ascii_lowercase`: a copy with 'A'..='Z' mapped to 'a'..='z' and every other
/// character left alone.
pub assume_specification[ str::to_ascii_lowercase ](s: &str) -> (r: String)
    ensures
        r@ == lower(s@),
;

/// `str::eq_ignore_ascii_case`: equality of the two ASCII-lowercased texts.
pub assume_specification[ str::eq_ignore_ascii_case ](a: &str, b: &str) -> (r: bool)
    ensures
        r == (lower(a@) == lower(b@)),
;

/// One character with ASCII capitals folded down.
pub open spec fn lower_char(c: char) -> char {
    if 'A' <= c && c <= 'Z' {
        ((c as u32) + 32) as char
    } else {
        c
    }
}

/// A text with ASCII capitals folded down, character by character.
pub open spec fn lower(s: Seq<char>) -> Seq<char> {
    s.map_values(|c: char| lower_char(c))
}

/// Folding twice is folding once.
pub proof fn lower_is_idempotent(s: Seq<char>)
    ensures
        lower(lower(s)) == lower(s),
{
    assert(lower(lower(s)) =~= lower(s));
}

/// Lexicographic order of two texts by code point, strict.
pub open spec fn precedes(a: Seq<char>, b: Seq<char>) -> bool {
    exists|n: int| #[trigger] diverges_at(a, b, n)
}

/// `a` and `b` agree before `n`, and at `n` the first is the smaller (or has run out).
pub open spec fn diverges_at(a: Seq<char>, b: Seq<char>, n: int) -> bool {
    &&& 0 <= n <= a.len()
    &&& n < b.len()
    &&& forall|i: int| 0 <= i < n ==> a[i] == b[i]
    &&& n == a.len() || a[n] < b[n]
}

/// No text precedes itself.
pub proof fn precedes_irreflexive(a: Seq<char>)
    ensures
        !precedes(a, a),
{
}

/// The order is transitive.
pub proof fn precedes_transitive(a: Seq<char>, b: Seq<char>, c: Seq<char>)
    requires
        precedes(a, b),
        precedes(b, c),
    ensures
        precedes(a, c),
{
    let n = choose|n: int| #[trigger] diverges_at(a, b, n);
    let m = choose|m: int| #[trigger] diverges_at(b, c, m);
    let k = if n < m { n } else { m };
    assert(diverges_at(a, c, k));
}

/// Any two different texts are ordered one way or the other.
pub proof fn precedes_total(a: Seq<char>, b: Seq<char>)
    ensures
        a == b || precedes(a, b) || precedes(b, a),
{
    let n = first_difference(a, b, 0);
    lemma_first_difference(a, b, 0);
    if n == a.len() && n == b.len() {
        assert(a =~= b);
    } else if n == a.len() {
        assert(diverges_at(a, b, n));
    } else if n == b.len() {
        assert(diverges_at(b, a, n));
    } else if a[n] < b[n] {
        assert(diverges_at(a, b, n));
    } else {
        assert(diverges_at(b, a, n));
    }
}

/// Neither order holds both ways.
pub proof fn precedes_asymmetric(a: Seq<char>, b: Seq<char>)
    requires
        precedes(a, b),
    ensures
        !precedes(b, a),
{
    if precedes(b, a) {
        precedes_transitive(a, b, a);
    }
}

spec fn first_difference(a: Seq<char>, b: Seq<char>, from: int) -> int
    decreases a.len() - from,
{
    if from >= a.len() || from >= b.len() || a[from] != b[from] {
        from
    } else {
        first_difference(a, b, from + 1)
    }
}

proof fn lemma_first_difference(a: Seq<char>, b: Seq<char>, from: int)
    requires
        0 <= from <= a.len(),
        from <= b.len(),
        forall|i: int| 0 <= i < from ==> a[i] == b[i],
    ensures
        from <= first_difference(a, b, from) <= a.len(),
        first_difference(a, b, from) <= b.len(),
        forall|i: int| 0 <= i < first_difference(a, b, from) ==> a[i] == b[i],
        first_difference(a, b, from) < a.len() && first_difference(a, b, from) < b.len()
            ==> a[first_difference(a, b, from)] != b[first_difference(a, b, from)],
    decreases a.len() - from,
{
    if !(from >= a.len() || from >= b.len() || a[from] != b[from]) {
        lemma_first_difference(a, b, from + 1);
    }
}

/// Whether `a` comes strictly before `b` in code-point order.
pub fn comes_before(a: &str, b: &str) -> (r: bool)
    ensures
        r == precedes(a@, b@),
{
    let a_len: usize = a.unicode_len();
    let b_len: usize = b.unicode_len();
    let mut i: usize = 0;
    while i < a_len && i < b_len
        invariant
            a_len == a@.len(),
            b_len == b@.len(),
            i <= a_len,
            i <= b_len,
            forall|j: int| 0 <= j < i ==> a@[j] == b@[j],
        decreases a_len - i,
    {
        let x: char = a.get_char(i);
        let y: char = b.get_char(i);
        if x < y {
            proof {
                assert(diverges_at(a@, b@, i as int));
            }
            return true;
        }
        if y < x {
            proof {
                assert(diverges_at(b@, a@, i as int));
                precedes_asymmetric(b@, a@);
            }
            return false;
        }
        i = i + 1;
    }
    proof {
        if i < b_len {
            assert(diverges_at(a@, b@, i as int));
        } else if precedes(a@, b@) {
            let n = choose|n: int| #[trigger] diverges_at(a@, b@, n);
            assert(n < i);
        }
    }
    i < b_len
}

/// The digits of `n` in base ten, most significant first.
pub open spec fn decimal_digits(n: nat) -> Seq<char>
    decreases n,
{
    if n < 10 {
        seq![digit(n)]
    } else {
        decimal_digits(n / 10).push(digit(n % 10))
    }
}

/// The character of one decimal digit.
pub open spec fn digit(d: nat) -> char {
    (48 + d) as char
}

fn digit_text(d: u64) -> (r: &'static str)
    requires
        d < 10,
    ensures
        r@ == seq![digit(d as nat)],
{
    proof {
        reveal_strlit("0");
        reveal_strlit("1");
        reveal_strlit("2");
        reveal_strlit("3");
        reveal_strlit("4");
        reveal_strlit("5");
        reveal_strlit("6");
        reveal_strlit("7");
        reveal_strlit("8");
        reveal_strlit("9");
    }
    if d == 0 {
        "0"
    } else if d == 1 {
        "1"
    } else if d == 2 {
        "2"
    } else if d == 3 {
        "3"
    } else if d == 4 {
        "4"
    } else if d == 5 {
        "5"
    } else if d == 6 {
        "6"
    } else if d == 7 {
        "7"
    } else if d == 8 {
        "8"
    } else {
        "9"
    }
}

/// The usual decimal spelling of a count.
pub fn decimal(n: u64) -> (r: String)
    ensures
        r@ == decimal_digits(n as nat),
    decreases n,
{
    if n < 10 {
        let d = digit_text(n);
        let r = String::from_str(d);
        proof {
            assert(r@ =~= decimal_digits(n as nat));
        }
        r
    } else {
        let mut r = decimal(n / 10);
        r.append(digit_text(n % 10));
        proof {
            assert(r@ =~= decimal_digits(n as nat));
        }
        r
    }
}

/// The decimal spelling of a signed number: a minus sign before the digits of its size.
pub open spec fn signed_digits(n: int) -> Seq<char> {
    if n < 0 {
        seq!['-'] + decimal_digits((-n) as nat)
    } else {
        decimal_digits(n as nat)
    }
}

/// The usual decimal spelling of a signed number.
pub fn signed_decimal(n: i64) -> (r: String)
    ensures
        r@ == signed_digits(n as int),
{
    if n >= 0 {
        decimal(n as u64)
    } else {
        let size: u64 = (-1 - n) as u64 + 1;
        let mut r = String::from_str("-");
        let digits = decimal(size);
        r.append(digits.as_str());
        proof {
            reveal_strlit("-");
            assert(r@ =~= signed_digits(n as int));
        }
        r
    }
}

/// A flag as the settings table spells it.
pub open spec fn flag_text(on: bool) -> Seq<char> {
    if on {
        "1"@
    } else {
        "0"@
    }
}

/// `"1"` for on, `"0"` for off.
pub fn flag(on: bool) -> (r: String)
    ensures
        r@ == flag_text(on),
{
    if on {
        String::from_str("1")
    } else {
        String::from_str("0")
    }
}

/// Every character is a decimal digit.
pub open spec fn all_digits(s: Seq<char>) -> bool {
    forall|i: int| 0 <= i < s.len() ==> '0' <= #[trigger] s[i] && s[i] <= '9'
}

/// A point stands at `p` with digits on both sides of it, and one digit at least.
pub open spec fn point_at(s: Seq<char>, p: int) -> bool {
    &&& 0 <= p < s.len()
    &&& s.len() > 1
    &&& s[p] == '.'
    &&& all_digits(s.take(p))
    &&& all_digits(s.skip(p + 1))
}

/// Digits, with a point among them or none.
pub open spec fn mantissa(s: Seq<char>) -> bool {
    (s.len() > 0 && all_digits(s)) || exists|p: int| #[trigger] point_at(s, p)
}

/// A text without the sign it may open with.
pub open spec fn without_sign(s: Seq<char>) -> Seq<char> {
    if s.len() > 0 && (s[0] == '+' || s[0] == '-') {
        s.skip(1)
    } else {
        s
    }
}

/// A power of ten follows the first `p` characters: an `e` and a whole number.
pub open spec fn power_at(s: Seq<char>, p: int) -> bool {
    &&& 0 <= p < s.len()
    &&& mantissa(s.take(p))
    &&& s[p] == 'e' || s[p] == 'E'
    &&& without_sign(s.skip(p + 1)).len() > 0
    &&& all_digits(without_sign(s.skip(p + 1)))
}

/// The spellings that read as a number: a sign or none, and then digits with a point and a power
/// of ten or without, or one of the names of the infinity and of what is no number.
pub open spec fn number_shaped(s: Seq<char>) -> bool {
    let t = without_sign(s);
    ||| mantissa(t)
    ||| exists|p: int| #[trigger] power_at(t, p)
    ||| lower(t) == "inf"@
    ||| lower(t) == "infinity"@
    ||| lower(t) == "nan"@
}

/// A text of digits reads as a number.
pub(crate) proof fn lemma_digits_are_a_number(s: Seq<char>)
    requires
        s.len() > 0,
        all_digits(s),
    ensures
        number_shaped(s),
{
    assert(s[0] <= '9');
}

/// Digits around a point read as a number.
pub(crate) proof fn lemma_a_point_makes_a_number(s: Seq<char>, p: int)
    requires
        0 < p < s.len(),
        s[p] == '.',
        forall|i: int| 0 <= i < s.len() && i != p ==> '0' <= #[trigger] s[i] && s[i] <= '9',
    ensures
        number_shaped(s),
{
    assert(s[0] <= '9');
    assert(point_at(s, p));
}

/// Some character that stands in no number keeps a text from reading as one.
pub(crate) proof fn lemma_no_number(s: Seq<char>, at: int)
    requires
        0 <= at < s.len(),
        s[at] == 'l' || s[at] == 'x',
    ensures
        !number_shaped(s),
{
    let t = without_sign(s);
    let j = if t == s { at } else { at - 1 };
    assert(t[j] == s[at]);
    assert forall|p: int| !(#[trigger] point_at(t, p)) by {
        if point_at(t, p) {
            assert(j < p ==> t.take(p)[j] == t[j]);
            assert(j > p ==> t.skip(p + 1)[j - p - 1] == t[j]);
        }
    }
    assert forall|p: int| !(#[trigger] power_at(t, p)) by {
        if power_at(t, p) {
            let head = t.take(p);
            let tail = without_sign(t.skip(p + 1));
            if j < p {
                assert(head[j] == t[j]);
                if exists|q: int| #[trigger] point_at(head, q) {
                    let q = choose|q: int| #[trigger] point_at(head, q);
                    assert(j < q ==> head.take(q)[j] == head[j]);
                    assert(j > q ==> head.skip(q + 1)[j - q - 1] == head[j]);
                }
            } else if j > p {
                let rest = t.skip(p + 1);
                assert(rest[j - p - 1] == t[j]);
                if tail != rest {
                    assert(tail[j - p - 2] == t[j]);
                }
            }
        }
    }
    reveal_strlit("inf");
    reveal_strlit("infinity");
    reveal_strlit("nan");
    assert(lower(t).len() == t.len() && lower(t)[j] == s[at]);
    if lower(t) == "inf"@ {
        assert("inf"@[j] == s[at]);
        assert(j == 0 || j == 1 || j == 2);
    }
    if lower(t) == "nan"@ {
        assert("nan"@[j] == s[at]);
        assert(j == 0 || j == 1 || j == 2);
    }
    if lower(t) == "infinity"@ {
        assert("infinity"@[j] == s[at]);
        assert(j == 0 || j == 1 || j == 2 || j == 3 || j == 4 || j == 5 || j == 6 || j == 7);
    }
}

/// The empty text is no number.
pub(crate) proof fn lemma_nothing_is_no_number(s: Seq<char>)
    requires
        s.len() == 0,
    ensures
        !number_shaped(s),
{
    reveal_strlit("inf");
    reveal_strlit("infinity");
    reveal_strlit("nan");
    assert(lower(s).len() == 0);
}

/// Whether two texts are the same.
pub fn same_text(a: &str, b: &str) -> (r: bool)
    ensures
        r == same_chars(a@, b@),
{
    *a == *b
}

/// Whether a text is one of a list.
pub fn text_in(list: &Vec<String>, s: &str) -> (r: bool)
    ensures
        r == holds_text(list@, s@),
{
    let mut i: usize = 0;
    while i < list.len()
        invariant
            i <= list.len(),
            forall|j: int| 0 <= j < i ==> (#[trigger] list@[j])@ != s@,
        decreases list.len() - i,
    {
        if same_text(list[i].as_str(), s) {
            return true;
        }
        i = i + 1;
    }
    false
}

/// Some entry of the list reads `s`.
pub open spec fn holds_text(list: Seq<String>, s: Seq<char>) -> bool {
    exists|i: int| 0 <= i < list.len() && (#[trigger] list[i])@ == s
}

} // verus!
