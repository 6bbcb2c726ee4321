//! Playback speeds, held exactly as thousandths of the normal speed, and the
//! labels that name them.

use vstd::prelude::*;
use crate::text::chars_of;

verus! {

/// A playback speed in thousandths of the normal speed: `1000` is `1x`,
/// `1500` is `1.5x`.
#[derive(Debug, Clone, Copy, PartialEq, Eq, Structural)]
pub struct Speed {
    pub thousandths: u32,
}

impl Speed {
    /// A speed the player may run at is greater than zero.
    pub open spec fn positive(self) -> bool {
        self.thousandths > 0
    }

    /// The normal speed, `1x`.
    pub fn normal() -> (r: Speed)
        ensures
            r.thousandths == 1000,
            r.positive(),
    {
        Speed { thousandths: 1000 }
    }

    /// The speed of `thousandths`, unless that is zero.
    pub fn from_thousandths(thousandths: u32) -> (r: Option<Speed>)
        ensures
            r == (if thousandths > 0 {
                Some(Speed { thousandths: thousandths })
            } else {
                None
            }),
    {
        if thousandths > 0 {
            Some(Speed { thousandths: thousandths })
        } else {
            None
        }
    }

    /// The speed that `label` names, if it names one that the player can
    /// run at: a positive number of whole thousandths.
    pub fn from_label(label: &str) -> (r: Option<Speed>)
        ensures
            r == (match label_number(label@) {
                Some(Number::Thousandths(t)) if t > 0 => Some(Speed { thousandths: t }),
                _ => None,
            }),
    {
        match parse_label(label) {
            Some(Number::Thousandths(t)) => Speed::from_thousandths(t),
            _ => None,
        }
    }
}

/// The number that a numeral writes, as far as the player holds numbers.
#[derive(Debug, Clone, Copy, PartialEq, Eq)]
pub enum Number {
    /// Exactly this many thousandths, zero or more.
    Thousandths(u32),
    /// Another number: one below zero, one that is no whole number of
    /// thousandths, one beyond `u32::MAX` thousandths, infinity, or no
    /// number at all.
    Other,
}

/// The value of a decimal digit, or `None` for any other character.
pub open spec fn digit_value(c: char) -> Option<nat> {
    if c == '0' {
        Some(0)
    } else if c == '1' {
        Some(1)
    } else if c == '2' {
        Some(2)
    } else if c == '3' {
        Some(3)
    } else if c == '4' {
        Some(4)
    } else if c == '5' {
        Some(5)
    } else if c == '6' {
        Some(6)
    } else if c == '7' {
        Some(7)
    } else if c == '8' {
        Some(8)
    } else if c == '9' {
        Some(9)
    } else {
        None
    }
}

/// The number that a run of decimal digits writes (zero for the empty run),
/// or `None` if a character of it is no digit.
pub open spec fn digits_value(s: Seq<char>) -> Option<nat>
    decreases s.len(),
{
    if s.len() == 0 {
        Some(0)
    } else {
        match (digits_value(s.drop_last()), digit_value(s.last())) {
            (Some(v), Some(d)) => Some(v * 10 + d),
            _ => None,
        }
    }
}

/// `k` is where the numeral `s` divides: the place of its first point, or
/// its length if it has none.
pub open spec fn divides_at(s: Seq<char>, k: int) -> bool {
    &&& 0 <= k <= s.len()
    &&& forall|j: int| 0 <= j < k ==> s[j] != '.'
    &&& k < s.len() ==> s[k] == '.'
}

/// The digits before the point of the numeral `s`.
pub open spec fn whole_part(s: Seq<char>) -> Seq<char> {
    let k = choose|k: int| divides_at(s, k);
    s.subrange(0, k)
}

/// The digits after the point of the numeral `s`; empty if it has no point.
pub open spec fn fraction_part(s: Seq<char>) -> Seq<char> {
    let k = choose|k: int| divides_at(s, k);
    if k < s.len() {
        s.subrange(k + 1, s.len() as int)
    } else {
        Seq::empty()
    }
}

/// Whether `c` marks the exponent of a numeral.
pub open spec fn is_exponent_mark(c: char) -> bool {
    c == 'e' || c == 'E'
}

/// `k` is where the exponent of the numeral `s` begins: the place of its
/// first exponent mark, or its length if it has none.
pub open spec fn exponent_at(s: Seq<char>, k: int) -> bool {
    &&& 0 <= k <= s.len()
    &&& forall|j: int| 0 <= j < k ==> !is_exponent_mark(s[j])
    &&& k < s.len() ==> is_exponent_mark(s[k])
}

/// The numeral `s` without its exponent.
pub open spec fn mantissa(s: Seq<char>) -> Seq<char> {
    let k = choose|k: int| exponent_at(s, k);
    s.subrange(0, k)
}

/// What follows the exponent mark of the numeral `s`, if it has one.
pub open spec fn exponent_text(s: Seq<char>) -> Option<Seq<char>> {
    let k = choose|k: int| exponent_at(s, k);
    if k < s.len() {
        Some(s.subrange(k + 1, s.len() as int))
    } else {
        None
    }
}

/// Whether `s` begins with a minus sign.
pub open spec fn is_negative(s: Seq<char>) -> bool {
    s.len() > 0 && s[0] == '-'
}

/// `s` without the sign it begins with, if it begins with one.
pub open spec fn unsigned(s: Seq<char>) -> Seq<char> {
    if s.len() > 0 && (s[0] == '+' || s[0] == '-') {
        s.subrange(1, s.len() as int)
    } else {
        s
    }
}

/// The exponent of the numeral `s`: zero without an exponent mark, else the
/// whole number written after the mark, which is an optional sign and at
/// least one digit.
pub open spec fn exponent_value(s: Seq<char>) -> Option<int> {
    exponent_written(exponent_text(s))
}

/// The exponent that the text after the exponent mark, if there is any,
/// writes.
pub open spec fn exponent_written(text: Option<Seq<char>>) -> Option<int> {
    match text {
        None => Some(0),
        Some(text) => if unsigned(text).len() == 0 {
            None
        } else {
            match digits_value(unsigned(text)) {
                Some(v) => Some(
                    if is_negative(text) {
                        -(v as int)
                    } else {
                        v as int
                    },
                ),
                None => None,
            }
        },
    }
}

/// Whether `s` spells a word, letter by letter, in small or capital letters.
pub open spec fn spells(s: Seq<char>, small: Seq<char>, capital: Seq<char>) -> bool {
    &&& s.len() == small.len()
    &&& forall|i: int| 0 <= i < s.len() ==> s[i] == small[i] || s[i] == capital[i]
}

/// Whether `s` is one of the words that name infinity or no number.
pub open spec fn is_special(s: Seq<char>) -> bool {
    spells(s, "inf"@, "INF"@) || spells(s, "infinity"@, "INFINITY"@) || spells(s, "nan"@, "NAN"@)
}

/// `s` with `k` zeros written after it.
pub open spec fn with_zeros(s: Seq<char>, k: int) -> Seq<char>
    decreases k,
{
    if k <= 0 {
        s
    } else {
        with_zeros(s, k - 1).push('0')
    }
}

/// Whether `s` holds zeros alone.
pub open spec fn all_zeros(s: Seq<char>) -> bool {
    forall|i: int| 0 <= i < s.len() ==> s[i] == '0'
}

/// The whole number that the digits `digits` write once the point stands
/// after the first `p` of them, with zeros filled in where `p` lies beyond
/// them; `None` if a digit other than zero is left behind the point.
pub open spec fn point_moved(digits: Seq<char>, p: int) -> Option<nat> {
    let padded = with_zeros(digits, p - digits.len());
    let cut = if p < 0 {
        0
    } else {
        p
    };
    if all_zeros(padded.subrange(cut, padded.len() as int)) {
        digits_value(padded.subrange(0, cut))
    } else {
        None
    }
}

/// The number for a count of thousandths, if the numeral writes a whole
/// count of them, and for the sign before it.
pub open spec fn number_of(thousandths: Option<nat>, negative: bool) -> Number {
    match thousandths {
        Some(t) => if t == 0 {
            Number::Thousandths(0)
        } else if !negative && t <= u32::MAX {
            Number::Thousandths(t as u32)
        } else {
            Number::Other
        },
        None => Number::Other,
    }
}

/// The number that the numeral `s` writes, or `None` if `s` is no numeral.
///
/// A numeral is an optional sign followed by `inf`, `infinity` or `nan` in
/// small or capital letters, or by digits with at most one point among
/// them, at least one digit in all, and optionally an exponent: `e` or `E`,
/// an optional sign, and at least one digit. Its thousandths are found by
/// moving the point: three places to the right, and as many more as the
/// exponent says.
pub open spec fn numeral_number(s: Seq<char>) -> Option<Number> {
    let u = unsigned(s);
    if is_special(u) {
        Some(Number::Other)
    } else {
        let whole = whole_part(mantissa(u));
        let fraction = fraction_part(mantissa(u));
        match (digits_value(whole), digits_value(fraction), exponent_value(u)) {
            (Some(_), Some(_), Some(e)) => if whole.len() + fraction.len() == 0 {
                None
            } else {
                Some(number_of(point_moved(whole + fraction, whole.len() + e + 3), is_negative(s)))
            },
            _ => None,
        }
    }
}

/// The numeral of a speed label: the label without one trailing `x`.
pub open spec fn label_numeral(label: Seq<char>) -> Seq<char> {
    if label.len() > 0 && label.last() == 'x' {
        label.drop_last()
    } else {
        label
    }
}

/// The number that a speed label such as `1.5x` names, or `None` if the
/// label names none.
pub open spec fn label_number(label: Seq<char>) -> Option<Number> {
    numeral_number(label_numeral(label))
}

fn digit_of(c: char) -> (r: Option<u64>)
    ensures
        r is Some == digit_value(c) is Some,
        r matches Some(d) ==> digit_value(c) == Some(d as nat) && d < 10,
{
    if c == '0' {
        Some(0)
    } else if c == '1' {
        Some(1)
    } else if c == '2' {
        Some(2)
    } else if c == '3' {
        Some(3)
    } else if c == '4' {
        Some(4)
    } else if c == '5' {
        Some(5)
    } else if c == '6' {
        Some(6)
    } else if c == '7' {
        Some(7)
    } else if c == '8' {
        Some(8)
    } else if c == '9' {
        Some(9)
    } else {
        None
    }
}

/// Beyond this a count is only known to be large.
spec fn limit() -> nat {
    0x400000000000000000
}

/// A count as far as it is kept: exactly up to the limit, and as one more
/// than the limit beyond it.
spec fn kept(v: nat) -> nat {
    if v <= limit() {
        v
    } else {
        limit() + 1
    }
}

/// A run of characters writes a number exactly if each of them is a digit.
proof fn digits_are_digits(s: Seq<char>)
    ensures
        digits_value(s) is Some <==> forall|i: int| 0 <= i < s.len() ==> digit_value(s[i]) is Some,
    decreases s.len(),
{
    if s.len() > 0 {
        digits_are_digits(s.drop_last());
        if digits_value(s) is Some {
            assert forall|i: int| 0 <= i < s.len() implies digit_value(s[i]) is Some by {
                if i < s.len() - 1 {
                    assert(s.drop_last()[i] == s[i]);
                }
            }
        } else {
            if forall|i: int| 0 <= i < s.len() ==> digit_value(s[i]) is Some {
                assert forall|i: int| 0 <= i < s.drop_last().len() implies digit_value(
                    s.drop_last()[i],
                ) is Some by {
                    assert(s.drop_last()[i] == s[i]);
                }
            }
        }
    }
}

proof fn mark_is_unique(s: Seq<char>, k: int)
    requires
        exponent_at(s, k),
    ensures
        (choose|j: int| exponent_at(s, j)) == k,
{
    let j = choose|j: int| exponent_at(s, j);
    if j < k {
        assert(is_exponent_mark(s[j]));
    }
    if k < j {
        assert(is_exponent_mark(s[k]));
    }
}

proof fn division_is_unique(s: Seq<char>, k: int)
    requires
        divides_at(s, k),
    ensures
        (choose|j: int| divides_at(s, j)) == k,
{
    let j = choose|j: int| divides_at(s, j);
    if j < k {
        assert(s[j] == '.');
    }
    if k < j {
        assert(s[k] == '.');
    }
}

/// Zeros written after digits leave digits, as many more as were written;
/// they leave zero at zero, and bring any other number beyond `u32::MAX`
/// once ten of them are written.
proof fn zeros_grow(digits: Seq<char>, k: int)
    requires
        digits_value(digits) is Some,
    ensures
        with_zeros(digits, k).len() == digits.len() + (if k > 0 {
            k
        } else {
            0
        }),
        digits_value(with_zeros(digits, k)) is Some,
        digits_value(digits)->0 == 0 ==> digits_value(with_zeros(digits, k))->0 == 0,
        digits_value(with_zeros(digits, k))->0 >= digits_value(digits)->0,
        digits_value(digits)->0 > 0 && k >= 10 ==> digits_value(with_zeros(digits, k))->0
            > u32::MAX,
        forall|i: int| 0 <= i < digits.len() ==> with_zeros(digits, k)[i] == digits[i],
    decreases k,
{
    if k > 0 {
        zeros_grow(digits, k - 1);
        let before = with_zeros(digits, k - 1);
        assert(before.push('0').drop_last() =~= before);
        if digits_value(digits)->0 > 0 && k == 10 {
            zeros_grow_by(digits, k);
        }
    }
}

/// A number that is not zero, with `k` zeros written after it, is at least
/// as great as one with `k` zeros after it.
proof fn zeros_grow_by(digits: Seq<char>, k: int)
    requires
        digits_value(digits) is Some,
        digits_value(digits)->0 > 0,
        0 <= k <= 10,
    ensures
        digits_value(with_zeros(digits, k)) is Some,
        k == 0 ==> digits_value(with_zeros(digits, k))->0 >= 1,
        k == 1 ==> digits_value(with_zeros(digits, k))->0 >= 10,
        k == 2 ==> digits_value(with_zeros(digits, k))->0 >= 100,
        k == 3 ==> digits_value(with_zeros(digits, k))->0 >= 1000,
        k == 4 ==> digits_value(with_zeros(digits, k))->0 >= 10000,
        k == 5 ==> digits_value(with_zeros(digits, k))->0 >= 100000,
        k == 6 ==> digits_value(with_zeros(digits, k))->0 >= 1000000,
        k == 7 ==> digits_value(with_zeros(digits, k))->0 >= 10000000,
        k == 8 ==> digits_value(with_zeros(digits, k))->0 >= 100000000,
        k == 9 ==> digits_value(with_zeros(digits, k))->0 >= 1000000000,
        k == 10 ==> digits_value(with_zeros(digits, k))->0 >= 10000000000,
    decreases k,
{
    if k > 0 {
        zeros_grow_by(digits, k - 1);
        let before = with_zeros(digits, k - 1);
        assert(before.push('0').drop_last() =~= before);
    }
}

/// The characters of `v` from `from` to `to` are digits.
fn are_digits(v: &Vec<char>, from: usize, to: usize) -> (r: bool)
    requires
        from <= to <= v@.len(),
    ensures
        r == digits_value(v@.subrange(from as int, to as int)) is Some,
{
    let mut i = from;
    while i < to
        invariant
            from <= i <= to <= v@.len(),
            forall|j: int| from <= j < i ==> digit_value(v@[j]) is Some,
        decreases to - i,
    {
        if digit_of(v[i]).is_none() {
            proof {
                digits_are_digits(v@.subrange(from as int, to as int));
                assert(v@.subrange(from as int, to as int)[i - from] == v@[i as int]);
            }
            return false;
        }
        i = i + 1;
    }
    proof {
        digits_are_digits(v@.subrange(from as int, to as int));
    }
    true
}

/// The number that the digits of `v` from `from` to `to` write, as far as
/// it is kept.
fn count_of(v: &Vec<char>, from: usize, to: usize) -> (r: u128)
    requires
        from <= to <= v@.len(),
        digits_value(v@.subrange(from as int, to as int)) is Some,
    ensures
        r == kept(digits_value(v@.subrange(from as int, to as int))->0),
{
    proof {
        digits_are_digits(v@.subrange(from as int, to as int));
        assert forall|j: int| from <= j < to implies digit_value(v@[j]) is Some by {
            assert(v@.subrange(from as int, to as int)[j - from] == v@[j]);
        }
    }
    let mut value: u128 = 0;
    let mut i = from;
    assert(v@.subrange(from as int, from as int).len() == 0);
    while i < to
        invariant
            from <= i <= to <= v@.len(),
            forall|j: int| from <= j < to ==> digit_value(v@[j]) is Some,
            digits_value(v@.subrange(from as int, i as int)) is Some,
            value == kept(digits_value(v@.subrange(from as int, i as int))->0),
        decreases to - i,
    {
        proof {
            let next = v@.subrange(from as int, i + 1);
            assert(next.drop_last() =~= v@.subrange(from as int, i as int));
            assert(next.last() == v@[i as int]);
        }
        match digit_of(v[i]) {
            Some(d) => {
                let grown: u128 = value * 10 + d as u128;
                value = if grown > 0x400000000000000000 {
                    0x400000000000000001
                } else {
                    grown
                };
            },
            None => {},
        }
        i = i + 1;
    }
    value
}

/// Whether the characters of `v` from `from` on spell the word `small`,
/// whose capital letters are `capital`.
fn spells_word(v: &Vec<char>, from: usize, small: &str, capital: &str) -> (r: bool)
    requires
        from <= v@.len(),
        small@.len() == capital@.len(),
    ensures
        r == spells(v@.subrange(from as int, v@.len() as int), small@, capital@),
{
    let n = small.unicode_len();
    if v.len() - from != n {
        return false;
    }
    let ghost s = v@.subrange(from as int, v@.len() as int);
    let mut i: usize = 0;
    while i < n
        invariant
            i <= n,
            n == small@.len(),
            n == capital@.len(),
            from + n == v@.len(),
            v@.len() <= usize::MAX,
            s == v@.subrange(from as int, v@.len() as int),
            forall|j: int| 0 <= j < i ==> s[j] == small@[j] || s[j] == capital@[j],
        decreases n - i,
    {
        let c = v[from + i];
        assert(s[i as int] == c);
        if c != small.get_char(i) && c != capital.get_char(i) {
            return false;
        }
        i = i + 1;
    }
    true
}

/// Where the point of the digits would stand: as it is up to eleven places
/// beyond them, and at eleven places beyond them further out.
spec fn near(p: int, len: int) -> int {
    if p < 0 {
        0
    } else if p > len + 11 {
        len + 11
    } else {
        p
    }
}

/// Moving the point further than eleven places beyond the digits, or before
/// them, names the same number as moving it just that far.
proof fn far_is_near(digits: Seq<char>, p: int, negative: bool)
    requires
        digits_value(digits) is Some,
    ensures
        number_of(point_moved(digits, p), negative) == number_of(
            point_moved(digits, near(p, digits.len() as int)),
            negative,
        ),
{
    let len = digits.len() as int;
    if p < 0 {
        assert(with_zeros(digits, p - len) == with_zeros(digits, 0 - len));
    } else if p > len + 11 {
        let q = len + 11;
        zeros_grow(digits, p - len);
        zeros_grow(digits, q - len);
        let far = with_zeros(digits, p - len);
        let close = with_zeros(digits, q - len);
        assert(far.subrange(0, p) =~= far);
        assert(close.subrange(0, q) =~= close);
    }
}

/// The number that the digits of `digits` write once the point stands
/// after the first `p` of them.
fn move_point(digits: &Vec<char>, p: u128, negative: bool) -> (r: Number)
    requires
        digits_value(digits@) is Some,
        p <= digits@.len() + 11,
    ensures
        r == number_of(point_moved(digits@, p as int), negative),
{
    let len = digits.len();
    let head: usize = if p < len as u128 {
        p as usize
    } else {
        len
    };
    proof {
        digits_are_digits(digits@);
        digits_are_digits(digits@.subrange(0, head as int));
    }
    let value = count_of(digits, 0, head);
    let ghost written = digits_value(digits@.subrange(0, head as int))->0;
    let mut kept_value: u128 = value;
    if p <= len as u128 {
        assert(with_zeros(digits@, p - len) == digits@);
        let mut i = head;
        while i < len
            invariant
                head <= i <= len == digits@.len(),
                head == p,
                with_zeros(digits@, p - len) == digits@,
                forall|j: int| head <= j < i ==> digits@[j] == '0',
            decreases len - i,
        {
            if digits[i] != '0' {
                proof {
                    assert(digits@.subrange(head as int, len as int)[i - head] == digits@[i as int]);
                }
                return Number::Other;
            }
            i = i + 1;
        }
        assert(point_moved(digits@, p as int) == Some(written));
    } else {
        let extra: u128 = p - len as u128;
        let mut j: u128 = 0;
        assert(digits@.subrange(0, len as int) =~= digits@);
        while j < extra
            invariant
                j <= extra <= 11,
                digits_value(digits@) is Some,
                digits_value(with_zeros(digits@, j as int)) is Some,
                kept_value == kept(digits_value(with_zeros(digits@, j as int))->0),
            decreases extra - j,
        {
            proof {
                let before = with_zeros(digits@, j as int);
                assert(with_zeros(digits@, j + 1) == before.push('0'));
                assert(before.push('0').drop_last() =~= before);
            }
            let grown: u128 = kept_value * 10;
            kept_value = if grown > 0x400000000000000000 {
                0x400000000000000001
            } else {
                grown
            };
            j = j + 1;
        }
        proof {
            zeros_grow(digits@, extra as int);
            let padded = with_zeros(digits@, extra as int);
            assert(padded.subrange(0, p as int) =~= padded);
            assert(padded.subrange(p as int, padded.len() as int).len() == 0);
            assert(point_moved(digits@, p as int) == digits_value(padded));
        }
    }
    if kept_value == 0 {
        Number::Thousandths(0)
    } else if !negative && kept_value <= 4294967295 {
        Number::Thousandths(kept_value as u32)
    } else {
        Number::Other
    }
}

/// Where the exponent mark of `v` stands, looking from `start` on.
fn find_mark(v: &Vec<char>, start: usize) -> (mark: usize)
    requires
        start <= v@.len(),
    ensures
        start <= mark <= v@.len(),
        exponent_at(v@.subrange(start as int, v@.len() as int), mark - start),
{
    let n = v.len();
    let mut mark = start;
    while mark < n && v[mark] != 'e' && v[mark] != 'E'
        invariant
            start <= mark <= n == v@.len(),
            forall|j: int| start <= j < mark ==> !is_exponent_mark(v@[j]),
        decreases n - mark,
    {
        mark = mark + 1;
    }
    mark
}

/// The digits of the mantissa that stands in `v` from `start` to `mark`,
/// with the number of them that stand before the point; `None` if a
/// character of the mantissa, other than its first point, is no digit.
fn mantissa_digits(v: &Vec<char>, start: usize, mark: usize) -> (r: Option<(Vec<char>, usize)>)
    requires
        start <= mark <= v@.len(),
    ensures
        ({
            let m = v@.subrange(start as int, mark as int);
            match r {
                Some((digits, before)) => {
                    &&& digits_value(whole_part(m)) is Some
                    &&& digits_value(fraction_part(m)) is Some
                    &&& digits@ == whole_part(m) + fraction_part(m)
                    &&& before == whole_part(m).len()
                    &&& digits_value(digits@) is Some
                },
                None => digits_value(whole_part(m)) is None || digits_value(fraction_part(m))
                    is None,
            }
        }),
{
    let mut point = start;
    while point < mark && v[point] != '.'
        invariant
            start <= point <= mark <= v@.len(),
            forall|j: int| start <= j < point ==> v@[j] != '.',
        decreases mark - point,
    {
        point = point + 1;
    }
    let after: usize = if point < mark {
        point + 1
    } else {
        mark
    };
    let ghost m = v@.subrange(start as int, mark as int);
    let ghost whole = v@.subrange(start as int, point as int);
    let ghost fraction = v@.subrange(after as int, mark as int);
    proof {
        assert(divides_at(m, point - start));
        division_is_unique(m, point - start);
        assert(whole_part(m) =~= whole);
        assert(fraction_part(m) =~= fraction);
    }
    if !are_digits(v, start, point) || !are_digits(v, after, mark) {
        return None;
    }
    let mut digits: Vec<char> = Vec::new();
    let mut i = start;
    while i < point
        invariant
            start <= i <= point <= v@.len(),
            digits@ == v@.subrange(start as int, i as int),
        decreases point - i,
    {
        digits.push(v[i]);
        assert(digits@ =~= v@.subrange(start as int, i + 1));
        i = i + 1;
    }
    let mut i = after;
    while i < mark
        invariant
            after <= i <= mark <= v@.len(),
            whole == v@.subrange(start as int, point as int),
            digits@ == whole + v@.subrange(after as int, i as int),
        decreases mark - i,
    {
        digits.push(v[i]);
        assert(digits@ =~= whole + v@.subrange(after as int, i + 1));
        i = i + 1;
    }
    proof {
        digits_are_digits(whole);
        digits_are_digits(fraction);
        digits_are_digits(digits@);
    }
    Some((digits, point - start))
}

/// The exponent written in `v` after the mark at `mark`: whether it is
/// below zero, and how far from zero it is, as far as that is kept.
fn read_exponent(v: &Vec<char>, mark: usize) -> (r: Option<(bool, u128)>)
    requires
        mark <= v@.len(),
    ensures
        ({
            let text = if mark < v@.len() {
                Some(v@.subrange(mark + 1, v@.len() as int))
            } else {
                None
            };
            match r {
                Some((below, distance)) => exponent_written(text) matches Some(e) && distance
                    == kept(
                    (if e < 0 {
                        -e
                    } else {
                        e
                    }) as nat,
                ) && (e < 0 ==> below) && (e > 0 ==> !below),
                None => exponent_written(text) is None,
            }
        }),
{
    let n = v.len();
    if mark >= n {
        return Some((false, 0));
    }
    let from = mark + 1;
    let ghost text = v@.subrange(from as int, n as int);
    let below = from < n && v[from] == '-';
    let digits_from: usize = if from < n && (v[from] == '+' || v[from] == '-') {
        from + 1
    } else {
        from
    };
    assert(unsigned(text) =~= v@.subrange(digits_from as int, n as int));
    assert(is_negative(text) == below);
    if digits_from == n || !are_digits(v, digits_from, n) {
        return None;
    }
    Some((below, count_of(v, digits_from, n)))
}

/// Where the point comes to stand among `total` digits, of which `before`
/// stand before it, once it is moved three places and by the exponent.
fn place_of(before: usize, total: usize, below: bool, distance: u128, Ghost(e): Ghost<int>) -> (r:
    u128)
    requires
        before <= total,
        distance == kept(
            (if e < 0 {
                -e
            } else {
                e
            }) as nat,
        ),
        e < 0 ==> below,
        e > 0 ==> !below,
    ensures
        r == near(before + e + 3, total as int),
{
    let limit: u128 = total as u128 + 11;
    let reach: u128 = before as u128 + 3;
    if below {
        if distance > reach {
            0
        } else {
            reach - distance
        }
    } else {
        if distance > limit {
            limit
        } else if reach + distance > limit {
            limit
        } else {
            reach + distance
        }
    }
}

/// The number that the characters `v` write.
fn parse_numeral(v: &Vec<char>) -> (r: Option<Number>)
    ensures
        r == numeral_number(v@),
{
    let n = v.len();
    let negative = n > 0 && v[0] == '-';
    let start: usize = if n > 0 && (v[0] == '+' || v[0] == '-') {
        1
    } else {
        0
    };
    let ghost u = unsigned(v@);
    assert(u == v@.subrange(start as int, n as int));
    proof {
        reveal_strlit("inf");
        reveal_strlit("INF");
        reveal_strlit("infinity");
        reveal_strlit("INFINITY");
        reveal_strlit("nan");
        reveal_strlit("NAN");
    }
    if spells_word(v, start, "inf", "INF") || spells_word(v, start, "infinity", "INFINITY")
        || spells_word(v, start, "nan", "NAN") {
        return Some(Number::Other);
    }
    let mark = find_mark(v, start);
    proof {
        mark_is_unique(u, mark - start);
        assert(mantissa(u) =~= v@.subrange(start as int, mark as int));
        if mark < n {
            assert(u.subrange(mark - start + 1, u.len() as int) =~= v@.subrange(
                mark + 1,
                n as int,
            ));
        }
    }
    let exponent = read_exponent(v, mark);
    let mantissa = mantissa_digits(v, start, mark);
    match (mantissa, exponent) {
        (Some((digits, before)), Some((below, distance))) => {
            if digits.len() == 0 {
                return None;
            }
            let ghost e: int = exponent_value(u)->0;
            let place = place_of(before, digits.len(), below, distance, Ghost(e));
            proof {
                far_is_near(digits@, before + e + 3, negative);
            }
            Some(move_point(&digits, place, negative))
        },
        _ => None,
    }
}

/// The number that the speed label `label` names: the number that the label
/// writes once one trailing `x` is taken off.
pub fn parse_label(label: &str) -> (r: Option<Number>)
    ensures
        r == label_number(label@),
{
    let len = label.unicode_len();
    let n: usize = if len > 0 && label.get_char(len - 1) == 'x' {
        len - 1
    } else {
        len
    };
    proof {
        assert(label_numeral(label@) =~= label@.subrange(0, n as int));
    }
    let v = chars_of(label, n);
    parse_numeral(&v)
}

} // verus!
