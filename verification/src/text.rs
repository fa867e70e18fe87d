//! Scanning of text: white space, fields between separators, and numbers.

use vstd::prelude::*;
use vstd::string::*;

verus! {

/// Whether `c` is white space, as Unicode's property `White_Space` has it.
pub open spec fn is_whitespace(c: char) -> bool {
    let n = c as u32;
    (0x09 <= n <= 0x0d) || n == 0x20 || n == 0x85 || n == 0xa0 || n == 0x1680 || (0x2000 <= n
        <= 0x200a) || n == 0x2028 || n == 0x2029 || n == 0x202f || n == 0x205f || n == 0x3000
}

/// `s` without the white space in front of it.
pub open spec fn trim_start(s: Seq<char>) -> Seq<char>
    decreases s.len(),
{
    if s.len() > 0 && is_whitespace(s[0]) {
        trim_start(s.skip(1))
    } else {
        s
    }
}

/// `s` without the white space behind it.
pub open spec fn trim_end(s: Seq<char>) -> Seq<char>
    decreases s.len(),
{
    if s.len() > 0 && is_whitespace(s.last()) {
        trim_end(s.drop_last())
    } else {
        s
    }
}

/// `s` without the white space at either end.
pub open spec fn trim(s: Seq<char>) -> Seq<char> {
    trim_end(trim_start(s))
}

/// The fields of `s` between the separators `sep`. There is one field more
/// than there are separators: text without a separator is one field, and
/// so is the empty text.
pub open spec fn split(s: Seq<char>, sep: char) -> Seq<Seq<char>>
    decreases s.len(),
{
    if s.len() == 0 {
        seq![Seq::empty()]
    } else {
        let before = split(s.drop_last(), sep);
        if s.last() == sep {
            before.push(Seq::empty())
        } else {
            before.drop_last().push(before.last().push(s.last()))
        }
    }
}

/// The texts that strings hold.
pub open spec fn texts(v: Seq<String>) -> Seq<Seq<char>> {
    Seq::new(v.len(), |i: int| v[i]@)
}

/// The text that a string holds, if there is one.
pub open spec fn opt_text(v: Option<String>) -> Option<Seq<char>> {
    match v {
        Some(s) => Some(s@),
        None => None,
    }
}

/// Whether `c` is a decimal digit.
pub open spec fn is_digit(c: char) -> bool {
    '0' <= c <= '9'
}

/// Whether `s` holds decimal digits only.
pub open spec fn all_digits(s: Seq<char>) -> bool {
    forall|i: int| 0 <= i < s.len() ==> is_digit(#[trigger] s[i])
}

/// The number that the decimal digits `s` write.
pub open spec fn digits_value(s: Seq<char>) -> nat
    decreases s.len(),
{
    if s.len() == 0 {
        0
    } else {
        digits_value(s.drop_last()) * 10 + (s.last() as nat - '0' as nat) as nat
    }
}

/// The number that `s` writes, if it is one up to `max`: decimal digits,
/// at least one, after at most one plus sign.
pub open spec fn parse_unsigned(s: Seq<char>, max: nat) -> Option<nat> {
    let digits = if s.len() > 0 && s[0] == '+' {
        s.skip(1)
    } else {
        s
    };
    if digits.len() > 0 && all_digits(digits) && digits_value(digits) <= max {
        Some(digits_value(digits))
    } else {
        None
    }
}

/// The code of `c`, or of its lower-case form where `c` is an upper-case
/// letter of the Latin alphabet.
pub open spec fn lower_code(c: char) -> u32 {
    if 'A' <= c <= 'Z' {
        ((c as u32) + 32) as u32
    } else {
        c as u32
    }
}

/// Whether `s` is `word` but for the case of its Latin letters; `word` is
/// in lower case.
pub open spec fn is_word(s: Seq<char>, word: Seq<char>) -> bool {
    &&& s.len() == word.len()
    &&& forall|i: int| 0 <= i < s.len() ==> lower_code(#[trigger] s[i]) == word[i] as u32
}

/// What a switch is set to by `s`: off by the empty text, `off` and
/// `false`, on by `on` and `true`, in either case of the letters.
pub open spec fn spec_toggle(s: Seq<char>) -> Option<bool> {
    if s.len() == 0 || is_word(s, seq!['o', 'f', 'f']) || is_word(s, seq!['f', 'a', 'l', 's', 'e']) {
        Some(false)
    } else if is_word(s, seq!['o', 'n']) || is_word(s, seq!['t', 'r', 'u', 'e']) {
        Some(true)
    } else {
        None
    }
}

/// The power of two that a unit stands for: `K`, `M` and `G` for 2^10,
/// 2^20 and 2^30.
pub open spec fn unit_shift(c: char) -> Option<u32> {
    if c == 'K' {
        Some(10u32)
    } else if c == 'M' {
        Some(20u32)
    } else if c == 'G' {
        Some(30u32)
    } else {
        None
    }
}

/// `s` without the units behind it.
pub open spec fn strip_units(s: Seq<char>) -> Seq<char>
    decreases s.len(),
{
    if s.len() > 0 && unit_shift(s.last()) is Some {
        strip_units(s.drop_last())
    } else {
        s
    }
}

/// The number of bytes that `s` writes: a number, then units, of which
/// the last counts; white space around it is passed over. The number is
/// taken modulo 2^64 once the unit is applied.
pub open spec fn spec_byte_sized(s: Seq<char>) -> Option<u64> {
    let t = trim(s);
    let shift = if t.len() > 0 && unit_shift(t.last()) is Some {
        unit_shift(t.last())->0
    } else {
        0u32
    };
    match parse_unsigned(strip_units(t), u64::MAX as nat) {
        Some(v) => Some((v as u64) << shift),
        None => None,
    }
}

/// Whether `c` is white space.
pub fn whitespace(c: char) -> (r: bool)
    ensures
        r == is_whitespace(c),
{
    let n: u32 = c as u32;
    (0x09 <= n && n <= 0x0d) || n == 0x20 || n == 0x85 || n == 0xa0 || n == 0x1680 || (0x2000 <= n
        && n <= 0x200a) || n == 0x2028 || n == 0x2029 || n == 0x202f || n == 0x205f || n == 0x3000
}

/// Past `i` characters of white space and before one that is none, or the
/// end, what is left of `s` is `s` without its leading white space.
pub proof fn lemma_trim_start(s: Seq<char>, i: int)
    requires
        0 <= i <= s.len(),
        forall|j: int| 0 <= j < i ==> is_whitespace(#[trigger] s[j]),
        i == s.len() || !is_whitespace(s[i]),
    ensures
        trim_start(s) == s.skip(i),
    decreases i,
{
    if i == 0 {
        assert(s.skip(0) =~= s);
    } else {
        assert(is_whitespace(s[0]));
        let rest = s.skip(1);
        assert forall|j: int| 0 <= j < i - 1 implies is_whitespace(#[trigger] rest[j]) by {
            assert(rest[j] == s[j + 1]);
        }
        lemma_trim_start(rest, i - 1);
        assert(rest.skip(i - 1) =~= s.skip(i));
    }
}

/// Before the white space from `b` on and behind a character that is none,
/// or the start, what is left of `s` is `s` without its trailing white
/// space.
pub proof fn lemma_trim_end(s: Seq<char>, b: int)
    requires
        0 <= b <= s.len(),
        forall|j: int| b <= j < s.len() ==> is_whitespace(#[trigger] s[j]),
        b == 0 || !is_whitespace(s[b - 1]),
    ensures
        trim_end(s) == s.take(b),
    decreases s.len() - b,
{
    if b == s.len() {
        assert(s.take(b) =~= s);
    } else {
        assert(is_whitespace(s.last()));
        let rest = s.drop_last();
        assert forall|j: int| b <= j < rest.len() implies is_whitespace(#[trigger] rest[j]) by {
            assert(rest[j] == s[j]);
        }
        lemma_trim_end(rest, b);
        assert(rest.take(b) =~= s.take(b));
    }
}

/// Where `s` without the white space at either end starts and ends.
pub fn trim_bounds(s: &str) -> (r: (usize, usize))
    ensures
        r.0 <= r.1 <= s@.len(),
        s@.subrange(r.0 as int, r.1 as int) == trim(s@),
{
    let n: usize = s.unicode_len();
    let mut a: usize = 0;
    while a < n && whitespace(s.get_char(a))
        invariant
            a <= n,
            n == s@.len(),
            forall|j: int| 0 <= j < a ==> is_whitespace(#[trigger] s@[j]),
        decreases n - a,
    {
        a += 1;
    }
    let mut b: usize = n;
    while b > a && whitespace(s.get_char(b - 1))
        invariant
            a <= b <= n,
            n == s@.len(),
            forall|j: int| b <= j < n ==> is_whitespace(#[trigger] s@[j]),
        decreases b,
    {
        b -= 1;
    }
    proof {
        lemma_trim_start(s@, a as int);
        let t = s@.skip(a as int);
        assert forall|j: int| b - a <= j < t.len() implies is_whitespace(#[trigger] t[j]) by {
            assert(t[j] == s@[j + a]);
        }
        if b > a {
            assert(t[b - a - 1] == s@[b - 1]);
        }
        lemma_trim_end(t, b - a);
        assert(t.take(b - a) =~= s@.subrange(a as int, b as int));
    }
    (a, b)
}

/// `s` without the white space at either end.
pub fn trimmed(s: &str) -> (r: String)
    ensures
        r@ == trim(s@),
{
    let (a, b) = trim_bounds(s);
    s.substring_char(a, b).to_owned()
}

/// The fields of `s` between the separators `sep`.
pub fn split_fields(s: &str, sep: char) -> (r: Vec<String>)
    ensures
        texts(r@) == split(s@, sep),
        r@.len() >= 1,
{
    let n: usize = s.unicode_len();
    let mut fields: Vec<String> = Vec::new();
    let mut start: usize = 0;
    let mut i: usize = 0;
    assert(s@.take(0) =~= Seq::<char>::empty());
    assert(texts(fields@).push(s@.subrange(0, 0)) =~= split(s@.take(0), sep));
    while i < n
        invariant
            start <= i <= n,
            n == s@.len(),
            texts(fields@).push(s@.subrange(start as int, i as int)) == split(
                s@.take(i as int),
                sep,
            ),
        decreases n - i,
    {
        let ghost before = split(s@.take(i as int), sep);
        let ghost current = s@.subrange(start as int, i as int);
        let ghost done = texts(fields@);
        assert(s@.take(i + 1).drop_last() =~= s@.take(i as int));
        assert(s@.take(i + 1).last() == s@[i as int]);
        assert(before.drop_last() =~= done);
        assert(before.last() == current);
        if s.get_char(i) == sep {
            fields.push(s.substring_char(start, i).to_owned());
            start = i + 1;
            assert(texts(fields@) =~= before);
            assert(s@.subrange(start as int, i + 1) =~= Seq::<char>::empty());
        } else {
            assert(s@.subrange(start as int, i + 1) =~= current.push(s@[i as int]));
        }
        i += 1;
    }
    assert(s@.take(n as int) =~= s@);
    let ghost done = texts(fields@);
    fields.push(s.substring_char(start, n).to_owned());
    assert(texts(fields@) =~= done.push(s@.subrange(start as int, n as int)));
    fields
}

/// Whether two texts are the same.
pub fn same_text(a: &str, b: &str) -> (r: bool)
    ensures
        r == (a@ == b@),
{
    let x = a.to_owned();
    let y = b.to_owned();
    x == y
}

/// The number that digits write is no smaller than the number that
/// some of them write from the start.
pub proof fn lemma_digits_value_grows(s: Seq<char>, k: int)
    requires
        all_digits(s),
        0 <= k <= s.len(),
    ensures
        digits_value(s.take(k)) <= digits_value(s),
    decreases s.len(),
{
    if k == s.len() {
        assert(s.take(k) =~= s);
    } else {
        let init = s.drop_last();
        assert(is_digit(s.last()));
        assert forall|i: int| 0 <= i < init.len() implies is_digit(#[trigger] init[i]) by {
            assert(init[i] == s[i]);
        }
        lemma_digits_value_grows(init, k);
        assert(init.take(k) =~= s.take(k));
    }
}

/// The value of the digit `c`.
pub fn digit_value(c: char) -> (r: Option<u64>)
    ensures
        r is Some <==> is_digit(c),
        r matches Some(d) ==> d == c as nat - '0' as nat && d <= 9,
{
    if c >= '0' && c <= '9' {
        Some((c as u32 - '0' as u32) as u64)
    } else {
        None
    }
}

/// The number that `s` writes, if it is one that 64 bits hold.
pub fn parse_u64(s: &str) -> (r: Option<u64>)
    ensures
        r is Some <==> parse_unsigned(s@, u64::MAX as nat) is Some,
        r matches Some(v) ==> parse_unsigned(s@, u64::MAX as nat) == Some(v as nat),
        r is None ==> forall|max: nat|
            max <= u64::MAX ==> (#[trigger] parse_unsigned(s@, max)) is None,
        r matches Some(v) ==> forall|max: nat|
            max <= u64::MAX ==> #[trigger] parse_unsigned(s@, max) == if v <= max {
                Some(v as nat)
            } else {
                None
            },
{
    let n: usize = s.unicode_len();
    let start: usize = if n > 0 && s.get_char(0) == '+' {
        1
    } else {
        0
    };
    let ghost digits = if s@.len() > 0 && s@[0] == '+' {
        s@.skip(1)
    } else {
        s@
    };
    assert(digits =~= s@.skip(start as int));
    if start == n {
        return None;
    }
    let mut acc: u64 = 0;
    let mut i: usize = start;
    assert(digits.take(0) =~= Seq::<char>::empty());
    while i < n
        invariant
            start <= i <= n,
            n == s@.len(),
            digits == s@.skip(start as int),
            digits == if s@.len() > 0 && s@[0] == '+' {
                s@.skip(1)
            } else {
                s@
            },
            all_digits(digits.take(i - start)),
            acc == digits_value(digits.take(i - start)),
        decreases n - i,
    {
        let ghost seen = digits.take(i - start);
        let ghost more = digits.take(i + 1 - start);
        assert(more.drop_last() =~= seen);
        assert(more.last() == s@[i as int]);
        let d: u64 = match digit_value(s.get_char(i)) {
            Some(d) => d,
            None => {
                assert(!is_digit(digits[i - start]));
                return None;
            },
        };
        assert forall|j: int| 0 <= j < more.len() implies is_digit(#[trigger] more[j]) by {
            if j < seen.len() {
                assert(more[j] == seen[j]);
            }
        }
        if acc > (u64::MAX - d) / 10 {
            proof {
                assert(digits_value(more) > u64::MAX);
                if all_digits(digits) {
                    lemma_digits_value_grows(digits, i + 1 - start);
                }
            }
            return None;
        }
        acc = acc * 10 + d;
        i += 1;
    }
    assert(digits.take(n - start) =~= digits);
    Some(acc)
}

/// The number that `s` writes, if it is one that 8 bits hold.
pub fn parse_u8(s: &str) -> (r: Option<u8>)
    ensures
        r is Some <==> parse_unsigned(s@, 0xff) is Some,
        r matches Some(v) ==> parse_unsigned(s@, 0xff) == Some(v as nat),
{
    match parse_u64(s) {
        Some(v) => {
            assert(parse_unsigned(s@, 0xff) == if v <= 0xff {
                Some(v as nat)
            } else {
                None
            });
            if v <= 0xff {
                Some(v as u8)
            } else {
                None
            }
        },
        None => {
            assert(parse_unsigned(s@, 0xff) is None);
            None
        },
    }
}

/// The number that `s` writes, if it is one that 16 bits hold.
pub fn parse_u16(s: &str) -> (r: Option<u16>)
    ensures
        r is Some <==> parse_unsigned(s@, 0xffff) is Some,
        r matches Some(v) ==> parse_unsigned(s@, 0xffff) == Some(v as nat),
{
    match parse_u64(s) {
        Some(v) => {
            assert(parse_unsigned(s@, 0xffff) == if v <= 0xffff {
                Some(v as nat)
            } else {
                None
            });
            if v <= 0xffff {
                Some(v as u16)
            } else {
                None
            }
        },
        None => {
            assert(parse_unsigned(s@, 0xffff) is None);
            None
        },
    }
}

/// The number that `s` writes, if it is one that a `usize` holds.
pub fn parse_usize(s: &str) -> (r: Option<usize>)
    ensures
        r is Some <==> parse_unsigned(s@, usize::MAX as nat) is Some,
        r matches Some(v) ==> parse_unsigned(s@, usize::MAX as nat) == Some(v as nat),
{
    match parse_u64(s) {
        Some(v) => {
            assert(parse_unsigned(s@, usize::MAX as nat) == if v <= usize::MAX {
                Some(v as nat)
            } else {
                None
            });
            if v <= usize::MAX as u64 {
                Some(v as usize)
            } else {
                None
            }
        },
        None => {
            assert(parse_unsigned(s@, usize::MAX as nat) is None);
            None
        },
    }
}

/// The code of `c` in lower case.
pub fn lower(c: char) -> (r: u32)
    ensures
        r == lower_code(c),
{
    if c >= 'A' && c <= 'Z' {
        c as u32 + 32
    } else {
        c as u32
    }
}

/// Whether `s` is `word` but for the case of its Latin letters.
pub fn matches_word(s: &str, word: &str) -> (r: bool)
    ensures
        r == is_word(s@, word@),
{
    let n: usize = s.unicode_len();
    if n != word.unicode_len() {
        return false;
    }
    let mut i: usize = 0;
    while i < n
        invariant
            i <= n,
            n == s@.len(),
            n == word@.len(),
            forall|j: int| 0 <= j < i ==> lower_code(#[trigger] s@[j]) == word@[j] as u32,
        decreases n - i,
    {
        if lower(s.get_char(i)) != word.get_char(i) as u32 {
            return false;
        }
        i += 1;
    }
    true
}

/// What a switch is set to by `s`.
pub fn parse_toggle(s: &str) -> (r: Option<bool>)
    ensures
        r == spec_toggle(s@),
{
    proof {
        reveal_strlit("off");
        reveal_strlit("false");
        reveal_strlit("on");
        reveal_strlit("true");
        assert("off"@ =~= seq!['o', 'f', 'f']);
        assert("false"@ =~= seq!['f', 'a', 'l', 's', 'e']);
        assert("on"@ =~= seq!['o', 'n']);
        assert("true"@ =~= seq!['t', 'r', 'u', 'e']);
    }
    if s.unicode_len() == 0 || matches_word(s, "off") || matches_word(s, "false") {
        Some(false)
    } else if matches_word(s, "on") || matches_word(s, "true") {
        Some(true)
    } else {
        None
    }
}

/// The shift that the unit `c` stands for.
pub fn unit_of(c: char) -> (r: Option<u32>)
    ensures
        r == unit_shift(c),
{
    if c == 'K' {
        Some(10)
    } else if c == 'M' {
        Some(20)
    } else if c == 'G' {
        Some(30)
    } else {
        None
    }
}

/// Before the units from `e` on and behind a character that is none, or
/// the start, what is left of `s` is `s` without its units.
pub proof fn lemma_strip_units(s: Seq<char>, e: int)
    requires
        0 <= e <= s.len(),
        forall|j: int| e <= j < s.len() ==> unit_shift(#[trigger] s[j]) is Some,
        e == 0 || unit_shift(s[e - 1]) is None,
    ensures
        strip_units(s) == s.take(e),
    decreases s.len() - e,
{
    if e == s.len() {
        assert(s.take(e) =~= s);
    } else {
        assert(unit_shift(s.last()) is Some);
        let rest = s.drop_last();
        assert forall|j: int| e <= j < rest.len() implies unit_shift(#[trigger] rest[j]) is Some by {
            assert(rest[j] == s[j]);
        }
        lemma_strip_units(rest, e);
        assert(rest.take(e) =~= s.take(e));
    }
}

/// The number of bytes that `s` writes.
pub fn parse_byte_sized(s: &str) -> (r: Option<u64>)
    ensures
        r == spec_byte_sized(s@),
{
    let (a, b) = trim_bounds(s);
    let ghost t = trim(s@);
    let shift: u32 = if b > a {
        match unit_of(s.get_char(b - 1)) {
            Some(k) => k,
            None => 0,
        }
    } else {
        0
    };
    assert(b > a ==> t.last() == s@[b - 1]);
    let mut e: usize = b;
    while e > a && unit_of(s.get_char(e - 1)).is_some()
        invariant
            a <= e <= b <= s@.len(),
            t == s@.subrange(a as int, b as int),
            forall|j: int| e - a <= j < t.len() ==> unit_shift(#[trigger] t[j]) is Some,
        decreases e,
    {
        e -= 1;
    }
    proof {
        if e > a {
            assert(t[e - a - 1] == s@[e - 1]);
        }
        lemma_strip_units(t, e - a);
        assert(t.take(e - a) =~= s@.subrange(a as int, e as int));
    }
    match parse_u64(s.substring_char(a, e)) {
        Some(v) => Some(v << shift),
        None => None,
    }
}

/// The decimal digit of the value `d`.
pub open spec fn digit_char(d: nat) -> char {
    ((d + 48) as u8) as char
}

/// `n` written in decimal digits, with no zero in front.
pub open spec fn decimal_text(n: nat) -> Seq<char>
    decreases n,
{
    if n < 10 {
        seq![digit_char(n)]
    } else {
        decimal_text(n / 10).push(digit_char(n % 10))
    }
}

/// The decimal digit of the value `d`, as text.
fn digit_text(d: u64) -> (r: &'static str)
    requires
        d < 10,
    ensures
        r@ == seq![digit_char(d as nat)],
{
    proof {
        reveal_strlit("0");
        reveal_strlit("1");
        reveal_strlit("2");
        reveal_strlit("3");
        reveal_strlit("4");
        reveal_strlit("5");
        reveal_strlit("6");
        reveal_strlit("7");
        reveal_strlit("8");
        reveal_strlit("9");
    }
    let r = if d == 0 {
        "0"
    } else if d == 1 {
        "1"
    } else if d == 2 {
        "2"
    } else if d == 3 {
        "3"
    } else if d == 4 {
        "4"
    } else if d == 5 {
        "5"
    } else if d == 6 {
        "6"
    } else if d == 7 {
        "7"
    } else if d == 8 {
        "8"
    } else {
        "9"
    };
    assert(r@ =~= seq![digit_char(d as nat)]);
    r
}

/// `n` written in decimal digits.
pub fn decimal(n: u64) -> (r: String)
    ensures
        r@ == decimal_text(n as nat),
    decreases n,
{
    if n < 10 {
        digit_text(n).to_owned()
    } else {
        let front = decimal(n / 10);
        let r = front.concat(digit_text(n % 10));
        assert(r@ =~= decimal_text((n / 10) as nat).push(digit_char((n % 10) as nat)));
        r
    }
}

/// A number written in decimal digits is read back as the same number.
pub proof fn lemma_decimal_round_trip(n: nat, max: nat)
    requires
        n <= max,
    ensures
        parse_unsigned(decimal_text(n), max) == Some(n),
{
    lemma_decimal_digits(n);
    let text = decimal_text(n);
    assert(is_digit(text[0]));
}

/// The decimal digits of a number are digits, at least one, and write the
/// number.
pub proof fn lemma_decimal_digits(n: nat)
    ensures
        decimal_text(n).len() >= 1,
        all_digits(decimal_text(n)),
        digits_value(decimal_text(n)) == n,
    decreases n,
{
    let text = decimal_text(n);
    if n < 10 {
        assert(text.drop_last() =~= Seq::<char>::empty());
        assert(digits_value(text.drop_last()) == 0);
        assert(text.last() == digit_char(n));
    } else {
        lemma_decimal_digits(n / 10);
        let front = decimal_text(n / 10);
        assert(text.drop_last() =~= front);
        assert(text.last() == digit_char(n % 10));
        assert forall|i: int| 0 <= i < text.len() implies is_digit(#[trigger] text[i]) by {
            if i < front.len() {
                assert(text[i] == front[i]);
            }
        }
    }
}

} // verus!
