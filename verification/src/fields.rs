//! Field-level parsing for the static tables: trimming, unsigned integers,
//! `HH:MM:SS` times, `0`/`1` flags, `YYYYMMDD` dates and the decimal syntax
//! of coordinates.
use vstd::prelude::*;
use crate::text::{decimal, digit_char};

verus! {

/// A character of the Unicode `White_Space` property, the whitespace that
/// `str::trim` removes.
pub open spec fn is_white_space(c: char) -> bool {
    let u = c as u32;
    ||| 0x09 <= u <= 0x0D
    ||| u == 0x20
    ||| u == 0x85
    ||| u == 0xA0
    ||| u == 0x1680
    ||| 0x2000 <= u <= 0x200A
    ||| u == 0x2028
    ||| u == 0x2029
    ||| u == 0x202F
    ||| u == 0x205F
    ||| u == 0x3000
}

/// `s` without its leading whitespace.
pub open spec fn trim_start(s: Seq<char>) -> Seq<char>
    decreases s.len(),
{
    if s.len() > 0 && is_white_space(s[0]) {
        trim_start(s.drop_first())
    } else {
        s
    }
}

/// `s` without its trailing whitespace.
pub open spec fn trim_end(s: Seq<char>) -> Seq<char>
    decreases s.len(),
{
    if s.len() > 0 && is_white_space(s.last()) {
        trim_end(s.drop_last())
    } else {
        s
    }
}

/// `s` without leading and trailing whitespace.
pub open spec fn trimmed(s: Seq<char>) -> Seq<char> {
    trim_end(trim_start(s))
}

/// `str::trim`: the slice without leading and trailing `White_Space`
/// characters.
#[verifier::external_body]
pub(crate) fn trim(s: &str) -> (r: &str)
    ensures
        r@ == trimmed(s@),
{
    s.trim()
}

/// An ASCII decimal digit.
pub open spec fn is_digit(c: char) -> bool {
    '0' <= c <= '9'
}

/// All characters are ASCII decimal digits.
pub open spec fn all_digits(s: Seq<char>) -> bool {
    forall|i: int| 0 <= i < s.len() ==> is_digit(#[trigger] s[i])
}

/// The number that a string of decimal digits denotes.
pub open spec fn digits_value(s: Seq<char>) -> nat
    decreases s.len(),
{
    if s.len() == 0 {
        0
    } else {
        digits_value(s.drop_last()) * 10 + ((s.last() as u32) - ('0' as u32)) as nat
    }
}

/// The digits of an unsigned number: one leading `+` is allowed.
pub open spec fn unsigned_digits(s: Seq<char>) -> Seq<char> {
    if s.len() > 0 && s[0] == '+' {
        s.drop_first()
    } else {
        s
    }
}

/// What `FromStr` gives for an unsigned integer type whose largest value is
/// `max`: an optional `+` followed by at least one digit, denoting at most `max`.
pub open spec fn spec_parse_unsigned(s: Seq<char>, max: nat) -> Option<nat> {
    let d = unsigned_digits(s);
    if d.len() > 0 && all_digits(d) && digits_value(d) <= max {
        Some(digits_value(d))
    } else {
        None
    }
}

/// A prefix of an all-digit string denotes at most what the whole does.
proof fn lemma_digits_value_prefix(d: Seq<char>, k: int)
    requires
        all_digits(d),
        0 <= k <= d.len(),
    ensures
        digits_value(d.take(k)) <= digits_value(d),
    decreases d.len(),
{
    if k < d.len() {
        assert(d.drop_last().take(k) =~= d.take(k));
        assert(all_digits(d.drop_last()));
        lemma_digits_value_prefix(d.drop_last(), k);
        assert(d.drop_last().take(d.len() - 1) =~= d.drop_last());
    } else {
        assert(d.take(k) =~= d);
    }
}

/// Parses an unsigned decimal number of at most `max`, as `FromStr` does for
/// `u8`, `u16` and `u32`.
pub fn parse_unsigned(s: &str, max: u32) -> (r: Option<u32>)
    ensures
        match r {
            Some(v) => spec_parse_unsigned(s@, max as nat) == Some(v as nat),
            None => spec_parse_unsigned(s@, max as nat) is None,
        },
{
    let ghost d = unsigned_digits(s@);
    let mut value: u64 = 0;
    let ghost mut seen: int = 0;
    let mut any = false;
    let mut skipped = false;
    for c in it: s.chars()
        invariant
            it.seq() == s@,
            d == unsigned_digits(s@),
            skipped == (it.index() > 0 && s@[0] == '+'),
            seen == it.index() - (if skipped { 1int } else { 0 }),
            any == (seen > 0),
            all_digits(d.take(seen)),
            value == digits_value(d.take(seen)),
            value <= max,
    {
        if !any && !skipped && c == '+' {
            skipped = true;
        } else {
            proof {
                assert(d[seen] == c);
                assert(d.take(seen + 1).drop_last() =~= d.take(seen));
            }
            if c < '0' || c > '9' {
                proof {
                    assert(!is_digit(d[seen]));
                }
                return None;
            }
            let next = value * 10 + ((c as u32) - ('0' as u32)) as u64;
            if next > max as u64 {
                proof {
                    assert(all_digits(d.take(seen + 1)));
                    if all_digits(d) {
                        lemma_digits_value_prefix(d, seen + 1);
                    }
                }
                return None;
            }
            value = next;
            any = true;
            proof {
                seen = seen + 1;
            }
        }
    }
    proof {
        assert(d.take(seen) =~= d);
    }
    if any {
        Some(value as u32)
    } else {
        None
    }
}

/// The characters of `s`, in order.
pub fn chars_of(s: &str) -> (v: Vec<char>)
    ensures
        v@ == s@,
{
    let mut v: Vec<char> = Vec::new();
    for c in it: s.chars()
        invariant
            it.seq() == s@,
            v@ == s@.take(it.index()),
    {
        proof {
            assert(s@.take(it.index() + 1) =~= s@.take(it.index()).push(c));
        }
        v.push(c);
    }
    proof {
        assert(s@.take(s@.len() as int) =~= s@);
    }
    v
}

/// The pieces of `s` between occurrences of `sep`, as `str::split` gives them.
pub open spec fn split_on(s: Seq<char>, sep: char) -> Seq<Seq<char>>
    decreases s.len(),
{
    if s.len() == 0 {
        seq![Seq::empty()]
    } else {
        let rest = split_on(s.drop_first(), sep);
        if s[0] == sep {
            seq![Seq::<char>::empty()] + rest
        } else {
            rest.update(0, seq![s[0]] + rest[0])
        }
    }
}

proof fn lemma_split_on_nonempty(s: Seq<char>, sep: char)
    ensures
        split_on(s, sep).len() >= 1,
    decreases s.len(),
{
    if s.len() > 0 {
        lemma_split_on_nonempty(s.drop_first(), sep);
    }
}

/// Without a separator, the whole string is the one piece.
proof fn lemma_split_on_whole(s: Seq<char>, sep: char)
    requires
        !s.contains(sep),
    ensures
        split_on(s, sep) == seq![s],
    decreases s.len(),
{
    if s.len() > 0 {
        assert(!s.drop_first().contains(sep)) by {
            if s.drop_first().contains(sep) {
                let i = choose|i: int| 0 <= i < s.drop_first().len() && s.drop_first()[i] == sep;
                assert(s[i + 1] == sep);
            }
        }
        lemma_split_on_whole(s.drop_first(), sep);
        assert(s[0] != sep) by {
            if s[0] == sep {
                assert(s.contains(sep));
            }
        }
        assert(seq![s[0]] + s.drop_first() =~= s);
    } else {
        assert(s =~= Seq::<char>::empty());
    }
}

/// Splitting at the first separator: the part before it is the first piece.
proof fn lemma_split_on_first(a: Seq<char>, b: Seq<char>, sep: char)
    requires
        !a.contains(sep),
    ensures
        split_on(a + seq![sep] + b, sep) == seq![a] + split_on(b, sep),
    decreases a.len(),
{
    let s = a + seq![sep] + b;
    if a.len() == 0 {
        assert(s.drop_first() =~= b);
        assert(a =~= Seq::<char>::empty());
    } else {
        assert(!a.drop_first().contains(sep)) by {
            if a.drop_first().contains(sep) {
                let i = choose|i: int| 0 <= i < a.drop_first().len() && a.drop_first()[i] == sep;
                assert(a[i + 1] == sep);
            }
        }
        lemma_split_on_first(a.drop_first(), b, sep);
        assert(s.drop_first() =~= a.drop_first() + seq![sep] + b);
        assert(a[0] != sep) by {
            if a[0] == sep {
                assert(a.contains(sep));
            }
        }
        assert(s[0] == a[0]);
        assert(seq![a[0]] + a.drop_first() =~= a);
        assert(split_on(s, sep) =~= seq![a] + split_on(b, sep));
    }
}

/// `str::split_once(':')`: the parts before and after the first `:`, or
/// `None` when there is none.
#[verifier::external_body]
fn split_once_colon(s: &str) -> (r: Option<(&str, &str)>)
    ensures
        match r {
            Some((a, b)) => !a@.contains(':') && s@ == a@ + seq![':'] + b@,
            None => !s@.contains(':'),
        },
{
    s.split_once(':')
}

/// A `H:MM:SS` time as seconds after midnight: exactly three `:`-separated
/// unsigned numbers, minutes and seconds at most 59, hours unbounded as long
/// as the total fits in a `u32` (times past midnight are allowed).
pub open spec fn spec_parse_time(s: Seq<char>) -> Option<nat> {
    let p = split_on(s, ':');
    if p.len() != 3 {
        None
    } else {
        match (
            spec_parse_unsigned(p[0], u32::MAX as nat),
            spec_parse_unsigned(p[1], u32::MAX as nat),
            spec_parse_unsigned(p[2], u32::MAX as nat),
        ) {
            (Some(h), Some(m), Some(sec)) => {
                if m <= 59 && sec <= 59 && h * 3600 + m * 60 + sec <= u32::MAX {
                    Some(h * 3600 + m * 60 + sec)
                } else {
                    None
                }
            },
            _ => None,
        }
    }
}

/// Parses a `H:MM:SS` stop time into seconds after midnight.
pub fn parse_time(s: &str) -> (r: Option<u32>)
    ensures
        match r {
            Some(v) => spec_parse_time(s@) == Some(v as nat),
            None => spec_parse_time(s@) is None,
        },
{
    let (hour, rest) = match split_once_colon(s) {
        Some(parts) => parts,
        None => {
            proof {
                lemma_split_on_whole(s@, ':');
            }
            return None;
        },
    };
    proof {
        lemma_split_on_first(hour@, rest@, ':');
    }
    let (minute, second) = match split_once_colon(rest) {
        Some(parts) => parts,
        None => {
            proof {
                lemma_split_on_whole(rest@, ':');
            }
            return None;
        },
    };
    proof {
        lemma_split_on_first(minute@, second@, ':');
    }
    match split_once_colon(second) {
        Some((a, b)) => {
            proof {
                lemma_split_on_first(a@, b@, ':');
                lemma_split_on_nonempty(b@, ':');
            }
            return None;
        },
        None => {
            proof {
                lemma_split_on_whole(second@, ':');
                assert(split_on(s@, ':') =~= seq![hour@, minute@, second@]);
            }
        },
    }
    let h = match parse_unsigned(hour, u32::MAX) {
        Some(v) => v,
        None => return None,
    };
    let m = match parse_unsigned(minute, u32::MAX) {
        Some(v) => v,
        None => return None,
    };
    let sec = match parse_unsigned(second, u32::MAX) {
        Some(v) => v,
        None => return None,
    };
    if m > 59 || sec > 59 {
        return None;
    }
    let by_hour = match h.checked_mul(3600) {
        Some(v) => v,
        None => return None,
    };
    let with_minutes = match by_hour.checked_add(m * 60) {
        Some(v) => v,
        None => return None,
    };
    with_minutes.checked_add(sec)
}

/// A `0`/`1` flag.
pub open spec fn spec_parse_flag(s: Seq<char>) -> Option<bool> {
    if s == seq!['0'] {
        Some(false)
    } else if s == seq!['1'] {
        Some(true)
    } else {
        None
    }
}

/// Reads a `0`/`1` flag.
pub fn parse_flag(s: &str) -> (r: Option<bool>)
    ensures
        r == spec_parse_flag(s@),
{
    proof {
        reveal_strlit("0");
        reveal_strlit("1");
        assert("0"@ =~= seq!['0']);
        assert("1"@ =~= seq!['1']);
    }
    if crate::text::str_eq(s, "0") {
        Some(false)
    } else if crate::text::str_eq(s, "1") {
        Some(true)
    } else {
        None
    }
}

/// A `YYYYMMDD` date as GTFS writes it: eight ASCII digits.
pub open spec fn spec_is_date(s: Seq<char>) -> bool {
    s.len() == 8 && all_digits(s)
}

/// Whether `s` is eight ASCII digits.
pub fn is_date(s: &str) -> (r: bool)
    ensures
        r == spec_is_date(s@),
{
    let v = chars_of(s);
    if v.len() != 8 {
        return false;
    }
    let mut i: usize = 0;
    while i < 8
        invariant
            i <= 8,
            v@ == s@,
            v@.len() == 8,
            forall|j: int| 0 <= j < i ==> is_digit(#[trigger] v@[j]),
        decreases 8 - i,
    {
        if v[i] < '0' || v[i] > '9' {
            return false;
        }
        i = i + 1;
    }
    true
}

/// `c`, lowercased when it is an ASCII capital letter.
pub open spec fn ascii_lower(c: char) -> char {
    if 'A' <= c <= 'Z' {
        ((c as u32) + 32) as char
    } else {
        c
    }
}

/// `s` spells `word` once lowercased.
pub open spec fn lower_eq(s: Seq<char>, word: Seq<char>) -> bool {
    s.len() == word.len() && forall|i: int| 0 <= i < s.len() ==> ascii_lower(#[trigger] s[i]) == word[i]
}

pub open spec fn is_sign(c: char) -> bool {
    c == '+' || c == '-'
}

pub open spec fn is_exp_marker(c: char) -> bool {
    c == 'e' || c == 'E'
}

/// `Digit+ | Digit+ '.' Digit* | Digit* '.' Digit+`: digits with at most one
/// `.`, and at least one digit.
pub open spec fn is_mantissa(m: Seq<char>) -> bool {
    &&& forall|i: int| 0 <= i < m.len() ==> is_digit(#[trigger] m[i]) || m[i] == '.'
    &&& forall|i: int, j: int| 0 <= i < j < m.len() ==> !(#[trigger] m[i] == '.' && #[trigger] m[j] == '.')
    &&& exists|i: int| 0 <= i < m.len() && is_digit(#[trigger] m[i])
}

/// `Sign? Digit+`, what follows the exponent marker.
pub open spec fn is_exponent(x: Seq<char>) -> bool {
    let d = if x.len() > 0 && is_sign(x[0]) {
        x.drop_first()
    } else {
        x
    };
    d.len() > 0 && all_digits(d)
}

/// A mantissa, optionally followed by an exponent marker and an exponent.
pub open spec fn is_number(s: Seq<char>) -> bool {
    ||| is_mantissa(s)
    ||| exists|i: int|
        0 <= i < s.len() && is_exp_marker(#[trigger] s[i]) && is_mantissa(s.take(i)) && is_exponent(
            s.skip(i + 1),
        )
}

/// The text that `f64`'s `FromStr` accepts: an optional sign, then `inf`,
/// `infinity`, `nan` or a decimal number, letters in either case.
pub open spec fn spec_float_text(s: Seq<char>) -> bool {
    let body = if s.len() > 0 && is_sign(s[0]) {
        s.drop_first()
    } else {
        s
    };
    ||| lower_eq(body, seq!['i', 'n', 'f'])
    ||| lower_eq(body, seq!['i', 'n', 'f', 'i', 'n', 'i', 't', 'y'])
    ||| lower_eq(body, seq!['n', 'a', 'n'])
    ||| is_number(body)
}

/// Whether `v[lo..]` spells the lowercase `word` once lowercased; `upper`
/// holds the same letters in capitals.
fn spells(v: &Vec<char>, lo: usize, word: &Vec<char>, upper: &Vec<char>) -> (r: bool)
    requires
        lo <= v.len(),
        upper.len() == word.len(),
        forall|j: int|
            0 <= j < word.len() ==> 'a' <= #[trigger] word@[j] <= 'z' && (upper@[j] as u32) + 32
                == (word@[j] as u32) && 'A' <= upper@[j] <= 'Z',
    ensures
        r == lower_eq(v@.skip(lo as int), word@),
{
    if v.len() - lo != word.len() {
        return false;
    }
    let mut i: usize = 0;
    while i < word.len()
        invariant
            lo <= v.len(),
            v.len() - lo == word.len(),
            upper.len() == word.len(),
            forall|j: int|
                0 <= j < word.len() ==> 'a' <= #[trigger] word@[j] <= 'z' && (upper@[j] as u32) + 32
                    == (word@[j] as u32) && 'A' <= upper@[j] <= 'Z',
            i <= word.len(),
            forall|j: int| 0 <= j < i ==> ascii_lower(#[trigger] v@.skip(lo as int)[j]) == word@[j],
        decreases word.len() - i,
    {
        let c = v[lo + i];
        proof {
            assert(v@.skip(lo as int)[i as int] == c);
            assert('a' <= word@[i as int] <= 'z');
        }
        if c != word[i] && c != upper[i] {
            return false;
        }
        i = i + 1;
    }
    true
}

/// Whether `v[lo..hi]` is a mantissa.
fn check_mantissa(v: &Vec<char>, lo: usize, hi: usize) -> (r: bool)
    requires
        lo <= hi <= v.len(),
    ensures
        r == is_mantissa(v@.subrange(lo as int, hi as int)),
{
    let ghost m = v@.subrange(lo as int, hi as int);
    let mut i: usize = lo;
    let mut dot: bool = false;
    let mut digit: bool = false;
    while i < hi
        invariant
            lo <= i <= hi <= v.len(),
            m == v@.subrange(lo as int, hi as int),
            forall|k: int| 0 <= k < i - lo ==> is_digit(#[trigger] m[k]) || m[k] == '.',
            forall|k: int, j: int| 0 <= k < j < i - lo ==> !(#[trigger] m[k] == '.' && #[trigger] m[j] == '.'),
            dot == exists|k: int| 0 <= k < i - lo && #[trigger] m[k] == '.',
            digit == exists|k: int| 0 <= k < i - lo && is_digit(#[trigger] m[k]),
        decreases hi - i,
    {
        let c = v[i];
        proof {
            assert(m[i - lo] == c);
        }
        if c == '.' {
            if dot {
                proof {
                    let k = choose|k: int| 0 <= k < i - lo && #[trigger] m[k] == '.';
                    assert(m[k] == '.' && m[i - lo] == '.');
                }
                return false;
            }
            dot = true;
        } else if '0' <= c && c <= '9' {
            digit = true;
        } else {
            return false;
        }
        i = i + 1;
    }
    digit
}

/// Whether `v[lo..]` is an exponent.
fn check_exponent(v: &Vec<char>, lo: usize) -> (r: bool)
    requires
        lo <= v.len(),
    ensures
        r == is_exponent(v@.skip(lo as int)),
{
    let ghost x = v@.skip(lo as int);
    let start = if lo < v.len() && (v[lo] == '+' || v[lo] == '-') {
        lo + 1
    } else {
        lo
    };
    let ghost d = if x.len() > 0 && is_sign(x[0]) {
        x.drop_first()
    } else {
        x
    };
    proof {
        assert(d =~= v@.skip(start as int));
    }
    if start == v.len() {
        proof {
            assert(d.len() == 0);
        }
        return false;
    }
    let mut i: usize = start;
    while i < v.len()
        invariant
            start <= i <= v.len(),
            x == v@.skip(lo as int),
            d == (if x.len() > 0 && is_sign(x[0]) {
                x.drop_first()
            } else {
                x
            }),
            d == v@.skip(start as int),
            forall|k: int| 0 <= k < i - start ==> is_digit(#[trigger] d[k]),
        decreases v.len() - i,
    {
        if v[i] < '0' || v[i] > '9' {
            proof {
                assert(!is_digit(d[i - start]));
            }
            return false;
        }
        i = i + 1;
    }
    true
}

/// With the first exponent marker at `q` (or none, `q` being the length),
/// a number is a mantissa before it and an exponent after it.
proof fn lemma_number_at_first_marker(body: Seq<char>, q: int)
    requires
        0 <= q <= body.len(),
        forall|k: int| 0 <= k < q ==> !is_exp_marker(#[trigger] body[k]),
        q < body.len() ==> is_exp_marker(body[q]),
    ensures
        q == body.len() ==> (is_number(body) == is_mantissa(body.take(q))),
        q < body.len() ==> (is_number(body) == (is_mantissa(body.take(q)) && is_exponent(
            body.skip(q + 1),
        ))),
{
    assert(body.take(body.len() as int) =~= body);
    if q < body.len() && is_mantissa(body) {
        assert(!(is_digit(body[q]) || body[q] == '.'));
    }
    if is_number(body) && !is_mantissa(body) {
        let i = choose|i: int|
            0 <= i < body.len() && is_exp_marker(#[trigger] body[i]) && is_mantissa(body.take(i))
                && is_exponent(body.skip(i + 1));
        if i > q {
            assert(body.take(i)[q] == body[q]);
            assert(!(is_digit(body.take(i)[q]) || body.take(i)[q] == '.'));
        }
    }
    if q < body.len() && is_mantissa(body.take(q)) && is_exponent(body.skip(q + 1)) {
        assert(is_exp_marker(body[q]));
    }
}

/// Whether `s` is text that `f64`'s `FromStr` accepts.
pub fn is_float_text(s: &str) -> (r: bool)
    ensures
        r == spec_float_text(s@),
{
    let v = chars_of(s);
    let start: usize = if v.len() > 0 && (v[0] == '+' || v[0] == '-') {
        1
    } else {
        0
    };
    let ghost body = if s@.len() > 0 && is_sign(s@[0]) {
        s@.drop_first()
    } else {
        s@
    };
    proof {
        assert(body =~= v@.skip(start as int));
    }
    if spells(&v, start, &vec!['i', 'n', 'f'], &vec!['I', 'N', 'F']) || spells(
        &v,
        start,
        &vec!['i', 'n', 'f', 'i', 'n', 'i', 't', 'y'],
        &vec!['I', 'N', 'F', 'I', 'N', 'I', 'T', 'Y'],
    ) || spells(&v, start, &vec!['n', 'a', 'n'], &vec!['N', 'A', 'N']) {
        return true;
    }
    let mut p: usize = start;
    while p < v.len() && v[p] != 'e' && v[p] != 'E'
        invariant
            start <= p <= v.len(),
            forall|k: int| start <= k < p ==> !is_exp_marker(#[trigger] v@[k]),
        decreases v.len() - p,
    {
        p = p + 1;
    }
    proof {
        lemma_number_at_first_marker(body, (p - start) as int);
        assert(v@.subrange(start as int, p as int) =~= body.take(p - start));
        assert forall|k: int| 0 <= k < p - start implies !is_exp_marker(#[trigger] body[k]) by {
            assert(body[k] == v@[start + k]);
        }
        if p < v.len() {
            assert(body[p - start] == v@[p as int]);
            assert(v@.skip(p + 1) =~= body.skip(p - start + 1));
        }
        assert(body.take(body.len() as int) =~= body);
    }
    if p == v.len() {
        check_mantissa(&v, start, p)
    } else {
        check_mantissa(&v, start, p) && check_exponent(&v, p + 1)
    }
}


/// The digit for a value below 10 is a digit denoting that value.
proof fn lemma_digit_char(d: nat)
    requires
        d < 10,
    ensures
        is_digit(digit_char(d)),
        (digit_char(d) as u32) - ('0' as u32) == d,
{
}

/// The decimal rendering of a number: digits only, at least one, denoting
/// that number.
proof fn lemma_decimal_digits(n: nat)
    ensures
        decimal(n).len() > 0,
        all_digits(decimal(n)),
        digits_value(decimal(n)) == n,
    decreases n,
{
    lemma_digit_char(n % 10);
    if n < 10 {
        let d = decimal(n);
        assert(d.drop_last() =~= Seq::<char>::empty());
        assert(n % 10 == n);
        assert(d.last() == digit_char(n));
        assert(digits_value(d) == digits_value(d.drop_last()) * 10 + ((d.last() as u32) - ('0' as u32)) as nat);
    } else {
        lemma_decimal_digits(n / 10);
        let d = decimal(n);
        assert(d.drop_last() =~= decimal(n / 10));
        assert(d.last() == digit_char(n % 10));
        assert forall|i: int| 0 <= i < d.len() implies is_digit(#[trigger] d[i]) by {
            if i < d.len() - 1 {
                assert(d[i] == decimal(n / 10)[i]);
            }
        }
        assert(n == (n / 10) * 10 + n % 10) by (nonlinear_arith);
        assert(digits_value(d) == digits_value(d.drop_last()) * 10 + ((d.last() as u32) - ('0' as u32)) as nat);
    }
}

/// A number written in decimal reads back as that number, whatever the
/// bound it is read against, as long as it is within it.
pub proof fn law_decimal_reads_back(n: nat, max: nat)
    ensures
        spec_parse_unsigned(decimal(n), max) == (if n <= max { Some(n) } else { None::<nat> }),
        spec_parse_unsigned(seq!['+'] + decimal(n), max) == spec_parse_unsigned(decimal(n), max),
{
    lemma_decimal_digits(n);
    assert(is_digit(decimal(n)[0]));
    assert((seq!['+'] + decimal(n)).drop_first() =~= decimal(n));
}

/// Splitting text that starts with a piece free of the separator glues that
/// piece to the front of the first piece of the rest.
proof fn lemma_split_prefix(a: Seq<char>, rest: Seq<char>, sep: char)
    requires
        forall|i: int| 0 <= i < a.len() ==> a[i] != sep,
    ensures
        split_on(a + rest, sep) == split_on(rest, sep).update(0, a + split_on(rest, sep)[0]),
    decreases a.len(),
{
    lemma_split_on_nonempty(rest, sep);
    let r = split_on(rest, sep);
    if a.len() == 0 {
        assert(a + rest =~= rest);
        assert(a + r[0] =~= r[0]);
        assert(r.update(0, a + r[0]) =~= r);
    } else {
        let t = a.drop_first();
        lemma_split_prefix(t, rest, sep);
        assert((a + rest).drop_first() =~= t + rest);
        assert((a + rest)[0] == a[0]);
        assert(seq![a[0]] + (t + r[0]) =~= a + r[0]);
        assert(r.update(0, t + r[0]).update(0, seq![a[0]] + (t + r[0])) =~= r.update(0, a + r[0]));
    }
}

/// A time written `H:MM:SS` in decimal, minutes and seconds below 60 and the
/// total within a `u32`, reads as the seconds after midnight it names.
pub proof fn law_time_reads_as_seconds(h: nat, m: nat, sec: nat)
    requires
        m < 60,
        sec < 60,
        h * 3600 + m * 60 + sec <= u32::MAX,
    ensures
        spec_parse_time(decimal(h) + seq![':'] + decimal(m) + seq![':'] + decimal(sec)) == Some(
            h * 3600 + m * 60 + sec,
        ),
{
    lemma_decimal_digits(h);
    lemma_decimal_digits(m);
    lemma_decimal_digits(sec);
    let (a, b, c) = (decimal(h), decimal(m), decimal(sec));
    assert forall|i: int| 0 <= i < a.len() implies a[i] != ':' by { assert(is_digit(a[i])); }
    assert forall|i: int| 0 <= i < b.len() implies b[i] != ':' by { assert(is_digit(b[i])); }
    assert forall|i: int| 0 <= i < c.len() implies c[i] != ':' by { assert(is_digit(c[i])); }
    let tail_c = seq![':'] + c;
    let tail_b = seq![':'] + b + tail_c;
    lemma_split_prefix(c, Seq::empty(), ':');
    assert(c + Seq::<char>::empty() =~= c);
    assert(split_on(c, ':') =~= seq![c]) by {
        assert(seq![Seq::<char>::empty()].update(0, c + Seq::<char>::empty()) =~= seq![c]);
    }
    assert(tail_c.drop_first() =~= c);
    assert(split_on(tail_c, ':') =~= seq![Seq::<char>::empty(), c]);
    lemma_split_prefix(b, tail_c, ':');
    assert(split_on(b + tail_c, ':') =~= seq![b, c]) by {
        assert(b + Seq::<char>::empty() =~= b);
    }
    assert(tail_b.drop_first() =~= b + tail_c);
    assert(split_on(tail_b, ':') =~= seq![Seq::<char>::empty(), b, c]);
    lemma_split_prefix(a, tail_b, ':');
    assert(a + tail_b =~= a + seq![':'] + b + seq![':'] + c);
    assert(split_on(a + tail_b, ':') =~= seq![a, b, c]) by {
        assert(a + Seq::<char>::empty() =~= a);
    }
    law_decimal_reads_back(h, u32::MAX as nat);
    law_decimal_reads_back(m, u32::MAX as nat);
    law_decimal_reads_back(sec, u32::MAX as nat);
}

} // verus!
