//! Character-level helpers shared by the codecs, the response reader and
//! the request builders: decimal digit runs, searching, trailing-blank
//! trimming and rendering of unsigned numbers.

use vstd::prelude::*;
use vstd::string::*;

verus! {

/// A decimal digit.
pub open spec fn is_digit(c: char) -> bool {
    '0' as u32 <= c as u32 && c as u32 <= '9' as u32
}

/// Numeric value of a digit.
pub open spec fn digit_val(c: char) -> int {
    c as u32 - '0' as u32
}

/// Every character of `s` is a decimal digit.
pub open spec fn all_digits(s: Seq<char>) -> bool {
    forall|i: int| 0 <= i < s.len() ==> is_digit(#[trigger] s[i])
}

/// The number written by a run of digits, most significant first.
pub open spec fn digits_val(s: Seq<char>) -> int
    decreases s.len(),
{
    if s.len() == 0 {
        0
    } else {
        digits_val(s.drop_last()) * 10 + digit_val(s.last())
    }
}

pub proof fn lemma_digits_val_nonneg(s: Seq<char>)
    requires
        all_digits(s),
    ensures
        digits_val(s) >= 0,
    decreases s.len(),
{
    if s.len() > 0 {
        assert(all_digits(s.drop_last()));
        lemma_digits_val_nonneg(s.drop_last());
    }
}

/// Ten to the `n`.
pub open spec fn pow10(n: nat) -> int
    decreases n,
{
    if n == 0 {
        1
    } else {
        10 * pow10((n - 1) as nat)
    }
}

/// A run of `n` digits is worth less than ten to the `n`.
pub proof fn lemma_digits_val_upper(s: Seq<char>)
    requires
        all_digits(s),
    ensures
        digits_val(s) < pow10(s.len()),
    decreases s.len(),
{
    if s.len() > 0 {
        assert(all_digits(s.drop_last()));
        lemma_digits_val_upper(s.drop_last());
    }
}

/// A digit run is worth at least as much as any of its prefixes.
pub proof fn lemma_digits_val_prefix_le(s: Seq<char>, i: int)
    requires
        all_digits(s),
        0 <= i <= s.len(),
    ensures
        digits_val(s.subrange(0, i)) <= digits_val(s),
    decreases s.len() - i,
{
    if i == s.len() {
        assert(s.subrange(0, i) =~= s);
    } else {
        lemma_digits_val_prefix_le(s, i + 1);
        let t = s.subrange(0, i + 1);
        assert(t.drop_last() =~= s.subrange(0, i));
        assert(all_digits(s.subrange(0, i)));
        lemma_digits_val_nonneg(s.subrange(0, i));
    }
}

/// Parses a run of decimal digits as a `u64`.  Succeeds exactly on
/// non-empty all-digit strings whose value fits.
pub fn parse_u64(s: &str) -> (r: Option<u64>)
    ensures
        r is Some <==> s@.len() > 0 && all_digits(s@) && digits_val(s@) <= u64::MAX,
        r is Some ==> r == Some(digits_val(s@) as u64),
{
    let len = s.unicode_len();
    if len == 0 {
        return None;
    }
    let mut val: u64 = 0;
    let mut i: usize = 0;
    while i < len
        invariant
            0 <= i <= len,
            len == s@.len(),
            all_digits(s@.subrange(0, i as int)),
            val == digits_val(s@.subrange(0, i as int)),
        decreases len - i,
    {
        let c = s.get_char(i);
        let u = c as u32;
        if !(48 <= u && u <= 57) {
            assert(!is_digit(s@[i as int]));
            return None;
        }
        let d: u64 = (u - 48) as u64;
        proof {
            let t = s@.subrange(0, i + 1);
            assert(t.drop_last() =~= s@.subrange(0, i as int));
            assert(t.last() == s@[i as int]);
        }
        let next = match val.checked_mul(10) {
            Some(v10) => v10.checked_add(d),
            None => None,
        };
        match next {
            Some(v) => {
                val = v;
            }
            None => {
                proof {
                    assert(digits_val(s@.subrange(0, i + 1)) > u64::MAX);
                    if all_digits(s@) {
                        lemma_digits_val_prefix_le(s@, i + 1);
                    }
                }
                return None;
            }
        }
        i += 1;
    }
    assert(s@.subrange(0, len as int) =~= s@);
    Some(val)
}

/// Parses a run of decimal digits as a `u16`.
pub fn parse_u16(s: &str) -> (r: Option<u16>)
    ensures
        r is Some <==> s@.len() > 0 && all_digits(s@) && digits_val(s@) <= u16::MAX,
        r is Some ==> r == Some(digits_val(s@) as u16),
{
    match parse_u64(s) {
        Some(v) => {
            proof {
                lemma_digits_val_nonneg(s@);
            }
            if v <= u16::MAX as u64 {
                Some(v as u16)
            } else {
                None
            }
        }
        None => None,
    }
}

/// Parses a run of decimal digits as a `u8`.
pub fn parse_u8(s: &str) -> (r: Option<u8>)
    ensures
        r is Some <==> s@.len() > 0 && all_digits(s@) && digits_val(s@) <= u8::MAX,
        r is Some ==> r == Some(digits_val(s@) as u8),
{
    match parse_u16(s) {
        Some(v) => {
            proof {
                lemma_digits_val_nonneg(s@);
            }
            if v <= u8::MAX as u16 {
                Some(v as u8)
            } else {
                None
            }
        }
        None => None,
    }
}

/// The text is a non-empty digit run whose value fits in a `u64`.
pub open spec fn u64_text_ok(s: Seq<char>) -> bool {
    s.len() > 0 && all_digits(s) && digits_val(s) <= u64::MAX
}

/// The text is a non-empty digit run whose value fits in a `u16`.
pub open spec fn u16_text_ok(s: Seq<char>) -> bool {
    s.len() > 0 && all_digits(s) && digits_val(s) <= u16::MAX
}

/// The text is a non-empty digit run whose value fits in a `u8`.
pub open spec fn u8_text_ok(s: Seq<char>) -> bool {
    s.len() > 0 && all_digits(s) && digits_val(s) <= u8::MAX
}

/// The character sequences of a sequence of strings.
pub open spec fn views_of(v: Seq<String>) -> Seq<Seq<char>> {
    v.map_values(|x: String| x@)
}

/// Whether two strings hold the same characters.
pub fn str_eq(a: &str, b: &str) -> (r: bool)
    ensures
        r == (a@ == b@),
{
    let sa = a.to_owned();
    let sb = b.to_owned();
    sa == sb
}

/// Index of the first occurrence of `c` in `s` at or after `from`, or
/// `s.len()` if there is none.
pub open spec fn spec_find(s: Seq<char>, c: char, from: int) -> int
    decreases s.len() - from when 0 <= from <= s.len()
{
    if from >= s.len() {
        s.len() as int
    } else if s[from] == c {
        from
    } else {
        spec_find(s, c, from + 1)
    }
}

pub proof fn lemma_spec_find(s: Seq<char>, c: char, from: int)
    requires
        0 <= from <= s.len(),
    ensures
        from <= spec_find(s, c, from) <= s.len(),
        spec_find(s, c, from) < s.len() ==> s[spec_find(s, c, from)] == c,
        forall|i: int| from <= i < spec_find(s, c, from) ==> s[i] != c,
    decreases s.len() - from,
{
    if from < s.len() && s[from] != c {
        lemma_spec_find(s, c, from + 1);
    }
}

/// Finds the first occurrence of `c` at or after `from`.
pub fn find_char_from(s: &str, c: char, from: usize) -> (r: usize)
    requires
        from <= s@.len(),
    ensures
        r == spec_find(s@, c, from as int),
        from <= r <= s@.len(),
        r < s@.len() ==> s@[r as int] == c,
{
    let len = s.unicode_len();
    let mut i = from;
    while i < len
        invariant
            from <= i <= len,
            len == s@.len(),
            spec_find(s@, c, from as int) == spec_find(s@, c, i as int),
        decreases len - i,
    {
        if s.get_char(i) == c {
            return i;
        }
        i += 1;
    }
    i
}

/// `pat` occurs in `s` at position `i`.
pub open spec fn is_match_at(s: Seq<char>, pat: Seq<char>, i: int) -> bool {
    0 <= i && i + pat.len() <= s.len() && s.subrange(i, i + pat.len()) == pat
}

/// Index of the first occurrence of `pat` in `s` at or after `from`;
/// `-1` if there is none, and an empty pattern is never found.
pub open spec fn spec_find_sub(s: Seq<char>, pat: Seq<char>, from: int) -> int
    decreases s.len() - from when 0 <= from
{
    if pat.len() == 0 || from + pat.len() > s.len() {
        -1
    } else if is_match_at(s, pat, from) {
        from
    } else {
        spec_find_sub(s, pat, from + 1)
    }
}

/// Whether `pat` occurs in `s` at position `i`.
fn match_at(s: &str, pat: &str, i: usize) -> (r: bool)
    requires
        i <= s@.len(),
    ensures
        r == is_match_at(s@, pat@, i as int),
{
    let plen = pat.unicode_len();
    let slen = s.unicode_len();
    if plen > slen - i {
        return false;
    }
    let mut j: usize = 0;
    while j < plen
        invariant
            0 <= j <= plen,
            plen == pat@.len(),
            slen == s@.len(),
            i + plen <= slen,
            forall|k: int| 0 <= k < j ==> s@[i + k] == pat@[k],
        decreases plen - j,
    {
        if s.get_char(i + j) != pat.get_char(j) {
            assert(s@.subrange(i as int, i + plen) != pat@) by {
                assert(s@.subrange(i as int, i + plen)[j as int] != pat@[j as int]);
            }
            return false;
        }
        j += 1;
    }
    assert(s@.subrange(i as int, i + plen) =~= pat@);
    true
}

/// Finds the first occurrence of `pat` in `s` at or after `from`.
pub fn find_sub(s: &str, pat: &str, from: usize) -> (r: Option<usize>)
    requires
        from <= s@.len(),
    ensures
        r matches Some(i) ==> i == spec_find_sub(s@, pat@, from as int),
        r is None ==> spec_find_sub(s@, pat@, from as int) == -1,
        r matches Some(i) ==> is_match_at(s@, pat@, i as int) && i + pat@.len() <= s@.len()
            && from <= i,
{
    let slen = s.unicode_len();
    if pat.unicode_len() == 0 {
        return None;
    }
    let mut i = from;
    let mut done = false;
    while !done
        invariant
            from <= i,
            0 <= i <= slen,
            slen == s@.len(),
            pat@.len() > 0,
            spec_find_sub(s@, pat@, from as int) == spec_find_sub(s@, pat@, i as int),
            done ==> spec_find_sub(s@, pat@, i as int) == -1,
        decreases slen - i, (if done {
            0int
        } else {
            1int
        }),
    {
        if i >= slen {
            done = true;
        } else if match_at(s, pat, i) {
            return Some(i);
        } else {
            i += 1;
        }
    }
    None
}

/// A blank character that may trail a value: space, tab, carriage return
/// or line feed.
pub open spec fn is_blank(c: char) -> bool {
    c == ' ' || c == '\t' || c == '\r' || c == '\n'
}

/// `s` with every trailing blank removed.
pub open spec fn trim_end_blanks(s: Seq<char>) -> Seq<char>
    decreases s.len(),
{
    if s.len() > 0 && is_blank(s.last()) {
        trim_end_blanks(s.drop_last())
    } else {
        s
    }
}

/// Whether `c` is a blank character.
pub fn is_blank_char(c: char) -> (b: bool)
    ensures
        b == is_blank(c),
{
    c == ' ' || c == '\t' || c == '\r' || c == '\n'
}

/// Shrinks the end of the range `[from, to)` of `s` past all trailing
/// blanks: the range `[from, r)` holds the trimmed text.
pub fn trim_end_index(s: &str, from: usize, to: usize) -> (r: usize)
    requires
        from <= to <= s@.len(),
    ensures
        from <= r <= to,
        s@.subrange(from as int, r as int) == trim_end_blanks(
            s@.subrange(from as int, to as int),
        ),
{
    let mut r = to;
    while r > from && is_blank_char(s.get_char(r - 1))
        invariant
            from <= r <= to,
            to <= s@.len(),
            trim_end_blanks(s@.subrange(from as int, to as int)) == trim_end_blanks(
                s@.subrange(from as int, r as int),
            ),
        decreases r,
    {
        proof {
            let cur = s@.subrange(from as int, r as int);
            assert(cur.drop_last() =~= s@.subrange(from as int, r - 1));
        }
        r = r - 1;
    }
    proof {
        let cur = s@.subrange(from as int, r as int);
        if r > from {
            assert(cur.last() == s@[r - 1]);
        }
        assert(trim_end_blanks(cur) == cur);
    }
    r
}

/// The decimal digit character for `d`.
pub open spec fn digit_char(d: int) -> char {
    if d == 0 {
        '0'
    } else if d == 1 {
        '1'
    } else if d == 2 {
        '2'
    } else if d == 3 {
        '3'
    } else if d == 4 {
        '4'
    } else if d == 5 {
        '5'
    } else if d == 6 {
        '6'
    } else if d == 7 {
        '7'
    } else if d == 8 {
        '8'
    } else {
        '9'
    }
}

/// Decimal rendering of `n`, most significant digit first.
pub open spec fn spec_u64_str(n: int) -> Seq<char>
    decreases n,
{
    if n < 10 {
        seq![digit_char(n)]
    } else {
        spec_u64_str(n / 10).push(digit_char(n % 10))
    }
}

/// One-character string for a digit value.
fn digit_str(d: u64) -> (r: &'static str)
    requires
        d < 10,
    ensures
        r@ =~= seq![digit_char(d as int)],
{
    let r = match d {
        0 => "0",
        1 => "1",
        2 => "2",
        3 => "3",
        4 => "4",
        5 => "5",
        6 => "6",
        7 => "7",
        8 => "8",
        _ => "9",
    };
    proof {
        reveal_strlit("0");
        reveal_strlit("1");
        reveal_strlit("2");
        reveal_strlit("3");
        reveal_strlit("4");
        reveal_strlit("5");
        reveal_strlit("6");
        reveal_strlit("7");
        reveal_strlit("8");
        reveal_strlit("9");
    }
    r
}

/// Renders `n` in decimal.
pub fn u64_to_string(n: u64) -> (r: String)
    ensures
        r@ == spec_u64_str(n as int),
    decreases n,
{
    if n < 10 {
        let mut s = String::new();
        s.append(digit_str(n));
        assert(s@ =~= spec_u64_str(n as int));
        s
    } else {
        let mut s = u64_to_string(n / 10);
        s.append(digit_str(n % 10));
        assert(s@ =~= spec_u64_str(n as int));
        s
    }
}

/// `s` left-padded with zero digits up to `width` characters.
pub open spec fn spec_pad_zeros(s: Seq<char>, width: int) -> Seq<char>
    decreases width - s.len(),
{
    if s.len() >= width {
        s
    } else {
        spec_pad_zeros(seq!['0'].add(s), width)
    }
}

/// What zero-padding amounts to: the needed zeros, then the text.
pub proof fn lemma_pad_zeros_shape(s: Seq<char>, width: int)
    ensures
        spec_pad_zeros(s, width) =~= Seq::new(
            if s.len() >= width {
                0nat
            } else {
                (width - s.len()) as nat
            },
            |i: int| '0',
        ).add(s),
    decreases width - s.len(),
{
    if s.len() >= width {
    } else {
        let s2 = seq!['0'].add(s);
        lemma_pad_zeros_shape(s2, width);
    }
}

/// Renders `n` in decimal, left-padded with zeros to at least `width`
/// characters.
pub fn u64_to_string_pad(n: u64, width: usize) -> (r: String)
    ensures
        r@ == spec_pad_zeros(spec_u64_str(n as int), width as int),
{
    let digits = u64_to_string(n);
    let mut r = String::new();
    let mut pad: usize = 0;
    let dlen = digits.as_str().unicode_len();
    while pad + dlen < width
        invariant
            r@ =~= Seq::new(pad as nat, |i: int| '0'),
            dlen == digits@.len(),
            digits@ == spec_u64_str(n as int),
            pad == 0 || pad + dlen <= width,
        decreases width - pad,
    {
        r.append(digit_str(0));
        assert(r@ =~= Seq::new((pad + 1) as nat, |i: int| '0'));
        pad += 1;
    }
    r.append(digits.as_str());
    proof {
        lemma_pad_zeros_shape(spec_u64_str(n as int), width as int);
    }
    assert(r@ =~= spec_pad_zeros(spec_u64_str(n as int), width as int));
    r
}

/// The map written by an association list: later entries shadow earlier
/// ones.
pub open spec fn assoc_map(es: Seq<(String, String)>) -> Map<Seq<char>, Seq<char>>
    decreases es.len(),
{
    if es.len() == 0 {
        Map::empty()
    } else {
        assoc_map(es.drop_last()).insert(es.last().0@, es.last().1@)
    }
}

pub proof fn lemma_assoc_found(es: Seq<(String, String)>, k: Seq<char>, i: int)
    requires
        0 <= i < es.len(),
        es[i].0@ == k,
        forall|j: int| i < j < es.len() ==> #[trigger] es[j].0@ != k,
    ensures
        assoc_map(es).contains_key(k),
        assoc_map(es)[k] == es[i].1@,
    decreases es.len(),
{
    if i == es.len() - 1 {
    } else {
        assert(es.drop_last()[i] == es[i]);
        lemma_assoc_found(es.drop_last(), k, i);
    }
}

pub proof fn lemma_assoc_absent(es: Seq<(String, String)>, k: Seq<char>)
    requires
        forall|j: int| 0 <= j < es.len() ==> #[trigger] es[j].0@ != k,
    ensures
        !assoc_map(es).contains_key(k),
    decreases es.len(),
{
    if es.len() > 0 {
        assert(forall|j: int|
            0 <= j < es.drop_last().len() ==> #[trigger] es.drop_last()[j].0@ != k);
        lemma_assoc_absent(es.drop_last(), k);
    }
}

} // verus!
