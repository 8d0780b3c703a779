//! Verified text helpers: decimal formatting and parsing, case-insensitive
//! comparison, trimming, comma-splitting, padding and joining.

use vstd::prelude::*;

verus! {

/// Relies on std's `String::from_iter` for `char`: the result is exactly the
/// given characters in order.
#[verifier::external_body]
pub fn chars_to_string(chars: Vec<char>) -> (s: String)
    ensures
        s@ == chars@,
{
    String::from_iter(chars)
}

/// The decimal digit character for `d`.
pub open spec fn spec_digit_char(d: int) -> char
    recommends
        0 <= d < 10,
{
    if d == 0 {
        '0'
    } else if d == 1 {
        '1'
    } else if d == 2 {
        '2'
    } else if d == 3 {
        '3'
    } else if d == 4 {
        '4'
    } else if d == 5 {
        '5'
    } else if d == 6 {
        '6'
    } else if d == 7 {
        '7'
    } else if d == 8 {
        '8'
    } else {
        '9'
    }
}

/// The decimal digit string of a nonnegative number, most significant first.
pub open spec fn spec_udigits(n: nat) -> Seq<char>
    decreases n,
{
    if n < 10 {
        seq![spec_digit_char(n as int)]
    } else {
        spec_udigits(n / 10).push(spec_digit_char((n % 10) as int))
    }
}

/// The decimal string of an integer, with a leading minus sign when negative.
pub open spec fn spec_int_str(v: int) -> Seq<char> {
    if v < 0 {
        seq!['-'] + spec_udigits((-v) as nat)
    } else {
        spec_udigits(v as nat)
    }
}

fn digit_char(d: u64) -> (c: char)
    requires
        d < 10,
    ensures
        c == spec_digit_char(d as int),
{
    if d == 0 {
        '0'
    } else if d == 1 {
        '1'
    } else if d == 2 {
        '2'
    } else if d == 3 {
        '3'
    } else if d == 4 {
        '4'
    } else if d == 5 {
        '5'
    } else if d == 6 {
        '6'
    } else if d == 7 {
        '7'
    } else if d == 8 {
        '8'
    } else {
        '9'
    }
}

fn u64_digits(n: u64) -> (v: Vec<char>)
    ensures
        v@ == spec_udigits(n as nat),
    decreases n,
{
    if n < 10 {
        let mut v: Vec<char> = Vec::new();
        v.push(digit_char(n));
        v
    } else {
        let mut v = u64_digits(n / 10);
        v.push(digit_char(n % 10));
        v
    }
}

/// Format an unsigned number in decimal.
pub fn u64_to_string(n: u64) -> (s: String)
    ensures
        s@ == spec_udigits(n as nat),
{
    chars_to_string(u64_digits(n))
}

/// Format a signed number in decimal.
pub fn i32_to_string(v: i32) -> (s: String)
    ensures
        s@ == spec_int_str(v as int),
{
    if v < 0 {
        let mag: u64 = (-(v as i64)) as u64;
        let mut chars: Vec<char> = Vec::new();
        chars.push('-');
        let mut digits = u64_digits(mag);
        let mut i: usize = 0;
        let ghost dv = digits@;
        while i < digits.len()
            invariant
                i <= digits@.len(),
                digits@ == dv,
                chars@ == seq!['-'] + dv.subrange(0, i as int),
            decreases digits@.len() - i,
        {
            chars.push(digits[i]);
            proof {
                assert(dv.subrange(0, i + 1 as int) =~= dv.subrange(0, i as int).push(dv[i as int]));
            }
            i = i + 1;
        }
        proof {
            assert(dv.subrange(0, dv.len() as int) =~= dv);
        }
        chars_to_string(chars)
    } else {
        u64_to_string(v as u64)
    }
}

/// ASCII decimal digit.
pub open spec fn is_ascii_digit(c: char) -> bool {
    '0' <= c && c <= '9'
}

/// Numeric value of a decimal digit character.
pub open spec fn spec_digit_val(c: char) -> int {
    c as u32 - '0' as u32
}

pub open spec fn spec_all_digits(s: Seq<char>) -> bool {
    forall|i: int| 0 <= i < s.len() ==> is_ascii_digit(#[trigger] s[i])
}

/// Value of a string of decimal digits, most significant first.
pub open spec fn spec_digits_val(s: Seq<char>) -> int
    decreases s.len(),
{
    if s.len() == 0 {
        0
    } else {
        spec_digits_val(s.drop_last()) * 10 + spec_digit_val(s.last())
    }
}

/// What parsing a decimal `i32` accepts and yields: an optional sign followed
/// by one or more digits, with the value in range.
pub open spec fn spec_parse_i32(s: Seq<char>) -> Option<int> {
    let signed = s.len() > 0 && (s[0] == '-' || s[0] == '+');
    let neg = s.len() > 0 && s[0] == '-';
    let ds = if signed {
        s.drop_first()
    } else {
        s
    };
    if ds.len() == 0 || !spec_all_digits(ds) {
        None
    } else {
        let v = if neg {
            -spec_digits_val(ds)
        } else {
            spec_digits_val(ds)
        };
        if i32::MIN <= v <= i32::MAX {
            Some(v)
        } else {
            None
        }
    }
}

proof fn lemma_digits_val_nonneg(s: Seq<char>)
    requires
        spec_all_digits(s),
    ensures
        spec_digits_val(s) >= 0,
    decreases s.len(),
{
    if s.len() > 0 {
        assert(spec_all_digits(s.drop_last()));
        lemma_digits_val_nonneg(s.drop_last());
    }
}

/// Appending digits never shrinks the value: the value of a digit-string
/// prefix bounds the value of the whole string from below.
proof fn lemma_digits_val_prefix_le(s: Seq<char>, i: int)
    requires
        spec_all_digits(s),
        0 <= i <= s.len(),
    ensures
        spec_digits_val(s.subrange(0, i)) <= spec_digits_val(s),
    decreases s.len() - i,
{
    if i < s.len() {
        lemma_digits_val_prefix_le(s, i + 1);
        let p1 = s.subrange(0, i + 1);
        assert(p1.drop_last() =~= s.subrange(0, i));
        assert(spec_all_digits(s.subrange(0, i)));
        lemma_digits_val_nonneg(s.subrange(0, i));
        assert(spec_digits_val(p1) == spec_digits_val(s.subrange(0, i)) * 10 + spec_digit_val(
            p1.last(),
        ));
    } else {
        assert(s.subrange(0, i) =~= s);
    }
}

/// Parse a decimal `i32`, accepting exactly what `spec_parse_i32` accepts.
pub fn parse_i32(s: &String) -> (r: Option<i32>)
    ensures
        match r {
            Some(v) => spec_parse_i32(s@) == Some(v as int),
            None => spec_parse_i32(s@) is None,
        },
{
    let st = s.as_str();
    let n = st.unicode_len();
    if n == 0 {
        return None;
    }
    let first = st.get_char(0);
    let neg = first == '-';
    let start: usize = if first == '-' || first == '+' {
        1
    } else {
        0
    };
    let ghost ds = if start == 1 {
        s@.drop_first()
    } else {
        s@
    };
    proof {
        assert(ds =~= s@.subrange(start as int, n as int));
    }
    if n == start {
        return None;
    }
    let mut acc: u64 = 0;
    let mut i: usize = start;
    while i < n
        invariant
            start <= i <= n,
            start < n,
            n == s@.len(),
            st@ == s@,
            ds == s@.subrange(start as int, n as int),
            start == 0 || start == 1,
            (start == 1) == (s@[0] == '-' || s@[0] == '+'),
            neg == (s@[0] == '-'),
            acc == spec_digits_val(s@.subrange(start as int, i as int)),
            acc <= 0x8000_0000,
            spec_all_digits(s@.subrange(start as int, i as int)),
        decreases n - i,
    {
        let c = st.get_char(i);
        if !('0' <= c && c <= '9') {
            proof {
                assert(ds[i - start] == c);
                assert(!spec_all_digits(ds));
            }
            return None;
        }
        let d: u64 = ((c as u32) - ('0' as u32)) as u64;
        acc = acc * 10 + d;
        proof {
            let p1 = s@.subrange(start as int, i + 1 as int);
            assert(p1.drop_last() =~= s@.subrange(start as int, i as int));
            assert(p1.last() == c);
            assert(spec_digit_val(c) == d as int);
            assert(acc == spec_digits_val(p1));
        }
        if acc > 0x8000_0000 {
            proof {
                if spec_all_digits(ds) {
                    let k: int = i + 1 - start;
                    assert(ds.subrange(0, k) =~= s@.subrange(start as int, i + 1 as int));
                    lemma_digits_val_prefix_le(ds, k);
                    assert(spec_digits_val(ds) > 0x8000_0000);
                    if neg {
                        assert(-spec_digits_val(ds) < i32::MIN as int);
                    } else {
                        assert(spec_digits_val(ds) > i32::MAX as int);
                    }
                    let signed = s@.len() > 0 && (s@[0] == '-' || s@[0] == '+');
                    let sneg = s@.len() > 0 && s@[0] == '-';
                    let sds = if signed {
                        s@.drop_first()
                    } else {
                        s@
                    };
                    assert(signed == (start == 1));
                    assert(sneg == neg);
                    assert(sds == ds);
                    assert(spec_all_digits(sds));
                    assert(sds.len() > 0);
                    let v = if sneg {
                        -spec_digits_val(sds)
                    } else {
                        spec_digits_val(sds)
                    };
                    assert(!(i32::MIN <= v <= i32::MAX));
                    assert(spec_parse_i32(s@) is None);
                } else {
                    assert(spec_parse_i32(s@) is None);
                }
            }
            return None;
        }
        i = i + 1;
    }
    proof {
        assert(s@.subrange(start as int, n as int) =~= ds);
    }
    if neg {
        Some((-(acc as i64)) as i32)
    } else {
        if acc <= 0x7FFF_FFFF {
            Some(acc as i32)
        } else {
            None
        }
    }
}

/// `c` matches `l` up to ASCII case, where `l` is a lowercase letter or any
/// non-letter character.
pub open spec fn spec_ci_eq_char(c: char, l: char) -> bool {
    c == l || ('A' <= c && c <= 'Z' && c as u32 + 32 == l as u32)
}

/// Whether `s` equals `lit` up to ASCII case, `lit` being all lowercase.
pub open spec fn spec_ci_matches(s: Seq<char>, lit: Seq<char>) -> bool {
    s.len() == lit.len() && forall|i: int| 0 <= i < s.len() ==> spec_ci_eq_char(
        #[trigger] s[i],
        lit[i],
    )
}

/// Compare `s` against an all-lowercase literal, ignoring ASCII case in `s`.
pub fn eq_ignore_ascii_case(s: &str, lit: &str) -> (r: bool)
    ensures
        r == spec_ci_matches(s@, lit@),
{
    let n = s.unicode_len();
    if n != lit.unicode_len() {
        return false;
    }
    let mut i: usize = 0;
    while i < n
        invariant
            i <= n,
            n == s@.len(),
            n == lit@.len(),
            forall|j: int| 0 <= j < i ==> spec_ci_eq_char(#[trigger] s@[j], lit@[j]),
        decreases n - i,
    {
        let c = s.get_char(i);
        let l = lit.get_char(i);
        let ci = c == l || ('A' <= c && c <= 'Z' && (c as u32) + 32 == (l as u32));
        if !ci {
            return false;
        }
        i = i + 1;
    }
    true
}

/// ASCII whitespace, as trimmed from role names.
pub open spec fn is_space_char(c: char) -> bool {
    c == ' ' || c == '\t' || c == '\n' || c == '\r'
}

/// `s` with leading and trailing ASCII whitespace removed.
pub open spec fn spec_trim(s: Seq<char>) -> Seq<char>
    decreases s.len(),
{
    if s.len() == 0 {
        s
    } else if is_space_char(s[0]) {
        spec_trim(s.drop_first())
    } else if is_space_char(s.last()) {
        spec_trim(s.drop_last())
    } else {
        s
    }
}

/// Trim leading and trailing ASCII whitespace.
pub fn trim<'a>(s: &'a str) -> (r: &'a str)
    ensures
        r@ == spec_trim(s@),
{
    let n = s.unicode_len();
    let mut lo: usize = 0;
    let mut hi: usize = n;
    proof {
        assert(s@.subrange(0, n as int) =~= s@);
    }
    while lo < hi
        invariant
            lo <= hi <= n,
            n == s@.len(),
            spec_trim(s@.subrange(lo as int, hi as int)) == spec_trim(s@),
        ensures
            lo <= hi <= n,
            spec_trim(s@.subrange(lo as int, hi as int)) == spec_trim(s@),
            lo < hi ==> !is_space_char(s@[lo as int]),
        decreases hi - lo,
    {
        let c = s.get_char(lo);
        if !(c == ' ' || c == '\t' || c == '\n' || c == '\r') {
            break;
        }
        proof {
            let sub = s@.subrange(lo as int, hi as int);
            assert(sub.drop_first() =~= s@.subrange(lo + 1 as int, hi as int));
        }
        lo = lo + 1;
    }
    while lo < hi
        invariant
            lo <= hi <= n,
            n == s@.len(),
            spec_trim(s@.subrange(lo as int, hi as int)) == spec_trim(s@),
            lo < hi ==> !is_space_char(s@[lo as int]),
        ensures
            lo <= hi <= n,
            spec_trim(s@.subrange(lo as int, hi as int)) == spec_trim(s@),
            lo < hi ==> !is_space_char(s@[lo as int]),
            lo < hi ==> !is_space_char(s@[hi - 1 as int]),
        decreases hi - lo,
    {
        let c = s.get_char(hi - 1);
        if !(c == ' ' || c == '\t' || c == '\n' || c == '\r') {
            break;
        }
        proof {
            let sub = s@.subrange(lo as int, hi as int);
            assert(sub.drop_last() =~= s@.subrange(lo as int, hi - 1 as int));
        }
        hi = hi - 1;
    }
    let r = s.substring_char(lo, hi);
    proof {
        let sub = s@.subrange(lo as int, hi as int);
        if sub.len() > 0 {
            assert(!is_space_char(sub[0]));
            assert(!is_space_char(sub.last()));
        }
        assert(spec_trim(sub) == sub);
    }
    r
}

/// The pieces of `s` between neighboring occurrences of the separator,
/// including empty pieces.
pub open spec fn spec_split_char(s: Seq<char>, sep: char) -> Seq<Seq<char>>
    decreases s.len(),
{
    if s.len() == 0 {
        seq![Seq::<char>::empty()]
    } else {
        let rest = spec_split_char(s.drop_last(), sep);
        if s.last() == sep {
            rest.push(Seq::<char>::empty())
        } else {
            rest.update(rest.len() - 1, rest.last().push(s.last()))
        }
    }
}

/// The comma-separated pieces of `s`.
pub open spec fn spec_split_commas(s: Seq<char>) -> Seq<Seq<char>> {
    spec_split_char(s, ',')
}

proof fn lemma_split_char_len(s: Seq<char>, sep: char)
    ensures
        spec_split_char(s, sep).len() >= 1,
    decreases s.len(),
{
    if s.len() > 0 {
        lemma_split_char_len(s.drop_last(), sep);
    }
}

/// Split `s` at every occurrence of the separator.
pub fn split_char(s: &String, sep: char) -> (r: Vec<String>)
    ensures
        r@.map_values(|p: String| p@) == spec_split_char(s@, sep),
{
    let st = s.as_str();
    let n = st.unicode_len();
    let mut parts: Vec<String> = Vec::new();
    let mut cur: Vec<char> = Vec::new();
    let mut i: usize = 0;
    proof {
        assert(s@.subrange(0, 0) =~= Seq::<char>::empty());
        assert(parts@.map_values(|p: String| p@).push(cur@) =~= spec_split_char(
            s@.subrange(0, 0),
            sep,
        ));
    }
    while i < n
        invariant
            i <= n,
            n == s@.len(),
            st@ == s@,
            parts@.map_values(|p: String| p@).push(cur@) == spec_split_char(
                s@.subrange(0, i as int),
                sep,
            ),
        decreases n - i,
    {
        let ghost prefix = s@.subrange(0, i as int);
        let ghost pview = parts@.map_values(|p: String| p@);
        let c = st.get_char(i);
        proof {
            assert(s@.subrange(0, i + 1 as int).drop_last() =~= prefix);
            assert(s@.subrange(0, i + 1 as int).last() == c);
            lemma_split_char_len(prefix, sep);
        }
        if c == sep {
            let done = chars_to_string(cur);
            parts.push(done);
            cur = Vec::new();
            proof {
                assert(parts@.map_values(|p: String| p@) =~= pview.push(
                    spec_split_char(prefix, sep).last(),
                ));
                assert(parts@.map_values(|p: String| p@).push(cur@) =~= spec_split_char(
                    s@.subrange(0, i + 1 as int),
                    sep,
                ));
            }
        } else {
            cur.push(c);
            proof {
                let whole = spec_split_char(prefix, sep);
                assert(pview.push(cur@) =~= whole.update(whole.len() - 1, whole.last().push(c)));
            }
        }
        i = i + 1;
    }
    let done = chars_to_string(cur);
    parts.push(done);
    proof {
        assert(s@.subrange(0, n as int) =~= s@);
        assert(parts@.map_values(|p: String| p@) =~= spec_split_char(s@, sep));
    }
    parts
}

/// Split `s` at commas.
pub fn split_commas(s: &String) -> (r: Vec<String>)
    ensures
        r@.map_values(|p: String| p@) == spec_split_commas(s@),
{
    split_char(s, ',')
}

/// `n` copies of `c`.
pub open spec fn spec_repeat(c: char, n: nat) -> Seq<char> {
    Seq::new(n, |i: int| c)
}

/// A string of `n` copies of `c`.
pub fn repeat_char(c: char, n: usize) -> (s: String)
    ensures
        s@ == spec_repeat(c, n as nat),
{
    let mut chars: Vec<char> = Vec::new();
    let mut i: usize = 0;
    while i < n
        invariant
            i <= n,
            chars@ =~= spec_repeat(c, i as nat),
        decreases n - i,
    {
        chars.push(c);
        proof {
            assert(chars@ =~= spec_repeat(c, (i + 1) as nat));
        }
        i = i + 1;
    }
    chars_to_string(chars)
}

/// `s` followed by as many spaces as needed to reach `width` characters;
/// `s` unchanged when already at least that wide.
pub open spec fn spec_pad_right(s: Seq<char>, width: nat) -> Seq<char> {
    if s.len() < width {
        s + spec_repeat(' ', (width - s.len()) as nat)
    } else {
        s
    }
}

/// Pad `s` on the right with spaces up to `width` characters.
pub fn pad_right(s: &String, width: usize) -> (r: String)
    ensures
        r@ == spec_pad_right(s@, width as nat),
{
    let n = s.as_str().unicode_len();
    let mut r: String = s.clone();
    proof {
        assert(r@ =~= s@ + spec_repeat(' ', 0));
    }
    let mut i: usize = n;
    while i < width
        invariant
            n == s@.len(),
            i >= n,
            i <= width || i == n,
            r@ == s@ + spec_repeat(' ', (i - n) as nat),
        decreases width - i,
    {
        r.append(" ");
        proof {
            reveal_strlit(" ");
            assert(s@ + spec_repeat(' ', (i + 1 - n) as nat) =~= (s@ + spec_repeat(
                ' ',
                (i - n) as nat,
            )) + " "@);
        }
        i = i + 1;
    }
    proof {
        if n >= width {
            assert(r@ =~= s@);
        }
    }
    r
}

/// The parts joined with `sep` between neighbors.
pub open spec fn spec_join(parts: Seq<Seq<char>>, sep: Seq<char>) -> Seq<char>
    decreases parts.len(),
{
    if parts.len() == 0 {
        Seq::empty()
    } else if parts.len() == 1 {
        parts[0]
    } else {
        spec_join(parts.drop_last(), sep) + sep + parts.last()
    }
}

/// Join the parts with `sep` between neighbors.
pub fn join(parts: &Vec<String>, sep: &str) -> (r: String)
    ensures
        r@ == spec_join(parts@.map_values(|p: String| p@), sep@),
{
    let mut r: String = String::new();
    let mut i: usize = 0;
    while i < parts.len()
        invariant
            i <= parts@.len(),
            r@ == spec_join(parts@.map_values(|p: String| p@).subrange(0, i as int), sep@),
        decreases parts@.len() - i,
    {
        let ghost pview = parts@.map_values(|p: String| p@);
        if i > 0 {
            r.append(sep);
        }
        r.append(parts[i].as_str());
        proof {
            assert(pview.subrange(0, i + 1 as int).drop_last() =~= pview.subrange(0, i as int));
            if i == 0 {
                assert(pview.subrange(0, 1)[0] == pview[0]);
                assert(Seq::<char>::empty() + pview[0] =~= pview[0]);
            }
        }
        i = i + 1;
    }
    proof {
        assert(parts@.map_values(|p: String| p@).subrange(0, parts@.len() as int) =~= parts@
            .map_values(|p: String| p@));
    }
    r
}

} // verus!
