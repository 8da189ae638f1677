//! Character-level string helpers with exact specifications.

use vstd::prelude::*;

verus! {

broadcast use vstd::string::group_string_axioms;

/// `String::push` appends one character.
pub assume_specification[ String::push ](s: &mut String, ch: char)
    ensures
        final(s)@ == old(s)@.push(ch),
;

/// `String::push_str` appends a string slice.
pub assume_specification[ String::push_str ](s: &mut String, string: &str)
    ensures
        final(s)@ == old(s)@ + string@,
;

/// The length of `s` in UTF-8 bytes, as `str::len` reports it.
pub open spec fn utf8_len(s: Seq<char>) -> usize {
    vstd::utf8::encode_utf8(s).len() as usize
}

/// The decimal digit `d` as a character.
pub open spec fn digit_char(d: nat) -> char {
    ((d + 48) as u8) as char
}

/// The decimal representation of `n`, without leading zeros.
pub open spec fn decimal(n: nat) -> Seq<char>
    decreases n,
{
    if n < 10 {
        seq![digit_char(n)]
    } else {
        decimal(n / 10).push(digit_char(n % 10))
    }
}

/// Appends the decimal representation of `n`.
pub fn push_decimal(s: &mut String, n: u64)
    ensures
        final(s)@ == old(s)@ + decimal(n as nat),
    decreases n,
{
    if n >= 10 {
        push_decimal(s, n / 10);
    }
    let d: u8 = (n % 10) as u8;
    s.push((d + 48) as char);
    proof {
        assert(final(s)@ =~= old(s)@ + decimal(n as nat));
    }
}

/// `s` with every `from` replaced by `to`.
pub open spec fn replace_char(s: Seq<char>, from: char, to: char) -> Seq<char> {
    s.map_values(|c: char| if c == from { to } else { c })
}

/// A new string: `s` with every `from` replaced by `to`.
pub fn replace_char_in(s: &str, from: char, to: char) -> (r: String)
    ensures
        r@ == replace_char(s@, from, to),
{
    let mut r = String::new();
    for c in it: s.chars()
        invariant
            r@ == replace_char(it.seq().take(it.index()), from, to),
            it.seq() == s@,
    {
        r.push(if c == from { to } else { c });
        proof {
            assert(it.seq().take(it.index() + 1) =~= it.seq().take(it.index()).push(c));
            assert(r@ =~= replace_char(it.seq().take(it.index() + 1), from, to));
        }
    }
    proof {
        assert(s@.take(s@.len() as int) =~= s@);
    }
    r
}

/// A new string holding `a` followed by `b`.
pub fn concat2(a: &str, b: &str) -> (r: String)
    ensures
        r@ == a@ + b@,
{
    let mut r = String::new();
    r.push_str(a);
    r.push_str(b);
    proof {
        assert(r@ =~= a@ + b@);
    }
    r
}

/// The characters of `s`, in order.
pub fn chars_of(s: &str) -> (v: Vec<char>)
    ensures
        v@ == s@,
{
    let mut v: Vec<char> = Vec::new();
    for c in it: s.chars()
        invariant
            v@ == it.seq().take(it.index()),
            it.seq() == s@,
    {
        v.push(c);
    }
    v
}

/// `s` with every leading `c` removed (as `str::trim_start_matches(c)`).
pub open spec fn strip_leading(s: Seq<char>, c: char) -> Seq<char>
    decreases s.len(),
{
    if s.len() > 0 && s[0] == c {
        strip_leading(s.drop_first(), c)
    } else {
        s
    }
}

/// Whether `s` holds `c` after its leading run of `lead`.
pub fn contains_after_leading(s: &str, lead: char, c: char) -> (b: bool)
    ensures
        b == strip_leading(s@, lead).contains(c),
{
    let v = chars_of(s);
    let n = v.len();
    let mut i: usize = 0;
    proof {
        assert(s@.skip(0) =~= s@);
    }
    while i < n && v[i] == lead
        invariant
            n == v@.len(),
            v@ == s@,
            i <= n,
            strip_leading(s@, lead) == strip_leading(s@.skip(i as int), lead),
        decreases n - i,
    {
        proof {
            assert(s@.skip(i as int).drop_first() =~= s@.skip(i + 1));
        }
        i = i + 1;
    }
    proof {
        assert(strip_leading(s@.skip(i as int), lead) == s@.skip(i as int));
    }
    let mut j: usize = i;
    while j < n
        invariant
            n == v@.len(),
            v@ == s@,
            i <= j <= n,
            strip_leading(s@, lead) == s@.skip(i as int),
            forall|k: int| i <= k < j ==> v@[k] != c,
        decreases n - j,
    {
        if v[j] == c {
            proof {
                assert(s@.skip(i as int)[j - i] == c);
            }
            return true;
        }
        j = j + 1;
    }
    proof {
        let t = s@.skip(i as int);
        assert forall|k: int| 0 <= k < t.len() implies t[k] != c by {
            assert(t[k] == v@[k + i]);
        }
    }
    false
}

/// The pieces of `s` between the occurrences of `sep`, found left to right,
/// with `cur` prepended to the first piece (`str::split` when `cur` is empty).
pub open spec fn split_from(s: Seq<char>, sep: Seq<char>, cur: Seq<char>) -> Seq<Seq<char>>
    recommends
        sep.len() > 0,
    decreases s.len(),
{
    if s.len() == 0 {
        seq![cur]
    } else if sep.len() > 0 && sep.len() <= s.len() && s.take(sep.len() as int) == sep {
        seq![cur] + split_from(s.skip(sep.len() as int), sep, Seq::empty())
    } else {
        split_from(s.drop_first(), sep, cur.push(s[0]))
    }
}

/// The pieces of `s` between the occurrences of the non-empty `sep`, as
/// `str::split` gives them.
pub open spec fn split_spec(s: Seq<char>, sep: Seq<char>) -> Seq<Seq<char>> {
    split_from(s, sep, Seq::empty())
}

/// Whether `sep` occurs in `v` at position `i`.
fn occurs_at(v: &Vec<char>, sep: &Vec<char>, i: usize) -> (b: bool)
    requires
        i <= v@.len(),
    ensures
        b == (sep@.len() <= v@.len() - i && v@.skip(i as int).take(sep@.len() as int) == sep@),
{
    let m = sep.len();
    if m > v.len() - i {
        return false;
    }
    let mut k: usize = 0;
    while k < m
        invariant
            m == sep@.len(),
            i <= v@.len(),
            m <= v@.len() - i,
            i + m <= v.len(),
            k <= m,
            forall|t: int| 0 <= t < k ==> v@[i + t] == sep@[t],
        decreases m - k,
    {
        if v[i + k] != sep[k] {
            proof {
                assert(v@.skip(i as int).take(m as int)[k as int] != sep@[k as int]);
            }
            return false;
        }
        k = k + 1;
    }
    proof {
        assert(v@.skip(i as int).take(m as int) =~= sep@);
    }
    true
}

/// A string holding the characters `v[from..to]`.
fn string_of(v: &Vec<char>, from: usize, to: usize) -> (r: String)
    requires
        from <= to <= v@.len(),
    ensures
        r@ == v@.subrange(from as int, to as int),
{
    let mut r = String::new();
    let mut k = from;
    while k < to
        invariant
            from <= k <= to,
            to <= v@.len(),
            r@ == v@.subrange(from as int, k as int),
        decreases to - k,
    {
        r.push(v[k]);
        proof {
            assert(r@ =~= v@.subrange(from as int, k + 1));
        }
        k = k + 1;
    }
    r
}

/// The pieces of `s` between the occurrences of `sep` (`str::split`).
pub fn split_str(s: &str, sep: &str) -> (r: Vec<String>)
    requires
        sep@.len() > 0,
    ensures
        r@.map_values(|p: String| p@) == split_spec(s@, sep@),
{
    let v = chars_of(s);
    let sv = chars_of(sep);
    let n = v.len();
    let m = sv.len();
    let mut r: Vec<String> = Vec::new();
    let mut start: usize = 0;
    let mut i: usize = 0;
    proof {
        assert(v@.skip(0) =~= v@);
        assert(v@.subrange(0, 0) =~= Seq::<char>::empty());
        assert(r@.map_values(|p: String| p@) + split_spec(s@, sep@) =~= split_spec(s@, sep@));
    }
    while i < n
        invariant
            v@ == s@,
            sv@ == sep@,
            n == v@.len(),
            m == sv@.len(),
            m > 0,
            start <= i <= n,
            split_spec(s@, sep@) == r@.map_values(|p: String| p@) + split_from(
                v@.skip(i as int),
                sep@,
                v@.subrange(start as int, i as int),
            ),
        decreases n - i,
    {
        let ghost rest = v@.skip(i as int);
        let ghost cur = v@.subrange(start as int, i as int);
        if occurs_at(&v, &sv, i) {
            let piece = string_of(&v, start, i);
            let ghost before = r@;
            r.push(piece);
            proof {
                assert(rest.take(m as int) == sep@);
                assert(rest.skip(m as int) =~= v@.skip(i + m));
                assert(v@.subrange((i + m) as int, (i + m) as int) =~= Seq::<char>::empty());
                assert(r@.map_values(|p: String| p@) =~= before.map_values(|p: String| p@).push(cur));
                assert(split_from(rest, sep@, cur) == seq![cur] + split_from(v@.skip(i + m), sep@, Seq::empty()));
                assert(seq![cur] + split_from(v@.skip(i + m), sep@, Seq::empty()) =~= seq![cur].add(split_from(v@.skip(i + m), sep@, Seq::empty())));
                assert(before.map_values(|p: String| p@) + (seq![cur] + split_from(v@.skip(i + m), sep@, Seq::empty()))
                    =~= before.map_values(|p: String| p@).push(cur) + split_from(v@.skip(i + m), sep@, Seq::empty()));
            }
            i = i + m;
            start = i;
        } else {
            proof {
                assert(rest.drop_first() =~= v@.skip(i + 1));
                assert(cur.push(rest[0]) =~= v@.subrange(start as int, i + 1));
            }
            i = i + 1;
        }
    }
    let last = string_of(&v, start, n);
    let ghost before = r@;
    r.push(last);
    proof {
        assert(v@.skip(n as int) =~= Seq::<char>::empty());
        assert(r@.map_values(|p: String| p@) =~= before.map_values(|p: String| p@).push(v@.subrange(start as int, n as int)));
    }
    r
}

/// The decimal value of the digit characters `s`, most significant first.
pub open spec fn digits_value(s: Seq<char>) -> nat
    decreases s.len(),
{
    if s.len() == 0 {
        0
    } else {
        digits_value(s.drop_last()) * 10 + (s.last() as nat - 48) as nat
    }
}

pub open spec fn is_digit(c: char) -> bool {
    '0' <= c <= '9'
}

/// `s` without one leading `+`.
pub open spec fn unsigned_digits(s: Seq<char>) -> Seq<char> {
    if s.len() > 0 && s[0] == '+' {
        s.drop_first()
    } else {
        s
    }
}

pub open spec fn all_digits(s: Seq<char>) -> bool {
    forall|i: int| 0 <= i < s.len() ==> is_digit(#[trigger] s[i])
}

/// What `str::parse::<u32>` gives: an optional `+`, then one or more ASCII
/// digits whose value fits in a `u32`.
pub open spec fn parse_u32_spec(s: Seq<char>) -> Option<u32> {
    let digits = unsigned_digits(s);
    if digits.len() > 0 && all_digits(digits) && digits_value(digits) <= u32::MAX {
        Some(digits_value(digits) as u32)
    } else {
        None
    }
}

/// Parses a `u32` as `str::parse::<u32>` does.
pub fn parse_u32(s: &str) -> (r: Option<u32>)
    ensures
        r == parse_u32_spec(s@),
{
    let v = chars_of(s);
    let n = v.len();
    let first: usize = if n > 0 && v[0] == '+' { 1 } else { 0 };
    let ghost digits = unsigned_digits(s@);
    proof {
        assert(digits =~= v@.skip(first as int));
    }
    if first == n {
        proof {
            assert(digits.len() == 0);
        }
        return None;
    }
    let mut value: u64 = 0;
    let mut i: usize = first;
    while i < n
        invariant
            v@ == s@,
            n == v@.len(),
            first <= i <= n,
            digits == v@.skip(first as int),
            digits == unsigned_digits(s@),
            forall|k: int| first <= k < i ==> is_digit(#[trigger] v@[k]),
            value == digits_value(v@.subrange(first as int, i as int)),
            value <= u32::MAX,
        decreases n - i,
    {
        let c = v[i];
        if !('0' <= c && c <= '9') {
            proof {
                assert(digits[i - first] == c);
                assert(!is_digit(digits[i - first]));
                assert(!all_digits(digits));
            }
            return None;
        }
        let d: u64 = (c as u32 - 48) as u64;
        proof {
            assert(v@.subrange(first as int, i + 1).drop_last() =~= v@.subrange(first as int, i as int));
        }
        value = value * 10 + d;
        proof {
            let p = v@.subrange(first as int, i + 1);
            assert(p.last() == c);
            assert(value == digits_value(p));
        }
        if value > 4_294_967_295 {
            proof {
                assert(digits.take((i + 1 - first) as int) =~= v@.subrange(first as int, i + 1));
                if all_digits(digits) {
                    lemma_digits_value_grows(digits, (i + 1 - first) as int);
                    assert(digits_value(digits) > u32::MAX);
                }
            }
            return None;
        }
        i = i + 1;
    }
    proof {
        assert(v@.subrange(first as int, n as int) =~= digits);
    }
    Some(value as u32)
}

/// A string of digits is worth at least as much as any of its prefixes.
proof fn lemma_digits_value_grows(s: Seq<char>, k: int)
    requires
        0 <= k <= s.len(),
        all_digits(s),
    ensures
        digits_value(s.take(k)) <= digits_value(s),
    decreases s.len() - k,
{
    if k < s.len() {
        lemma_digits_value_grows(s, k + 1);
        assert(s.take(k + 1).drop_last() =~= s.take(k));
        assert(is_digit(s.take(k + 1).last()));
    } else {
        assert(s.take(k) =~= s);
    }
}

} // verus!
