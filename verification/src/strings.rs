//! Verified string helpers.
//!
//! Everything the library states about text is stated over `Seq<char>`
//! views.  This module defines the spec-level vocabulary (splitting,
//! trimming, joining, decimal rendering and parsing) and the executable
//! functions proved against it.

use vstd::prelude::*;

verus! {

// ---------------------------------------------------------------------------
// Character classes
// ---------------------------------------------------------------------------

/// Blank characters stripped by [`trim_str`].
pub open spec fn is_blank_char(c: char) -> bool {
    c == ' ' || c == '\t' || c == '\n' || c == '\r'
}

/// Decimal digit.
pub open spec fn is_digit_char(c: char) -> bool {
    ('0' as u32) <= (c as u32) && (c as u32) <= ('9' as u32)
}

/// Hexadecimal digit, either case.
pub open spec fn is_hex_char(c: char) -> bool {
    is_digit_char(c) || (('a' as u32) <= (c as u32) && (c as u32) <= ('f' as u32)) || (('A'
        as u32) <= (c as u32) && (c as u32) <= ('F' as u32))
}

pub fn blank_char(c: char) -> (r: bool)
    ensures
        r == is_blank_char(c),
{
    c == ' ' || c == '\t' || c == '\n' || c == '\r'
}

pub fn digit_char(c: char) -> (r: bool)
    ensures
        r == is_digit_char(c),
{
    let u = c as u32;
    ('0' as u32) <= u && u <= ('9' as u32)
}

pub fn hex_char(c: char) -> (r: bool)
    ensures
        r == is_hex_char(c),
{
    let u = c as u32;
    (('0' as u32) <= u && u <= ('9' as u32)) || (('a' as u32) <= u && u <= ('f' as u32)) || (('A'
        as u32) <= u && u <= ('F' as u32))
}

// ---------------------------------------------------------------------------
// Equality, prefixes and suffixes
// ---------------------------------------------------------------------------

/// Character-wise equality of two string slices.
pub fn str_eq(a: &str, b: &str) -> (r: bool)
    ensures
        r == (a@ == b@),
{
    let na = a.unicode_len();
    let nb = b.unicode_len();
    if na != nb {
        return false;
    }
    let mut i: usize = 0;
    while i < na
        invariant
            i <= na,
            na == a@.len(),
            na == b@.len(),
            forall|j: int| 0 <= j < i ==> a@[j] == b@[j],
        decreases na - i,
    {
        if a.get_char(i) != b.get_char(i) {
            return false;
        }
        i += 1;
    }
    proof {
        assert(a@ =~= b@);
    }
    true
}

pub fn string_eq(a: &String, b: &str) -> (r: bool)
    ensures
        r == (a@ == b@),
{
    str_eq(a.as_str(), b)
}

/// Does `a` start with `p`?
pub fn str_starts_with(a: &str, p: &str) -> (r: bool)
    ensures
        r == p@.is_prefix_of(a@),
{
    let na = a.unicode_len();
    let np = p.unicode_len();
    if np > na {
        return false;
    }
    let head = a.substring_char(0, np);
    proof {
        assert(p@.is_prefix_of(a@) == (p@ =~= a@.subrange(0, np as int)));
    }
    str_eq(head, p)
}

/// Does `a` end with `p`?
pub fn str_ends_with(a: &str, p: &str) -> (r: bool)
    ensures
        r == p@.is_suffix_of(a@),
{
    let na = a.unicode_len();
    let np = p.unicode_len();
    if np > na {
        return false;
    }
    let tail = a.substring_char(na - np, na);
    proof {
        assert(p@.is_suffix_of(a@) == (p@ =~= a@.subrange(na - np, na as int)));
    }
    str_eq(tail, p)
}

/// A copy of a string.
pub fn clone_string(s: &String) -> (r: String)
    ensures
        r@ == s@,
{
    s.clone()
}

/// An element-wise copy of a string vector.
pub fn clone_vec_string(v: &Vec<String>) -> (r: Vec<String>)
    ensures
        r.deep_view() == v.deep_view(),
{
    let mut r: Vec<String> = Vec::new();
    let n = v.len();
    let mut i: usize = 0;
    while i < n
        invariant
            i <= n,
            n == v.len(),
            r.deep_view() =~~= v.deep_view().take(i as int),
        decreases n - i,
    {
        let ghost pre = r.deep_view();
        r.push(v[i].clone());
        proof {
            assert(r.deep_view() =~~= pre.push(v.deep_view()[i as int]));
            assert(v.deep_view().take(i + 1) =~~= pre.push(v.deep_view()[i as int]));
        }
        i += 1;
    }
    proof {
        assert(v.deep_view().take(n as int) =~~= v.deep_view());
    }
    r
}

// ---------------------------------------------------------------------------
// Concatenation
// ---------------------------------------------------------------------------

/// `a + b` as a fresh `String`.
pub fn concat_str(a: &str, b: &str) -> (r: String)
    ensures
        r@ == a@ + b@,
{
    let mut r = String::from_str(a);
    r.append(b);
    r
}

pub fn concat3(a: &str, b: &str, c: &str) -> (r: String)
    ensures
        r@ == a@ + b@ + c@,
{
    let mut r = String::from_str(a);
    r.append(b);
    r.append(c);
    r
}

// ---------------------------------------------------------------------------
// Trimming
// ---------------------------------------------------------------------------

pub open spec fn trim_start_rec(s: Seq<char>) -> Seq<char>
    decreases s.len(),
{
    if s.len() > 0 && is_blank_char(s[0]) {
        trim_start_rec(s.drop_first())
    } else {
        s
    }
}

pub open spec fn trim_end_rec(s: Seq<char>) -> Seq<char>
    decreases s.len(),
{
    if s.len() > 0 && is_blank_char(s.last()) {
        trim_end_rec(s.drop_last())
    } else {
        s
    }
}

/// The view of a string with leading and trailing blanks removed.
pub open spec fn spec_trim(s: Seq<char>) -> Seq<char> {
    trim_end_rec(trim_start_rec(s))
}

/// Removes leading and trailing blank characters.
pub fn trim_str(s: &str) -> (r: String)
    ensures
        r@ == spec_trim(s@),
{
    let n = s.unicode_len();
    proof {
        assert(s@.subrange(0, n as int) =~= s@);
    }
    let mut a: usize = 0;
    while a < n && blank_char(s.get_char(a))
        invariant
            a <= n,
            n == s@.len(),
            trim_start_rec(s@) == trim_start_rec(s@.subrange(a as int, n as int)),
        decreases n - a,
    {
        proof {
            assert(s@.subrange(a as int, n as int).drop_first() =~= s@.subrange(
                a as int + 1,
                n as int,
            ));
        }
        a += 1;
    }
    proof {
        assert(trim_start_rec(s@) =~= s@.subrange(a as int, n as int));
    }
    let mut b: usize = n;
    while b > a && blank_char(s.get_char(b - 1))
        invariant
            a <= b <= n,
            n == s@.len(),
            trim_start_rec(s@) == s@.subrange(a as int, n as int),
            trim_end_rec(s@.subrange(a as int, n as int)) == trim_end_rec(
                s@.subrange(a as int, b as int),
            ),
        decreases b,
    {
        proof {
            assert(s@.subrange(a as int, b as int).drop_last() =~= s@.subrange(
                a as int,
                b as int - 1,
            ));
        }
        b -= 1;
    }
    proof {
        assert(trim_end_rec(s@.subrange(a as int, b as int)) =~= s@.subrange(a as int, b as int));
    }
    String::from_str(s.substring_char(a, b))
}

// ---------------------------------------------------------------------------
// Splitting on a separator character
// ---------------------------------------------------------------------------

/// The parts of `s` between occurrences of `sep`; always at least one part.
pub open spec fn split_on(s: Seq<char>, sep: char) -> Seq<Seq<char>>
    decreases s.len(),
{
    if s.len() == 0 {
        seq![Seq::<char>::empty()]
    } else if s[0] == sep {
        seq![Seq::<char>::empty()] + split_on(s.drop_first(), sep)
    } else {
        let r = split_on(s.drop_first(), sep);
        seq![seq![s[0]] + r[0]] + r.drop_first()
    }
}

pub proof fn lemma_split_on_len(s: Seq<char>, sep: char)
    ensures
        split_on(s, sep).len() >= 1,
    decreases s.len(),
{
    if s.len() > 0 {
        lemma_split_on_len(s.drop_first(), sep);
    }
}

/// A separator-free string splits into itself alone.
pub proof fn lemma_split_on_whole(a: Seq<char>, sep: char)
    requires
        forall|i: int| 0 <= i < a.len() ==> a[i] != sep,
    ensures
        split_on(a, sep) == seq![a],
    decreases a.len(),
{
    if a.len() == 0 {
        assert(split_on(a, sep) =~~= seq![a]);
    } else {
        lemma_split_on_whole(a.drop_first(), sep);
        let r = split_on(a.drop_first(), sep);
        assert(r == seq![a.drop_first()]);
        assert(r[0] == a.drop_first());
        assert(r.drop_first() =~= Seq::<Seq<char>>::empty());
        assert(seq![a[0]] + r[0] =~= a);
        assert(split_on(a, sep) =~~= seq![a]);
    }
}

/// Splitting past the first separator: the part before it, then the split of
/// the rest.
pub proof fn lemma_split_on_step(a: Seq<char>, s: Seq<char>, sep: char)
    requires
        forall|i: int| 0 <= i < a.len() ==> a[i] != sep,
    ensures
        split_on(a + seq![sep] + s, sep) == seq![a] + split_on(s, sep),
    decreases a.len(),
{
    let w = a + seq![sep] + s;
    if a.len() == 0 {
        assert(w =~= seq![sep] + s);
        assert(w[0] == sep);
        assert(w.drop_first() =~= s);
        assert(split_on(w, sep) =~~= seq![a] + split_on(s, sep));
    } else {
        assert(forall|i: int| 0 <= i < a.drop_first().len() ==> a.drop_first()[i] != sep);
        lemma_split_on_step(a.drop_first(), s, sep);
        assert(w[0] == a[0]);
        assert(w[0] != sep);
        assert(w.drop_first() =~= a.drop_first() + seq![sep] + s);
        let r = split_on(w.drop_first(), sep);
        assert(r == seq![a.drop_first()] + split_on(s, sep));
        lemma_split_on_len(s, sep);
        assert(r[0] == a.drop_first());
        assert(seq![w[0]] + r[0] =~= a);
        assert(r.drop_first() =~= split_on(s, sep));
        assert(split_on(w, sep) =~~= seq![a] + split_on(s, sep));
    }
}

/// Splits `s` on every occurrence of `sep`.
pub fn split_on_char(s: &str, sep: char) -> (r: Vec<String>)
    ensures
        r.deep_view() == split_on(s@, sep),
        r.len() >= 1,
{
    let n = s.unicode_len();
    let mut parts: Vec<String> = Vec::new();
    proof {
        assert(s@.subrange(0, n as int) =~= s@);
        assert(parts.deep_view() =~~= Seq::<Seq<char>>::empty());
        assert(parts.deep_view() + split_on(s@, sep) =~~= split_on(s@, sep));
    }
    let mut start: usize = 0;
    let mut i: usize = 0;
    while i < n
        invariant
            start <= i <= n,
            n == s@.len(),
            forall|j: int| start <= j < i ==> s@[j] != sep,
            split_on(s@, sep) == parts.deep_view() + split_on(
                s@.subrange(start as int, n as int),
                sep,
            ),
        decreases n - i,
    {
        if s.get_char(i) == sep {
            let part = String::from_str(s.substring_char(start, i));
            proof {
                let pre = s@.subrange(start as int, i as int);
                let rest = s@.subrange(i as int + 1, n as int);
                assert(s@.subrange(start as int, n as int) =~= pre + seq![sep] + rest);
                lemma_split_on_step(pre, rest, sep);
            }
            let ghost old_parts = parts.deep_view();
            parts.push(part);
            proof {
                assert(parts.deep_view() =~~= old_parts + seq![
                    s@.subrange(start as int, i as int),
                ]);
            }
            start = i + 1;
        }
        i += 1;
    }
    let last = String::from_str(s.substring_char(start, n));
    proof {
        lemma_split_on_whole(s@.subrange(start as int, n as int), sep);
    }
    let ghost old_parts = parts.deep_view();
    parts.push(last);
    proof {
        assert(parts.deep_view() =~~= old_parts + seq![s@.subrange(start as int, n as int)]);
        assert(parts.deep_view() =~~= split_on(s@, sep));
    }
    parts
}

/// The lines of a captured output: split on `\n`, without a final empty
/// line, each line without a trailing `\r`.
pub open spec fn spec_lines(s: Seq<char>) -> Seq<Seq<char>> {
    let raw = split_on(s, '\n');
    let kept = if raw.len() > 0 && raw.last().len() == 0 {
        raw.drop_last()
    } else {
        raw
    };
    kept.map_values(
        |l: Seq<char>|
            if l.len() > 0 && l.last() == '\r' {
                l.drop_last()
            } else {
                l
            },
    )
}

/// Splits a captured output into lines.
pub fn lines_of(s: &str) -> (r: Vec<String>)
    ensures
        r.deep_view() == spec_lines(s@),
{
    let mut raw = split_on_char(s, '\n');
    if raw[raw.len() - 1].as_str().is_empty() {
        let ghost pre = raw.deep_view();
        raw.pop();
        proof {
            assert(raw.deep_view() =~~= pre.drop_last());
        }
    }
    let mut out: Vec<String> = Vec::new();
    let n = raw.len();
    let ghost kept = raw.deep_view();
    let mut i: usize = 0;
    while i < n
        invariant
            i <= n,
            n == raw.len(),
            kept == raw.deep_view(),
            out.deep_view() =~~= kept.take(i as int).map_values(
                |l: Seq<char>|
                    if l.len() > 0 && l.last() == '\r' {
                        l.drop_last()
                    } else {
                        l
                    },
            ),
        decreases n - i,
    {
        let line = &raw[i];
        proof {
            assert(line@ == kept[i as int]);
        }
        let ln = line.as_str().unicode_len();
        let ghost old_out = out.deep_view();
        let ghost fk = if kept[i as int].len() > 0 && kept[i as int].last() == '\r' {
            kept[i as int].drop_last()
        } else {
            kept[i as int]
        };
        if ln > 0 && line.as_str().get_char(ln - 1) == '\r' {
            let stripped = String::from_str(line.as_str().substring_char(0, ln - 1));
            proof {
                assert(stripped@ =~= kept[i as int].drop_last());
            }
            out.push(stripped);
        } else {
            out.push(line.clone());
        }
        proof {
            assert(out.deep_view() =~~= old_out.push(fk));
            assert(out.deep_view() =~~= kept.take(i + 1).map_values(
                |l: Seq<char>|
                    if l.len() > 0 && l.last() == '\r' {
                        l.drop_last()
                    } else {
                        l
                    },
            ));
        }
        i += 1;
    }
    proof {
        assert(kept.take(n as int) =~~= kept);
    }
    out
}

// ---------------------------------------------------------------------------
// Joining
// ---------------------------------------------------------------------------

/// Concatenation of `parts` with `sep` between consecutive parts.
pub open spec fn join_with(parts: Seq<Seq<char>>, sep: Seq<char>) -> Seq<char>
    decreases parts.len(),
{
    if parts.len() == 0 {
        Seq::<char>::empty()
    } else if parts.len() == 1 {
        parts[0]
    } else {
        parts[0] + sep + join_with(parts.drop_first(), sep)
    }
}

/// Joins `parts` with `sep` between consecutive parts.
pub fn join_strings(parts: &Vec<String>, sep: &str) -> (r: String)
    ensures
        r@ == join_with(parts.deep_view(), sep@),
{
    let mut r = String::new();
    let n = parts.len();
    if n == 0 {
        return r;
    }
    proof {
        assert(parts.deep_view().subrange(0, n as int) =~~= parts.deep_view());
        assert(r@ + join_with(parts.deep_view(), sep@) =~= join_with(parts.deep_view(), sep@));
    }
    let mut i: usize = 0;
    while i < n
        invariant
            i <= n,
            n == parts.len(),
            n >= 1,
            join_with(parts.deep_view(), sep@) == r@ + join_with(
                parts.deep_view().subrange(i as int, n as int),
                sep@,
            ),
        decreases n - i,
    {
        proof {
            let tail = parts.deep_view().subrange(i as int, n as int);
            assert(tail[0] == parts.deep_view()[i as int]);
            assert(tail.drop_first() =~= parts.deep_view().subrange(i as int + 1, n as int));
        }
        r.append(parts[i].as_str());
        if i + 1 < n {
            r.append(sep);
        } else {
            proof {
                assert(join_with(parts.deep_view().subrange(i as int + 1, n as int), sep@)
                    =~= Seq::<char>::empty());
            }
        }
        i += 1;
    }
    r
}

// ---------------------------------------------------------------------------
// Decimal rendering and parsing
// ---------------------------------------------------------------------------

/// The decimal digit character for `d` in `0..10`.
pub open spec fn digit_of(d: nat) -> char {
    if d == 0 {
        '0'
    } else if d == 1 {
        '1'
    } else if d == 2 {
        '2'
    } else if d == 3 {
        '3'
    } else if d == 4 {
        '4'
    } else if d == 5 {
        '5'
    } else if d == 6 {
        '6'
    } else if d == 7 {
        '7'
    } else if d == 8 {
        '8'
    } else {
        '9'
    }
}

/// The decimal rendering of `n`, without sign or padding.
pub open spec fn dec_of(n: nat) -> Seq<char>
    decreases n,
{
    if n < 10 {
        seq![digit_of(n)]
    } else {
        dec_of(n / 10) + seq![digit_of(n % 10)]
    }
}

fn digit_string(d: u64) -> (r: String)
    requires
        d < 10,
    ensures
        r@ =~= seq![digit_of(d as nat)],
{
    let s: &str = if d == 0 {
        "0"
    } else if d == 1 {
        "1"
    } else if d == 2 {
        "2"
    } else if d == 3 {
        "3"
    } else if d == 4 {
        "4"
    } else if d == 5 {
        "5"
    } else if d == 6 {
        "6"
    } else if d == 7 {
        "7"
    } else if d == 8 {
        "8"
    } else {
        "9"
    };
    proof {
        reveal_strlit("0");
        reveal_strlit("1");
        reveal_strlit("2");
        reveal_strlit("3");
        reveal_strlit("4");
        reveal_strlit("5");
        reveal_strlit("6");
        reveal_strlit("7");
        reveal_strlit("8");
        reveal_strlit("9");
    }
    String::from_str(s)
}

/// Renders `n` in decimal.
pub fn u64_to_string(n: u64) -> (r: String)
    ensures
        r@ == dec_of(n as nat),
    decreases n,
{
    if n < 10 {
        digit_string(n)
    } else {
        let mut r = u64_to_string(n / 10);
        let d = digit_string(n % 10);
        r.append(d.as_str());
        r
    }
}

/// The decimal rendering of an integer, with a leading `-` when negative.
pub open spec fn dec_int(n: int) -> Seq<char> {
    if n >= 0 {
        dec_of(n as nat)
    } else {
        seq!['-'] + dec_of((-n) as nat)
    }
}

/// Renders `n` in decimal, with a leading `-` when negative.
pub fn i64_to_string(n: i64) -> (r: String)
    ensures
        r@ == dec_int(n as int),
{
    if n >= 0 {
        u64_to_string(n as u64)
    } else {
        let m128: i128 = -(n as i128);
        proof {
            assert(0 <= m128 <= u64::MAX as i128);
        }
        let m: u64 = m128 as u64;
        let mut r = String::from_str("-");
        proof {
            reveal_strlit("-");
            assert(r@ =~= seq!['-']);
        }
        let d = u64_to_string(m);
        r.append(d.as_str());
        r
    }
}

/// Numeric value of a digit string, most significant digit first.
pub open spec fn dec_value(s: Seq<char>) -> nat
    decreases s.len(),
{
    if s.len() == 0 {
        0
    } else {
        dec_value(s.drop_last()) * 10 + (s.last() as u32 - '0' as u32) as nat
    }
}

/// Non-empty and all decimal digits.
pub open spec fn all_digits(s: Seq<char>) -> bool {
    s.len() > 0 && forall|i: int| 0 <= i < s.len() ==> is_digit_char(s[i])
}

/// Whether `s` parses as a `u32` the way Rust's `str::parse::<u32>` does:
/// an optional leading `+`, then at least one digit, with a value that fits.
pub open spec fn parses_as_u32(s: Seq<char>) -> bool {
    let t = if s.len() > 0 && s[0] == '+' {
        s.drop_first()
    } else {
        s
    };
    all_digits(t) && dec_value(t) <= u32::MAX
}

proof fn lemma_dec_value_grows(s: Seq<char>, i: int)
    requires
        0 <= i <= s.len(),
    ensures
        dec_value(s.take(i)) <= dec_value(s),
    decreases s.len() - i,
{
    if i < s.len() {
        lemma_dec_value_grows(s, i + 1);
        assert(s.take(i + 1).drop_last() =~= s.take(i));
        assert(dec_value(s.take(i)) <= dec_value(s.take(i + 1)));
    } else {
        assert(s.take(i) =~= s);
    }
}

/// Does `s` parse as a `u32`?
pub fn parse_ok_u32(s: &str) -> (r: bool)
    ensures
        r == parses_as_u32(s@),
{
    let n = s.unicode_len();
    if n == 0 {
        return false;
    }
    let first_plus = s.get_char(0) == '+';
    let start: usize = if first_plus {
        1
    } else {
        0
    };
    let ghost t = if first_plus {
        s@.drop_first()
    } else {
        s@
    };
    proof {
        assert(t =~= s@.subrange(start as int, n as int));
    }
    if start == n {
        proof {
            assert(t.len() == 0);
            assert(!all_digits(t));
        }
        return false;
    }
    let mut i: usize = start;
    let mut acc: u64 = 0;
    let mut over: bool = false;
    while i < n
        invariant
            start <= i <= n,
            n == s@.len(),
            t == s@.subrange(start as int, n as int),
            parses_as_u32(s@) == (all_digits(t) && dec_value(t) <= u32::MAX),
            forall|j: int| start <= j < i ==> is_digit_char(s@[j]),
            !over ==> acc == dec_value(t.take(i - start)) && acc <= u32::MAX,
            over ==> dec_value(t.take(i - start)) > u32::MAX,
        decreases n - i,
    {
        let c = s.get_char(i);
        if !digit_char(c) {
            proof {
                assert(t[i - start] == s@[i as int]);
                assert(!all_digits(t));
            }
            return false;
        }
        let d: u64 = (c as u32 - '0' as u32) as u64;
        proof {
            assert(t.take(i - start + 1).drop_last() =~= t.take(i - start));
            assert(t.take(i - start + 1).last() == s@[i as int]);
        }
        if over {
            proof {
                lemma_dec_value_grows(t.take(i - start + 1), i - start);
                assert(t.take(i - start + 1).take(i - start) =~= t.take(i - start));
            }
        } else {
            let next = acc * 10 + d;
            if next > u32::MAX as u64 {
                over = true;
            } else {
                acc = next;
            }
        }
        i += 1;
    }
    proof {
        assert(t.take(n - start) =~= t);
        assert forall|k: int| 0 <= k < t.len() implies is_digit_char(t[k]) by {
            assert(t[k] == s@[k + start]);
        }
    }
    !over
}

} // verus!
