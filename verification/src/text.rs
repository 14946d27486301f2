//! Character-level text utilities.
//!
//! All lexing and formatting in this crate is specified over `Seq<char>`.
//! Executable code works on `Vec<char>`; the bridge functions below move
//! between `String`/`&str` and `Vec<char>` without changing the characters.

use vstd::prelude::*;

verus! {

/// The characters of `s`, in order, as a vector.
pub(crate) fn chars_of(s: &str) -> (v: Vec<char>)
    ensures
        v@ == s@,
{
    let n = s.unicode_len();
    let mut v: Vec<char> = Vec::new();
    let mut i: usize = 0;
    while i < n
        invariant
            i <= n,
            n == s@.len(),
            v@ == s@.subrange(0, i as int),
        decreases n - i,
    {
        v.push(s.get_char(i));
        proof {
            assert(s@.subrange(0, i as int).push(s@[i as int]) =~= s@.subrange(0, i + 1));
        }
        i += 1;
    }
    proof {
        assert(s@.subrange(0, s@.len() as int) =~= s@);
    }
    v
}

/// Relies on `String: FromIterator<&char>` (std): collecting characters builds
/// the string holding exactly those characters, in order.
#[verifier::external_body]
pub(crate) fn string_of(v: &Vec<char>) -> (s: String)
    ensures
        s@ == v@,
{
    v.iter().collect()
}

/// The whitespace characters this crate's lexing recognises: the
/// characters with Unicode's White_Space property.
pub open spec fn is_space_char(c: char) -> bool {
    c == ' ' || c == '\t' || c == '\n' || c == '\u{b}' || c == '\u{c}' || c == '\r' || c == '\u{85}'
        || c == '\u{a0}' || c == '\u{1680}' || ('\u{2000}' <= c && c <= '\u{200a}') || c
        == '\u{2028}' || c == '\u{2029}' || c == '\u{202f}' || c == '\u{205f}' || c == '\u{3000}'
}

pub fn is_space(c: char) -> (r: bool)
    ensures
        r == is_space_char(c),
{
    c == ' ' || c == '\t' || c == '\n' || c == '\u{b}' || c == '\u{c}' || c == '\r' || c == '\u{85}'
        || c == '\u{a0}' || c == '\u{1680}' || ('\u{2000}' <= c && c <= '\u{200a}') || c
        == '\u{2028}' || c == '\u{2029}' || c == '\u{202f}' || c == '\u{205f}' || c == '\u{3000}'
}

/// `s` without its leading whitespace.
pub open spec fn trim_start_spec(s: Seq<char>) -> Seq<char>
    decreases s.len(),
{
    if s.len() > 0 && is_space_char(s[0]) {
        trim_start_spec(s.drop_first())
    } else {
        s
    }
}

/// `s` without its trailing whitespace.
pub open spec fn trim_end_spec(s: Seq<char>) -> Seq<char>
    decreases s.len(),
{
    if s.len() > 0 && is_space_char(s.last()) {
        trim_end_spec(s.drop_last())
    } else {
        s
    }
}

/// `s` without leading and trailing whitespace.
pub open spec fn trim_spec(s: Seq<char>) -> Seq<char> {
    trim_end_spec(trim_start_spec(s))
}

/// Whitespace-trimmed copy of `v`.
pub fn trim(v: &Vec<char>) -> (r: Vec<char>)
    ensures
        r@ == trim_spec(v@),
{
    let mut i: usize = 0;
    proof {
        assert(v@.skip(0) =~= v@);
    }
    while i < v.len() && is_space(v[i])
        invariant
            i <= v.len(),
            trim_start_spec(v@) == trim_start_spec(v@.skip(i as int)),
        decreases v.len() - i,
    {
        proof {
            assert(v@.skip(i as int).drop_first() =~= v@.skip(i + 1));
        }
        i += 1;
    }
    proof {
        assert(trim_start_spec(v@.skip(i as int)) == v@.skip(i as int));
    }
    let mut j: usize = v.len();
    proof {
        assert(v@.subrange(i as int, v@.len() as int) =~= v@.skip(i as int));
    }
    while j > i && is_space(v[j - 1])
        invariant
            i <= j <= v.len(),
            trim_start_spec(v@) == v@.skip(i as int),
            trim_end_spec(v@.skip(i as int)) == trim_end_spec(v@.subrange(i as int, j as int)),
        decreases j,
    {
        proof {
            assert(v@.subrange(i as int, j as int).drop_last() =~= v@.subrange(
                i as int,
                j - 1,
            ));
        }
        j -= 1;
    }
    proof {
        if j > i {
            assert(!is_space_char(v@.subrange(i as int, j as int).last()));
        }
        assert(trim_end_spec(v@.subrange(i as int, j as int)) == v@.subrange(i as int, j as int));
    }
    let mut r: Vec<char> = Vec::new();
    let mut k: usize = i;
    while k < j
        invariant
            i <= k <= j <= v.len(),
            r@ == v@.subrange(i as int, k as int),
        decreases j - k,
    {
        r.push(v[k]);
        proof {
            assert(v@.subrange(i as int, k as int).push(v@[k as int]) =~= v@.subrange(
                i as int,
                k + 1,
            ));
        }
        k += 1;
    }
    proof {
        assert(trim_spec(v@) == v@.subrange(i as int, j as int));
    }
    r
}

/// Number of whitespace-separated tokens in `s`, counting from a state where
/// the previous character (if any) was whitespace when `prev_space` holds.
pub open spec fn token_count_from(s: Seq<char>, prev_space: bool) -> nat
    decreases s.len(),
{
    if s.len() == 0 {
        0
    } else {
        (if !is_space_char(s[0]) && prev_space {
            1nat
        } else {
            0nat
        }) + token_count_from(s.drop_first(), is_space_char(s[0]))
    }
}

/// Number of whitespace-separated tokens in `s`.
pub open spec fn token_count(s: Seq<char>) -> nat {
    token_count_from(s, true)
}

pub fn count_tokens(v: &Vec<char>) -> (n: usize)
    ensures
        n == token_count(v@),
{
    let mut n: usize = 0;
    let mut prev_space = true;
    let mut i: usize = 0;
    proof {
        assert(v@.skip(0) =~= v@);
    }
    while i < v.len()
        invariant
            i <= v.len(),
            n <= i,
            token_count(v@) == n + token_count_from(v@.skip(i as int), prev_space),
        decreases v.len() - i,
    {
        if !is_space(v[i]) && prev_space {
            n += 1;
        }
        prev_space = is_space(v[i]);
        proof {
            assert(v@.skip(i as int).drop_first() =~= v@.skip(i + 1));
        }
        i += 1;
    }
    n
}

/// The first whitespace-separated token of `s`, or empty if there is none.
pub open spec fn take_until_space(s: Seq<char>) -> Seq<char>
    decreases s.len(),
{
    if s.len() > 0 && !is_space_char(s[0]) {
        seq![s[0]] + take_until_space(s.drop_first())
    } else {
        Seq::empty()
    }
}

pub open spec fn first_token_spec(s: Seq<char>) -> Seq<char> {
    take_until_space(trim_start_spec(s))
}

pub fn first_token(v: &Vec<char>) -> (r: Vec<char>)
    ensures
        r@ == first_token_spec(v@),
{
    let mut i: usize = 0;
    proof {
        assert(v@.skip(0) =~= v@);
    }
    while i < v.len() && is_space(v[i])
        invariant
            i <= v.len(),
            trim_start_spec(v@) == trim_start_spec(v@.skip(i as int)),
        decreases v.len() - i,
    {
        proof {
            assert(v@.skip(i as int).drop_first() =~= v@.skip(i + 1));
        }
        i += 1;
    }
    proof {
        assert(trim_start_spec(v@.skip(i as int)) == v@.skip(i as int));
    }
    let ghost start = i as int;
    let mut r: Vec<char> = Vec::new();
    proof {
        assert(v@.subrange(start, start) =~= Seq::<char>::empty());
        assert(Seq::<char>::empty() + take_until_space(v@.skip(start)) =~= take_until_space(
            v@.skip(start),
        ));
    }
    while i < v.len() && !is_space(v[i])
        invariant
            0 <= start <= i <= v.len(),
            trim_start_spec(v@) == v@.skip(start),
            r@ == v@.subrange(start, i as int),
            take_until_space(v@.skip(start)) == r@ + take_until_space(v@.skip(i as int)),
        decreases v.len() - i,
    {
        r.push(v[i]);
        proof {
            assert(v@.subrange(start, i as int).push(v@[i as int]) =~= v@.subrange(start, i + 1));
            assert(v@.skip(i as int).drop_first() =~= v@.skip(i + 1));
            assert(seq![v@[i as int]] + take_until_space(v@.skip(i + 1)) == take_until_space(
                v@.skip(i as int),
            ));
            assert(v@.subrange(start, i as int) + (seq![v@[i as int]] + take_until_space(
                v@.skip(i + 1),
            )) =~= v@.subrange(start, i + 1) + take_until_space(v@.skip(i + 1)));
        }
        i += 1;
    }
    proof {
        assert(take_until_space(v@.skip(i as int)) =~= Seq::<char>::empty());
        assert(r@ + Seq::<char>::empty() =~= r@);
    }
    r
}

/// The part of `s` before its first occurrence of `sep`.
pub open spec fn split2_head(s: Seq<char>, sep: char) -> Seq<char>
    decreases s.len(),
{
    if s.len() == 0 {
        Seq::empty()
    } else if s[0] == sep {
        Seq::empty()
    } else {
        seq![s[0]] + split2_head(s.drop_first(), sep)
    }
}

/// The part of `s` after its first occurrence of `sep`, or `None` if `sep`
/// does not occur in `s`.
pub open spec fn split2_tail(s: Seq<char>, sep: char) -> Option<Seq<char>>
    decreases s.len(),
{
    if s.len() == 0 {
        None
    } else if s[0] == sep {
        Some(s.drop_first())
    } else {
        split2_tail(s.drop_first(), sep)
    }
}

/// Splits `v` at its first occurrence of `sep` into the head and, when `sep`
/// occurs, the remainder after it.
pub fn split2(v: &Vec<char>, sep: char) -> (r: (Vec<char>, Option<Vec<char>>))
    ensures
        r.0@ == split2_head(v@, sep),
        match r.1 {
            Some(t) => split2_tail(v@, sep) == Some(t@),
            None => split2_tail(v@, sep) is None,
        },
{
    let mut head: Vec<char> = Vec::new();
    let mut i: usize = 0;
    proof {
        assert(v@.skip(0) =~= v@);
        assert(v@.subrange(0, 0) =~= Seq::<char>::empty());
        assert(Seq::<char>::empty() + split2_head(v@, sep) =~= split2_head(v@, sep));
    }
    while i < v.len() && v[i] != sep
        invariant
            i <= v.len(),
            head@ == v@.subrange(0, i as int),
            split2_head(v@, sep) == head@ + split2_head(v@.skip(i as int), sep),
            split2_tail(v@, sep) == split2_tail(v@.skip(i as int), sep),
        decreases v.len() - i,
    {
        head.push(v[i]);
        proof {
            assert(v@.skip(i as int).drop_first() =~= v@.skip(i + 1));
            assert(v@.subrange(0, i as int).push(v@[i as int]) =~= v@.subrange(0, i + 1));
            assert(head@.push(v@[i as int]) + split2_head(v@.skip(i + 1), sep) =~= head@ + (seq![
                v@[i as int],
            ] + split2_head(v@.skip(i + 1), sep)));
        }
        i += 1;
    }
    proof {
        assert(split2_head(v@.skip(i as int), sep) =~= Seq::<char>::empty());
        assert(head@ + Seq::<char>::empty() =~= head@);
    }
    if i == v.len() {
        (head, None)
    } else {
        let mut tail: Vec<char> = Vec::new();
        let mut k: usize = i + 1;
        while k < v.len()
            invariant
                i + 1 <= k <= v.len(),
                tail@ == v@.subrange(i + 1, k as int),
            decreases v.len() - k,
        {
            tail.push(v[k]);
            proof {
                assert(v@.subrange(i + 1, k as int).push(v@[k as int]) =~= v@.subrange(
                    i + 1,
                    k + 1,
                ));
            }
            k += 1;
        }
        proof {
            assert(v@.skip(i as int).drop_first() =~= v@.skip(i + 1));
            assert(v@.subrange(i + 1, v@.len() as int) =~= v@.skip(i + 1));
        }
        (head, Some(tail))
    }
}

/// `s` with every non-overlapping occurrence of `pat` replaced by `rep`,
/// scanning left to right. When `pat` is empty, `s` is unchanged.
pub open spec fn replace_spec(s: Seq<char>, pat: Seq<char>, rep: Seq<char>) -> Seq<char>
    decreases s.len(),
{
    if pat.len() == 0 || s.len() == 0 {
        s
    } else if pat.is_prefix_of(s) {
        rep + replace_spec(s.skip(pat.len() as int), pat, rep)
    } else {
        seq![s[0]] + replace_spec(s.drop_first(), pat, rep)
    }
}

/// Whether `pat` occurs in `v` starting at index `i`.
fn matches_at(v: &Vec<char>, pat: &Vec<char>, i: usize) -> (r: bool)
    requires
        i <= v.len(),
    ensures
        r == (i + pat@.len() <= v@.len() && pat@.is_prefix_of(v@.skip(i as int))),
{
    if v.len() - i < pat.len() {
        return false;
    }
    let mut k: usize = 0;
    while k < pat.len()
        invariant
            k <= pat.len(),
            i + pat.len() <= v.len(),
            forall|m: int| 0 <= m < k ==> pat@[m] == v@[i + m],
        decreases pat.len() - k,
    {
        if pat[k] != v[i + k] {
            proof {
                assert(v@.skip(i as int)[k as int] == v@[i + k]);
            }
            return false;
        }
        k += 1;
    }
    proof {
        assert(pat@ =~= v@.skip(i as int).subrange(0, pat@.len() as int));
    }
    true
}

/// `v` with every occurrence of `pat` replaced by `rep`.
pub fn replace_all(v: &Vec<char>, pat: &Vec<char>, rep: &Vec<char>) -> (r: Vec<char>)
    ensures
        r@ == replace_spec(v@, pat@, rep@),
{
    if pat.len() == 0 {
        let mut r: Vec<char> = Vec::new();
        let mut i: usize = 0;
        while i < v.len()
            invariant
                i <= v.len(),
                r@ == v@.subrange(0, i as int),
            decreases v.len() - i,
        {
            r.push(v[i]);
            proof {
                assert(v@.subrange(0, i as int).push(v@[i as int]) =~= v@.subrange(0, i + 1));
            }
            i += 1;
        }
        proof {
            assert(v@.subrange(0, v@.len() as int) =~= v@);
        }
        return r;
    }
    let mut r: Vec<char> = Vec::new();
    let mut i: usize = 0;
    proof {
        assert(v@.skip(0) =~= v@);
        assert(Seq::<char>::empty() + replace_spec(v@, pat@, rep@) =~= replace_spec(
            v@,
            pat@,
            rep@,
        ));
    }
    while i < v.len()
        invariant
            i <= v.len(),
            pat@.len() > 0,
            replace_spec(v@, pat@, rep@) == r@ + replace_spec(v@.skip(i as int), pat@, rep@),
        decreases v.len() - i,
    {
        if matches_at(v, pat, i) {
            let mut k: usize = 0;
            let ghost r0 = r@;
            while k < rep.len()
                invariant
                    k <= rep.len(),
                    r@ == r0 + rep@.subrange(0, k as int),
                decreases rep.len() - k,
            {
                r.push(rep[k]);
                proof {
                    assert((r0 + rep@.subrange(0, k as int)).push(rep@[k as int]) =~= r0
                        + rep@.subrange(0, k + 1));
                }
                k += 1;
            }
            proof {
                assert(rep@.subrange(0, rep@.len() as int) =~= rep@);
                assert(v@.skip(i as int).skip(pat@.len() as int) =~= v@.skip(
                    i + pat@.len() as int,
                ));
                assert(replace_spec(v@.skip(i as int), pat@, rep@) == rep@ + replace_spec(
                    v@.skip(i + pat@.len() as int),
                    pat@,
                    rep@,
                ));
                assert(r0 + (rep@ + replace_spec(v@.skip(i + pat@.len() as int), pat@, rep@)) =~= (
                r0 + rep@) + replace_spec(v@.skip(i + pat@.len() as int), pat@, rep@));
            }
            i += pat.len();
        } else {
            let ghost r0 = r@;
            r.push(v[i]);
            proof {
                assert(v@.skip(i as int).drop_first() =~= v@.skip(i + 1));
                assert(v@.skip(i as int)[0] == v@[i as int]);
                assert(replace_spec(v@.skip(i as int), pat@, rep@) == seq![v@[i as int]]
                    + replace_spec(v@.skip(i + 1), pat@, rep@));
                assert(r0 + (seq![v@[i as int]] + replace_spec(v@.skip(i + 1), pat@, rep@)) =~= r0.push(
                    v@[i as int],
                ) + replace_spec(v@.skip(i + 1), pat@, rep@));
            }
            i += 1;
        }
    }
    proof {
        assert(replace_spec(v@.skip(i as int), pat@, rep@) =~= Seq::<char>::empty());
        assert(r@ + Seq::<char>::empty() =~= r@);
    }
    r
}

/// The character for decimal digit `d`.
pub open spec fn digit_char(d: nat) -> char {
    if d == 0 {
        '0'
    } else if d == 1 {
        '1'
    } else if d == 2 {
        '2'
    } else if d == 3 {
        '3'
    } else if d == 4 {
        '4'
    } else if d == 5 {
        '5'
    } else if d == 6 {
        '6'
    } else if d == 7 {
        '7'
    } else if d == 8 {
        '8'
    } else {
        '9'
    }
}

/// The decimal rendering of `n`, most significant digit first, no leading
/// zeros (except for `n == 0` itself).
pub open spec fn dec_digits(n: nat) -> Seq<char>
    decreases n,
{
    if n < 10 {
        seq![digit_char(n)]
    } else {
        dec_digits(n / 10) + seq![digit_char(n % 10)]
    }
}

fn digit_char_exec(d: u64) -> (c: char)
    requires
        d < 10,
    ensures
        c == digit_char(d as nat),
{
    match d {
        0 => '0',
        1 => '1',
        2 => '2',
        3 => '3',
        4 => '4',
        5 => '5',
        6 => '6',
        7 => '7',
        8 => '8',
        _ => '9',
    }
}

/// The decimal rendering of `n` as a string.
pub fn u64_string(n: u64) -> (s: String)
    ensures
        s@ == dec_digits(n as nat),
{
    let mut low_digits: Vec<char> = Vec::new();
    let mut m: u64 = n;
    while m >= 10
        invariant
            dec_digits(n as nat) =~= dec_digits(m as nat) + low_digits@.reverse(),
        decreases m,
    {
        let ghost prev = low_digits@;
        low_digits.push(digit_char_exec(m % 10));
        proof {
            assert(low_digits@.reverse() =~= seq![digit_char((m % 10) as nat)] + prev.reverse());
            assert(dec_digits((m / 10) as nat) + (seq![digit_char((m % 10) as nat)]
                + prev.reverse()) =~= (dec_digits((m / 10) as nat) + seq![
                digit_char((m % 10) as nat),
            ]) + prev.reverse());
        }
        m = m / 10;
    }
    let mut out: Vec<char> = Vec::new();
    out.push(digit_char_exec(m));
    let mut j: usize = low_digits.len();
    while j > 0
        invariant
            j <= low_digits.len(),
            out@ =~= seq![digit_char(m as nat)] + low_digits@.skip(j as int).reverse(),
        decreases j,
    {
        j -= 1;
        out.push(low_digits[j]);
        proof {
            assert(low_digits@.skip(j as int).reverse() =~= low_digits@.skip(
                j + 1,
            ).reverse().push(low_digits@[j as int]));
        }
    }
    proof {
        assert(low_digits@.skip(0).reverse() =~= low_digits@.reverse());
        assert(out@ =~= dec_digits(n as nat));
    }
    string_of(&out)
}

/// Whether `v` begins with the characters of `s`.
pub fn starts_with_str(v: &Vec<char>, s: &str) -> (r: bool)
    ensures
        r == s@.is_prefix_of(v@),
{
    let n = s.unicode_len();
    if v.len() < n {
        return false;
    }
    let mut i: usize = 0;
    while i < n
        invariant
            i <= n,
            n == s@.len() <= v@.len(),
            forall|k: int| 0 <= k < i ==> v@[k] == s@[k],
        decreases n - i,
    {
        if v[i] != s.get_char(i) {
            proof {
                assert(v@.subrange(0, n as int)[i as int] == v@[i as int]);
            }
            return false;
        }
        i += 1;
    }
    proof {
        assert(s@ =~= v@.subrange(0, n as int));
    }
    true
}

/// Whether `v` holds exactly the characters of `s`.
pub fn chars_eq_str(v: &Vec<char>, s: &str) -> (r: bool)
    ensures
        r == (v@ == s@),
{
    let n = s.unicode_len();
    if v.len() != n {
        return false;
    }
    let mut i: usize = 0;
    while i < n
        invariant
            i <= n,
            n == v@.len() == s@.len(),
            forall|k: int| 0 <= k < i ==> v@[k] == s@[k],
        decreases n - i,
    {
        if v[i] != s.get_char(i) {
            return false;
        }
        i += 1;
    }
    proof {
        assert(v@ =~= s@);
    }
    true
}

} // verus!
