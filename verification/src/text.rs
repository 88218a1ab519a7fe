use vstd::prelude::*;

verus! {

/// The whitespace characters of the layout DSL: they separate layout
/// positions and never carry positional meaning themselves.
pub open spec fn is_space_c(c: char) -> bool {
    c == ' ' || c == '\n' || c == '\t' || c == '\r'
}

/// Executable whitespace test.
pub fn is_space(c: char) -> (r: bool)
    ensures
        r == is_space_c(c),
{
    c == ' ' || c == '\n' || c == '\t' || c == '\r'
}

/// The characters of `s`, in order.
pub fn str_chars(s: &str) -> (r: Vec<char>)
    ensures
        r@ == s@,
{
    let n: usize = s.unicode_len();
    let mut out: Vec<char> = Vec::new();
    let mut i: usize = 0;
    while i < n
        invariant
            n == s@.len(),
            i <= n,
            out@ == s@.take(i as int),
        decreases n - i,
    {
        out.push(s.get_char(i));
        i = i + 1;
    }
    proof {
        assert(s@.take(n as int) =~= s@);
    }
    out
}

/// Relies on `String::push` from std: appends one character to the string.
#[verifier::external_body]
fn push_char(s: &mut String, c: char)
    ensures
        final(s)@ == old(s)@.push(c),
{
    s.push(c)
}

/// A `String` holding exactly the characters of `v`.
pub fn chars_string(v: &Vec<char>) -> (r: String)
    ensures
        r@ == v@,
{
    let mut out = String::new();
    let n: usize = v.len();
    let mut i: usize = 0;
    while i < n
        invariant
            n == v@.len(),
            i <= n,
            out@ == v@.take(i as int),
        decreases n - i,
    {
        push_char(&mut out, v[i]);
        proof {
            assert(v@.take(i as int).push(v@[i as int]) =~= v@.take(i + 1));
        }
        i = i + 1;
    }
    proof {
        assert(v@.take(n as int) =~= v@);
    }
    out
}

/// Appends the characters of `s` to `out`.
pub fn append_str(out: &mut Vec<char>, s: &str)
    ensures
        final(out)@ == old(out)@ + s@,
{
    let n: usize = s.unicode_len();
    let mut i: usize = 0;
    while i < n
        invariant
            n == s@.len(),
            i <= n,
            out@ == old(out)@ + s@.take(i as int),
        decreases n - i,
    {
        out.push(s.get_char(i));
        proof {
            assert((old(out)@ + s@.take(i as int)).push(s@[i as int]) =~= old(out)@ + s@.take(
                i + 1,
            ));
        }
        i = i + 1;
    }
    proof {
        assert(old(out)@ + s@.take(n as int) =~= old(out)@ + s@);
    }
}

/// Appends the characters of `v` to `out`.
pub fn append_chars(out: &mut Vec<char>, v: &Vec<char>)
    ensures
        final(out)@ == old(out)@ + v@,
{
    let n: usize = v.len();
    let mut i: usize = 0;
    while i < n
        invariant
            n == v@.len(),
            i <= n,
            out@ == old(out)@ + v@.take(i as int),
        decreases n - i,
    {
        out.push(v[i]);
        proof {
            assert((old(out)@ + v@.take(i as int)).push(v@[i as int]) =~= old(out)@ + v@.take(
                i + 1,
            ));
        }
        i = i + 1;
    }
    proof {
        assert(old(out)@ + v@.take(n as int) =~= old(out)@ + v@);
    }
}

/// Appends the characters of the string `s` to `out`.
pub fn append_string(out: &mut Vec<char>, s: &String)
    ensures
        final(out)@ == old(out)@ + s@,
{
    append_str(out, s.as_str());
}

/// Whether `v` holds exactly the characters of `s`.
pub fn eq_str(v: &Vec<char>, s: &str) -> (r: bool)
    ensures
        r <==> v@ == s@,
{
    let n: usize = s.unicode_len();
    if v.len() != n {
        assert(v@.len() != s@.len());
        return false;
    }
    let mut i: usize = 0;
    while i < n
        invariant
            n == s@.len() == v@.len(),
            i <= n,
            forall|j: int| 0 <= j < i ==> v@[j] == s@[j],
        decreases n - i,
    {
        if v[i] != s.get_char(i) {
            return false;
        }
        i = i + 1;
    }
    proof {
        assert(v@ =~= s@);
    }
    true
}

/// The characters of `v` from `lo` (inclusive) to `hi` (exclusive).
pub fn copy_range(v: &Vec<char>, lo: usize, hi: usize) -> (r: Vec<char>)
    requires
        lo <= hi <= v@.len(),
    ensures
        r@ == v@.subrange(lo as int, hi as int),
{
    let mut out: Vec<char> = Vec::new();
    let mut i: usize = lo;
    while i < hi
        invariant
            lo <= i <= hi <= v@.len(),
            out@ == v@.subrange(lo as int, i as int),
        decreases hi - i,
    {
        out.push(v[i]);
        proof {
            assert(v@.subrange(lo as int, i as int).push(v@[i as int]) =~= v@.subrange(
                lo as int,
                i + 1,
            ));
        }
        i = i + 1;
    }
    out
}

/// Whether the needle `d` occurs in `s` starting exactly at position `i`.
pub open spec fn match_at(s: Seq<char>, d: Seq<char>, i: int) -> bool {
    0 <= i && i + d.len() <= s.len() && s.subrange(i, i + d.len() as int) == d
}

/// The first position `>= i` where `d` occurs in `s`, if any.
pub open spec fn find_from(s: Seq<char>, d: Seq<char>, i: int) -> Option<int>
    decreases s.len() - i,
    when 0 <= i && d.len() > 0
{
    if i + d.len() > s.len() {
        None
    } else if match_at(s, d, i) {
        Some(i)
    } else {
        find_from(s, d, i + 1)
    }
}

/// A found occurrence lies within bounds.
pub proof fn lemma_find_from_bounds(s: Seq<char>, d: Seq<char>, i: int, j: int)
    requires
        0 <= i,
        d.len() > 0,
        find_from(s, d, i) == Some(j),
    ensures
        i <= j,
        j + d.len() <= s.len(),
        match_at(s, d, j),
    decreases s.len() - i,
{
    if i + d.len() > s.len() {
    } else if match_at(s, d, i) {
    } else {
        lemma_find_from_bounds(s, d, i + 1, j);
    }
}

/// Executable test of `match_at`.
pub fn matches_at(v: &Vec<char>, d: &Vec<char>, i: usize) -> (r: bool)
    requires
        i + d@.len() <= v@.len(),
    ensures
        r <==> match_at(v@, d@, i as int),
{
    let n: usize = d.len();
    let vn: usize = v.len();
    let mut j: usize = 0;
    while j < n
        invariant
            n == d@.len(),
            vn == v@.len(),
            i + n <= vn,
            j <= n,
            forall|k: int| 0 <= k < j ==> v@[i + k] == d@[k],
        decreases n - j,
    {
        if v[i + j] != d[j] {
            proof {
                assert(v@.subrange(i as int, i + n) != d@) by {
                    assert(v@.subrange(i as int, i + n)[j as int] == v@[i + j]);
                }
            }
            return false;
        }
        j = j + 1;
    }
    proof {
        assert(v@.subrange(i as int, i + n) =~= d@);
    }
    true
}

/// First occurrence of `d` in `v` at or after position `i`.
pub fn find_sub_from(v: &Vec<char>, d: &Vec<char>, start: usize) -> (r: Option<usize>)
    requires
        d@.len() > 0,
    ensures
        match r {
            Some(j) => find_from(v@, d@, start as int) == Some(j as int),
            None => find_from(v@, d@, start as int) is None,
        },
{
    let mut i: usize = start;
    loop
        invariant
            start <= i,
            d@.len() > 0,
            find_from(v@, d@, start as int) == find_from(v@, d@, i as int),
        ensures
            match find_from(v@, d@, start as int) {
                Some(j) => j == i,
                None => i + d@.len() > v@.len(),
            },
        decreases v@.len() + 1 - i,
    {
        if i > v.len() || d.len() > v.len() - i {
            assert(i + d@.len() > v@.len());
            break;
        }
        if matches_at(v, d, i) {
            assert(find_from(v@, d@, i as int) == Some(i as int));
            break;
        }
        i = i + 1;
    }
    if i <= v.len() && d.len() <= v.len() - i {
        Some(i)
    } else {
        None
    }
}

/// `s` with leading whitespace removed.
pub open spec fn trim_start_spec(s: Seq<char>) -> Seq<char>
    decreases s.len(),
{
    if s.len() > 0 && is_space_c(s[0]) {
        trim_start_spec(s.drop_first())
    } else {
        s
    }
}

/// `s` with trailing whitespace removed.
pub open spec fn trim_end_spec(s: Seq<char>) -> Seq<char>
    decreases s.len(),
{
    if s.len() > 0 && is_space_c(s.last()) {
        trim_end_spec(s.drop_last())
    } else {
        s
    }
}

/// `s` with whitespace removed at both ends.
pub open spec fn trim_spec(s: Seq<char>) -> Seq<char> {
    trim_end_spec(trim_start_spec(s))
}

/// Removes whitespace at both ends of `v`.
pub fn trim(v: &Vec<char>) -> (r: Vec<char>)
    ensures
        r@ == trim_spec(v@),
{
    let n: usize = v.len();
    proof {
        assert(v@.skip(0) =~= v@);
    }
    let mut lo: usize = 0;
    while lo < n && is_space(v[lo])
        invariant
            n == v@.len(),
            lo <= n,
            trim_start_spec(v@) == trim_start_spec(v@.skip(lo as int)),
        decreases n - lo,
    {
        proof {
            assert(v@.skip(lo as int).drop_first() =~= v@.skip(lo + 1));
        }
        lo = lo + 1;
    }
    proof {
        if lo < n {
            assert(!is_space_c(v@.skip(lo as int)[0]));
        }
        assert(trim_start_spec(v@.skip(lo as int)) == v@.skip(lo as int));
        assert(v@.skip(lo as int).take(n - lo as int) =~= v@.skip(lo as int));
    }
    let mut hi: usize = n;
    while hi > lo && is_space(v[hi - 1])
        invariant
            lo <= hi <= n == v@.len(),
            trim_start_spec(v@) == v@.skip(lo as int),
            trim_end_spec(v@.skip(lo as int)) == trim_end_spec(
                v@.skip(lo as int).take(hi - lo as int),
            ),
        decreases hi,
    {
        proof {
            let cur = v@.skip(lo as int).take(hi - lo as int);
            assert(cur.last() == v@[hi - 1]);
            assert(cur.drop_last() =~= v@.skip(lo as int).take(hi - 1 - lo as int));
        }
        hi = hi - 1;
    }
    proof {
        let cur = v@.skip(lo as int).take(hi - lo as int);
        if hi > lo {
            assert(cur.last() == v@[hi - 1]);
        }
        assert(trim_end_spec(cur) == cur);
        assert(cur =~= v@.subrange(lo as int, hi as int));
    }
    copy_range(v, lo, hi)
}

/// The pieces of `s` cut at each occurrence of the delimiter `d`,
/// delimiters removed; one piece (all of `s`) when `d` never occurs.
pub open spec fn split_spec(s: Seq<char>, d: Seq<char>) -> Seq<Seq<char>>
    decreases s.len(),
    when d.len() > 0
    via split_spec_decreases
{
    match find_from(s, d, 0) {
        None => seq![s],
        Some(i) => seq![s.subrange(0, i)] + split_spec(
            s.subrange(i + d.len() as int, s.len() as int),
            d,
        ),
    }
}

#[via_fn]
proof fn split_spec_decreases(s: Seq<char>, d: Seq<char>) {
    match find_from(s, d, 0) {
        None => {},
        Some(i) => {
            lemma_find_from_bounds(s, d, 0, i);
        },
    }
}

/// Splits `v` at every occurrence of `d`.
pub fn split_all(v: &Vec<char>, d: &Vec<char>) -> (r: Vec<Vec<char>>)
    requires
        d@.len() > 0,
    ensures
        r.deep_view() == split_spec(v@, d@),
{
    let mut parts: Vec<Vec<char>> = Vec::new();
    let mut rem: Vec<char> = copy_range(v, 0, v.len());
    proof {
        assert(v@.subrange(0, v@.len() as int) =~= v@);
        assert(parts.deep_view() + split_spec(rem@, d@) =~~= split_spec(v@, d@));
    }
    loop
        invariant
            d@.len() > 0,
            split_spec(v@, d@) == parts.deep_view() + split_spec(rem@, d@),
        decreases rem@.len(),
    {
        match find_sub_from(&rem, d, 0) {
            None => {
                let ghost old_parts = parts.deep_view();
                let ghost rem_v = rem@;
                parts.push(rem);
                proof {
                    assert(split_spec(rem_v, d@) == seq![rem_v]);
                    assert(parts.deep_view() =~~= old_parts.push(rem_v));
                    assert(split_spec(v@, d@) =~~= parts.deep_view());
                }
                return parts;
            },
            Some(i) => {
                proof {
                    lemma_find_from_bounds(rem@, d@, 0, i as int);
                }
                let ghost old_parts = parts.deep_view();
                let ghost rem_v = rem@;
                let rlen: usize = rem.len();
                let piece = copy_range(&rem, 0, i);
                let rest = copy_range(&rem, i + d.len(), rlen);
                parts.push(piece);
                proof {
                    assert(split_spec(rem_v, d@) == seq![rem_v.subrange(0, i as int)]
                        + split_spec(rest@, d@));
                    assert(parts.deep_view() =~~= old_parts.push(rem_v.subrange(0, i as int)));
                    assert(parts.deep_view() + split_spec(rest@, d@) =~~= old_parts + split_spec(
                        rem_v,
                        d@,
                    ));
                }
                rem = rest;
            },
        }
    }
}

/// Splits `v` at the first occurrence of `d`, if there is one.
pub fn split_once(v: &Vec<char>, d: &Vec<char>) -> (r: Option<(Vec<char>, Vec<char>)>)
    requires
        d@.len() > 0,
    ensures
        match r {
            Some(pair) => {
                &&& find_from(v@, d@, 0) matches Some(i) && pair.0@ == v@.subrange(0, i)
                    && pair.1@ == v@.subrange(i + d@.len() as int, v@.len() as int)
            },
            None => find_from(v@, d@, 0) is None,
        },
{
    match find_sub_from(v, d, 0) {
        None => None,
        Some(i) => {
            proof {
                lemma_find_from_bounds(v@, d@, 0, i as int);
            }
            let vlen: usize = v.len();
            let pre = copy_range(v, 0, i);
            let post = copy_range(v, i + d.len(), vlen);
            Some((pre, post))
        },
    }
}

/// The character for a single decimal digit.
pub open spec fn digit_char(d: nat) -> char {
    if d == 0 {
        '0'
    } else if d == 1 {
        '1'
    } else if d == 2 {
        '2'
    } else if d == 3 {
        '3'
    } else if d == 4 {
        '4'
    } else if d == 5 {
        '5'
    } else if d == 6 {
        '6'
    } else if d == 7 {
        '7'
    } else if d == 8 {
        '8'
    } else {
        '9'
    }
}

/// Decimal rendering of `n`, most significant digit first.
pub open spec fn dec_spec(n: nat) -> Seq<char>
    decreases n,
{
    if n < 10 {
        seq![digit_char(n)]
    } else {
        dec_spec(n / 10).push(digit_char(n % 10))
    }
}

/// Renders `n` in decimal.
pub fn dec_chars(n: usize) -> (r: Vec<char>)
    ensures
        r@ == dec_spec(n as nat),
    decreases n,
{
    let d: usize = n % 10;
    let c: char = if d == 0 {
        '0'
    } else if d == 1 {
        '1'
    } else if d == 2 {
        '2'
    } else if d == 3 {
        '3'
    } else if d == 4 {
        '4'
    } else if d == 5 {
        '5'
    } else if d == 6 {
        '6'
    } else if d == 7 {
        '7'
    } else if d == 8 {
        '8'
    } else {
        '9'
    };
    if n < 10 {
        let mut out: Vec<char> = Vec::new();
        out.push(c);
        proof {
            assert(out@ =~= seq![digit_char(n as nat)]);
        }
        out
    } else {
        let mut out = dec_chars(n / 10);
        out.push(c);
        out
    }
}

/// Appends the decimal rendering of `n` to `out`.
pub fn append_dec(out: &mut Vec<char>, n: usize)
    ensures
        final(out)@ == old(out)@ + dec_spec(n as nat),
{
    let digits = dec_chars(n);
    append_chars(out, &digits);
}

/// The non-whitespace characters of `s` from position `i` on, in order.
pub open spec fn non_ws_from(s: Seq<char>, i: int) -> Seq<char>
    decreases s.len() - i,
    when 0 <= i
{
    if i >= s.len() {
        Seq::empty()
    } else if is_space_c(s[i]) {
        non_ws_from(s, i + 1)
    } else {
        seq![s[i]] + non_ws_from(s, i + 1)
    }
}

/// The non-whitespace characters of `s`, in reading order.
pub open spec fn non_ws(s: Seq<char>) -> Seq<char> {
    non_ws_from(s, 0)
}

/// Collects the non-whitespace characters of `v` in reading order.
pub fn non_ws_chars(v: &Vec<char>) -> (r: Vec<char>)
    ensures
        r@ == non_ws(v@),
{
    let n: usize = v.len();
    let mut out: Vec<char> = Vec::new();
    let mut i: usize = 0;
    while i < n
        invariant
            n == v@.len(),
            i <= n,
            non_ws(v@) == out@ + non_ws_from(v@, i as int),
        decreases n - i,
    {
        if !is_space(v[i]) {
            out.push(v[i]);
            proof {
                assert(out@ + non_ws_from(v@, i + 1) =~= out@.drop_last() + (seq![v@[i as int]]
                    + non_ws_from(v@, i + 1)));
            }
        }
        i = i + 1;
    }
    proof {
        assert(out@ + non_ws_from(v@, n as int) =~= out@);
    }
    out
}

} // verus!
