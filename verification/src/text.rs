use vstd::prelude::*;
use vstd::string::StringSliceAdditionalSpecFns;

verus! {

broadcast use vstd::string::group_string_axioms;

/// Appends one character to a string (std's `String::push`).
#[verifier::external_body]
pub(crate) fn push_char(s: &mut String, c: char)
    ensures
        final(s)@ == old(s)@.push(c),
{
    s.push(c);
}

/// The characters of `s`, in order.
pub fn to_chars(s: &str) -> (v: Vec<char>)
    ensures
        v@ == s@,
{
    let mut v: Vec<char> = Vec::new();
    for c in it: s.chars()
        invariant
            v@ == it.seq().take(it.index() as int),
    {
        v.push(c);
    }
    v
}

/// Appends a string slice (std's `String::push_str`).
pub fn push_str(s: &mut String, t: &str)
    ensures
        final(s)@ == old(s)@ + t@,
{
    let v = to_chars(t);
    let mut i: usize = 0;
    while i < v.len()
        invariant
            i <= v@.len(),
            v@ == t@,
            s@ == old(s)@ + v@.take(i as int),
        decreases v.len() - i,
    {
        push_char(s, v[i]);
        assert(v@.take(i + 1) == v@.take(i as int).push(v@[i as int]));
        i = i + 1;
    }
    assert(v@.take(v.len() as int) == v@);
}

/// The texts of a list of strings.
pub open spec fn strings_view(v: Seq<String>) -> Seq<Seq<char>> {
    Seq::new(v.len(), |i: int| v[i]@)
}

/// Appends a copy of a string slice to a list of strings.
pub fn push_string(v: &mut Vec<String>, t: &str)
    ensures
        strings_view(final(v)@) == strings_view(old(v)@).push(t@),
{
    v.push(t.to_string());
    assert(strings_view(v@) =~= strings_view(old(v)@).push(t@));
}

/// The string made of the characters of `v`.
pub fn from_chars(v: &[char]) -> (s: String)
    ensures
        s@ == v@,
{
    let mut s = String::new();
    let mut i: usize = 0;
    while i < v.len()
        invariant
            i <= v.len(),
            s@ == v@.take(i as int),
        decreases v.len() - i,
    {
        push_char(&mut s, v[i]);
        assert(v@.take(i + 1) == v@.take(i as int).push(v@[i as int]));
        i = i + 1;
    }
    assert(v@.take(v.len() as int) == v@);
    s
}

} // verus!

verus! {

/// Number of bytes in the UTF-8 encoding of one character.
pub open spec fn char_utf8_len(c: char) -> nat {
    if (c as u32) < 0x80 {
        1
    } else if (c as u32) < 0x800 {
        2
    } else if (c as u32) < 0x10000 {
        3
    } else {
        4
    }
}

/// Number of bytes in the UTF-8 encoding of a character sequence (what `str::len` reports).
pub open spec fn utf8_len(s: Seq<char>) -> nat
    decreases s.len(),
{
    if s.len() == 0 {
        0
    } else {
        utf8_len(s.drop_last()) + char_utf8_len(s.last())
    }
}

pub proof fn lemma_utf8_len_concat(a: Seq<char>, b: Seq<char>)
    ensures
        utf8_len(a + b) == utf8_len(a) + utf8_len(b),
    decreases b.len(),
{
    if b.len() == 0 {
        assert(a + b == a);
    } else {
        lemma_utf8_len_concat(a, b.drop_last());
        assert((a + b).drop_last() == a + b.drop_last());
        assert((a + b).last() == b.last());
    }
}

pub proof fn lemma_utf8_len_ge_len(a: Seq<char>)
    ensures
        utf8_len(a) >= a.len(),
        utf8_len(a) <= 4 * a.len(),
    decreases a.len(),
{
    if a.len() > 0 {
        lemma_utf8_len_ge_len(a.drop_last());
    }
}

proof fn lemma_encode_utf8_len(s: Seq<char>)
    ensures
        vstd::utf8::encode_utf8(s).len() == utf8_len(s),
    decreases s.len(),
{
    if s.len() > 0 {
        lemma_encode_utf8_len(s.drop_first());
        let c = s[0];
        vstd::utf8::char_is_scalar(c);
        let u = c as u32;
        assert(vstd::utf8::encode_scalar(u).len() == char_utf8_len(c));
        assert(seq![c] + s.drop_first() == s);
        lemma_utf8_len_concat(seq![c], s.drop_first());
        assert(seq![c].drop_last() == Seq::<char>::empty());
        assert(seq![c].last() == c);
        assert(utf8_len(Seq::<char>::empty()) == 0);
        assert(utf8_len(seq![c]) == char_utf8_len(c));
        reveal_with_fuel(vstd::utf8::encode_utf8, 2);
        assert(vstd::utf8::encode_utf8(s) == vstd::utf8::encode_scalar(s[0] as u32)
            + vstd::utf8::encode_utf8(s.drop_first()));
    }
}

/// The byte length that `str::len` reports equals `utf8_len` of the characters.
pub proof fn lemma_str_len(s: &str)
    ensures
        s.spec_bytes().len() == utf8_len(s@),
{
    lemma_encode_utf8_len(s@);
}

/// Byte length of a string slice, as `str::len` computes it.
pub fn byte_len(s: &str) -> (n: usize)
    ensures
        n == utf8_len(s@),
{
    proof {
        lemma_str_len(s);
    }
    s.as_bytes().len()
}

/// Number of characters of a string slice.
pub fn char_count(s: &str) -> (n: usize)
    ensures
        n == s@.len(),
{
    s.unicode_len()
}

} // verus!

verus! {

/// `p` occurs in `h` starting at character index `i`.
pub open spec fn matches_at(h: Seq<char>, p: Seq<char>, i: int) -> bool {
    &&& 0 <= i
    &&& i + p.len() <= h.len()
    &&& h.subrange(i, i + p.len()) == p
}

/// Index of the first occurrence of `p` in `h` at or after `i` (an empty `p` matches at once).
pub open spec fn find_from(h: Seq<char>, p: Seq<char>, i: nat) -> Option<nat>
    decreases h.len() + 1 - i,
{
    if i + p.len() > h.len() {
        None
    } else if matches_at(h, p, i as int) {
        Some(i)
    } else {
        find_from(h, p, i + 1)
    }
}

/// Index of the first occurrence of `p` in `h`, as `str::find` reports it (counted in characters).
pub open spec fn find(h: Seq<char>, p: Seq<char>) -> Option<nat> {
    find_from(h, p, 0)
}

/// `h` contains `p`, as `str::contains` decides it.
pub open spec fn contains(h: Seq<char>, p: Seq<char>) -> bool {
    find(h, p) is Some
}

pub open spec fn starts_with(h: Seq<char>, p: Seq<char>) -> bool {
    p.len() <= h.len() && h.take(p.len() as int) == p
}

pub open spec fn ends_with(h: Seq<char>, p: Seq<char>) -> bool {
    p.len() <= h.len() && h.skip(h.len() - p.len()) == p
}

pub proof fn lemma_find_from_props(h: Seq<char>, p: Seq<char>, i: nat)
    ensures
        find_from(h, p, i) matches Some(k) ==> {
            &&& i <= k
            &&& matches_at(h, p, k as int)
            &&& forall|j: int| i <= j < k ==> !matches_at(h, p, j)
        },
        find_from(h, p, i) is None ==> forall|j: int| i <= j ==> !matches_at(h, p, j),
    decreases h.len() + 1 - i,
{
    if i + p.len() > h.len() {
    } else if matches_at(h, p, i as int) {
    } else {
        lemma_find_from_props(h, p, i + 1);
    }
}

/// Decides `matches_at`.
pub fn matches_at_chars(h: &[char], p: &[char], i: usize) -> (b: bool)
    ensures
        b == matches_at(h@, p@, i as int),
{
    if i > h.len() || p.len() > h.len() - i {
        return false;
    }
    match_here(h, p, i)
}

/// Decides `matches_at` for a position that fits.
fn match_here(h: &[char], p: &[char], i: usize) -> (b: bool)
    requires
        i + p@.len() <= h@.len(),
    ensures
        b == matches_at(h@, p@, i as int),
{
    let hl = h.len();
    let mut j: usize = 0;
    while j < p.len()
        invariant
            j <= p@.len(),
            hl == h@.len(),
            i + p@.len() <= h@.len(),
            forall|k: int| 0 <= k < j ==> h@[i + k] == p@[k],
        decreases p.len() - j,
    {
        if h[i + j] != p[j] {
            assert(h@.subrange(i as int, i + p@.len())[j as int] != p@[j as int]);
            return false;
        }
        j = j + 1;
    }
    assert(h@.subrange(i as int, i + p@.len()) =~= p@);
    true
}

/// First occurrence of `p` in `h` at or after `from`.
pub fn find_chars(h: &[char], p: &[char], from: usize) -> (r: Option<usize>)
    ensures
        r matches Some(k) ==> find_from(h@, p@, from as nat) == Some(k as nat),
        r is None ==> find_from(h@, p@, from as nat) is None,
{
    if p.len() > h.len() {
        return None;
    }
    let last = h.len() - p.len();
    let mut i = from;
    while i <= last
        invariant
            last + p@.len() == h@.len(),
            from <= i,
            find_from(h@, p@, from as nat) == find_from(h@, p@, i as nat),
        decreases last + 1 - i,
    {
        if match_here(h, p, i) {
            return Some(i);
        }
        if i == last {
            assert(find_from(h@, p@, (i + 1) as nat) is None);
            return None;
        }
        i = i + 1;
    }
    None
}

/// Decides `starts_with`.
pub fn starts_with_chars(h: &[char], p: &[char]) -> (b: bool)
    ensures
        b == starts_with(h@, p@),
{
    if p.len() > h.len() {
        return false;
    }
    let b = match_here(h, p, 0);
    assert(h@.subrange(0, p@.len() as int) == h@.take(p@.len() as int));
    b
}

/// Decides `ends_with`.
pub fn ends_with_chars(h: &[char], p: &[char]) -> (b: bool)
    ensures
        b == ends_with(h@, p@),
{
    if p.len() > h.len() {
        return false;
    }
    let b = match_here(h, p, h.len() - p.len());
    assert(h@.subrange(h@.len() - p@.len(), h@.len() as int) == h@.skip(h@.len() - p@.len()));
    b
}

/// Decides `contains`.
pub fn contains_chars(h: &[char], p: &[char]) -> (b: bool)
    ensures
        b == contains(h@, p@),
{
    find_chars(h, p, 0).is_some()
}

/// `str::contains` on string slices.
pub fn str_contains(h: &str, p: &str) -> (b: bool)
    ensures
        b == contains(h@, p@),
{
    let hv = to_chars(h);
    let pv = to_chars(p);
    contains_chars(hv.as_slice(), pv.as_slice())
}

/// `str::starts_with` on string slices.
pub fn str_starts_with(h: &str, p: &str) -> (b: bool)
    ensures
        b == starts_with(h@, p@),
{
    let hv = to_chars(h);
    let pv = to_chars(p);
    starts_with_chars(hv.as_slice(), pv.as_slice())
}

/// `str::ends_with` on string slices.
pub fn str_ends_with(h: &str, p: &str) -> (b: bool)
    ensures
        b == ends_with(h@, p@),
{
    let hv = to_chars(h);
    let pv = to_chars(p);
    ends_with_chars(hv.as_slice(), pv.as_slice())
}

} // verus!

verus! {

/// Unicode `White_Space`, the set `char::is_whitespace` tests.
pub open spec fn is_ws(c: char) -> bool {
    let u = c as u32;
    ||| 0x09 <= u <= 0x0D
    ||| u == 0x20
    ||| u == 0x85
    ||| u == 0xA0
    ||| u == 0x1680
    ||| 0x2000 <= u <= 0x200A
    ||| u == 0x2028
    ||| u == 0x2029
    ||| u == 0x202F
    ||| u == 0x205F
    ||| u == 0x3000
}

pub fn is_whitespace(c: char) -> (b: bool)
    ensures
        b == is_ws(c),
{
    let u = c as u32;
    (0x09 <= u && u <= 0x0D) || u == 0x20 || u == 0x85 || u == 0xA0 || u == 0x1680 || (0x2000 <= u
        && u <= 0x200A) || u == 0x2028 || u == 0x2029 || u == 0x202F || u == 0x205F || u == 0x3000
}

/// Drops leading whitespace (`str::trim_start`).
pub open spec fn trim_start(s: Seq<char>) -> Seq<char>
    decreases s.len(),
{
    if s.len() > 0 && is_ws(s[0]) {
        trim_start(s.drop_first())
    } else {
        s
    }
}

/// Drops trailing whitespace (`str::trim_end`).
pub open spec fn trim_end(s: Seq<char>) -> Seq<char>
    decreases s.len(),
{
    if s.len() > 0 && is_ws(s.last()) {
        trim_end(s.drop_last())
    } else {
        s
    }
}

/// Drops leading and trailing whitespace (`str::trim`).
pub open spec fn trim(s: Seq<char>) -> Seq<char> {
    trim_end(trim_start(s))
}

proof fn lemma_trim_start_skip(s: Seq<char>, a: int)
    requires
        0 <= a <= s.len(),
        forall|k: int| 0 <= k < a ==> is_ws(s[k]),
        a == s.len() || !is_ws(s[a]),
    ensures
        trim_start(s) == s.skip(a),
    decreases a,
{
    if a == 0 {
        assert(s.skip(0) == s);
    } else {
        lemma_trim_start_skip(s.drop_first(), a - 1);
        assert(s.drop_first().skip(a - 1) == s.skip(a));
    }
}

proof fn lemma_trim_end_take(s: Seq<char>, b: int)
    requires
        0 <= b <= s.len(),
        forall|k: int| b <= k < s.len() ==> is_ws(s[k]),
        b == 0 || !is_ws(s[b - 1]),
    ensures
        trim_end(s) == s.take(b),
    decreases s.len() - b,
{
    if b == s.len() {
        assert(s.take(b) == s);
    } else {
        lemma_trim_end_take(s.drop_last(), b);
        assert(s.drop_last().take(b) == s.take(b));
    }
}

/// `str::trim` on a character vector.
pub fn trim_chars(v: &[char]) -> (r: Vec<char>)
    ensures
        r@ == trim(v@),
{
    let n = v.len();
    let mut a: usize = 0;
    while a < n && is_whitespace(v[a])
        invariant
            a <= n,
            n == v@.len(),
            forall|k: int| 0 <= k < a ==> is_ws(v@[k]),
        decreases n - a,
    {
        a = a + 1;
    }
    proof {
        lemma_trim_start_skip(v@, a as int);
    }
    let ghost t = v@.skip(a as int);
    let mut b: usize = n;
    while b > a && is_whitespace(v[b - 1])
        invariant
            a <= b <= n,
            n == v@.len(),
            forall|k: int| b <= k < n ==> is_ws(v@[k]),
        decreases b - a,
    {
        b = b - 1;
    }
    proof {
        assert forall|k: int| (b - a) <= k < t.len() implies is_ws(t[k]) by {
            assert(t[k] == v@[k + a]);
        }
        if b > a {
            assert(t[b - a - 1] == v@[b - 1]);
        }
        lemma_trim_end_take(t, b - a);
        assert(t.take(b - a) == v@.subrange(a as int, b as int));
    }
    let mut r: Vec<char> = Vec::new();
    let mut i = a;
    while i < b
        invariant
            a <= i <= b <= n,
            n == v@.len(),
            r@ == v@.subrange(a as int, i as int),
        decreases b - i,
    {
        r.push(v[i]);
        assert(v@.subrange(a as int, i + 1) == v@.subrange(a as int, i as int).push(v@[i as int]));
        i = i + 1;
    }
    r
}

/// `str::trim` on a string slice.
pub fn trim_str(s: &str) -> (r: String)
    ensures
        r@ == trim(s@),
{
    let v = to_chars(s);
    let t = trim_chars(v.as_slice());
    from_chars(t.as_slice())
}

/// The first `n` characters (all of them when there are fewer).
pub open spec fn prefix_chars(s: Seq<char>, n: nat) -> Seq<char> {
    if n < s.len() {
        s.take(n as int)
    } else {
        s
    }
}

/// The last `n` characters (all of them when there are fewer).
pub open spec fn suffix_chars(s: Seq<char>, n: nat) -> Seq<char> {
    if s.len() <= n {
        s
    } else {
        s.skip(s.len() - n)
    }
}

/// Copies `v[from..to]`.
pub fn slice_chars(v: &[char], from: usize, to: usize) -> (r: Vec<char>)
    requires
        from <= to <= v@.len(),
    ensures
        r@ == v@.subrange(from as int, to as int),
{
    let mut r: Vec<char> = Vec::new();
    let mut i = from;
    while i < to
        invariant
            from <= i <= to <= v@.len(),
            r@ == v@.subrange(from as int, i as int),
        decreases to - i,
    {
        r.push(v[i]);
        assert(v@.subrange(from as int, i + 1) == v@.subrange(from as int, i as int).push(
            v@[i as int],
        ));
        i = i + 1;
    }
    r
}

/// Appends all of `w` to `v`.
pub fn extend_chars(v: &mut Vec<char>, w: &[char])
    ensures
        final(v)@ == old(v)@ + w@,
{
    let mut i: usize = 0;
    while i < w.len()
        invariant
            i <= w@.len(),
            v@ == old(v)@ + w@.take(i as int),
        decreases w.len() - i,
    {
        v.push(w[i]);
        assert(w@.take(i + 1) == w@.take(i as int).push(w@[i as int]));
        i = i + 1;
    }
    assert(w@.take(w@.len() as int) == w@);
}

/// Appends the characters of `s` to `v`.
pub fn extend_str(v: &mut Vec<char>, s: &str)
    ensures
        final(v)@ == old(v)@ + s@,
{
    let w = to_chars(s);
    extend_chars(v, w.as_slice());
}

/// The first `n` characters of `s`.
pub fn take_chars_str(s: &str, n: usize) -> (r: String)
    ensures
        r@ == prefix_chars(s@, n as nat),
{
    let v = to_chars(s);
    if n < v.len() {
        let p = slice_chars(v.as_slice(), 0, n);
        from_chars(p.as_slice())
    } else {
        from_chars(v.as_slice())
    }
}

/// The last `n` characters of `s`.
pub fn last_chars_str(s: &str, n: usize) -> (r: String)
    ensures
        r@ == suffix_chars(s@, n as nat),
{
    let v = to_chars(s);
    let len = v.len();
    if len <= n {
        from_chars(v.as_slice())
    } else {
        let p = slice_chars(v.as_slice(), len - n, len);
        assert(v@.subrange((len - n) as int, len as int) == v@.skip(len - n));
        from_chars(p.as_slice())
    }
}

} // verus!

verus! {

/// `str::replace` for a non-empty pattern: every non-overlapping occurrence of `from`,
/// scanning left to right, replaced by `to`.
pub open spec fn replace_all(s: Seq<char>, from: Seq<char>, to: Seq<char>) -> Seq<char>
    decreases s.len(),
{
    if from.len() == 0 {
        s
    } else {
        match find(s, from) {
            None => s,
            Some(i) => {
                proof {
                    lemma_find_from_props(s, from, 0);
                }
                s.take(i as int) + to + replace_all(s.skip((i + from.len()) as int), from, to)
            },
        }
    }
}

pub proof fn lemma_find_shift(s: Seq<char>, p: Seq<char>, pos: nat, k: nat)
    requires
        pos <= s.len(),
    ensures
        find_from(s, p, pos + k) == (match find_from(s.skip(pos as int), p, k) {
            Some(x) => Some(x + pos),
            None => None,
        }),
    decreases s.len() + 1 - (pos + k),
{
    let t = s.skip(pos as int);
    if pos + k + p.len() > s.len() {
    } else {
        assert(matches_at(s, p, (pos + k) as int) == matches_at(t, p, k as int)) by {
            if k + p.len() <= t.len() {
                assert(s.subrange((pos + k) as int, (pos + k + p.len()) as int) =~= t.subrange(
                    k as int,
                    (k + p.len()) as int,
                ));
            }
        }
        if !matches_at(s, p, (pos + k) as int) {
            lemma_find_shift(s, p, pos, k + 1);
            assert(pos + (k + 1) == (pos + k) + 1);
        }
    }
}

/// `str::replace` on a character vector (non-empty pattern).
pub fn replace_chars(s: &[char], from: &[char], to: &[char]) -> (r: Vec<char>)
    requires
        from@.len() > 0,
    ensures
        r@ == replace_all(s@, from@, to@),
{
    let mut out: Vec<char> = Vec::new();
    let mut pos: usize = 0;
    assert(s@.skip(0) == s@);
    assert(out@ + replace_all(s@, from@, to@) == replace_all(s@, from@, to@));
    loop
        invariant
            pos <= s@.len(),
            from@.len() > 0,
            out@ + replace_all(s@.skip(pos as int), from@, to@) == replace_all(s@, from@, to@),
        decreases s@.len() - pos,
    {
        let ghost rest = s@.skip(pos as int);
        proof {
            lemma_find_shift(s@, from@, pos as nat, 0);
            assert(pos + 0 == pos);
        }
        match find_chars(s, from, pos) {
            None => {
                let tail = slice_chars(s, pos, s.len());
                assert(tail@ == rest);
                extend_chars(&mut out, tail.as_slice());
                return out;
            },
            Some(k) => {
                proof {
                    lemma_find_from_props(s@, from@, pos as nat);
                }
                let mid = slice_chars(s, pos, k);
                let ghost i = (k - pos) as nat;
                assert(find(rest, from@) == Some(i));
                assert(mid@ == rest.take(i as int));
                assert(rest.skip((i + from@.len()) as int) == s@.skip(k + from@.len()));
                let ghost before = out@;
                extend_chars(&mut out, mid.as_slice());
                extend_chars(&mut out, to);
                assert(out@ == before + (rest.take(i as int) + to@));
                assert(replace_all(rest, from@, to@) == rest.take(i as int) + to@ + replace_all(
                    rest.skip((i + from@.len()) as int),
                    from@,
                    to@,
                ));
                let sl = s.len();
                assert(k + from@.len() <= s@.len());
                assert(s@.len() == sl);
                pos = k + from.len();
            },
        }
    }
}

/// `str::replace` on string slices (non-empty pattern).
pub fn replace_str(s: &str, from: &str, to: &str) -> (r: String)
    requires
        from@.len() > 0,
    ensures
        r@ == replace_all(s@, from@, to@),
{
    let sv = to_chars(s);
    let fv = to_chars(from);
    let tv = to_chars(to);
    let r = replace_chars(sv.as_slice(), fv.as_slice(), tv.as_slice());
    from_chars(r.as_slice())
}

} // verus!

verus! {

/// The ASCII digit for `d < 10`.
pub open spec fn digit_char(d: nat) -> char {
    ((d + 48) as u32) as char
}

/// Decimal notation of `n`, as `{}` formats an unsigned integer.
pub open spec fn decimal(n: nat) -> Seq<char>
    decreases n,
{
    if n < 10 {
        seq![digit_char(n)]
    } else {
        decimal(n / 10).push(digit_char(n % 10))
    }
}

fn push_decimal(v: &mut Vec<char>, n: u64)
    ensures
        final(v)@ == old(v)@ + decimal(n as nat),
    decreases n,
{
    if n >= 10 {
        push_decimal(v, n / 10);
    }
    let d = (n % 10) as u8 + 48;
    let c = d as char;
    assert(c == digit_char((n % 10) as nat));
    v.push(c);
}

/// Decimal notation of an unsigned integer.
pub fn u64_to_decimal(n: u64) -> (s: String)
    ensures
        s@ == decimal(n as nat),
{
    let mut v: Vec<char> = Vec::new();
    push_decimal(&mut v, n);
    assert(v@ == decimal(n as nat));
    from_chars(v.as_slice())
}

/// Appends the decimal notation of `n` to `v`.
pub fn extend_decimal(v: &mut Vec<char>, n: u64)
    ensures
        final(v)@ == old(v)@ + decimal(n as nat),
{
    push_decimal(v, n);
}

pub open spec fn is_digit(c: char) -> bool {
    '0' <= c <= '9'
}

/// Value of a string of ASCII digits.
pub open spec fn digits_value(s: Seq<char>) -> nat
    decreases s.len(),
{
    if s.len() == 0 {
        0
    } else {
        digits_value(s.drop_last()) * 10 + ((s.last() as u32) - 48) as nat
    }
}

/// The part of `s` after an optional leading `+`.
pub open spec fn unsigned_digits(s: Seq<char>) -> Seq<char> {
    if s.len() > 0 && s[0] == '+' {
        s.drop_first()
    } else {
        s
    }
}

/// The value of a non-empty run of ASCII digits that fits in 64 bits.
pub open spec fn parse_digits_u64(d: Seq<char>) -> Option<u64> {
    if d.len() == 0 || exists|i: int| 0 <= i < d.len() && !is_digit(#[trigger] d[i]) {
        None
    } else if digits_value(d) > u64::MAX {
        None
    } else {
        Some(digits_value(d) as u64)
    }
}

/// What `str::parse::<u64>` accepts: an optional `+`, then one or more ASCII digits whose value
/// fits in 64 bits.
pub open spec fn parse_u64(s: Seq<char>) -> Option<u64> {
    parse_digits_u64(unsigned_digits(s))
}

proof fn lemma_digits_value_take(d: Seq<char>, i: int)
    requires
        0 <= i < d.len(),
    ensures
        digits_value(d.take(i + 1)) == digits_value(d.take(i)) * 10 + ((d[i] as u32) - 48) as nat,
{
    assert(d.take(i + 1).drop_last() == d.take(i));
}

proof fn lemma_digits_value_mono(d: Seq<char>, i: int, j: int)
    requires
        0 <= i <= j <= d.len(),
        forall|k: int| 0 <= k < d.len() ==> is_digit(#[trigger] d[k]),
    ensures
        digits_value(d.take(i)) <= digits_value(d.take(j)),
    decreases j - i,
{
    if i < j {
        lemma_digits_value_mono(d, i, j - 1);
        lemma_digits_value_take(d, j - 1);
    }
}

/// `str::parse::<u64>`.
pub fn parse_u64_str(s: &str) -> (r: Option<u64>)
    ensures
        r == parse_u64(s@),
{
    let v = to_chars(s);
    let start: usize = if v.len() > 0 && v[0] == '+' {
        1
    } else {
        0
    };
    let ghost d = unsigned_digits(s@);
    assert(d == v@.skip(start as int));
    if v.len() == start {
        return None;
    }
    let mut acc: u64 = 0;
    let mut i = start;
    let ghost mut overflow = false;
    while i < v.len()
        invariant
            start <= i <= v@.len(),
            v@ == s@,
            d == unsigned_digits(s@),
            d == v@.skip(start as int),
            d.len() > 0,
            forall|k: int| 0 <= k < i - start ==> is_digit(#[trigger] d[k]),
            acc == digits_value(d.take(i - start)),
        decreases v.len() - i,
    {
        let c = v[i];
        assert(d[i - start] == c);
        if !('0' <= c && c <= '9') {
            assert(!is_digit(d[i - start]));
            return None;
        }
        let dv = (c as u32 - 48) as u64;
        proof {
            lemma_digits_value_take(d, i - start);
        }
        if acc > (u64::MAX - dv) / 10 {
            proof {
                assert(forall|k: int| 0 <= k < i - start + 1 ==> is_digit(#[trigger] d[k]));
                assert(digits_value(d.take(i - start + 1)) > u64::MAX) by (nonlinear_arith)
                    requires
                        acc > (u64::MAX - dv) / 10,
                        digits_value(d.take(i - start + 1)) == acc * 10 + dv,
                        dv <= 9,
                ;
                // the rest is either a non-digit (rejected) or makes the value larger
                if !(exists|k: int| 0 <= k < d.len() && !is_digit(#[trigger] d[k])) {
                    lemma_digits_value_mono(d, i - start + 1, d.len() as int);
                    assert(d.take(d.len() as int) == d);
                    assert(digits_value(d) > u64::MAX);
                }
            }
            return None;
        }
        acc = acc * 10 + dv;
        i = i + 1;
    }
    assert(d.take(d.len() as int) == d);
    Some(acc)
}

} // verus!

verus! {

/// Every character is ASCII.
pub open spec fn all_ascii(s: Seq<char>) -> bool {
    forall|i: int| 0 <= i < s.len() ==> (#[trigger] s[i] as u32) < 0x80
}

pub proof fn lemma_utf8_len_ascii(s: Seq<char>)
    requires
        all_ascii(s),
    ensures
        utf8_len(s) == s.len(),
    decreases s.len(),
{
    if s.len() > 0 {
        assert(all_ascii(s.drop_last())) by {
            assert forall|i: int| 0 <= i < s.drop_last().len() implies (#[trigger] s.drop_last()[i]
                as u32) < 0x80 by {
                assert(s.drop_last()[i] == s[i]);
            }
        }
        lemma_utf8_len_ascii(s.drop_last());
        assert((s.last() as u32) < 0x80) by {
            assert(s.last() == s[s.len() - 1]);
        }
    }
}

pub proof fn lemma_all_ascii_concat(a: Seq<char>, b: Seq<char>)
    requires
        all_ascii(a),
        all_ascii(b),
    ensures
        all_ascii(a + b),
{
    assert forall|i: int| 0 <= i < (a + b).len() implies (#[trigger] (a + b)[i] as u32) < 0x80 by {
        if i < a.len() {
            assert((a + b)[i] == a[i]);
        } else {
            assert((a + b)[i] == b[i - a.len()]);
        }
    }
}

/// Decimal notation is ASCII digits, at most 20 of them for a 64-bit value.
pub proof fn lemma_decimal_ascii(n: nat)
    ensures
        all_ascii(decimal(n)),
        n <= u64::MAX ==> decimal(n).len() <= 20,
        n < 10 ==> decimal(n).len() == 1,
    decreases n,
{
    if n < 10 {
        assert(decimal(n) == seq![digit_char(n)]);
    } else {
        lemma_decimal_ascii(n / 10);
        assert(decimal(n) == decimal(n / 10).push(digit_char(n % 10)));
        assert forall|i: int| 0 <= i < decimal(n).len() implies (#[trigger] decimal(n)[i] as u32)
            < 0x80 by {
            if i < decimal(n / 10).len() {
                assert(decimal(n)[i] == decimal(n / 10)[i]);
            }
        }
        if n <= u64::MAX {
            lemma_decimal_len_bound(n);
        }
    }
}

proof fn lemma_decimal_len_bound(n: nat)
    requires
        n <= u64::MAX,
    ensures
        decimal(n).len() <= 20,
{
    reveal_with_fuel(pow10, 21);
    assert(pow10(20) == 100000000000000000000nat);
    lemma_decimal_len_pow(n, 20);
}

spec fn pow10(k: nat) -> nat
    decreases k,
{
    if k == 0 {
        1
    } else {
        10 * pow10((k - 1) as nat)
    }
}

proof fn lemma_decimal_len_pow(n: nat, k: nat)
    requires
        k >= 1,
        n < pow10(k),
    ensures
        decimal(n).len() <= k,
    decreases k,
{
    if n < 10 {
        assert(decimal(n) == seq![digit_char(n)]);
    } else {
        assert(k >= 2) by {
            if k == 1 {
                assert(pow10(1) == 10 * pow10(0));
            }
        }
        assert(n / 10 < pow10((k - 1) as nat)) by (nonlinear_arith)
            requires
                n < pow10(k),
                pow10(k) == 10 * pow10((k - 1) as nat),
        ;
        lemma_decimal_len_pow(n / 10, (k - 1) as nat);
        assert(decimal(n) == decimal(n / 10).push(digit_char(n % 10)));
    }
}

} // verus!

verus! {

/// Where the JSON object that starts `rem` (with `{`) closes: the index of the `}` at which the
/// brace depth, counted from `depth` before index `i`, returns to zero.
pub open spec fn close_index(rem: Seq<char>, i: nat, depth: int) -> Option<nat>
    decreases rem.len() - i,
{
    if i >= rem.len() {
        None
    } else if rem[i as int] == '{' {
        close_index(rem, i + 1, depth + 1)
    } else if rem[i as int] == '}' {
        if depth - 1 == 0 {
            Some(i)
        } else {
            close_index(rem, i + 1, depth - 1)
        }
    } else {
        close_index(rem, i + 1, depth)
    }
}

/// Finds the closing brace of the object that starts `rem`.
pub fn find_close_index(rem: &[char]) -> (r: Option<usize>)
    requires
        rem@.len() > 0,
        rem@[0] == '{',
    ensures
        r matches Some(k) ==> close_index(rem@, 0, 0) == Some(k as nat) && k < rem@.len(),
        r is None ==> close_index(rem@, 0, 0) is None,
{
    let n = rem.len();
    let mut depth: usize = 1;
    let mut i: usize = 1;
    assert(close_index(rem@, 0, 0) == close_index(rem@, 1, 1));
    while i < n
        invariant
            1 <= i <= n,
            n == rem@.len(),
            1 <= depth <= i,
            close_index(rem@, 0, 0) == close_index(rem@, i as nat, depth as int),
        decreases n - i,
    {
        let c = rem[i];
        if c == '{' {
            depth = depth + 1;
        } else if c == '}' {
            if depth == 1 {
                return Some(i);
            }
            depth = depth - 1;
        }
        i = i + 1;
    }
    None
}

} // verus!

verus! {

/// String equality on slices.
pub fn str_eq(a: &str, b: &str) -> (r: bool)
    ensures
        r == (a@ == b@),
{
    let av = to_chars(a);
    let bv = to_chars(b);
    if av.len() != bv.len() {
        return false;
    }
    let mut i: usize = 0;
    while i < av.len()
        invariant
            av@.len() == bv@.len(),
            av@ == a@,
            bv@ == b@,
            i <= av@.len(),
            forall|k: int| 0 <= k < i ==> av@[k] == bv@[k],
        decreases av.len() - i,
    {
        if av[i] != bv[i] {
            assert(av@[i as int] != bv@[i as int]);
            return false;
        }
        i = i + 1;
    }
    assert(av@ =~= bv@);
    true
}

} // verus!

verus! {

pub proof fn lemma_find_first(h: Seq<char>, p: Seq<char>, k: nat)
    requires
        matches_at(h, p, k as int),
        forall|j: int| 0 <= j < k ==> !matches_at(h, p, j),
    ensures
        find(h, p) == Some(k),
{
    lemma_find_first_from(h, p, 0, k);
}

proof fn lemma_find_first_from(h: Seq<char>, p: Seq<char>, i: nat, k: nat)
    requires
        i <= k,
        matches_at(h, p, k as int),
        forall|j: int| i <= j < k ==> !matches_at(h, p, j),
    ensures
        find_from(h, p, i) == Some(k),
    decreases k - i,
{
    if i < k {
        lemma_find_first_from(h, p, i + 1, k);
    }
}

pub proof fn lemma_find_none(h: Seq<char>, p: Seq<char>)
    requires
        forall|j: int| 0 <= j ==> !matches_at(h, p, j),
    ensures
        find(h, p) is None,
{
    lemma_find_none_from(h, p, 0);
}

proof fn lemma_find_none_from(h: Seq<char>, p: Seq<char>, i: nat)
    requires
        forall|j: int| i <= j ==> !matches_at(h, p, j),
    ensures
        find_from(h, p, i) is None,
    decreases h.len() + 1 - i,
{
    if i + p.len() <= h.len() {
        lemma_find_none_from(h, p, i + 1);
    }
}

/// A line without a carriage return that ended it.
pub open spec fn strip_cr(l: Seq<char>) -> Seq<char> {
    if l.len() > 0 && l.last() == '\r' {
        l.drop_last()
    } else {
        l
    }
}

/// The lines of a text, as `str::lines` yields them: split at `\n`, a `\r` before the `\n`
/// dropped, and no empty line after a final `\n`.
pub open spec fn lines(s: Seq<char>) -> Seq<Seq<char>>
    decreases s.len(),
{
    if s.len() == 0 {
        Seq::empty()
    } else {
        match find(s, seq!['\n']) {
            None => seq![s],
            Some(i) => {
                proof {
                    lemma_find_from_props(s, seq!['\n'], 0);
                }
                seq![strip_cr(s.take(i as int))] + lines(s.skip(i + 1 as int))
            },
        }
    }
}

pub open spec fn vecs_view(v: Seq<Vec<char>>) -> Seq<Seq<char>> {
    Seq::new(v.len(), |i: int| v[i]@)
}

/// `str::lines` on a character vector.
pub fn split_lines(s: &[char]) -> (r: Vec<Vec<char>>)
    ensures
        vecs_view(r@) == lines(s@),
{
    let n = s.len();
    let mut acc: Vec<Vec<char>> = Vec::new();
    let mut cur: Vec<char> = Vec::new();
    let mut start: usize = 0;
    let mut i: usize = 0;
    assert(s@.skip(0) == s@);
    while i < n
        invariant
            n == s@.len(),
            start <= i <= n,
            cur@ == s@.subrange(start as int, i as int),
            forall|k: int| start <= k < i ==> s@[k] != '\n',
            vecs_view(acc@) + lines(s@.skip(start as int)) == lines(s@),
        decreases n - i,
    {
        let c = s[i];
        if c == '\n' {
            let ghost t = s@.skip(start as int);
            proof {
                let k = (i - start) as nat;
                assert(matches_at(t, seq!['\n'], k as int)) by {
                    assert(t.subrange(k as int, k + 1 as int) =~= seq!['\n']);
                }
                assert forall|j: int| 0 <= j < k implies !matches_at(t, seq!['\n'], j) by {
                    assert(t.subrange(j, j + 1)[0] == s@[start + j]);
                }
                lemma_find_first(t, seq!['\n'], k);
                assert(t.take(k as int) == cur@);
                assert(t.skip(k + 1 as int) == s@.skip(i + 1));
                assert(lines(t) == seq![strip_cr(cur@)] + lines(s@.skip(i + 1)));
            }
            let line = if cur.len() > 0 && cur[cur.len() - 1] == '\r' {
                let mut l = cur.clone();
                l.pop();
                assert(l@ == cur@.drop_last());
                l
            } else {
                cur.clone()
            };
            let ghost before = vecs_view(acc@);
            acc.push(line);
            assert(vecs_view(acc@) =~= before.push(strip_cr(cur@)));
            assert(vecs_view(acc@) + lines(s@.skip(i + 1)) =~= before + (seq![strip_cr(cur@)] + lines(
                s@.skip(i + 1),
            )));
            cur = Vec::new();
            start = i + 1;
        } else {
            cur.push(c);
            assert(cur@ =~= s@.subrange(start as int, i + 1));
        }
        i = i + 1;
    }
    let ghost t = s@.skip(start as int);
    if cur.len() > 0 {
        proof {
            assert(t == cur@);
            assert forall|j: int| 0 <= j implies !matches_at(t, seq!['\n'], j) by {
                if j + 1 <= t.len() {
                    assert(t.subrange(j, j + 1)[0] == s@[start + j]);
                }
            }
            lemma_find_none(t, seq!['\n']);
        }
        let ghost before = vecs_view(acc@);
        acc.push(cur);
        assert(vecs_view(acc@) =~= before + seq![t]);
    } else {
        assert(t.len() == 0);
        assert(vecs_view(acc@) + Seq::<Seq<char>>::empty() == vecs_view(acc@));
    }
    acc
}

} // verus!

verus! {

/// What `str::to_lowercase` returns: the text under Unicode's lower-case mapping, which is per
/// character except for a final capital sigma, which becomes `ς` at the end of a word.
pub uninterp spec fn lowercase(s: Seq<char>) -> Seq<char>;

/// `str::to_lowercase`.
#[verifier::external_body]
pub fn to_lowercase(s: &str) -> (r: String)
    ensures
        r@ == lowercase(s@),
{
    s.to_lowercase()
}

} // verus!
