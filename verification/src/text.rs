//! Character-level text handling: the view of a string is its sequence of
//! characters, and every operation here is stated over that view.
use vstd::prelude::*;

verus! {

// ---------------------------------------------------------------------------
// Specifications
// ---------------------------------------------------------------------------

/// The Unicode `White_Space` property, which is what `char::is_whitespace`
/// and therefore `str::trim` and `str::split_whitespace` go by.
pub open spec fn is_space(c: char) -> bool {
    ||| ('\u{9}' <= c && c <= '\u{d}')
    ||| c == ' '
    ||| c == '\u{85}'
    ||| c == '\u{a0}'
    ||| c == '\u{1680}'
    ||| ('\u{2000}' <= c && c <= '\u{200a}')
    ||| c == '\u{2028}'
    ||| c == '\u{2029}'
    ||| c == '\u{202f}'
    ||| c == '\u{205f}'
    ||| c == '\u{3000}'
}

/// `s` without the leading characters that satisfy `p`.
pub open spec fn trim_start_by(s: Seq<char>, p: spec_fn(char) -> bool) -> Seq<char>
    decreases s.len(),
{
    if s.len() > 0 && p(s[0]) {
        trim_start_by(s.drop_first(), p)
    } else {
        s
    }
}

/// `s` without the trailing characters that satisfy `p`.
pub open spec fn trim_end_by(s: Seq<char>, p: spec_fn(char) -> bool) -> Seq<char>
    decreases s.len(),
{
    if s.len() > 0 && p(s.last()) {
        trim_end_by(s.drop_last(), p)
    } else {
        s
    }
}

/// The test "is white space", as a predicate.
pub open spec fn space_pred() -> spec_fn(char) -> bool {
    |c: char| is_space(c)
}

/// The test "is `q`", as a predicate.
pub open spec fn char_pred(q: char) -> spec_fn(char) -> bool {
    |c: char| c == q
}

/// The predicate that a trim removes: white space, or one given character.
pub open spec fn trim_pred(target: Option<char>) -> spec_fn(char) -> bool {
    match target {
        Some(q) => char_pred(q),
        None => space_pred(),
    }
}

/// `s` without its leading white space (`str::trim_start`).
pub open spec fn trim_start(s: Seq<char>) -> Seq<char> {
    trim_start_by(s, space_pred())
}

/// `s` without leading and trailing white space (`str::trim`).
pub open spec fn trim(s: Seq<char>) -> Seq<char> {
    trim_end_by(trim_start_by(s, space_pred()), space_pred())
}

/// `s` without any leading or trailing occurrence of `q` (`str::trim_matches`).
pub open spec fn trim_char(s: Seq<char>, q: char) -> Seq<char> {
    trim_end_by(trim_start_by(s, char_pred(q)), char_pred(q))
}

/// Whether `s` holds nothing but white space.
pub open spec fn is_blank(s: Seq<char>) -> bool {
    trim(s).len() == 0
}

/// The pieces of `s` between the occurrences of `sep` (`str::split` with a
/// character): there is always one piece more than there are separators.
pub open spec fn split(s: Seq<char>, sep: char) -> Seq<Seq<char>>
    decreases s.len(),
{
    if s.len() == 0 {
        seq![Seq::<char>::empty()]
    } else {
        let p = split(s.drop_last(), sep);
        if s.last() == sep {
            p.push(Seq::<char>::empty())
        } else {
            p.update(p.len() - 1, p.last().push(s.last()))
        }
    }
}

/// A line without the carriage return that precedes its line feed.
pub open spec fn strip_cr(l: Seq<char>) -> Seq<char> {
    if l.len() > 0 && l.last() == '\r' {
        l.drop_last()
    } else {
        l
    }
}

/// The lines of `s` (`str::lines`): the pieces between line feeds, each
/// without a carriage return right before its line feed; a final line feed
/// ends the last line rather than starting an empty one.
pub open spec fn lines(s: Seq<char>) -> Seq<Seq<char>> {
    let parts = split(s, '\n');
    let body = parts.drop_last().map_values(|l: Seq<char>| strip_cr(l));
    if parts.last().len() == 0 {
        body
    } else {
        body.push(parts.last())
    }
}

/// Whether `pat` occurs in `s` at position `i`.
pub open spec fn occurs_at(s: Seq<char>, pat: Seq<char>, i: int) -> bool {
    0 <= i && i + pat.len() <= s.len() && s.subrange(i, i + pat.len()) == pat
}

/// The first position at or after `i` where `pat` occurs in `s`.
pub open spec fn find_from(s: Seq<char>, pat: Seq<char>, i: int) -> Option<int>
    decreases s.len() + 1 - i,
{
    if i < 0 || i + pat.len() > s.len() {
        None
    } else if s.subrange(i, i + pat.len()) == pat {
        Some(i)
    } else {
        find_from(s, pat, i + 1)
    }
}

/// The first position where `pat` occurs in `s`.
pub open spec fn find(s: Seq<char>, pat: Seq<char>) -> Option<int> {
    find_from(s, pat, 0)
}

/// Whether `pat` occurs in `s`.
pub open spec fn contains(s: Seq<char>, pat: Seq<char>) -> bool {
    find(s, pat) is Some
}

/// `s` split around the first occurrence of `pat` (`str::split_once`).
pub open spec fn split_once(s: Seq<char>, pat: Seq<char>) -> Option<(Seq<char>, Seq<char>)> {
    match find(s, pat) {
        Some(i) => Some((s.take(i), s.skip(i + pat.len()))),
        None => None,
    }
}

/// Whether `s` begins with `p`.
pub open spec fn starts_with(s: Seq<char>, p: Seq<char>) -> bool {
    p.len() <= s.len() && s.take(p.len() as int) == p
}

/// Whether `s` ends with `p`.
pub open spec fn ends_with(s: Seq<char>, p: Seq<char>) -> bool {
    p.len() <= s.len() && s.skip(s.len() - p.len()) == p
}

/// `s` without the prefix `p`, if it has it (`str::strip_prefix`).
pub open spec fn strip_prefix(s: Seq<char>, p: Seq<char>) -> Option<Seq<char>> {
    if starts_with(s, p) {
        Some(s.skip(p.len() as int))
    } else {
        None
    }
}

/// `s` without the suffix `p`, if it has it (`str::strip_suffix`).
pub open spec fn strip_suffix(s: Seq<char>, p: Seq<char>) -> Option<Seq<char>> {
    if ends_with(s, p) {
        Some(s.take(s.len() - p.len()))
    } else {
        None
    }
}

/// The characters of `s` up to its first white space.
pub open spec fn take_word(s: Seq<char>) -> Seq<char>
    decreases s.len(),
{
    if s.len() == 0 || is_space(s[0]) {
        Seq::<char>::empty()
    } else {
        seq![s[0]] + take_word(s.drop_first())
    }
}

/// The first white-space separated word of `s`
/// (`str::split_whitespace().next()`).
pub open spec fn first_word(s: Seq<char>) -> Option<Seq<char>> {
    let t = trim_start(s);
    if t.len() == 0 {
        None
    } else {
        Some(take_word(t))
    }
}

/// `c` with an ASCII capital letter replaced by its small letter.
pub open spec fn ascii_lower(c: char) -> char {
    if 'A' <= c && c <= 'Z' {
        ((c as int) + 32) as char
    } else {
        c
    }
}

/// `s` with every ASCII capital letter made small (`str::to_ascii_lowercase`).
pub open spec fn lower(s: Seq<char>) -> Seq<char> {
    s.map_values(|c: char| ascii_lower(c))
}

/// Equality up to ASCII case (`str::eq_ignore_ascii_case`).
pub open spec fn eq_ignore_ascii_case(a: Seq<char>, b: Seq<char>) -> bool {
    lower(a) == lower(b)
}

/// The decimal digit for `d < 10`.
pub open spec fn digit(d: nat) -> char {
    ((d + 48) as int) as char
}

/// The decimal notation of `n`, as `Display` writes an unsigned integer.
pub open spec fn decimal(n: nat) -> Seq<char>
    decreases n,
{
    if n < 10 {
        seq![digit(n)]
    } else {
        decimal(n / 10).push(digit(n % 10))
    }
}

/// `s` padded on the right with spaces to at least `width` characters, as
/// `{:<width}` formats a string.
pub open spec fn pad_right(s: Seq<char>, width: nat) -> Seq<char> {
    if s.len() >= width {
        s
    } else {
        s + Seq::new((width - s.len()) as nat, |i: int| ' ')
    }
}

/// The pieces of `parts` joined with `sep` between them (`slice::join`).
pub open spec fn join(parts: Seq<Seq<char>>, sep: Seq<char>) -> Seq<char>
    decreases parts.len(),
{
    if parts.len() == 0 {
        Seq::<char>::empty()
    } else if parts.len() == 1 {
        parts[0]
    } else {
        join(parts.drop_last(), sep) + sep + parts.last()
    }
}

// ---------------------------------------------------------------------------
// Lemmas
// ---------------------------------------------------------------------------

/// Dropping a run of removable characters from the front does not change
/// `trim_start_by`.
proof fn lemma_trim_start_skip(s: Seq<char>, p: spec_fn(char) -> bool, i: int)
    requires
        0 <= i <= s.len(),
        forall|j: int| 0 <= j < i ==> p(#[trigger] s[j]),
    ensures
        trim_start_by(s, p) == trim_start_by(s.skip(i), p),
    decreases i,
{
    if i > 0 {
        assert(s.drop_first().skip(i - 1) =~= s.skip(i));
        assert forall|j: int| 0 <= j < i - 1 implies p(#[trigger] s.drop_first()[j]) by {
            assert(s.drop_first()[j] == s[j + 1]);
        }
        lemma_trim_start_skip(s.drop_first(), p, i - 1);
    } else {
        assert(s.skip(0) =~= s);
    }
}

/// Dropping a run of removable characters from the back does not change
/// `trim_end_by`.
proof fn lemma_trim_end_take(s: Seq<char>, p: spec_fn(char) -> bool, i: int)
    requires
        0 <= i <= s.len(),
        forall|j: int| i <= j < s.len() ==> p(#[trigger] s[j]),
    ensures
        trim_end_by(s, p) == trim_end_by(s.take(i), p),
    decreases s.len() - i,
{
    if i < s.len() {
        assert(s.drop_last().take(i) =~= s.take(i));
        assert forall|j: int| i <= j < s.len() - 1 implies p(#[trigger] s.drop_last()[j]) by {
            assert(s.drop_last()[j] == s[j]);
        }
        lemma_trim_end_take(s.drop_last(), p, i);
    } else {
        assert(s.take(i) =~= s);
    }
}

/// A vector of characters deep-views as its plain view.
pub proof fn lemma_chars_deep_view(w: Vec<char>)
    ensures
        w.deep_view() == w@,
{
    assert(w.deep_view() =~= w@);
}

/// The piece list of `split` is never empty.
pub proof fn lemma_split_len(s: Seq<char>, sep: char)
    ensures
        split(s, sep).len() >= 1,
    decreases s.len(),
{
    if s.len() > 0 {
        lemma_split_len(s.drop_last(), sep);
    }
}

// ---------------------------------------------------------------------------
// Executable operations
// ---------------------------------------------------------------------------

/// Calls `String::push`, which std documents as appending `c` to the end of
/// the string; the contract claims exactly that of the character view.
#[verifier::external_body]
fn push_char(s: &mut String, c: char)
    ensures
        final(s)@ == old(s)@.push(c),
{
    s.push(c);
}

/// The characters of `s`, in order.
pub fn chars_of(s: &str) -> (v: Vec<char>)
    ensures
        v@ == s@,
{
    let mut v: Vec<char> = Vec::new();
    for c in it: s.chars()
        invariant
            v@ == it.seq().take(it.index() as int),
    {
        v.push(c);
    }
    v
}

/// Appends the characters of `v` to `s`.
pub fn push_chars(s: &mut String, v: &Vec<char>)
    ensures
        final(s)@ == old(s)@ + v@,
{
    let n = v.len();
    for i in 0..n
        invariant
            n == v@.len(),
            s@ == old(s)@ + v@.take(i as int),
    {
        push_char(s, v[i]);
        assert(v@.take(i + 1) == v@.take(i as int).push(v@[i as int]));
    }
    assert(v@.take(n as int) == v@);
}

/// The string made of the characters of `v`.
pub fn string_of(v: &Vec<char>) -> (s: String)
    ensures
        s@ == v@,
{
    let mut s = String::new();
    push_chars(&mut s, v);
    s
}

/// The characters of `v` from `a` up to `b`.
pub fn slice_chars(v: &Vec<char>, a: usize, b: usize) -> (r: Vec<char>)
    requires
        a <= b <= v@.len(),
    ensures
        r@ == v@.subrange(a as int, b as int),
{
    let mut r: Vec<char> = Vec::new();
    let mut i = a;
    while i < b
        invariant
            a <= i <= b <= v@.len(),
            r@ == v@.subrange(a as int, i as int),
        decreases b - i,
    {
        r.push(v[i]);
        assert(v@.subrange(a as int, i + 1) == v@.subrange(a as int, i as int).push(v@[i as int]));
        i += 1;
    }
    r
}

/// Whether `c` is white space.
pub fn char_is_space(c: char) -> (b: bool)
    ensures
        b == is_space(c),
{
    ('\u{9}' <= c && c <= '\u{d}') || c == ' ' || c == '\u{85}' || c == '\u{a0}' || c
        == '\u{1680}' || ('\u{2000}' <= c && c <= '\u{200a}') || c == '\u{2028}' || c
        == '\u{2029}' || c == '\u{202f}' || c == '\u{205f}' || c == '\u{3000}'
}

/// Whether `c` is removed by a trim for `target`.
fn trims(c: char, target: Option<char>) -> (b: bool)
    ensures
        b == (trim_pred(target))(c),
{
    match target {
        Some(q) => c == q,
        None => char_is_space(c),
    }
}

/// The bounds of `v` once trimmed of the characters that `target` names.
pub fn trim_bounds_by(v: &Vec<char>, target: Option<char>) -> (r: (usize, usize))
    ensures
        r.0 <= r.1 <= v@.len(),
        v@.subrange(r.0 as int, r.1 as int) == trim_end_by(
            trim_start_by(v@, trim_pred(target)),
            trim_pred(target),
        ),
{
    let ghost p = trim_pred(target);
    let n = v.len();
    let mut a: usize = 0;
    while a < n && trims(v[a], target)
        invariant
            a <= n == v@.len(),
            p == trim_pred(target),
            forall|j: int| 0 <= j < a ==> p(#[trigger] v@[j]),
        decreases n - a,
    {
        a += 1;
    }
    proof {
        lemma_trim_start_skip(v@, p, a as int);
        if a < n {
            assert(trim_start_by(v@.skip(a as int), p) == v@.skip(a as int));
        } else {
            assert(v@.skip(a as int).len() == 0);
        }
    }
    let ghost t = v@.skip(a as int);
    let mut b: usize = n;
    while b > a && trims(v[b - 1], target)
        invariant
            a <= b <= n == v@.len(),
            t == v@.skip(a as int),
            p == trim_pred(target),
            forall|j: int| b <= j < n ==> p(#[trigger] v@[j]),
        decreases b,
    {
        b -= 1;
    }
    proof {
        assert forall|j: int| b - a <= j < t.len() implies p(#[trigger] t[j]) by {
            assert(t[j] == v@[j + a]);
        }
        lemma_trim_end_take(t, p, b - a);
        assert(t.take(b - a) =~= v@.subrange(a as int, b as int));
        if b > a {
            assert(!p(t.take(b - a).last()));
        }
    }
    (a, b)
}

/// The bounds of `v` once trimmed of white space.
pub fn trim_bounds(v: &Vec<char>) -> (r: (usize, usize))
    ensures
        r.0 <= r.1 <= v@.len(),
        v@.subrange(r.0 as int, r.1 as int) == trim(v@),
{
    trim_bounds_by(v, None)
}

/// `v` trimmed of leading and trailing white space.
pub fn trim_chars(v: &Vec<char>) -> (r: Vec<char>)
    ensures
        r@ == trim(v@),
{
    let (a, b) = trim_bounds(v);
    slice_chars(v, a, b)
}

/// `s` trimmed of leading and trailing white space, as a new string.
pub fn trim_str(s: &str) -> (r: String)
    ensures
        r@ == trim(s@),
{
    let v = chars_of(s);
    string_of(&trim_chars(&v))
}

/// Whether `v` holds nothing but white space.
pub fn blank_chars(v: &Vec<char>) -> (b: bool)
    ensures
        b == is_blank(v@),
{
    let (a, b) = trim_bounds(v);
    a == b
}

/// The pieces of `v` between occurrences of `sep`.
pub fn split_chars(v: &Vec<char>, sep: char) -> (r: Vec<Vec<char>>)
    ensures
        r.deep_view() == split(v@, sep),
{
    let n = v.len();
    let mut done: Vec<Vec<char>> = Vec::new();
    let mut cur: Vec<char> = Vec::new();
    for i in 0..n
        invariant
            n == v@.len(),
            split(v@.take(i as int), sep) == done.deep_view().push(cur@),
    {
        let c = v[i];
        let ghost pre = v@.take(i as int);
        let ghost before = done.deep_view();
        let ghost cur_before = cur@;
        assert(v@.take(i + 1).drop_last() == pre);
        proof {
            lemma_split_len(pre, sep);
        }
        if c == sep {
            proof {
                lemma_chars_deep_view(cur);
            }
            done.push(cur);
            cur = Vec::new();
            assert(done.deep_view() =~= before.push(cur_before));
        } else {
            cur.push(c);
            assert(done.deep_view() =~= before);
        }
        assert(split(v@.take(i + 1), sep) =~= done.deep_view().push(cur@));
    }
    assert(v@.take(n as int) == v@);
    let ghost before = done.deep_view();
    proof {
        lemma_chars_deep_view(cur);
    }
    done.push(cur);
    assert(done.deep_view() =~= before.push(cur@));
    done
}

/// `v` without a carriage return at its end.
fn strip_cr_chars(v: &Vec<char>) -> (r: Vec<char>)
    ensures
        r@ == strip_cr(v@),
{
    let n = v.len();
    if n > 0 && v[n - 1] == '\r' {
        slice_chars(v, 0, n - 1)
    } else {
        slice_chars(v, 0, n)
    }
}

/// The lines of `v`.
pub fn lines_chars(v: &Vec<char>) -> (r: Vec<Vec<char>>)
    ensures
        r.deep_view() == lines(v@),
{
    let parts = split_chars(v, '\n');
    let ghost pv = parts.deep_view();
    proof {
        lemma_split_len(v@, '\n');
    }
    let k = parts.len() - 1;
    let ghost body = pv.drop_last().map_values(|l: Seq<char>| strip_cr(l));
    let mut out: Vec<Vec<char>> = Vec::new();
    for i in 0..k
        invariant
            k + 1 == parts@.len(),
            pv == parts.deep_view(),
            pv == split(v@, '\n'),
            body == pv.drop_last().map_values(|l: Seq<char>| strip_cr(l)),
            out.deep_view() == body.take(i as int),
    {
        let ghost before = out.deep_view();
        proof {
            lemma_chars_deep_view(parts@[i as int]);
        }
        let line = strip_cr_chars(&parts[i]);
        proof {
            lemma_chars_deep_view(line);
        }
        out.push(line);
        assert(out.deep_view() =~= before.push(body[i as int]));
        assert(body.take(i + 1) =~= body.take(i as int).push(body[i as int]));
    }
    assert(body.take(k as int) =~= body);
    proof {
        lemma_chars_deep_view(parts@[k as int]);
    }
    if parts[k].len() == 0 {
        out
    } else {
        let last = slice_chars(&parts[k], 0, parts[k].len());
        let ghost before = out.deep_view();
        proof {
            lemma_chars_deep_view(last);
        }
        assert(last@ =~= pv[k as int]);
        out.push(last);
        assert(out.deep_view() =~= before.push(pv.last()));
        out
    }
}

/// The lines of `s`, as strings.
pub fn lines_of(s: &str) -> (r: Vec<String>)
    ensures
        r.deep_view() == lines(s@),
{
    strings_of(&lines_chars(&chars_of(s)))
}

/// Whether `pat` occurs in `v` at position `i`.
pub fn matches_at(v: &Vec<char>, pat: &Vec<char>, i: usize) -> (b: bool)
    ensures
        b == occurs_at(v@, pat@, i as int),
{
    if i > v.len() || pat.len() > v.len() - i {
        return false;
    }
    let m = pat.len();
    for k in 0..m
        invariant
            m == pat@.len(),
            i + m <= v.len(),
            forall|j: int| 0 <= j < k ==> v@[i + j] == pat@[j],
    {
        if v[i + k] != pat[k] {
            assert(v@.subrange(i as int, i + m)[k as int] != pat@[k as int]);
            return false;
        }
    }
    assert(v@.subrange(i as int, i + m) =~= pat@);
    true
}

/// The first position where `pat` occurs in `v`.
pub fn find_chars(v: &Vec<char>, pat: &Vec<char>) -> (r: Option<usize>)
    ensures
        r matches Some(i) ==> find(v@, pat@) == Some(i as int),
        r is None ==> find(v@, pat@) is None,
{
    let n = v.len();
    let m = pat.len();
    if m > n {
        return None;
    }
    if m == 0 {
        assert(v@.subrange(0, 0) =~= pat@);
        return Some(0);
    }
    let mut i: usize = 0;
    while i <= n - m
        invariant
            n == v@.len(),
            m == pat@.len(),
            1 <= m <= n,
            i <= n - m + 1,
            find(v@, pat@) == find_from(v@, pat@, i as int),
        decreases n - m + 1 - i,
    {
        if matches_at(v, pat, i) {
            return Some(i);
        }
        i += 1;
    }
    None
}

/// `v` split around the first occurrence of `pat`.
pub fn split_once_chars(v: &Vec<char>, pat: &Vec<char>) -> (r: Option<(Vec<char>, Vec<char>)>)
    ensures
        match split_once(v@, pat@) {
            Some((a, b)) => r matches Some((x, y)) && x@ == a && y@ == b,
            None => r is None,
        },
{
    match find_chars(v, pat) {
        Some(i) => {
            proof {
                lemma_find_from_bounds(v@, pat@, 0);
            }
            assert(i + pat.len() <= v.len());
            let before = slice_chars(v, 0, i);
            let after = slice_chars(v, i + pat.len(), v.len());
            Some((before, after))
        },
        None => None,
    }
}

/// Whether `pat` occurs in `v`.
pub fn contains_chars(v: &Vec<char>, pat: &Vec<char>) -> (b: bool)
    ensures
        b == contains(v@, pat@),
{
    find_chars(v, pat).is_some()
}

/// Whether `v` begins with `p`.
pub fn starts_with_chars(v: &Vec<char>, p: &Vec<char>) -> (b: bool)
    ensures
        b == starts_with(v@, p@),
{
    let b = matches_at(v, p, 0);
    assert(v@.take(p@.len() as int) =~= v@.subrange(0, p@.len() as int));
    b
}

/// Whether `v` ends with `p`.
pub fn ends_with_chars(v: &Vec<char>, p: &Vec<char>) -> (b: bool)
    ensures
        b == ends_with(v@, p@),
{
    if p.len() > v.len() {
        return false;
    }
    let b = matches_at(v, p, v.len() - p.len());
    assert(v@.skip(v@.len() - p@.len()) =~= v@.subrange(v@.len() - p@.len(), v@.len() as int));
    b
}

/// `v` without the prefix `p`, if it has it.
pub fn strip_prefix_chars(v: &Vec<char>, p: &Vec<char>) -> (r: Option<Vec<char>>)
    ensures
        match strip_prefix(v@, p@) {
            Some(t) => r matches Some(x) && x@ == t,
            None => r is None,
        },
{
    if starts_with_chars(v, p) {
        let r = slice_chars(v, p.len(), v.len());
        assert(r@ =~= v@.skip(p@.len() as int));
        Some(r)
    } else {
        None
    }
}

/// `v` without the suffix `p`, if it has it.
pub fn strip_suffix_chars(v: &Vec<char>, p: &Vec<char>) -> (r: Option<Vec<char>>)
    ensures
        match strip_suffix(v@, p@) {
            Some(t) => r matches Some(x) && x@ == t,
            None => r is None,
        },
{
    if ends_with_chars(v, p) {
        let r = slice_chars(v, 0, v.len() - p.len());
        assert(r@ =~= v@.take(v@.len() - p@.len()));
        Some(r)
    } else {
        None
    }
}

/// The first white-space separated word of `v`.
pub fn first_word_chars(v: &Vec<char>) -> (r: Option<Vec<char>>)
    ensures
        match first_word(v@) {
            Some(w) => r matches Some(x) && x@ == w,
            None => r is None,
        },
{
    let n = v.len();
    let a = first_non_space(v);
    if a == n {
        return None;
    }
    let mut b: usize = a;
    while b < n && !char_is_space(v[b])
        invariant
            a <= b <= n == v@.len(),
            forall|j: int| a <= j < b ==> !is_space(#[trigger] v@[j]),
        decreases n - b,
    {
        b += 1;
    }
    proof {
        lemma_take_word(v@.skip(a as int), b - a);
        assert(v@.skip(a as int).take(b - a) =~= v@.subrange(a as int, b as int));
    }
    Some(slice_chars(v, a, b))
}

/// `c` with an ASCII capital letter made small.
pub fn ascii_lower_char(c: char) -> (r: char)
    ensures
        r == ascii_lower(c),
{
    if 'A' <= c && c <= 'Z' {
        ((c as u8) + 32) as char
    } else {
        c
    }
}

/// `v` with every ASCII capital letter made small.
pub fn lower_chars(v: &Vec<char>) -> (r: Vec<char>)
    ensures
        r@ == lower(v@),
{
    let mut r: Vec<char> = Vec::new();
    let n = v.len();
    for i in 0..n
        invariant
            n == v@.len(),
            r@ == lower(v@.take(i as int)),
    {
        r.push(ascii_lower_char(v[i]));
        assert(lower(v@.take(i + 1)) =~= lower(v@.take(i as int)).push(ascii_lower(v@[i as int])));
    }
    assert(v@.take(n as int) =~= v@);
    r
}

/// Equality of `a` and `b` up to ASCII case.
pub fn eq_ignore_ascii_case_chars(a: &Vec<char>, b: &Vec<char>) -> (r: bool)
    ensures
        r == eq_ignore_ascii_case(a@, b@),
{
    if a.len() != b.len() {
        assert(lower(a@).len() != lower(b@).len());
        return false;
    }
    let n = a.len();
    for i in 0..n
        invariant
            n == a@.len() == b@.len(),
            forall|j: int| 0 <= j < i ==> ascii_lower(a@[j]) == ascii_lower(b@[j]),
    {
        if ascii_lower_char(a[i]) != ascii_lower_char(b[i]) {
            assert(lower(a@)[i as int] != lower(b@)[i as int]);
            return false;
        }
    }
    assert(lower(a@) =~= lower(b@));
    true
}

/// `v` without leading and trailing occurrences of `q`.
pub fn trim_char_chars(v: &Vec<char>, q: char) -> (r: Vec<char>)
    ensures
        r@ == trim_char(v@, q),
{
    let (a, b) = trim_bounds_by(v, Some(q));
    slice_chars(v, a, b)
}

/// The decimal digit for `d`.
fn digit_char(d: usize) -> (c: char)
    requires
        d < 10,
    ensures
        c == digit(d as nat),
{
    ((d as u8) + 48) as char
}

/// The decimal notation of `n`.
pub fn decimal_chars(n: usize) -> (r: Vec<char>)
    ensures
        r@ == decimal(n as nat),
    decreases n,
{
    if n < 10 {
        let mut r: Vec<char> = Vec::new();
        r.push(digit_char(n));
        assert(r@ =~= decimal(n as nat));
        r
    } else {
        let mut r = decimal_chars(n / 10);
        r.push(digit_char(n % 10));
        r
    }
}

/// `v` padded on the right with spaces to at least `width` characters.
pub fn pad_right_chars(v: &Vec<char>, width: usize) -> (r: Vec<char>)
    ensures
        r@ == pad_right(v@, width as nat),
{
    let mut r = slice_chars(v, 0, v.len());
    assert(r@ =~= v@);
    if v.len() >= width {
        return r;
    }
    let mut k = v.len();
    while k < width
        invariant
            v@.len() <= k <= width,
            r@ == v@ + Seq::new((k - v@.len()) as nat, |i: int| ' '),
        decreases width - k,
    {
        r.push(' ');
        k += 1;
        assert(r@ =~= v@ + Seq::new((k - v@.len()) as nat, |i: int| ' '));
    }
    r
}

/// The pieces of `parts` joined with `sep` between them.
pub fn join_chars(parts: &Vec<Vec<char>>, sep: &Vec<char>) -> (r: Vec<char>)
    ensures
        r@ == join(parts.deep_view(), sep@),
{
    let ghost pv = parts.deep_view();
    let n = parts.len();
    let mut r: Vec<char> = Vec::new();
    for i in 0..n
        invariant
            n == parts@.len(),
            pv == parts.deep_view(),
            r@ == join(pv.take(i as int), sep@),
    {
        proof {
            lemma_chars_deep_view(parts@[i as int]);
        }
        assert(pv.take(i + 1).drop_last() =~= pv.take(i as int));
        if i > 0 {
            r.extend_from_slice(sep.as_slice());
        }
        let ghost mid = r@;
        let mut k: usize = 0;
        let piece = &parts[i];
        while k < piece.len()
            invariant
                piece@ == pv[i as int],
                k <= piece@.len(),
                r@ == mid + piece@.take(k as int),
            decreases piece@.len() - k,
        {
            r.push(piece[k]);
            assert(piece@.take(k + 1) =~= piece@.take(k as int).push(piece@[k as int]));
            k += 1;
        }
        assert(piece@.take(k as int) =~= piece@);
    }
    assert(pv.take(n as int) =~= pv);
    r
}

// ---------------------------------------------------------------------------
// Lemmas for the executable operations
// ---------------------------------------------------------------------------

/// A found position lies within bounds.
pub proof fn lemma_find_from_bounds(s: Seq<char>, pat: Seq<char>, i: int)
    ensures
        find_from(s, pat, i) matches Some(k) ==> i <= k && k + pat.len() <= s.len() && occurs_at(s, pat, k),
    decreases s.len() + 1 - i,
{
    if i >= 0 && i + pat.len() <= s.len() && s.subrange(i, i + pat.len()) != pat {
        lemma_find_from_bounds(s, pat, i + 1);
    }
}

/// A word is the run of non-space characters at the front.
proof fn lemma_take_word(t: Seq<char>, k: int)
    requires
        0 <= k <= t.len(),
        forall|j: int| 0 <= j < k ==> !is_space(#[trigger] t[j]),
        k == t.len() || is_space(t[k]),
    ensures
        take_word(t) == t.take(k),
    decreases k,
{
    if k == 0 {
        assert(t.take(0) =~= Seq::<char>::empty());
    } else {
        assert forall|j: int| 0 <= j < k - 1 implies !is_space(#[trigger] t.drop_first()[j]) by {
            assert(t.drop_first()[j] == t[j + 1]);
        }
        if k - 1 < t.drop_first().len() {
            assert(t.drop_first()[k - 1] == t[k]);
        }
        lemma_take_word(t.drop_first(), k - 1);
        assert(seq![t[0]] + t.drop_first().take(k - 1) =~= t.take(k));
    }
}

/// Whether `a` and `b` hold the same characters.
pub fn chars_eq(a: &Vec<char>, b: &Vec<char>) -> (r: bool)
    ensures
        r == (a@ == b@),
{
    if a.len() != b.len() {
        return false;
    }
    let n = a.len();
    for i in 0..n
        invariant
            n == a@.len() == b@.len(),
            forall|j: int| 0 <= j < i ==> a@[j] == b@[j],
    {
        if a[i] != b[i] {
            return false;
        }
    }
    assert(a@ =~= b@);
    true
}

/// Whether `a` and `b` hold the same characters.
pub fn str_eq(a: &str, b: &str) -> (r: bool)
    ensures
        r == (a@ == b@),
{
    chars_eq(&chars_of(a), &chars_of(b))
}

/// The position of the first character of `v` that is not white space, and
/// the rest of `v` from there.
pub fn first_non_space(v: &Vec<char>) -> (a: usize)
    ensures
        a <= v@.len(),
        trim_start(v@) == v@.skip(a as int),
{
    let n = v.len();
    let mut a: usize = 0;
    while a < n && char_is_space(v[a])
        invariant
            a <= n == v@.len(),
            forall|j: int| 0 <= j < a ==> is_space(#[trigger] v@[j]),
        decreases n - a,
    {
        a += 1;
    }
    proof {
        assert forall|j: int| 0 <= j < a implies (space_pred())(#[trigger] v@[j]) by {}
        lemma_trim_start_skip(v@, space_pred(), a as int);
        if a < n {
            assert(trim_start_by(v@.skip(a as int), space_pred()) == v@.skip(a as int));
        } else {
            assert(v@.skip(a as int).len() == 0);
        }
    }
    a
}

/// The strings made of the character vectors in `v`.
pub fn strings_of(v: &Vec<Vec<char>>) -> (r: Vec<String>)
    ensures
        r.deep_view() == v.deep_view(),
{
    let ghost dv = v.deep_view();
    let mut out: Vec<String> = Vec::new();
    let n = v.len();
    for i in 0..n
        invariant
            n == v@.len(),
            dv == v.deep_view(),
            out.deep_view() == dv.take(i as int),
    {
        let ghost before = out.deep_view();
        proof {
            lemma_chars_deep_view(v@[i as int]);
        }
        out.push(string_of(&v[i]));
        assert(out.deep_view() =~= before.push(dv[i as int]));
        assert(dv.take(i + 1) =~= dv.take(i as int).push(dv[i as int]));
    }
    assert(dv.take(n as int) =~= dv);
    out
}

/// The characters of `o`, or none when `o` is `None`.
pub open spec fn text_or_empty(o: Option<&str>) -> Seq<char> {
    match o {
        Some(s) => s@,
        None => Seq::<char>::empty(),
    }
}

/// The characters of `o`, or none when `o` is `None`.
pub fn chars_or_empty(o: Option<&str>) -> (v: Vec<char>)
    ensures
        v@ == text_or_empty(o),
{
    match o {
        Some(s) => chars_of(s),
        None => Vec::new(),
    }
}

/// A sequence starts with "-" exactly when its first character is '-'.
pub proof fn lemma_starts_with_dash(t: Seq<char>)
    ensures
        starts_with(t, "-"@) == (t.len() > 0 && t[0] == '-'),
{
    reveal_strlit("-");
    assert("-"@ =~= seq!['-']);
    if t.len() > 0 {
        assert(t.take(1)[0] == t[0]);
        assert(t.take(1) =~= seq![t[0]]);
        if t[0] == '-' {
            assert(t.take(1) =~= "-"@);
        }
    }
}

} // verus!
