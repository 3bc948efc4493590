//! Small verified string helpers shared by the naming and parsing code.
//!
//! Strings are specified through their `Seq<char>` views; the executable
//! functions walk characters by index.

use vstd::prelude::*;
use vstd::string::*;

verus! {

/// Index of the last `/` in `s`, or `-1` when `s` holds none.
pub open spec fn last_slash(s: Seq<char>) -> int
    decreases s.len(),
{
    if s.len() == 0 {
        -1
    } else if s[s.len() - 1] == '/' {
        s.len() - 1
    } else {
        last_slash(s.drop_last())
    }
}

/// Index of the first `c` in `s`, or `-1` when `s` holds none.
pub open spec fn first_index_of(s: Seq<char>, c: char) -> int
    decreases s.len(),
{
    if s.len() == 0 {
        -1
    } else if s[0] == c {
        0
    } else {
        let r = first_index_of(s.skip(1), c);
        if r == -1 {
            -1
        } else {
            r + 1
        }
    }
}

/// Characterizes `first_index_of` by a scan that stopped at `i`.
pub proof fn lemma_first_index_of(s: Seq<char>, c: char, i: int)
    requires
        0 <= i <= s.len(),
        forall|j: int| 0 <= j < i ==> s[j] != c,
        i == s.len() || s[i] == c,
    ensures
        first_index_of(s, c) == if i == s.len() {
            -1int
        } else {
            i
        },
    decreases i,
{
    if i == 0 {
    } else {
        assert(s[0] != c);
        lemma_first_index_of(s.skip(1), c, i - 1);
    }
}

/// `s` without its leading run of `c`.
pub open spec fn trim_leading_char(s: Seq<char>, c: char) -> Seq<char>
    decreases s.len(),
{
    if s.len() > 0 && s[0] == c {
        trim_leading_char(s.skip(1), c)
    } else {
        s
    }
}

/// `s` without its trailing run of `c`.
pub open spec fn trim_trailing_char(s: Seq<char>, c: char) -> Seq<char>
    decreases s.len(),
{
    if s.len() > 0 && s[s.len() - 1] == c {
        trim_trailing_char(s.drop_last(), c)
    } else {
        s
    }
}

/// The characters counted as whitespace by the trimming and validation
/// code: the Unicode White_Space code points, the set Rust's whitespace
/// predicate recognizes.
pub open spec fn is_space_char(c: char) -> bool {
    let u = c as u32;
    ||| (0x09 <= u && u <= 0x0D)
    ||| u == 0x20
    ||| u == 0x85
    ||| u == 0xA0
    ||| u == 0x1680
    ||| (0x2000 <= u && u <= 0x200A)
    ||| u == 0x2028
    ||| u == 0x2029
    ||| u == 0x202F
    ||| u == 0x205F
    ||| u == 0x3000
}

/// `s` without its leading whitespace.
pub open spec fn trim_leading_ws(s: Seq<char>) -> Seq<char>
    decreases s.len(),
{
    if s.len() > 0 && is_space_char(s[0]) {
        trim_leading_ws(s.skip(1))
    } else {
        s
    }
}

/// `s` without its trailing whitespace.
pub open spec fn trim_trailing_ws(s: Seq<char>) -> Seq<char>
    decreases s.len(),
{
    if s.len() > 0 && is_space_char(s[s.len() - 1]) {
        trim_trailing_ws(s.drop_last())
    } else {
        s
    }
}

/// `s` with every trailing `/` removed.
pub open spec fn trim_trailing_slashes(s: Seq<char>) -> Seq<char> {
    trim_trailing_char(s, '/')
}

/// `s` without leading and trailing whitespace.
pub open spec fn trim_spaces(s: Seq<char>) -> Seq<char> {
    trim_trailing_ws(trim_leading_ws(s))
}

/// `s` without leading and trailing occurrences of one character.
pub open spec fn trim_char_ends(s: Seq<char>, c: char) -> Seq<char> {
    trim_trailing_char(trim_leading_char(s, c), c)
}

/// The final path segment: everything after the last `/` once trailing
/// separators are dropped.
pub open spec fn basename_of(s: Seq<char>) -> Seq<char> {
    let t = trim_trailing_slashes(s);
    t.subrange(last_slash(t) + 1, t.len() as int)
}

/// When no `/` occurs at or after position `i`, the last slash of `s` is the
/// last slash of the prefix `s[..i]`.
proof fn lemma_last_slash_suffix(s: Seq<char>, i: int)
    requires
        0 <= i <= s.len(),
        forall|j: int| i <= j < s.len() ==> s[j] != '/',
    ensures
        last_slash(s) == last_slash(s.subrange(0, i)),
    decreases s.len() - i,
{
    if i == s.len() {
        assert(s.subrange(0, i) =~= s);
    } else {
        assert(s[s.len() - 1] != '/');
        assert(s.drop_last() =~= s.subrange(0, s.len() - 1));
        lemma_last_slash_suffix(s.subrange(0, s.len() - 1), i);
        assert(s.subrange(0, s.len() - 1).subrange(0, i) =~= s.subrange(0, i));
    }
}

/// Characterizes `trim_leading_char` by the first index whose character
/// differs from `c`.
proof fn lemma_trim_leading_char_idx(s: Seq<char>, a: int, c: char)
    requires
        0 <= a <= s.len(),
        forall|j: int| 0 <= j < a ==> s[j] == c,
        a == s.len() || s[a] != c,
    ensures
        trim_leading_char(s, c) == s.skip(a),
    decreases a,
{
    if a == 0 {
        assert(s.skip(0) =~= s);
    } else {
        assert(s[0] == c);
        lemma_trim_leading_char_idx(s.skip(1), a - 1, c);
        assert(s.skip(1).skip(a - 1) =~= s.skip(a));
    }
}

/// Characterizes `trim_trailing_char` by the index just past the last
/// character differing from `c`.
proof fn lemma_trim_trailing_char_idx(s: Seq<char>, b: int, c: char)
    requires
        0 <= b <= s.len(),
        forall|j: int| b <= j < s.len() ==> s[j] == c,
        b == 0 || s[b - 1] != c,
    ensures
        trim_trailing_char(s, c) == s.subrange(0, b),
    decreases s.len() - b,
{
    if b == s.len() {
        assert(s.subrange(0, b) =~= s);
    } else {
        assert(s[s.len() - 1] == c);
        assert(s.drop_last() =~= s.subrange(0, s.len() - 1));
        lemma_trim_trailing_char_idx(s.subrange(0, s.len() - 1), b, c);
        assert(s.subrange(0, s.len() - 1).subrange(0, b) =~= s.subrange(0, b));
    }
}

/// Characterizes `trim_leading_ws` by the first non-whitespace index.
proof fn lemma_trim_leading_ws_idx(s: Seq<char>, a: int)
    requires
        0 <= a <= s.len(),
        forall|j: int| 0 <= j < a ==> is_space_char(#[trigger] s[j]),
        a == s.len() || !is_space_char(s[a]),
    ensures
        trim_leading_ws(s) == s.skip(a),
    decreases a,
{
    if a == 0 {
        assert(s.skip(0) =~= s);
    } else {
        assert(is_space_char(s[0]));
        lemma_trim_leading_ws_idx(s.skip(1), a - 1);
        assert(s.skip(1).skip(a - 1) =~= s.skip(a));
    }
}

/// Characterizes `trim_trailing_ws` by the index just past the last
/// non-whitespace character.
proof fn lemma_trim_trailing_ws_idx(s: Seq<char>, b: int)
    requires
        0 <= b <= s.len(),
        forall|j: int| b <= j < s.len() ==> is_space_char(#[trigger] s[j]),
        b == 0 || !is_space_char(s[b - 1]),
    ensures
        trim_trailing_ws(s) == s.subrange(0, b),
    decreases s.len() - b,
{
    if b == s.len() {
        assert(s.subrange(0, b) =~= s);
    } else {
        assert(is_space_char(s[s.len() - 1]));
        assert(s.drop_last() =~= s.subrange(0, s.len() - 1));
        lemma_trim_trailing_ws_idx(s.subrange(0, s.len() - 1), b);
        assert(s.subrange(0, s.len() - 1).subrange(0, b) =~= s.subrange(0, b));
    }
}

/// True when the views of `a` and `b` are the same character sequence.
pub fn str_eq(a: &str, b: &str) -> (r: bool)
    ensures
        r == (a@ == b@),
{
    let na: usize = a.unicode_len();
    let nb: usize = b.unicode_len();
    if na != nb {
        assert(a@ != b@);
        return false;
    }
    let mut i: usize = 0;
    while i < na
        invariant
            na == a@.len(),
            na == b@.len(),
            0 <= i <= na,
            forall|j: int| 0 <= j < i ==> a@[j] == b@[j],
        decreases na - i,
    {
        if a.get_char(i) != b.get_char(i) {
            assert(a@[i as int] != b@[i as int]);
            return false;
        }
        i = i + 1;
    }
    proof {
        assert(a@ =~= b@);
    }
    true
}

/// Two consecutive dots somewhere in `s`.
pub open spec fn has_dot_dot(s: Seq<char>) -> bool {
    exists|i: int| 0 <= i && i + 1 < s.len() && #[trigger] s[i] == '.' && s[i + 1] == '.'
}

/// True when `s` holds a `..` substring.
pub fn contains_dot_dot(s: &str) -> (r: bool)
    ensures
        r == has_dot_dot(s@),
{
    let n: usize = s.unicode_len();
    if n < 2 {
        return false;
    }
    let mut i: usize = 0;
    while i + 1 < n
        invariant
            n == s@.len(),
            0 <= i,
            i + 1 <= n,
            forall|j: int| 0 <= j < i ==> !(#[trigger] s@[j] == '.' && s@[j + 1] == '.'),
        decreases n - i,
    {
        if s.get_char(i) == '.' && s.get_char(i + 1) == '.' {
            assert(s@[i as int] == '.' && s@[i as int + 1] == '.');
            return true;
        }
        i = i + 1;
    }
    proof {
        if has_dot_dot(s@) {
            let j = choose|j: int|
                0 <= j && j + 1 < s@.len() && #[trigger] s@[j] == '.' && s@[j + 1] == '.';
            assert(!(s@[j] == '.' && s@[j + 1] == '.'));
        }
    }
    false
}

/// True when some character of `s` is whitespace.
pub fn contains_space(s: &str) -> (r: bool)
    ensures
        r == (exists|j: int| 0 <= j < s@.len() && is_space_char(#[trigger] s@[j])),
{
    let n: usize = s.unicode_len();
    let mut i: usize = 0;
    while i < n
        invariant
            n == s@.len(),
            0 <= i <= n,
            forall|j: int| 0 <= j < i ==> !is_space_char(#[trigger] s@[j]),
        decreases n - i,
    {
        if space_char(s.get_char(i)) {
            assert(is_space_char(s@[i as int]));
            return true;
        }
        i = i + 1;
    }
    proof {
        if exists|j: int| 0 <= j < s@.len() && is_space_char(#[trigger] s@[j]) {
            let j = choose|j: int| 0 <= j < s@.len() && is_space_char(#[trigger] s@[j]);
            assert(!is_space_char(s@[j]));
        }
    }
    false
}

/// The final path segment of `s`, tolerating trailing separators.
pub fn basename(s: &str) -> (r: String)
    ensures
        r@ == basename_of(s@),
{
    let n: usize = s.unicode_len();
    let mut e: usize = n;
    while e > 0 && s.get_char(e - 1) == '/'
        invariant
            n == s@.len(),
            0 <= e <= n,
            forall|j: int| e <= j < n ==> s@[j] == '/',
        decreases e,
    {
        e = e - 1;
    }
    proof {
        lemma_trim_trailing_char_idx(s@, e as int, '/');
        assert(trim_trailing_slashes(s@) == s@.subrange(0, e as int));
    }
    let ghost t = s@.subrange(0, e as int);
    let mut i: usize = e;
    while i > 0 && s.get_char(i - 1) != '/'
        invariant
            n == s@.len(),
            0 <= i <= e <= n,
            t == s@.subrange(0, e as int),
            forall|j: int| i <= j < e ==> s@[j] != '/',
        decreases i,
    {
        i = i - 1;
    }
    proof {
        assert(forall|j: int| i <= j < e ==> t[j] != '/');
        lemma_last_slash_suffix(t, i as int);
        if i > 0 {
            assert(t.subrange(0, i as int)[i - 1] == '/');
            assert(last_slash(t.subrange(0, i as int)) == i - 1);
        } else {
            assert(t.subrange(0, 0int) =~= Seq::<char>::empty());
        }
        assert(last_slash(t) == i - 1);
    }
    let r = s.substring_char(i, e);
    proof {
        assert(r@ =~= basename_of(s@));
    }
    String::from_str(r)
}

/// Executable check matching [`is_space_char`].
pub fn space_char(c: char) -> (r: bool)
    ensures
        r == is_space_char(c),
{
    let u = c as u32;
    (0x09 <= u && u <= 0x0D) || u == 0x20 || u == 0x85 || u == 0xA0 || u == 0x1680 || (0x2000 <= u
        && u <= 0x200A) || u == 0x2028 || u == 0x2029 || u == 0x202F || u == 0x205F || u == 0x3000
}

/// Everything before the first line break, or all of `s` when it has none.
pub open spec fn first_line(s: Seq<char>) -> Seq<char>
    decreases s.len(),
{
    if s.len() == 0 {
        s
    } else if s[0] == '\n' {
        Seq::empty()
    } else {
        seq![s[0]] + first_line(s.skip(1))
    }
}

/// Characterizes `first_line` by the index of the first line break.
proof fn lemma_first_line_idx(s: Seq<char>, i: int)
    requires
        0 <= i <= s.len(),
        forall|j: int| 0 <= j < i ==> s[j] != '\n',
        i == s.len() || s[i] == '\n',
    ensures
        first_line(s) == s.subrange(0, i),
    decreases i,
{
    if i == 0 {
        assert(s.subrange(0, 0) =~= Seq::<char>::empty());
        if s.len() > 0 {
            assert(s[0] == '\n');
        }
    } else {
        assert(s[0] != '\n');
        lemma_first_line_idx(s.skip(1), i - 1);
        assert(seq![s[0]] + s.skip(1).subrange(0, i - 1) =~= s.subrange(0, i));
    }
}

/// `s` with every leading and trailing occurrence of `c` removed.
pub fn strip_char_ends<'a>(s: &'a str, c: char) -> (r: &'a str)
    ensures
        r@ == trim_char_ends(s@, c),
{
    let n: usize = s.unicode_len();
    let mut a: usize = 0;
    while a < n && s.get_char(a) == c
        invariant
            n == s@.len(),
            0 <= a <= n,
            forall|j: int| 0 <= j < a ==> s@[j] == c,
        decreases n - a,
    {
        a = a + 1;
    }
    proof {
        lemma_trim_leading_char_idx(s@, a as int, c);
    }
    let ghost t = s@.skip(a as int);
    let mut b: usize = n;
    while b > a && s.get_char(b - 1) == c
        invariant
            n == s@.len(),
            a <= b <= n,
            forall|j: int| b <= j < n ==> s@[j] == c,
        decreases b,
    {
        b = b - 1;
    }
    proof {
        assert(forall|j: int| b - a <= j < t.len() ==> #[trigger] t[j] == c);
        if b > a {
            assert(t[b - a - 1] == s@[b - 1]);
        }
        lemma_trim_trailing_char_idx(t, b - a, c);
    }
    let r = s.substring_char(a, b);
    proof {
        assert(r@ =~= t.subrange(0, b - a));
    }
    r
}

/// `s` with leading and trailing whitespace removed.
pub fn strip_space_ends<'a>(s: &'a str) -> (r: &'a str)
    ensures
        r@ == trim_spaces(s@),
{
    let n: usize = s.unicode_len();
    let mut a: usize = 0;
    while a < n && space_char(s.get_char(a))
        invariant
            n == s@.len(),
            0 <= a <= n,
            forall|j: int| 0 <= j < a ==> is_space_char(#[trigger] s@[j]),
        decreases n - a,
    {
        a = a + 1;
    }
    proof {
        lemma_trim_leading_ws_idx(s@, a as int);
    }
    let ghost t = s@.skip(a as int);
    let mut b: usize = n;
    while b > a && space_char(s.get_char(b - 1))
        invariant
            n == s@.len(),
            a <= b <= n,
            forall|j: int| b <= j < n ==> is_space_char(#[trigger] s@[j]),
        decreases b,
    {
        b = b - 1;
    }
    proof {
        assert(forall|j: int| b - a <= j < t.len() ==> is_space_char(#[trigger] t[j]));
        if b > a {
            assert(t[b - a - 1] == s@[b - 1]);
        }
        lemma_trim_trailing_ws_idx(t, b - a);
    }
    let r = s.substring_char(a, b);
    proof {
        assert(r@ =~= t.subrange(0, b - a));
    }
    r
}

/// The views of a vector of strings, in order.
pub open spec fn view_strs(v: Seq<String>) -> Seq<Seq<char>>
    decreases v.len(),
{
    if v.len() == 0 {
        Seq::empty()
    } else {
        seq![v[0]@] + view_strs(v.skip(1))
    }
}

/// `view_strs` distributes over appending one string.
pub proof fn lemma_view_strs_push(v: Seq<String>, e: String)
    ensures
        view_strs(v.push(e)) == view_strs(v) + seq![e@],
    decreases v.len(),
{
    if v.len() == 0 {
        assert(v.push(e).skip(1) =~= Seq::<String>::empty());
        assert(v.push(e)[0] == e);
        assert(view_strs(v.push(e).skip(1)) =~= Seq::<Seq<char>>::empty());
        assert(view_strs(v.push(e)) =~= Seq::<Seq<char>>::empty() + seq![e@]);
        assert(view_strs(v) + seq![e@] =~= Seq::<Seq<char>>::empty() + seq![e@]);
    } else {
        assert(v.push(e).skip(1) =~= v.skip(1).push(e));
        lemma_view_strs_push(v.skip(1), e);
        assert(seq![v[0]@] + (view_strs(v.skip(1)) + seq![e@]) =~= (seq![v[0]@] + view_strs(
            v.skip(1),
        )) + seq![e@]);
    }
}

/// `view_strs` keeps length and maps each string to its view.
pub proof fn lemma_view_strs_index(v: Seq<String>)
    ensures
        view_strs(v).len() == v.len(),
        forall|i: int| 0 <= i < v.len() ==> #[trigger] view_strs(v)[i] == v[i]@,
    decreases v.len(),
{
    if v.len() > 0 {
        lemma_view_strs_index(v.skip(1));
        assert(forall|i: int| 0 <= i < v.skip(1).len() ==> #[trigger] v.skip(1)[i] == v[i + 1]);
    }
}

/// Whether `p` is a prefix of `s`.
pub open spec fn starts_with(s: Seq<char>, p: Seq<char>) -> bool {
    s.len() >= p.len() && s.subrange(0, p.len() as int) == p
}

/// True when `s` begins with `p`.
pub fn str_starts_with(s: &str, p: &str) -> (r: bool)
    ensures
        r == starts_with(s@, p@),
{
    let n: usize = s.unicode_len();
    let m: usize = p.unicode_len();
    if n < m {
        return false;
    }
    let mut i: usize = 0;
    while i < m
        invariant
            n == s@.len(),
            m == p@.len(),
            m <= n,
            0 <= i <= m,
            forall|j: int| 0 <= j < i ==> s@[j] == p@[j],
        decreases m - i,
    {
        if s.get_char(i) != p.get_char(i) {
            assert(s@.subrange(0, m as int)[i as int] != p@[i as int]);
            return false;
        }
        i = i + 1;
    }
    proof {
        assert(s@.subrange(0, m as int) =~= p@);
    }
    true
}

/// The segments of `s` between occurrences of `c`: splitting never yields
/// an empty list, and every occurrence of `c` separates two segments.
pub open spec fn split_on(s: Seq<char>, c: char) -> Seq<Seq<char>>
    decreases s.len(),
{
    let k = first_index_of(s, c);
    if 0 <= k && k < s.len() {
        seq![s.subrange(0, k)] + split_on(s.skip(k + 1), c)
    } else {
        seq![s]
    }
}

/// Splits `s` at every occurrence of `c`.
pub fn split_on_char(s: &str, c: char) -> (r: Vec<String>)
    ensures
        view_strs(r@) == split_on(s@, c),
{
    let n: usize = s.unicode_len();
    let mut r: Vec<String> = Vec::new();
    let mut start: usize = 0;
    let mut i: usize = 0;
    proof {
        assert(view_strs(r@) =~= Seq::<Seq<char>>::empty());
        assert(s@.skip(0) =~= s@);
        assert(view_strs(r@) + split_on(s@.skip(0), c) =~= split_on(s@, c));
    }
    while i < n
        invariant
            n == s@.len(),
            0 <= start <= i <= n,
            forall|j: int| start <= j < i ==> s@[j] != c,
            split_on(s@, c) == view_strs(r@) + split_on(s@.skip(start as int), c),
        decreases n - i,
    {
        if s.get_char(i) == c {
            let ghost suffix = s@.skip(start as int);
            proof {
                assert(forall|j: int| 0 <= j < i - start ==> suffix[j] != c);
                assert(suffix[i - start] == c);
                lemma_first_index_of(suffix, c, i - start);
                assert(first_index_of(suffix, c) == i - start);
            }
            let seg = String::from_str(s.substring_char(start, i));
            proof {
                assert(seg@ =~= suffix.subrange(0, i - start));
                assert(suffix.skip(i - start + 1) =~= s@.skip(i + 1));
                assert(split_on(suffix, c) == seq![seg@] + split_on(s@.skip(i + 1), c));
                lemma_view_strs_push(r@, seg);
                assert((view_strs(r@) + seq![seg@]) + split_on(s@.skip(i + 1), c) =~= view_strs(r@)
                    + (seq![seg@] + split_on(s@.skip(i + 1), c)));
            }
            r.push(seg);
            start = i + 1;
        }
        i = i + 1;
    }
    let ghost suffix = s@.skip(start as int);
    proof {
        assert(forall|j: int| 0 <= j < suffix.len() ==> suffix[j] != c);
        lemma_first_index_of(suffix, c, suffix.len() as int);
        assert(first_index_of(suffix, c) == -1);
        assert(split_on(suffix, c) == seq![suffix]);
    }
    let seg = String::from_str(s.substring_char(start, n));
    proof {
        assert(seg@ =~= suffix);
        lemma_view_strs_push(r@, seg);
        assert(view_strs(r@) + seq![seg@] =~= view_strs(r@) + split_on(suffix, c));
    }
    r.push(seg);
    r
}

/// The first line of `s`.
pub fn take_first_line<'a>(s: &'a str) -> (r: &'a str)
    ensures
        r@ == first_line(s@),
{
    let n: usize = s.unicode_len();
    let mut i: usize = 0;
    while i < n && s.get_char(i) != '\n'
        invariant
            n == s@.len(),
            0 <= i <= n,
            forall|j: int| 0 <= j < i ==> s@[j] != '\n',
        decreases n - i,
    {
        i = i + 1;
    }
    proof {
        lemma_first_line_idx(s@, i as int);
    }
    s.substring_char(0, i)
}

/// Whether some string in `v` reads `s`.
pub open spec fn seq_has_str(v: Seq<String>, s: Seq<char>) -> bool {
    exists|i: int| 0 <= i < v.len() && #[trigger] v[i]@ == s
}

/// True when some element of `v` reads `s`.
pub fn vec_has_str(v: &Vec<String>, s: &str) -> (r: bool)
    ensures
        r == seq_has_str(v@, s@),
{
    let n: usize = v.len();
    let mut i: usize = 0;
    while i < n
        invariant
            n == v@.len(),
            0 <= i <= n,
            forall|j: int| 0 <= j < i ==> #[trigger] v@[j]@ != s@,
        decreases n - i,
    {
        if str_eq(v[i].as_str(), s) {
            assert(v@[i as int]@ == s@);
            return true;
        }
        i = i + 1;
    }
    proof {
        if seq_has_str(v@, s@) {
            let j = choose|j: int| 0 <= j < v@.len() && #[trigger] v@[j]@ == s@;
            assert(v@[j]@ != s@);
        }
    }
    false
}

/// A copy of a vector of strings with the same contents.
pub fn clone_string_vec(v: &Vec<String>) -> (r: Vec<String>)
    ensures
        r@ == v@,
{
    let n: usize = v.len();
    let mut r: Vec<String> = Vec::new();
    let mut i: usize = 0;
    while i < n
        invariant
            n == v@.len(),
            0 <= i <= n,
            r@ =~= v@.take(i as int),
        decreases n - i,
    {
        r.push(v[i].clone());
        i = i + 1;
    }
    proof {
        assert(r@ =~= v@);
    }
    r
}

/// The strings of `v` without every occurrence of `s`.
pub open spec fn spec_remove_str(v: Seq<String>, s: Seq<char>) -> Seq<String>
    decreases v.len(),
{
    if v.len() == 0 {
        v
    } else {
        let rest = spec_remove_str(v.skip(1), s);
        if v[0]@ == s {
            rest
        } else {
            seq![v[0]] + rest
        }
    }
}

/// `spec_remove_str` distributes over appending one string.
pub proof fn lemma_remove_str_push(v: Seq<String>, s: Seq<char>, e: String)
    ensures
        spec_remove_str(v.push(e), s) == if e@ == s {
            spec_remove_str(v, s)
        } else {
            spec_remove_str(v, s) + seq![e]
        },
    decreases v.len(),
{
    if v.len() == 0 {
        assert(v.push(e).skip(1) =~= Seq::<String>::empty());
        assert(v.push(e)[0] == e);
        assert(spec_remove_str(v.push(e).skip(1), s) =~= Seq::<String>::empty());
        if e@ == s {
        } else {
            assert(spec_remove_str(v.push(e), s) =~= seq![e]);
            assert(spec_remove_str(v, s) + seq![e] =~= seq![e]);
        }
    } else {
        assert(v.push(e).skip(1) =~= v.skip(1).push(e));
        lemma_remove_str_push(v.skip(1), s, e);
        if e@ == s {
        } else {
            if v[0]@ == s {
            } else {
                assert(seq![v[0]] + (spec_remove_str(v.skip(1), s) + seq![e]) =~= (seq![v[0]]
                    + spec_remove_str(v.skip(1), s)) + seq![e]);
            }
        }
    }
}

/// After removal, no string reading `s` remains.
pub proof fn lemma_remove_str_absent(v: Seq<String>, s: Seq<char>)
    ensures
        !seq_has_str(spec_remove_str(v, s), s),
    decreases v.len(),
{
    if v.len() > 0 {
        lemma_remove_str_absent(v.skip(1), s);
        if v[0]@ == s {
        } else {
            let r = spec_remove_str(v, s);
            if seq_has_str(r, s) {
                let i = choose|i: int| 0 <= i < r.len() && #[trigger] r[i]@ == s;
                if i == 0 {
                    assert(r[0] == v[0]);
                } else {
                    assert(r[i] == spec_remove_str(v.skip(1), s)[i - 1]);
                    assert(seq_has_str(spec_remove_str(v.skip(1), s), s));
                }
            }
        }
    }
}

/// Removal of `s` keeps exactly the strings that do not read `s`.
pub proof fn lemma_remove_str_keeps_others(v: Seq<String>, s: Seq<char>, x: Seq<char>)
    requires
        x != s,
    ensures
        seq_has_str(v, x) <==> seq_has_str(spec_remove_str(v, s), x),
    decreases v.len(),
{
    if v.len() > 0 {
        lemma_remove_str_keeps_others(v.skip(1), s, x);
        let r = spec_remove_str(v, s);
        let rest = spec_remove_str(v.skip(1), s);
        if v[0]@ == s {
            if seq_has_str(v, x) {
                let i = choose|i: int| 0 <= i < v.len() && #[trigger] v[i]@ == x;
                assert(v.skip(1)[i - 1]@ == x);
            }
            if seq_has_str(v.skip(1), x) {
                let j = choose|j: int| 0 <= j < v.skip(1).len() && #[trigger] v.skip(1)[j]@ == x;
                assert(v[j + 1]@ == x);
            }
        } else {
            if seq_has_str(v, x) {
                let i = choose|i: int| 0 <= i < v.len() && #[trigger] v[i]@ == x;
                if i == 0 {
                    assert(r[0]@ == x);
                } else {
                    assert(v.skip(1)[i - 1]@ == x);
                    assert(seq_has_str(v.skip(1), x));
                    let j = choose|j: int| 0 <= j < rest.len() && #[trigger] rest[j]@ == x;
                    assert(r[j + 1]@ == x);
                }
            }
            if seq_has_str(r, x) {
                let i = choose|i: int| 0 <= i < r.len() && #[trigger] r[i]@ == x;
                if i == 0 {
                    assert(v[0]@ == x);
                } else {
                    assert(rest[i - 1]@ == x);
                    assert(seq_has_str(rest, x));
                    let j = choose|j: int| 0 <= j < v.skip(1).len() && #[trigger] v.skip(1)[j]@
                        == x;
                    assert(v[j + 1]@ == x);
                }
            }
        }
    }
}

/// A copy of `v` without every string reading `s`.
pub fn remove_str(v: &Vec<String>, s: &str) -> (r: Vec<String>)
    ensures
        r@ == spec_remove_str(v@, s@),
{
    let n: usize = v.len();
    let mut kept: Vec<String> = Vec::new();
    let mut i: usize = 0;
    while i < n
        invariant
            n == v@.len(),
            0 <= i <= n,
            kept@ == spec_remove_str(v@.take(i as int), s@),
        decreases n - i,
    {
        proof {
            assert(v@.take(i + 1) =~= v@.take(i as int).push(v@[i as int]));
            lemma_remove_str_push(v@.take(i as int), s@, v@[i as int]);
        }
        if !str_eq(v[i].as_str(), s) {
            kept.push(v[i].clone());
        }
        i = i + 1;
    }
    proof {
        assert(v@.take(n as int) =~= v@);
    }
    kept
}

} // verus!
