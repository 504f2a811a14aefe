//! Character-level text handling: whitespace trimming, prefix and substring
//! tests, searches and decimal rendering, each stated over `Seq<char>`.

use vstd::prelude::*;

verus! {

/// Whether `c` is white space in the sense of Unicode's `White_Space`
/// property, the set that `char::is_whitespace` tests.
pub open spec fn is_ws(c: char) -> bool {
    let u = c as u32;
    ||| (0x09 <= u && u <= 0x0D)
    ||| u == 0x20
    ||| u == 0x85
    ||| u == 0xA0
    ||| u == 0x1680
    ||| (0x2000 <= u && u <= 0x200A)
    ||| u == 0x2028
    ||| u == 0x2029
    ||| u == 0x202F
    ||| u == 0x205F
    ||| u == 0x3000
}

/// The first index at or after `i` that is not white space (or the length).
pub open spec fn skip_ws_from(s: Seq<char>, i: int) -> int
    decreases s.len() - i,
{
    if 0 <= i < s.len() && is_ws(s[i]) {
        skip_ws_from(s, i + 1)
    } else {
        i
    }
}

/// The length that remains of `s.take(j)` once trailing white space is cut.
pub open spec fn cut_ws_before(s: Seq<char>, j: int) -> int
    decreases j,
{
    if 0 < j <= s.len() && is_ws(s[j - 1]) {
        cut_ws_before(s, j - 1)
    } else {
        j
    }
}

/// `s` without leading white space.
pub open spec fn trim_start(s: Seq<char>) -> Seq<char> {
    s.skip(skip_ws_from(s, 0))
}

/// `s` without trailing white space.
pub open spec fn trim_end(s: Seq<char>) -> Seq<char> {
    s.take(cut_ws_before(s, s.len() as int))
}

/// `s` without leading and trailing white space, as `str::trim` gives it.
pub open spec fn trim(s: Seq<char>) -> Seq<char> {
    trim_end(trim_start(s))
}

/// Whether `s` begins with `p`.
pub open spec fn starts_with(s: Seq<char>, p: Seq<char>) -> bool {
    p.len() <= s.len() && s.take(p.len() as int) == p
}

/// Whether `p` occurs in `s` starting at index `i`.
pub open spec fn occurs_at(s: Seq<char>, p: Seq<char>, i: int) -> bool {
    0 <= i && i + p.len() <= s.len() && s.subrange(i, i + p.len()) == p
}

/// Whether `p` occurs anywhere in `s`, as `str::contains` tests it.
pub open spec fn contains(s: Seq<char>, p: Seq<char>) -> bool {
    exists|i: int| occurs_at(s, p, i)
}

/// The first index at or after `i` that holds a line feed (or the length).
pub open spec fn next_newline(s: Seq<char>, i: int) -> int
    decreases s.len() - i,
{
    if i < 0 || i >= s.len() {
        s.len() as int
    } else if s[i] == '\n' {
        i
    } else {
        next_newline(s, i + 1)
    }
}

/// The line feed search ends between its start and the length.
pub proof fn lemma_next_newline_bounds(s: Seq<char>, i: int)
    requires
        0 <= i <= s.len(),
    ensures
        i <= next_newline(s, i) <= s.len(),
        next_newline(s, i) < s.len() ==> s[next_newline(s, i)] == '\n',
    decreases s.len() - i,
{
    if i < s.len() && s[i] != '\n' {
        lemma_next_newline_bounds(s, i + 1);
    }
}

/// A line without the carriage return that ended it.
pub open spec fn strip_cr(l: Seq<char>) -> Seq<char> {
    if l.len() > 0 && l.last() == '\r' {
        l.drop_last()
    } else {
        l
    }
}

/// The lines of `s` from index `i` on, as `str::lines` gives them: split at
/// each line feed, a carriage return before the line feed dropped, and no
/// empty line after a final line feed.
pub open spec fn lines_from(s: Seq<char>, i: int) -> Seq<Seq<char>>
    decreases s.len() - i,
{
    if i < 0 || i >= s.len() {
        Seq::empty()
    } else {
        let j = next_newline(s, i);
        proof {
            lemma_next_newline_bounds(s, i);
        }
        if j < s.len() {
            seq![strip_cr(s.subrange(i, j))] + lines_from(s, j + 1)
        } else {
            seq![s.subrange(i, s.len() as int)]
        }
    }
}

/// The lines of `s`, as `str::lines` gives them.
pub open spec fn lines(s: Seq<char>) -> Seq<Seq<char>> {
    lines_from(s, 0)
}

/// Lines joined with line feeds, as `join("\n")` joins them.
pub open spec fn join_lines(ls: Seq<Seq<char>>) -> Seq<char>
    decreases ls.len(),
{
    if ls.len() == 0 {
        Seq::empty()
    } else if ls.len() == 1 {
        ls[0]
    } else {
        join_lines(ls.drop_last()) + seq!['\n'] + ls.last()
    }
}

/// The first index at or after `i` that holds `c`.
pub open spec fn find_char_from(s: Seq<char>, c: char, i: int) -> Option<int>
    decreases s.len() - i,
{
    if i < 0 || i >= s.len() {
        None
    } else if s[i] == c {
        Some(i)
    } else {
        find_char_from(s, c, i + 1)
    }
}

/// The number of bytes that UTF-8 takes for `c`.
pub open spec fn utf8_width(c: char) -> nat {
    let u = c as u32;
    if u < 0x80 {
        1
    } else if u < 0x800 {
        2
    } else if u < 0x10000 {
        3
    } else {
        4
    }
}

/// The number of bytes that UTF-8 takes for `s`.
pub open spec fn utf8_len(s: Seq<char>) -> nat
    decreases s.len(),
{
    if s.len() == 0 {
        0
    } else {
        utf8_len(s.drop_last()) + utf8_width(s.last())
    }
}

/// The lines of `s`.
pub fn lines_of(s: &str) -> (r: Vec<&str>)
    ensures
        r@.len() == lines(s@).len(),
        forall|k: int| 0 <= k < r@.len() ==> #[trigger] r@[k]@ == lines(s@)[k],
{
    let v = chars_of(s);
    let n = v.len();
    let mut r: Vec<&str> = Vec::new();
    let ghost mut acc: Seq<Seq<char>> = Seq::empty();
    let mut i: usize = 0;
    while i < n
        invariant
            v@ == s@,
            n == v.len(),
            i <= n,
            lines(s@) == acc + lines_from(s@, i as int),
            r@.len() == acc.len(),
            forall|k: int| 0 <= k < r@.len() ==> #[trigger] r@[k]@ == acc[k],
        decreases n - i,
    {
        let mut j: usize = i;
        while j < n && v[j] != '\n'
            invariant
                v@ == s@,
                n == v.len(),
                i <= j <= n,
                next_newline(s@, j as int) == next_newline(s@, i as int),
            decreases n - j,
        {
            j = j + 1;
        }
        if j < n {
            let end = if j > i && v[j - 1] == '\r' {
                j - 1
            } else {
                j
            };
            let line = s.substring_char(i, end);
            assert(line@ == strip_cr(s@.subrange(i as int, j as int)));
            r.push(line);
            proof {
                acc = acc.push(line@);
            }
            i = j + 1;
        } else {
            let line = s.substring_char(i, n);
            r.push(line);
            proof {
                acc = acc.push(line@);
            }
            i = n;
        }
    }
    assert(acc + lines_from(s@, i as int) =~= acc);
    r
}

/// The characters of `s`, in order.
pub fn chars_of(s: &str) -> (v: Vec<char>)
    ensures
        v@ == s@,
{
    let mut v: Vec<char> = Vec::new();
    for c in iter: s.chars()
        invariant
            v@ == iter.seq().take(iter.index() as int),
    {
        v.push(c);
    }
    v
}

/// `str::trim`.
pub fn trim_str(s: &str) -> (r: &str)
    ensures
        r@ == trim(s@),
{
    let v = chars_of(s);
    let n = v.len();
    let mut i: usize = 0;
    while i < n && is_ws_char(v[i])
        invariant
            v@ == s@,
            n == v.len(),
            i <= n,
            skip_ws_from(s@, i as int) == skip_ws_from(s@, 0),
        decreases n - i,
    {
        i = i + 1;
    }
    let ghost t = s@.skip(i as int);
    let mut j: usize = n;
    while j > i && is_ws_char(v[j - 1])
        invariant
            v@ == s@,
            n == v.len(),
            i <= j <= n,
            t == s@.skip(i as int),
            cut_ws_before(t, (j - i) as int) == cut_ws_before(t, t.len() as int),
        decreases j,
    {
        j = j - 1;
    }
    let r = s.substring_char(i, j);
    assert(r@ =~= trim(s@));
    r
}

/// `char::is_whitespace`.
pub fn is_ws_char(c: char) -> (b: bool)
    ensures
        b == is_ws(c),
{
    let u = c as u32;
    (0x09 <= u && u <= 0x0D) || u == 0x20 || u == 0x85 || u == 0xA0 || u == 0x1680 || (0x2000
        <= u && u <= 0x200A) || u == 0x2028 || u == 0x2029 || u == 0x202F || u == 0x205F || u
        == 0x3000
}

/// Whether the characters in `v` begin with those of `p`.
pub fn chars_start_with(v: &Vec<char>, p: &Vec<char>) -> (b: bool)
    ensures
        b == starts_with(v@, p@),
{
    if p.len() > v.len() {
        return false;
    }
    let mut k: usize = 0;
    while k < p.len()
        invariant
            p.len() <= v.len(),
            k <= p.len(),
            forall|m: int| 0 <= m < k ==> v@[m] == p@[m],
        decreases p.len() - k,
    {
        if v[k] != p[k] {
            assert(v@.take(p.len() as int)[k as int] != p@[k as int]);
            return false;
        }
        k = k + 1;
    }
    assert(v@.take(p.len() as int) =~= p@);
    true
}

/// Whether `p` occurs in `v` at index `i`.
fn chars_occur_at(v: &Vec<char>, p: &Vec<char>, i: usize) -> (b: bool)
    requires
        i + p.len() <= v.len(),
    ensures
        b == occurs_at(v@, p@, i as int),
{
    let mut k: usize = 0;
    while k < p.len()
        invariant
            i + p.len() <= v.len(),
            k <= p.len(),
            forall|m: int| 0 <= m < k ==> v@[i + m] == p@[m],
        decreases p.len() - k,
    {
        if v[i + k] != p[k] {
            assert(v@.subrange(i as int, i + p.len())[k as int] != p@[k as int]);
            return false;
        }
        k = k + 1;
    }
    assert(v@.subrange(i as int, i + p.len()) =~= p@);
    true
}

/// Whether `p` occurs anywhere in `v`.
pub fn chars_contain(v: &Vec<char>, p: &Vec<char>) -> (b: bool)
    ensures
        b == contains(v@, p@),
{
    if p.len() > v.len() {
        assert forall|i: int| !occurs_at(v@, p@, i) by {}
        return false;
    }
    let last = v.len() - p.len();
    let mut i: usize = 0;
    while i < last
        invariant
            last + p.len() == v.len(),
            i <= last,
            forall|m: int| 0 <= m < i ==> !occurs_at(v@, p@, m),
        decreases last - i,
    {
        if chars_occur_at(v, p, i) {
            return true;
        }
        i = i + 1;
    }
    if chars_occur_at(v, p, last) {
        return true;
    }
    assert forall|m: int| !occurs_at(v@, p@, m) by {
        if 0 <= m <= last {
        }
    }
    false
}

/// `str::contains` for a string pattern.
pub fn str_contains(s: &str, p: &str) -> (b: bool)
    ensures
        b == contains(s@, p@),
{
    let v = chars_of(s);
    let w = chars_of(p);
    chars_contain(&v, &w)
}

/// `str::starts_with` for a string pattern.
pub fn str_starts_with(s: &str, p: &str) -> (b: bool)
    ensures
        b == starts_with(s@, p@),
{
    let v = chars_of(s);
    let w = chars_of(p);
    chars_start_with(&v, &w)
}

/// Equality of two strings.
pub fn str_eq(a: &str, b: &str) -> (r: bool)
    ensures
        r == (a@ == b@),
{
    let v = chars_of(a);
    let w = chars_of(b);
    if v.len() != w.len() {
        return false;
    }
    let r = chars_start_with(&v, &w);
    assert(v@ =~= v@.take(w@.len() as int));
    r
}

/// Whether `s` ends with `p`.
pub open spec fn ends_with(s: Seq<char>, p: Seq<char>) -> bool {
    p.len() <= s.len() && s.subrange(s.len() - p.len(), s.len() as int) == p
}

/// `str::ends_with` for a string pattern.
pub fn str_ends_with(s: &str, p: &str) -> (b: bool)
    ensures
        b == ends_with(s@, p@),
{
    let v = chars_of(s);
    let w = chars_of(p);
    if w.len() > v.len() {
        return false;
    }
    let off = v.len() - w.len();
    let mut i: usize = 0;
    while i < w.len()
        invariant
            v@ == s@,
            w@ == p@,
            off == v@.len() - w@.len(),
            w@.len() <= v@.len(),
            v@.len() == v.len(),
            i <= w@.len(),
            forall|k: int| 0 <= k < i ==> v@[off + k] == w@[k],
        decreases w.len() - i,
    {
        if v[off + i] != w[i] {
            assert(v@.subrange(off as int, v@.len() as int)[i as int] != w@[i as int]);
            return false;
        }
        i = i + 1;
    }
    assert(v@.subrange(off as int, v@.len() as int) =~= w@);
    true
}

/// The views of a sequence of strings.
pub open spec fn texts(v: Seq<String>) -> Seq<Seq<char>> {
    Seq::new(v.len(), |i: int| v[i]@)
}

/// Pieces joined with a separator, as `join(sep)` joins them.
pub open spec fn join_with(ls: Seq<Seq<char>>, sep: Seq<char>) -> Seq<char>
    decreases ls.len(),
{
    if ls.len() == 0 {
        Seq::empty()
    } else if ls.len() == 1 {
        ls[0]
    } else {
        join_with(ls.drop_last(), sep) + sep + ls.last()
    }
}

/// `join` on a slice of strings.
pub fn join_strings(v: &Vec<String>, sep: &str) -> (r: String)
    ensures
        r@ == join_with(texts(v@), sep@),
{
    let mut out = String::new();
    let mut i: usize = 0;
    while i < v.len()
        invariant
            i <= v@.len(),
            out@ == join_with(texts(v@.take(i as int)), sep@),
        decreases v.len() - i,
    {
        if i > 0 {
            out.append(sep);
        }
        out.append(v[i].as_str());
        proof {
            let t = texts(v@.take(i + 1));
            assert(t.drop_last() =~= texts(v@.take(i as int)));
            assert(t.last() == v@[i as int]@);
            if i == 0 {
                assert(t =~= seq![v@[0]@]);
            }
        }
        i = i + 1;
    }
    assert(v@.take(v@.len() as int) =~= v@);
    out
}

/// The first index at or after `i` at which `p` occurs in `s`.
pub open spec fn find_from(s: Seq<char>, p: Seq<char>, i: int) -> Option<int>
    decreases s.len() + 1 - i,
{
    if i < 0 || i + p.len() > s.len() {
        None
    } else if occurs_at(s, p, i) {
        Some(i)
    } else {
        find_from(s, p, i + 1)
    }
}

/// The first index at which `p` occurs in `s`, as `str::find` finds it (in
/// characters rather than bytes).
pub open spec fn find_first(s: Seq<char>, p: Seq<char>) -> Option<int> {
    find_from(s, p, 0)
}

/// A found index lies where the pattern occurs.
pub proof fn lemma_find_from_occurs(s: Seq<char>, p: Seq<char>, i: int)
    requires
        0 <= i,
    ensures
        find_from(s, p, i) matches Some(k) ==> occurs_at(s, p, k) && i <= k,
        find_from(s, p, i) is None ==> forall|k: int| i <= k ==> !occurs_at(s, p, k),
    decreases s.len() + 1 - i,
{
    if i + p.len() <= s.len() && !occurs_at(s, p, i) {
        lemma_find_from_occurs(s, p, i + 1);
    }
}

/// The first index at which the characters of `p` occur in `v`.
pub fn chars_find(v: &Vec<char>, p: &Vec<char>) -> (r: Option<usize>)
    ensures
        match find_first(v@, p@) {
            Some(k) => r matches Some(x) && x == k,
            None => r is None,
        },
{
    if p.len() > v.len() {
        return None;
    }
    let last = v.len() - p.len();
    let mut i: usize = 0;
    while i < last
        invariant
            last + p.len() == v.len(),
            i <= last,
            find_from(v@, p@, 0) == find_from(v@, p@, i as int),
        decreases last - i,
    {
        if chars_occur_at(v, p, i) {
            return Some(i);
        }
        i = i + 1;
    }
    if chars_occur_at(v, p, last) {
        return Some(last);
    }
    assert(find_from(v@, p@, last + 1) is None);
    None
}

/// The number of bytes that UTF-8 takes for `c`.
pub fn utf8_width_of(c: char) -> (w: u128)
    ensures
        w == utf8_width(c),
{
    let u = c as u32;
    if u < 0x80 {
        1
    } else if u < 0x800 {
        2
    } else if u < 0x10000 {
        3
    } else {
        4
    }
}

/// The byte offset of every character of `v`, and of its end.
pub fn byte_offsets(v: &Vec<char>) -> (off: Vec<u128>)
    ensures
        off@.len() == v@.len() + 1,
        forall|m: int| 0 <= m <= v@.len() ==> #[trigger] off@[m] == utf8_len(v@.take(m)),
{
    let mut off: Vec<u128> = Vec::new();
    off.push(0);
    assert(v@.take(0) =~= Seq::<char>::empty());
    let mut k: usize = 0;
    while k < v.len()
        invariant
            k <= v.len(),
            off@.len() == k + 1,
            forall|m: int| 0 <= m <= k ==> #[trigger] off@[m] == utf8_len(v@.take(m)),
            off@[k as int] <= 4 * k,
        decreases v.len() - k,
    {
        let w = utf8_width_of(v[k]);
        let next = off[k] + w;
        assert(v@.take(k + 1).drop_last() =~= v@.take(k as int));
        off.push(next);
        k = k + 1;
    }
    off
}

/// The number of leading characters of `s` whose UTF-8 encoding fits in
/// `limit` bytes: the longest prefix that ends on a character boundary at or
/// before byte `limit`.
pub open spec fn chars_within(s: Seq<char>, limit: int) -> int
    decreases s.len(),
{
    if utf8_len(s) <= limit {
        s.len() as int
    } else if s.len() == 0 {
        0
    } else {
        chars_within(s.drop_last(), limit)
    }
}

/// The number of leading characters of the text whose byte offsets are
/// `off` that fit in `limit` bytes.
pub fn chars_within_bytes(off: &Vec<u128>, limit: u128, Ghost(s): Ghost<Seq<char>>) -> (r: usize)
    requires
        off@.len() == s.len() + 1,
        forall|m: int| 0 <= m <= s.len() ==> #[trigger] off@[m] == utf8_len(s.take(m)),
    ensures
        r == chars_within(s, limit as int),
        r <= s.len(),
{
    let mut k: usize = off.len() - 1;
    assert(s.take(k as int) =~= s);
    while k > 0 && off[k] > limit
        invariant
            off@.len() == s.len() + 1,
            forall|m: int| 0 <= m <= s.len() ==> #[trigger] off@[m] == utf8_len(s.take(m)),
            k <= s.len(),
            chars_within(s.take(k as int), limit as int) == chars_within(s, limit as int),
        decreases k,
    {
        assert(s.take(k as int).drop_last() =~= s.take(k - 1));
        k = k - 1;
    }
    assert(s.take(k as int).len() == k);
    if k == 0 {
        assert(s.take(0) =~= Seq::<char>::empty());
    }
    k
}

/// Each character takes at least one byte.
pub proof fn lemma_utf8_len_grows(s: Seq<char>, j: int)
    requires
        0 <= j <= s.len(),
    ensures
        utf8_len(s.take(j)) + (s.len() - j) <= utf8_len(s),
    decreases s.len() - j,
{
    if j < s.len() {
        lemma_utf8_len_grows(s, j + 1);
        assert(s.take(j + 1).drop_last() =~= s.take(j));
    } else {
        assert(s.take(j) =~= s);
    }
}

/// Where `limit` is a character boundary, the characters that fit in it are
/// exactly those before it.
pub proof fn lemma_chars_within_at_boundary(s: Seq<char>, j: int)
    requires
        0 <= j <= s.len(),
    ensures
        chars_within(s, utf8_len(s.take(j)) as int) == j,
    decreases s.len(),
{
    let b = utf8_len(s.take(j)) as int;
    lemma_utf8_len_grows(s, j);
    if j < s.len() {
        assert(s.drop_last().take(j) =~= s.take(j));
        lemma_chars_within_at_boundary(s.drop_last(), j);
    } else {
        assert(s.take(j) =~= s);
    }
}

/// The text of an optional string.
pub open spec fn opt_text(o: Option<String>) -> Option<Seq<char>> {
    match o {
        Some(s) => Some(s@),
        None => None,
    }
}

/// The views of a sequence of string slices.
pub open spec fn str_views(v: Seq<&str>) -> Seq<Seq<char>> {
    Seq::new(v.len(), |i: int| v[i]@)
}

} // verus!
