//! Character-level text operations with exact specifications.
//!
//! Texts are modelled as `Seq<char>`. Executable code works on `Vec<char>`,
//! which can be indexed in constant time; `chars_of` makes one of a string.

use vstd::prelude::*;

verus! {

/// The characters of `s`, in order.
pub fn chars_of(s: &str) -> (out: Vec<char>)
    ensures
        out@ == s@,
{
    let mut out: Vec<char> = Vec::new();
    let mut it = s.chars();
    for c in iter: it
        invariant
            out@ == iter.seq().take(iter.index()),
    {
        out.push(c);
    }
    out
}

/// A copy of `v[from..to]`.
pub fn slice_of(v: &Vec<char>, from: usize, to: usize) -> (out: Vec<char>)
    requires
        from <= to <= v.len(),
    ensures
        out@ == v@.subrange(from as int, to as int),
{
    let mut out: Vec<char> = Vec::new();
    let mut i: usize = from;
    while i < to
        invariant
            from <= i <= to <= v.len(),
            out@ == v@.subrange(from as int, i as int),
        decreases to - i,
    {
        out.push(v[i]);
        i += 1;
    }
    out
}

/// `pat` occurs in `s` at index `i`.
pub open spec fn occurs_at(s: Seq<char>, pat: Seq<char>, i: int) -> bool {
    0 <= i && i + pat.len() <= s.len() && s.subrange(i, i + pat.len()) == pat
}

/// Whether `pat` stands in `v` at index `i`.
pub fn matches_at(v: &Vec<char>, pat: &Vec<char>, i: usize) -> (r: bool)
    ensures
        r == occurs_at(v@, pat@, i as int),
{
    if pat.len() > v.len() || i > v.len() - pat.len() {
        return false;
    }
    let mut k: usize = 0;
    while k < pat.len()
        invariant
            k <= pat.len(),
            i + pat.len() <= v.len(),
            forall|j: int| 0 <= j < k ==> v@[i + j] == pat@[j],
        decreases pat.len() - k,
    {
        if v[i + k] != pat[k] {
            return false;
        }
        k += 1;
    }
    proof {
        assert(v@.subrange(i as int, i + pat.len()) =~= pat@);
    }
    true
}

/// `s` begins with `pat`.
pub open spec fn starts_with(s: Seq<char>, pat: Seq<char>) -> bool {
    occurs_at(s, pat, 0)
}

/// `s` ends with `pat`.
pub open spec fn ends_with(s: Seq<char>, pat: Seq<char>) -> bool {
    occurs_at(s, pat, s.len() - pat.len())
}

/// Whether `v` begins with `pat`.
pub fn has_prefix(v: &Vec<char>, pat: &Vec<char>) -> (r: bool)
    ensures
        r == starts_with(v@, pat@),
{
    matches_at(v, pat, 0)
}

/// Whether `v` ends with `pat`.
pub fn has_suffix(v: &Vec<char>, pat: &Vec<char>) -> (r: bool)
    ensures
        r == ends_with(v@, pat@),
{
    if pat.len() > v.len() {
        false
    } else {
        matches_at(v, pat, v.len() - pat.len())
    }
}

/// Whether the two texts hold the same characters.
pub fn same_text(a: &Vec<char>, b: &Vec<char>) -> (r: bool)
    ensures
        r == (a@ == b@),
{
    if a.len() != b.len() {
        return false;
    }
    let r = matches_at(a, b, 0);
    proof {
        assert(a@.subrange(0, a@.len() as int) =~= a@);
    }
    r
}

/// The index of the first occurrence of `pat` in `s` at or after `i`.
pub open spec fn find_from(s: Seq<char>, pat: Seq<char>, i: int) -> Option<int>
    decreases s.len() - i + 1,
{
    if i < 0 || i + pat.len() > s.len() {
        None
    } else if occurs_at(s, pat, i) {
        Some(i)
    } else {
        find_from(s, pat, i + 1)
    }
}

/// What `find_from` returns is an occurrence with none before it, and it
/// returns `None` only where there is no occurrence at all.
pub proof fn lemma_find_from(s: Seq<char>, pat: Seq<char>, i: int)
    requires
        0 <= i,
    ensures
        match find_from(s, pat, i) {
            Some(k) => i <= k && occurs_at(s, pat, k) && forall|j: int|
                i <= j < k ==> !occurs_at(s, pat, j),
            None => forall|j: int| i <= j ==> !occurs_at(s, pat, j),
        },
    decreases s.len() - i + 1,
{
    if i + pat.len() > s.len() {
    } else if occurs_at(s, pat, i) {
    } else {
        lemma_find_from(s, pat, i + 1);
    }
}

/// The first occurrence of `pat` in `v` at or after `from`.
pub fn find(v: &Vec<char>, pat: &Vec<char>, from: usize) -> (r: Option<usize>)
    ensures
        match r {
            Some(k) => find_from(v@, pat@, from as int) == Some(k as int),
            None => find_from(v@, pat@, from as int) is None,
        },
{
    if pat.len() > v.len() {
        return None;
    }
    let last: usize = v.len() - pat.len();
    let mut i: usize = from;
    while i <= last
        invariant
            from <= i,
            last == v.len() - pat.len(),
            find_from(v@, pat@, from as int) == find_from(v@, pat@, i as int),
        decreases last - i,
    {
        if matches_at(v, pat, i) {
            return Some(i);
        }
        if i == last {
            assert(find_from(v@, pat@, i + 1) is None);
            return None;
        }
        i += 1;
    }
    None
}

/// What stands in `s` before the first occurrence of `sep`: all of `s` where
/// `sep` does not occur.
pub open spec fn before_first(s: Seq<char>, sep: Seq<char>) -> Seq<char> {
    match find_from(s, sep, 0) {
        Some(i) => s.subrange(0, i),
        None => s,
    }
}

/// What stands in `s` after the first occurrence of `sep`, if `sep` occurs.
pub open spec fn after_first(s: Seq<char>, sep: Seq<char>) -> Option<Seq<char>> {
    match find_from(s, sep, 0) {
        Some(i) => Some(s.subrange(i + sep.len(), s.len() as int)),
        None => None,
    }
}

/// Cuts `v` at the first occurrence of `sep`.
pub fn cut(v: &Vec<char>, sep: &Vec<char>) -> (r: (Vec<char>, Option<Vec<char>>))
    ensures
        r.0@ == before_first(v@, sep@),
        match r.1 {
            Some(rest) => after_first(v@, sep@) == Some(rest@),
            None => after_first(v@, sep@) is None,
        },
{
    proof {
        lemma_find_from(v@, sep@, 0);
    }
    match find(v, sep, 0) {
        Some(i) => (slice_of(v, 0, i), Some(slice_of(v, i + sep.len(), v.len()))),
        None => {
            proof {
                assert(v@.subrange(0, v@.len() as int) =~= v@);
            }
            (slice_of(v, 0, v.len()), None)
        },
    }
}

/// The pieces of `s[start..]` between occurrences of `sep`, scanning from
/// `i` with the current piece beginning at `start`. Occurrences are taken
/// from left to right and do not overlap.
pub open spec fn split_from(s: Seq<char>, sep: Seq<char>, start: int, i: int) -> Seq<Seq<char>>
    decreases s.len() - i,
{
    if sep.len() == 0 || i < start || start < 0 || i + sep.len() > s.len() {
        seq![s.subrange(start, s.len() as int)]
    } else if occurs_at(s, sep, i) {
        seq![s.subrange(start, i)] + split_from(s, sep, i + sep.len(), i + sep.len())
    } else {
        split_from(s, sep, start, i + 1)
    }
}

/// The pieces of `s` between the occurrences of a non-empty `sep`: there is
/// always at least one piece, and a text without `sep` is its own one piece.
pub open spec fn split(s: Seq<char>, sep: Seq<char>) -> Seq<Seq<char>> {
    split_from(s, sep, 0, 0)
}

/// The pieces put together again, with `sep` between each two.
pub open spec fn join(pieces: Seq<Seq<char>>, sep: Seq<char>) -> Seq<char>
    decreases pieces.len(),
{
    if pieces.len() == 0 {
        Seq::empty()
    } else if pieces.len() == 1 {
        pieces[0]
    } else {
        pieces[0] + sep + join(pieces.skip(1), sep)
    }
}

/// Splitting loses nothing: the pieces, joined by the separator, are the
/// text again.
pub proof fn lemma_join_undoes_split(s: Seq<char>, sep: Seq<char>)
    ensures
        split(s, sep).len() >= 1,
        join(split(s, sep), sep) == s,
{
    lemma_join_split_from(s, sep, 0, 0);
    assert(s.subrange(0, s.len() as int) =~= s);
}

/// The pieces from `start` on, joined, are the text from `start` on.
proof fn lemma_join_split_from(s: Seq<char>, sep: Seq<char>, start: int, i: int)
    requires
        0 <= start <= i <= s.len(),
    ensures
        split_from(s, sep, start, i).len() >= 1,
        join(split_from(s, sep, start, i), sep) == s.subrange(start, s.len() as int),
    decreases s.len() - i,
{
    if sep.len() == 0 || i + sep.len() > s.len() {
    } else if occurs_at(s, sep, i) {
        let next = i + sep.len();
        lemma_join_split_from(s, sep, next, next);
        let rest = split_from(s, sep, next, next);
        let all = seq![s.subrange(start, i)] + rest;
        assert(all.skip(1) =~= rest);
        assert(s.subrange(start, i) + sep + s.subrange(next, s.len() as int) =~= s.subrange(
            start,
            s.len() as int,
        ));
    } else {
        lemma_join_split_from(s, sep, start, i + 1);
    }
}

/// No piece of a split holds the separator.
pub proof fn lemma_pieces_hold_no_separator(s: Seq<char>, sep: Seq<char>, n: int, r: int)
    requires
        sep.len() > 0,
        0 <= n < split(s, sep).len(),
    ensures
        !occurs_at(split(s, sep)[n], sep, r),
{
    lemma_pieces_of_split_from(s, sep, 0, 0, n, r);
}

/// Where the separator does not occur between `start` and `i`, no piece
/// from `start` on holds it.
proof fn lemma_pieces_of_split_from(
    s: Seq<char>,
    sep: Seq<char>,
    start: int,
    i: int,
    n: int,
    r: int,
)
    requires
        sep.len() > 0,
        0 <= start <= i <= s.len(),
        forall|j: int| start <= j < i ==> !occurs_at(s, sep, j),
        0 <= n < split_from(s, sep, start, i).len(),
    ensures
        !occurs_at(split_from(s, sep, start, i)[n], sep, r),
    decreases s.len() - i,
{
    if i + sep.len() > s.len() {
        let piece = s.subrange(start, s.len() as int);
        if occurs_at(piece, sep, r) {
            assert(s.subrange(start + r, start + r + sep.len()) =~= piece.subrange(
                r,
                r + sep.len(),
            ));
            assert(occurs_at(s, sep, start + r));
        }
    } else if occurs_at(s, sep, i) {
        let next = i + sep.len();
        if n == 0 {
            let piece = s.subrange(start, i);
            if occurs_at(piece, sep, r) {
                assert(s.subrange(start + r, start + r + sep.len()) =~= piece.subrange(
                    r,
                    r + sep.len(),
                ));
                assert(occurs_at(s, sep, start + r));
            }
        } else {
            lemma_pieces_of_split_from(s, sep, next, next, n - 1, r);
        }
    } else {
        lemma_pieces_of_split_from(s, sep, start, i + 1, n, r);
    }
}

/// The views of the texts in `pieces`.
pub open spec fn texts(pieces: Seq<Vec<char>>) -> Seq<Seq<char>> {
    pieces.map_values(|p: Vec<char>| p@)
}

/// Splits `v` at every occurrence of `sep`.
pub fn split_text(v: &Vec<char>, sep: &Vec<char>) -> (out: Vec<Vec<char>>)
    ensures
        texts(out@) == split(v@, sep@),
        out.len() >= 1,
{
    let mut out: Vec<Vec<char>> = Vec::new();
    let mut start: usize = 0;
    let mut i: usize = 0;
    while sep.len() > 0 && i < v.len() && v.len() - i >= sep.len()
        invariant
            start <= i <= v.len(),
            split(v@, sep@) == texts(out@) + split_from(v@, sep@, start as int, i as int),
        decreases v.len() - i,
    {
        if matches_at(v, sep, i) {
            let piece = slice_of(v, start, i);
            out.push(piece);
            i += sep.len();
            start = i;
        } else {
            i += 1;
        }
    }
    let piece = slice_of(v, start, v.len());
    out.push(piece);
    out
}

/// Classes of characters that delimit or make up the parts of a request.
#[derive(Clone, Copy, Debug, PartialEq, Eq)]
pub enum CharClass {
    /// The padding character U+0000.
    Nul,
    /// Unicode white space.
    Space,
    /// Anything that is not white space.
    Word,
}

/// The characters with the Unicode property `White_Space`.
pub open spec fn is_space(c: char) -> bool {
    let n = c as u32;
    (0x09 <= n <= 0x0d) || n == 0x20 || n == 0x85 || n == 0xa0 || n == 0x1680 || (0x2000 <= n
        <= 0x200a) || n == 0x2028 || n == 0x2029 || n == 0x202f || n == 0x205f || n == 0x3000
}

impl CharClass {
    /// Whether `c` belongs to the class.
    pub open spec fn holds(self, c: char) -> bool {
        match self {
            CharClass::Nul => c == '\0',
            CharClass::Space => is_space(c),
            CharClass::Word => !is_space(c),
        }
    }

    /// Whether `c` belongs to the class.
    pub fn test(&self, c: char) -> (r: bool)
        ensures
            r == self.holds(c),
    {
        let n: u32 = c as u32;
        let space = (0x09 <= n && n <= 0x0d) || n == 0x20 || n == 0x85 || n == 0xa0 || n == 0x1680
            || (0x2000 <= n && n <= 0x200a) || n == 0x2028 || n == 0x2029 || n == 0x202f || n
            == 0x205f || n == 0x3000;
        match self {
            CharClass::Nul => n == 0,
            CharClass::Space => space,
            CharClass::Word => !space,
        }
    }
}

/// The end of the longest run of `class` characters that begins at `i`.
pub open spec fn run_end(s: Seq<char>, class: CharClass, i: int) -> int
    decreases s.len() - i,
{
    if 0 <= i < s.len() && class.holds(s[i]) {
        run_end(s, class, i + 1)
    } else {
        i
    }
}

/// The start of the longest run of `class` characters that ends at `j` and
/// does not reach below `lo`.
pub open spec fn run_start(s: Seq<char>, class: CharClass, lo: int, j: int) -> int
    decreases j,
{
    if 0 <= lo < j <= s.len() && class.holds(s[j - 1]) {
        run_start(s, class, lo, j - 1)
    } else {
        j
    }
}

/// `run_end` stays within the text and stops at the first character outside
/// the class.
pub proof fn lemma_run_end(s: Seq<char>, class: CharClass, i: int)
    requires
        0 <= i <= s.len(),
    ensures
        i <= run_end(s, class, i) <= s.len(),
        forall|j: int| i <= j < run_end(s, class, i) ==> class.holds(s[j]),
        run_end(s, class, i) < s.len() ==> !class.holds(s[run_end(s, class, i)]),
    decreases s.len() - i,
{
    if i < s.len() && class.holds(s[i]) {
        lemma_run_end(s, class, i + 1);
    }
}

/// `run_start` stays between `lo` and `j` and stops behind the last
/// character outside the class.
pub proof fn lemma_run_start(s: Seq<char>, class: CharClass, lo: int, j: int)
    requires
        0 <= lo <= j <= s.len(),
    ensures
        lo <= run_start(s, class, lo, j) <= j,
        forall|k: int| run_start(s, class, lo, j) <= k < j ==> class.holds(s[k]),
        run_start(s, class, lo, j) > lo ==> !class.holds(s[run_start(s, class, lo, j) - 1]),
    decreases j,
{
    if lo < j && class.holds(s[j - 1]) {
        lemma_run_start(s, class, lo, j - 1);
    }
}

/// `s` without the `class` characters at its two ends.
pub open spec fn trim(s: Seq<char>, class: CharClass) -> Seq<char> {
    let a = run_end(s, class, 0);
    let b = run_start(s, class, a, s.len() as int);
    s.subrange(a, b)
}

/// What `trim` gives is a part of the text that neither begins nor ends
/// with a `class` character, and all that it leaves out belongs to the
/// class.
pub proof fn lemma_trim_ends(s: Seq<char>, class: CharClass)
    ensures
        ({
            let a = run_end(s, class, 0);
            let b = run_start(s, class, a, s.len() as int);
            let t = trim(s, class);
            &&& 0 <= a <= b <= s.len()
            &&& t == s.subrange(a, b)
            &&& t.len() > 0 ==> !class.holds(t[0]) && !class.holds(t[t.len() - 1])
            &&& forall|i: int| 0 <= i < a ==> class.holds(s[i])
            &&& forall|i: int| b <= i < s.len() ==> class.holds(s[i])
        }),
{
    lemma_run_end(s, class, 0);
    let a = run_end(s, class, 0);
    lemma_run_start(s, class, a, s.len() as int);
}

/// Skips the run of `class` characters that begins at `from`.
pub fn skip_run(v: &Vec<char>, class: CharClass, from: usize) -> (r: usize)
    ensures
        r == run_end(v@, class, from as int),
        from <= r,
        from <= v.len() ==> r <= v.len(),
{
    let mut i: usize = from;
    while i < v.len() && class.test(v[i])
        invariant
            from <= i,
            from <= v.len() ==> i <= v.len(),
            run_end(v@, class, from as int) == run_end(v@, class, i as int),
        decreases v.len() - i,
    {
        i += 1;
    }
    i
}

/// Steps back over the run of `class` characters that ends at `to`, not
/// below `lo`.
pub fn skip_run_back(v: &Vec<char>, class: CharClass, lo: usize, to: usize) -> (r: usize)
    ensures
        r == run_start(v@, class, lo as int, to as int),
        r <= to,
        lo <= to ==> lo <= r,
{
    if to > v.len() {
        return to;
    }
    let mut j: usize = to;
    while j > lo && class.test(v[j - 1])
        invariant
            j <= to <= v.len(),
            lo <= to ==> lo <= j,
            run_start(v@, class, lo as int, to as int) == run_start(v@, class, lo as int, j as int),
        decreases j,
    {
        j -= 1;
    }
    j
}

/// Removes the `class` characters at the two ends of `v`.
pub fn trim_text(v: &Vec<char>, class: CharClass) -> (out: Vec<char>)
    ensures
        out@ == trim(v@, class),
{
    let a = skip_run(v, class, 0);
    let b = skip_run_back(v, class, a, v.len());
    slice_of(v, a, b)
}

} // verus!
