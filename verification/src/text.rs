//! Scanning of character sequences: delimiter classes, fields, lines and
//! substring search.
//!
//! Everything here is stated over `Seq<char>`; the executable functions work on
//! character slices and return positions.
use vstd::prelude::*;
use vstd::utf8::{decode_utf8, valid_utf8};

verus! {

/// A class of delimiting characters.
#[derive(Clone, Copy, Debug)]
pub enum CharClass {
    /// The separator `/` between the components of a path.
    Slash,
    /// The dot that introduces a file extension.
    Dot,
    /// The line feed that ends a line.
    LineFeed,
    /// Any character that Unicode counts as white space.
    Whitespace,
}

/// Whether Unicode counts `c` as white space (`White_Space`).
pub open spec fn is_whitespace(c: char) -> bool {
    let n = c as u32;
    ||| 0x09 <= n <= 0x0d
    ||| n == 0x20
    ||| n == 0x85
    ||| n == 0xa0
    ||| n == 0x1680
    ||| 0x2000 <= n <= 0x200a
    ||| n == 0x2028
    ||| n == 0x2029
    ||| n == 0x202f
    ||| n == 0x205f
    ||| n == 0x3000
}

impl CharClass {
    /// Whether `c` belongs to the class.
    pub open spec fn has(self, c: char) -> bool {
        match self {
            CharClass::Slash => c == '/',
            CharClass::Dot => c == '.',
            CharClass::LineFeed => c == '\n',
            CharClass::Whitespace => is_whitespace(c),
        }
    }

    /// Tests whether `c` belongs to the class.
    pub fn contains(self, c: char) -> (b: bool)
        ensures
            b == self.has(c),
    {
        match self {
            CharClass::Slash => c == '/',
            CharClass::Dot => c == '.',
            CharClass::LineFeed => c == '\n',
            CharClass::Whitespace => {
                let n: u32 = c as u32;
                (0x09 <= n && n <= 0x0d) || n == 0x20 || n == 0x85 || n == 0xa0 || n == 0x1680
                    || (0x2000 <= n && n <= 0x200a) || n == 0x2028 || n == 0x2029 || n == 0x202f
                    || n == 0x205f || n == 0x3000
            },
        }
    }
}

/// The number of characters of `s` before its first delimiter; `s.len()` where
/// it has none.
pub open spec fn until_first(s: Seq<char>, class: CharClass) -> int
    decreases s.len(),
{
    if s.len() == 0 || class.has(s[0]) {
        0
    } else {
        1 + until_first(s.drop_first(), class)
    }
}

/// The position just behind the last delimiter of `s`; 0 where it has none.
pub open spec fn after_last(s: Seq<char>, class: CharClass) -> int
    decreases s.len(),
{
    if s.len() == 0 || class.has(s.last()) {
        s.len() as int
    } else {
        after_last(s.drop_last(), class)
    }
}

/// The length of `s` once the delimiters at its end are removed.
pub open spec fn trimmed_len(s: Seq<char>, class: CharClass) -> int
    decreases s.len(),
{
    if s.len() > 0 && class.has(s.last()) {
        trimmed_len(s.drop_last(), class)
    } else {
        s.len() as int
    }
}

/// `s` without the delimiters at its end.
pub open spec fn trim_end(s: Seq<char>, class: CharClass) -> Seq<char> {
    s.take(trimmed_len(s, class))
}

/// The last field of `s`: what stands between the last delimiter that is
/// followed by something else and the delimiters that end `s`. It is empty
/// exactly where `s` consists of delimiters only.
pub open spec fn last_field(s: Seq<char>, class: CharClass) -> Seq<char> {
    let t = trim_end(s, class);
    t.skip(after_last(t, class))
}

/// `until_first` is the one position that no delimiter precedes and that is
/// the end of `s` or holds a delimiter.
pub proof fn lemma_until_first(s: Seq<char>, class: CharClass, i: int)
    requires
        0 <= i <= s.len(),
        forall|j: int| 0 <= j < i ==> !class.has(#[trigger] s[j]),
        i < s.len() ==> class.has(s[i]),
    ensures
        until_first(s, class) == i,
    decreases s.len(),
{
    if s.len() > 0 && !class.has(s[0]) {
        lemma_until_first(s.drop_first(), class, i - 1);
    }
}

/// `after_last` is the one position that no delimiter follows and that is the
/// start of `s` or stands behind a delimiter.
pub proof fn lemma_after_last(s: Seq<char>, class: CharClass, i: int)
    requires
        0 <= i <= s.len(),
        forall|j: int| i <= j < s.len() ==> !class.has(#[trigger] s[j]),
        i > 0 ==> class.has(s[i - 1]),
    ensures
        after_last(s, class) == i,
    decreases s.len(),
{
    if s.len() > 0 && !class.has(s.last()) {
        lemma_after_last(s.drop_last(), class, i);
    }
}

/// `trimmed_len` is the one position from which on `s` holds delimiters only
/// and that is the start of `s` or stands behind another character.
pub proof fn lemma_trimmed_len(s: Seq<char>, class: CharClass, i: int)
    requires
        0 <= i <= s.len(),
        forall|j: int| i <= j < s.len() ==> class.has(#[trigger] s[j]),
        i > 0 ==> !class.has(s[i - 1]),
    ensures
        trimmed_len(s, class) == i,
    decreases s.len(),
{
    if s.len() > 0 && class.has(s.last()) {
        lemma_trimmed_len(s.drop_last(), class, i);
    }
}

/// The position of the first delimiter of `s` at or behind `start`; `s.len()`
/// where there is none.
pub fn find_first(s: &[char], start: usize, class: CharClass) -> (i: usize)
    requires
        start <= s.len(),
    ensures
        start <= i <= s.len(),
        i - start == until_first(s@.skip(start as int), class),
{
    let mut i: usize = start;
    while i < s.len() && !class.contains(s[i])
        invariant
            start <= i <= s.len(),
            forall|j: int| start <= j < i ==> !class.has(#[trigger] s@[j]),
        decreases s.len() - i,
    {
        i += 1;
    }
    proof {
        lemma_until_first(s@.skip(start as int), class, i - start);
    }
    i
}

/// The position just behind the last delimiter among the characters of `s`
/// from `from` up to `to`; `from` where there is none.
pub fn find_after_last(s: &[char], from: usize, to: usize, class: CharClass) -> (i: usize)
    requires
        from <= to <= s.len(),
    ensures
        from <= i <= to,
        i - from == after_last(s@.subrange(from as int, to as int), class),
{
    let mut i: usize = to;
    while i > from && !class.contains(s[i - 1])
        invariant
            from <= i <= to <= s.len(),
            forall|j: int| i <= j < to ==> !class.has(#[trigger] s@[j]),
        decreases i,
    {
        i -= 1;
    }
    proof {
        lemma_after_last(s@.subrange(from as int, to as int), class, i - from);
    }
    i
}

/// The position at which the delimiters start that end the characters of `s`
/// from `from` up to `to`.
pub fn find_trimmed_len(s: &[char], from: usize, to: usize, class: CharClass) -> (i: usize)
    requires
        from <= to <= s.len(),
    ensures
        from <= i <= to,
        i - from == trimmed_len(s@.subrange(from as int, to as int), class),
{
    let mut i: usize = to;
    while i > from && class.contains(s[i - 1])
        invariant
            from <= i <= to <= s.len(),
            forall|j: int| i <= j < to ==> class.has(#[trigger] s@[j]),
        decreases i,
    {
        i -= 1;
    }
    proof {
        lemma_trimmed_len(s@.subrange(from as int, to as int), class, i - from);
    }
    i
}

/// Whether `pat` stands in `s` at position `i`.
pub open spec fn occurs_at(s: Seq<char>, pat: Seq<char>, i: int) -> bool {
    &&& 0 <= i
    &&& i + pat.len() <= s.len()
    &&& s.subrange(i, i + pat.len()) == pat
}

/// Whether `pat` stands somewhere in `s`.
pub open spec fn occurs_in(s: Seq<char>, pat: Seq<char>) -> bool {
    exists|i: int| occurs_at(s, pat, i)
}

/// The first line of `text` in which `pat` occurs, without its line feed.
/// Lines end at a line feed or at the end of the text.
pub open spec fn first_line_with(text: Seq<char>, pat: Seq<char>) -> Option<Seq<char>>
    decreases text.len(),
{
    let n = until_first(text, CharClass::LineFeed);
    if occurs_in(text.take(n), pat) {
        Some(text.take(n))
    } else if 0 <= n < text.len() {
        first_line_with(text.skip(n + 1), pat)
    } else {
        None
    }
}

/// `until_first` lies within `s`, no delimiter precedes it, and it is the end
/// of `s` or holds a delimiter.
pub proof fn lemma_until_first_is(s: Seq<char>, class: CharClass)
    ensures
        0 <= until_first(s, class) <= s.len(),
        forall|j: int| 0 <= j < until_first(s, class) ==> !class.has(#[trigger] s[j]),
        until_first(s, class) < s.len() ==> class.has(s[until_first(s, class)]),
    decreases s.len(),
{
    if s.len() > 0 && !class.has(s[0]) {
        let t = s.drop_first();
        lemma_until_first_is(t, class);
        assert forall|j: int| 0 <= j < until_first(s, class) implies !class.has(
            #[trigger] s[j],
        ) by {
            if j > 0 {
                assert(s[j] == t[j - 1]);
            }
        }
    }
}

/// `after_last` lies within `s`, no delimiter follows it, and it is the start
/// of `s` or stands behind a delimiter.
pub proof fn lemma_after_last_is(s: Seq<char>, class: CharClass)
    ensures
        0 <= after_last(s, class) <= s.len(),
        forall|j: int| after_last(s, class) <= j < s.len() ==> !class.has(#[trigger] s[j]),
        after_last(s, class) > 0 ==> class.has(s[after_last(s, class) - 1]),
    decreases s.len(),
{
    if s.len() > 0 && !class.has(s.last()) {
        let t = s.drop_last();
        lemma_after_last_is(t, class);
        assert forall|j: int| after_last(s, class) <= j < s.len() implies !class.has(
            #[trigger] s[j],
        ) by {
            if j < t.len() {
                assert(s[j] == t[j]);
            }
        }
    }
}

/// A pattern that holds no line feed occurs in a text exactly where it occurs
/// in one of its lines.
pub proof fn lemma_line_with_iff_occurs(text: Seq<char>, pat: Seq<char>)
    requires
        forall|j: int| 0 <= j < pat.len() ==> pat[j] != '\n',
    ensures
        first_line_with(text, pat) is Some <==> occurs_in(text, pat),
    decreases text.len(),
{
    let n = until_first(text, CharClass::LineFeed);
    lemma_until_first_is(text, CharClass::LineFeed);
    let line = text.take(n);
    if occurs_in(line, pat) {
        let i = choose|i: int| occurs_at(line, pat, i);
        assert(line.subrange(i, i + pat.len()) =~= text.subrange(i, i + pat.len()));
        assert(occurs_at(text, pat, i));
    } else if n < text.len() {
        let rest = text.skip(n + 1);
        lemma_line_with_iff_occurs(rest, pat);
        if occurs_in(rest, pat) {
            let i = choose|i: int| occurs_at(rest, pat, i);
            assert(rest.subrange(i, i + pat.len()) =~= text.subrange(
                i + n + 1,
                i + n + 1 + pat.len(),
            ));
            assert(occurs_at(text, pat, i + n + 1));
        }
        if occurs_in(text, pat) {
            let i = choose|i: int| occurs_at(text, pat, i);
            let found = text.subrange(i, i + pat.len());
            if i + pat.len() <= n {
                assert(line.subrange(i, i + pat.len()) =~= found);
                assert(occurs_at(line, pat, i));
            } else if i <= n {
                assert(pat[n - i] != '\n');
            } else {
                assert(rest.subrange(i - n - 1, i - n - 1 + pat.len()) =~= found);
                assert(occurs_at(rest, pat, i - n - 1));
            }
        }
    } else {
        assert(line =~= text);
    }
}

/// Tests whether `pat` stands in `s` at position `i`.
pub fn matches_at(s: &[char], pat: &[char], i: usize) -> (b: bool)
    ensures
        b == occurs_at(s@, pat@, i as int),
{
    if pat.len() > s.len() || i > s.len() - pat.len() {
        return false;
    }
    let mut k: usize = 0;
    while k < pat.len()
        invariant
            k <= pat.len(),
            i + pat.len() <= s.len(),
            forall|j: int| 0 <= j < k ==> s@[i + j] == pat@[j],
        decreases pat.len() - k,
    {
        if s[i + k] != pat[k] {
            return false;
        }
        k += 1;
    }
    assert(s@.subrange(i as int, i + pat.len()) =~= pat@);
    true
}

/// Tests whether the characters of `s` from `from` up to `to` are those of `pat`.
pub fn equals_at(s: &[char], from: usize, to: usize, pat: &[char]) -> (b: bool)
    requires
        from <= to <= s.len(),
    ensures
        b == (s@.subrange(from as int, to as int) == pat@),
{
    to - from == pat.len() && matches_at(s, pat, from)
}

/// Tests whether `pat` stands somewhere among the characters of `s` from
/// `start` up to `end`.
pub fn search(s: &[char], start: usize, end: usize, pat: &[char]) -> (b: bool)
    requires
        start <= end <= s.len(),
    ensures
        b == occurs_in(s@.subrange(start as int, end as int), pat@),
{
    let ghost w = s@.subrange(start as int, end as int);
    if pat.len() > end - start {
        return false;
    }
    let last: usize = end - pat.len();
    let mut i: usize = start;
    loop
        invariant
            start <= i <= last,
            last + pat.len() == end,
            end <= s.len(),
            w == s@.subrange(start as int, end as int),
            forall|j: int| 0 <= j < i - start ==> !occurs_at(w, pat@, j),
        decreases last - i,
    {
        let hit = matches_at(s, pat, i);
        proof {
            let d = i - start;
            assert(w.subrange(d, d + pat.len()) =~= s@.subrange(i as int, i + pat.len()));
        }
        if hit {
            assert(occurs_at(w, pat@, i - start));
            return true;
        }
        if i == last {
            return false;
        }
        i += 1;
    }
}

/// The bounds of the first line of `text` in which `pat` occurs.
pub fn find_line_with(text: &[char], pat: &[char]) -> (r: Option<(usize, usize)>)
    ensures
        match r {
            Some((from, to)) => from <= to <= text.len() && first_line_with(text@, pat@) == Some(
                text@.subrange(from as int, to as int),
            ),
            None => first_line_with(text@, pat@) is None,
        },
{
    let mut from: usize = 0;
    assert(text@.skip(0) =~= text@);
    loop
        invariant
            from <= text.len(),
            first_line_with(text@, pat@) == first_line_with(text@.skip(from as int), pat@),
        decreases text.len() - from,
    {
        let to = find_first(text, from, CharClass::LineFeed);
        let found = search(text, from, to, pat);
        proof {
            let rest = text@.skip(from as int);
            assert(rest.take(to - from) =~= text@.subrange(from as int, to as int));
            if to < text.len() {
                assert(rest.skip(to - from + 1) =~= text@.skip(to + 1));
            }
        }
        if found {
            return Some((from, to));
        }
        if to >= text.len() {
            return None;
        }
        from = to + 1;
    }
}

/// The characters of `s`, in order.
pub fn chars_of(s: &str) -> (out: Vec<char>)
    ensures
        out@ == s@,
{
    let mut out: Vec<char> = Vec::new();
    for c in it: s.chars()
        invariant
            it.seq() == s@,
            out@ == it.seq().take(it.index()),
    {
        out.push(c);
    }
    out
}

/// `std::str::from_utf8`: the text that `bytes` hold in UTF-8, and `None`
/// where they are not valid UTF-8. The text is made of the bytes as they are:
/// nothing is replaced or passed over.
#[verifier::external_body]
pub(crate) fn decode(bytes: &[u8]) -> (r: Option<&str>)
    ensures
        r is Some <==> valid_utf8(bytes@),
        r matches Some(text) ==> text@ == decode_utf8(bytes@),
{
    std::str::from_utf8(bytes).ok()
}

} // verus!
