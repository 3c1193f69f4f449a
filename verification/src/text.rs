//! Strings as sequences of characters: searching, comparing and building.

use vstd::prelude::*;
use vstd::utf8::{encode_scalar, encode_utf8};

verus! {

/// What `str::to_lowercase` returns for a string with these characters.
pub uninterp spec fn lowercase_of(s: Seq<char>) -> Seq<char>;

/// Calls `str::to_lowercase`.  The Unicode lower-casing rules are not
/// restated here: the contract only gives the result a name.
#[verifier::external_body]
pub(crate) fn to_lowercase(s: &str) -> (r: String)
    ensures
        r@ == lowercase_of(s@),
{
    s.to_lowercase()
}

/// The characters that code units of UTF-16 stand for.  A code unit outside
/// the range of the surrogates stands for itself, a high surrogate with the
/// low surrogate after it for one character beyond the first 65536, and the
/// replacement character stands for every surrogate that is left alone.
pub open spec fn utf16_lossy_of(units: Seq<u16>) -> Seq<char>
    decreases units.len(),
{
    if units.len() == 0 {
        Seq::empty()
    } else if units[0] < 0xD800 || units[0] > 0xDFFF {
        seq![units[0] as u32 as char] + utf16_lossy_of(units.skip(1))
    } else if units[0] < 0xDC00 && units.len() > 1 && 0xDC00 <= units[1] <= 0xDFFF {
        seq![(0x10000 + (units[0] - 0xD800) * 0x400 + (units[1] - 0xDC00)) as u32 as char]
            + utf16_lossy_of(units.skip(2))
    } else {
        seq!['\u{FFFD}'] + utf16_lossy_of(units.skip(1))
    }
}

/// Calls `String::from_utf16_lossy`, which decodes UTF-16 and puts the
/// replacement character in the place of invalid data, that is of every
/// surrogate without its partner.
#[verifier::external_body]
pub(crate) fn from_utf16_lossy(units: &[u16]) -> (r: String)
    ensures
        r@ == utf16_lossy_of(units@),
{
    String::from_utf16_lossy(units)
}

/// `String::push` appends one character.
pub assume_specification[ String::push ](s: &mut String, c: char)
    ensures
        final(s)@ == old(s)@.push(c),
;

/// `needle` stands in `hay` at index `i`.
pub open spec fn occurs_at(hay: Seq<char>, needle: Seq<char>, i: int) -> bool {
    &&& 0 <= i
    &&& i + needle.len() <= hay.len()
    &&& hay.subrange(i, i + needle.len()) == needle
}

/// `needle` stands somewhere in `hay`.
pub open spec fn contains(hay: Seq<char>, needle: Seq<char>) -> bool {
    exists|i: int| occurs_at(hay, needle, i)
}

/// `i` is where `needle` stands in `hay` for the last time.
pub open spec fn last_occurrence(hay: Seq<char>, needle: Seq<char>, i: int) -> bool {
    &&& occurs_at(hay, needle, i)
    &&& forall|j: int| i < j ==> !occurs_at(hay, needle, j)
}

/// `i` is where `needle` stands in `hay` for the first time.
pub open spec fn first_occurrence(hay: Seq<char>, needle: Seq<char>, i: int) -> bool {
    &&& occurs_at(hay, needle, i)
    &&& forall|j: int| j < i ==> !occurs_at(hay, needle, j)
}

/// The lower-case form of an ASCII capital, any other character unchanged.
pub open spec fn ascii_lower(c: char) -> char {
    if 'A' <= c && c <= 'Z' {
        ((c as u8 + 32) as u8) as char
    } else {
        c
    }
}

/// `s` with every ASCII capital replaced by its lower-case form.
pub open spec fn ascii_lowercase_of(s: Seq<char>) -> Seq<char> {
    Seq::new(s.len(), |i: int| ascii_lower(s[i]))
}

/// The characters of `s`, in order.
pub fn chars_of(s: &str) -> (r: Vec<char>)
    ensures
        r@ == s@,
{
    let mut v: Vec<char> = Vec::new();
    for c in it: s.chars()
        invariant
            it.seq() == s@,
            v@ == s@.take(it.index() as int),
    {
        v.push(c);
    }
    v
}

/// A string made of the characters of `v`, in order.
pub fn string_of(v: &[char]) -> (r: String)
    ensures
        r@ == v@,
{
    let mut s = String::new();
    let mut i: usize = 0;
    while i < v.len()
        invariant
            i <= v.len(),
            s@ == v@.take(i as int),
        decreases v.len() - i,
    {
        s.push(v[i]);
        i += 1;
    }
    s
}

/// Lower-cases one character if it is an ASCII capital.
pub fn to_ascii_lower(c: char) -> (r: char)
    ensures
        r == ascii_lower(c),
{
    if 'A' <= c && c <= 'Z' {
        ((c as u8) + 32) as char
    } else {
        c
    }
}

/// Lower-cases the ASCII capitals of `v`.
pub fn to_ascii_lowercase(v: &[char]) -> (r: Vec<char>)
    ensures
        r@ == ascii_lowercase_of(v@),
{
    let mut out: Vec<char> = Vec::new();
    let mut i: usize = 0;
    while i < v.len()
        invariant
            i <= v.len(),
            out@ == ascii_lowercase_of(v@).take(i as int),
        decreases v.len() - i,
    {
        out.push(to_ascii_lower(v[i]));
        i += 1;
    }
    out
}

/// Whether two runs of characters are the same.
pub fn same_chars(a: &[char], b: &[char]) -> (r: bool)
    ensures
        r == (a@ == b@),
{
    if a.len() != b.len() {
        return false;
    }
    let mut i: usize = 0;
    while i < a.len()
        invariant
            i <= a.len(),
            a.len() == b.len(),
            a@.take(i as int) == b@.take(i as int),
        decreases a.len() - i,
    {
        if a[i] != b[i] {
            return false;
        }
        i += 1;
    }
    assert(a@.take(a.len() as int) == a@ && b@.take(b.len() as int) == b@);
    true
}

/// Whether two strings are the same.
pub fn same_text(a: &str, b: &str) -> (r: bool)
    ensures
        r == (a@ == b@),
{
    let a = chars_of(a);
    let b = chars_of(b);
    same_chars(a.as_slice(), b.as_slice())
}

/// Whether `needle` stands in `hay` at index `i`.
pub fn matches_at(hay: &[char], needle: &[char], i: usize) -> (r: bool)
    ensures
        r == occurs_at(hay@, needle@, i as int),
{
    if needle.len() > hay.len() || i > hay.len() - needle.len() {
        return false;
    }
    let mut k: usize = 0;
    while k < needle.len()
        invariant
            k <= needle.len(),
            i + needle.len() <= hay.len(),
            hay@.subrange(i as int, i + k) == needle@.take(k as int),
        decreases needle.len() - k,
    {
        if hay[i + k] != needle[k] {
            assert(hay@.subrange(i as int, i + needle.len())[k as int] != needle@[k as int]);
            return false;
        }
        k += 1;
    }
    assert(needle@.take(needle.len() as int) == needle@);
    true
}

/// The last index at which `needle` stands in `hay`.
pub fn find_last(hay: &[char], needle: &[char]) -> (r: Option<usize>)
    ensures
        match r {
            Some(i) => last_occurrence(hay@, needle@, i as int),
            None => !contains(hay@, needle@),
        },
{
    if needle.len() > hay.len() {
        return None;
    }
    let mut i: usize = hay.len() - needle.len();
    loop
        invariant
            i <= hay.len() - needle.len(),
            needle.len() <= hay.len(),
            forall|j: int| i < j ==> !occurs_at(hay@, needle@, j),
        decreases i,
    {
        if matches_at(hay, needle, i) {
            return Some(i);
        }
        if i == 0 {
            return None;
        }
        i -= 1;
    }
}

/// The first index at which `needle` stands in `hay`.
pub fn find_first(hay: &[char], needle: &[char]) -> (r: Option<usize>)
    ensures
        match r {
            Some(i) => first_occurrence(hay@, needle@, i as int),
            None => !contains(hay@, needle@),
        },
{
    if needle.len() > hay.len() {
        return None;
    }
    let last: usize = hay.len() - needle.len();
    let mut i: usize = 0;
    loop
        invariant
            last == hay.len() - needle.len(),
            needle.len() <= hay.len(),
            i <= last,
            forall|j: int| j < i ==> !occurs_at(hay@, needle@, j),
        decreases last - i,
    {
        if matches_at(hay, needle, i) {
            return Some(i);
        }
        if i == last {
            return None;
        }
        i += 1;
    }
}

/// Appends the characters of `s` to `out`.
pub fn append_str(out: &mut Vec<char>, s: &str)
    ensures
        final(out)@ == old(out)@ + s@,
{
    let ghost before = out@;
    for c in it: s.chars()
        invariant
            it.seq() == s@,
            out@ == before + s@.take(it.index() as int),
    {
        out.push(c);
    }
}

/// The number of bytes that `c` takes in UTF-8.
pub open spec fn char_utf8_len(c: char) -> nat {
    encode_scalar(c as u32).len()
}

/// The number of bytes that `s` takes in UTF-8.
pub open spec fn utf8_len(s: Seq<char>) -> nat {
    encode_utf8(s).len()
}

/// How many characters at the start of `s` fit into `budget` bytes of UTF-8.
pub open spec fn fitting_prefix_len(s: Seq<char>, budget: nat) -> nat
    decreases s.len(),
{
    if s.len() == 0 || char_utf8_len(s[0]) > budget {
        0
    } else {
        1 + fitting_prefix_len(s.drop_first(), (budget - char_utf8_len(s[0])) as nat)
    }
}

/// A character takes between one and four bytes.
pub proof fn lemma_char_utf8_len(c: char)
    ensures
        1 <= char_utf8_len(c) <= 4,
        c <= '\u{7f}' ==> char_utf8_len(c) == 1,
{
}

/// The bytes of a concatenation are the bytes of its parts.
pub proof fn lemma_utf8_len_concat(a: Seq<char>, b: Seq<char>)
    ensures
        utf8_len(a + b) == utf8_len(a) + utf8_len(b),
    decreases a.len(),
{
    if a.len() == 0 {
        assert(a + b == b);
    } else {
        assert((a + b).drop_first() == a.drop_first() + b);
        lemma_utf8_len_concat(a.drop_first(), b);
    }
}

/// A string of ASCII characters takes one byte for each.
pub proof fn lemma_utf8_len_ascii(s: Seq<char>)
    requires
        forall|i: int| 0 <= i < s.len() ==> s[i] <= '\u{7f}',
    ensures
        utf8_len(s) == s.len(),
    decreases s.len(),
{
    if s.len() > 0 {
        lemma_char_utf8_len(s[0]);
        lemma_utf8_len_ascii(s.drop_first());
    }
}

/// The fitting prefix fits; it is the whole string exactly when the whole
/// string fits; and the character after it, if any, would not fit.
pub proof fn lemma_fitting_prefix(s: Seq<char>, budget: nat)
    ensures
        fitting_prefix_len(s, budget) <= s.len(),
        utf8_len(s.take(fitting_prefix_len(s, budget) as int)) <= budget,
        fitting_prefix_len(s, budget) == s.len() <==> utf8_len(s) <= budget,
        fitting_prefix_len(s, budget) < s.len() ==> utf8_len(
            s.take(fitting_prefix_len(s, budget) as int + 1),
        ) > budget,
    decreases s.len(),
{
    if s.len() == 0 {
        assert(s.take(0) == s);
    } else if char_utf8_len(s[0]) > budget {
        assert(s.take(0) == Seq::<char>::empty());
        assert(s.take(1).drop_first() == Seq::<char>::empty());
        assert(s.take(1)[0] == s[0]);
    } else {
        let rest = s.drop_first();
        let left = (budget - char_utf8_len(s[0])) as nat;
        lemma_fitting_prefix(rest, left);
        let k = fitting_prefix_len(rest, left) as int;
        assert(s.take(k + 1).drop_first() == rest.take(k));
        assert(s.take(k + 1)[0] == s[0]);
        if k < rest.len() {
            assert(s.take(k + 2).drop_first() == rest.take(k + 1));
            assert(s.take(k + 2)[0] == s[0]);
        }
    }
}

/// The number of bytes that `c` takes in UTF-8.
pub fn utf8_width(c: char) -> (r: usize)
    ensures
        r == char_utf8_len(c),
        1 <= r <= 4,
{
    let v = c as u32;
    if v <= 0x7F {
        1
    } else if v <= 0x7FF {
        2
    } else if v <= 0xFFFF {
        3
    } else {
        4
    }
}

/// How many characters at the start of `s` fit into `budget` bytes of UTF-8.
pub fn fitting_prefix(s: &[char], budget: usize) -> (r: usize)
    ensures
        r == fitting_prefix_len(s@, budget as nat),
        r <= s.len(),
{
    let mut i: usize = 0;
    let mut left: usize = budget;
    assert(s@.skip(0) == s@);
    while i < s.len()
        invariant
            i <= s.len(),
            left <= budget,
            fitting_prefix_len(s@, budget as nat) == i + fitting_prefix_len(
                s@.skip(i as int),
                left as nat,
            ),
        decreases s.len() - i,
    {
        let w = utf8_width(s[i]);
        assert(s@.skip(i as int)[0] == s@[i as int]);
        assert(s@.skip(i as int).drop_first() == s@.skip(i + 1));
        if w > left {
            return i;
        }
        left -= w;
        i += 1;
    }
    assert(s@.skip(i as int).len() == 0);
    i
}

/// What is taken off the ends of a text.
#[derive(Clone, Copy, Debug, PartialEq, Eq, Structural)]
pub enum Strip {
    /// Blanks: the space, the tab and the other white space of ASCII.
    Spaces,
    /// Double quotes.
    Quotes,
    /// Slashes.
    Slashes,
}

impl Strip {
    /// Whether `c` is one of the characters that are taken off.
    pub open spec fn takes(self, c: char) -> bool {
        match self {
            Strip::Spaces => c == ' ' || c == '\t' || c == '\n' || c == '\r' || c == '\u{b}' || c
                == '\u{c}',
            Strip::Quotes => c == '"',
            Strip::Slashes => c == '/',
        }
    }

    /// Whether `c` is one of the characters that are taken off.
    pub fn drops(self, c: char) -> (r: bool)
        ensures
            r == self.takes(c),
    {
        match self {
            Strip::Spaces => c == ' ' || c == '\t' || c == '\n' || c == '\r' || c == '\u{b}' || c
                == '\u{c}',
            Strip::Quotes => c == '"',
            Strip::Slashes => c == '/',
        }
    }
}

/// How many characters at the start of `s` are taken off.
pub open spec fn leading(s: Seq<char>, what: Strip) -> nat
    decreases s.len(),
{
    if s.len() > 0 && what.takes(s[0]) {
        1 + leading(s.drop_first(), what)
    } else {
        0
    }
}

/// How many characters at the end of `s` are taken off.
pub open spec fn trailing(s: Seq<char>, what: Strip) -> nat
    decreases s.len(),
{
    if s.len() > 0 && what.takes(s.last()) {
        1 + trailing(s.drop_last(), what)
    } else {
        0
    }
}

/// `s` without the characters of the given kind at its start and at its
/// end.
pub open spec fn strip(s: Seq<char>, what: Strip) -> Seq<char> {
    let rest = s.skip(leading(s, what) as int);
    rest.take(rest.len() - trailing(rest, what))
}

/// The index of the first `c` in `s`, or the length of `s` where there is
/// none.
pub open spec fn first_index_of(s: Seq<char>, c: char) -> nat
    decreases s.len(),
{
    if s.len() == 0 || s[0] == c {
        0
    } else {
        1 + first_index_of(s.drop_first(), c)
    }
}

/// What follows the last `c` in `s`: all of `s` where there is none.
pub open spec fn after_last(s: Seq<char>, c: char) -> Seq<char>
    decreases s.len(),
{
    if s.len() == 0 || s.last() == c {
        Seq::empty()
    } else {
        after_last(s.drop_last(), c).push(s.last())
    }
}

/// The characters of `s` from `from` up to `to`.
pub fn piece(s: &[char], from: usize, to: usize) -> (r: Vec<char>)
    requires
        from <= to <= s.len(),
    ensures
        r@ == s@.subrange(from as int, to as int),
{
    let mut out: Vec<char> = Vec::new();
    let mut i: usize = from;
    while i < to
        invariant
            from <= i <= to <= s.len(),
            out@ == s@.subrange(from as int, i as int),
        decreases to - i,
    {
        out.push(s[i]);
        i += 1;
    }
    out
}

/// `s` without the characters of the given kind at its start and at its
/// end.
pub fn stripped(s: &[char], what: Strip) -> (r: Vec<char>)
    ensures
        r@ == strip(s@, what),
{
    let mut i: usize = 0;
    assert(s@.skip(0) == s@);
    while i < s.len() && what.drops(s[i])
        invariant
            i <= s.len(),
            leading(s@, what) == i + leading(s@.skip(i as int), what),
        decreases s.len() - i,
    {
        assert(s@.skip(i as int)[0] == s@[i as int]);
        assert(s@.skip(i as int).drop_first() == s@.skip(i + 1));
        i += 1;
    }
    assert(leading(s@, what) == i) by {
        if i < s.len() {
            assert(s@.skip(i as int)[0] == s@[i as int]);
        }
    }
    let ghost rest = s@.skip(i as int);
    let mut j: usize = s.len();
    assert(rest.take(rest.len() as int) == rest);
    while j > i && what.drops(s[j - 1])
        invariant
            i <= j <= s.len(),
            rest == s@.skip(i as int),
            trailing(rest, what) == (s.len() - j) + trailing(rest.take(j - i), what),
        decreases j,
    {
        assert(rest.take(j - i).last() == s@[j - 1]);
        assert(rest.take(j - i).drop_last() == rest.take(j - i - 1));
        j -= 1;
    }
    assert(trailing(rest, what) == s.len() - j) by {
        if j > i {
            assert(rest.take(j - i).last() == s@[j - 1]);
        }
    }
    assert(rest.take(j - i) == s@.subrange(i as int, j as int));
    piece(s, i, j)
}

/// The index of the first `c` in `s`, or the length of `s`.
pub fn first_index(s: &[char], c: char) -> (r: usize)
    ensures
        r == first_index_of(s@, c),
        r <= s.len(),
        r < s.len() ==> s@[r as int] == c,
{
    let mut i: usize = 0;
    assert(s@.skip(0) == s@);
    while i < s.len() && s[i] != c
        invariant
            i <= s.len(),
            first_index_of(s@, c) == i + first_index_of(s@.skip(i as int), c),
        decreases s.len() - i,
    {
        assert(s@.skip(i as int)[0] == s@[i as int]);
        assert(s@.skip(i as int).drop_first() == s@.skip(i + 1));
        i += 1;
    }
    assert(first_index_of(s@.skip(i as int), c) == 0) by {
        if i < s.len() {
            assert(s@.skip(i as int)[0] == s@[i as int]);
        }
    }
    i
}

/// What follows the last `c` in `s`.
pub fn tail_after(s: &[char], c: char) -> (r: Vec<char>)
    ensures
        r@ == after_last(s@, c),
{
    let mut j: usize = s.len();
    assert(s@.take(s.len() as int) == s@);
    assert(s@.subrange(s.len() as int, s.len() as int) == Seq::<char>::empty());
    while j > 0 && s[j - 1] != c
        invariant
            j <= s.len(),
            after_last(s@, c) == after_last(s@.take(j as int), c) + s@.subrange(
                j as int,
                s.len() as int,
            ),
        decreases j,
    {
        assert(s@.take(j as int).last() == s@[j - 1]);
        assert(s@.take(j as int).drop_last() == s@.take(j - 1));
        assert(seq![s@[j - 1]] + s@.subrange(j as int, s.len() as int) == s@.subrange(
            j - 1,
            s.len() as int,
        ));
        assert(after_last(s@.take(j - 1), c).push(s@[j - 1]) + s@.subrange(
            j as int,
            s.len() as int,
        ) == after_last(s@.take(j - 1), c) + (seq![s@[j - 1]] + s@.subrange(
            j as int,
            s.len() as int,
        )));
        j -= 1;
    }
    assert(after_last(s@.take(j as int), c) == Seq::<char>::empty()) by {
        if j > 0 {
            assert(s@.take(j as int).last() == s@[j - 1]);
        }
    }
    assert(Seq::<char>::empty() + s@.subrange(j as int, s.len() as int) == s@.subrange(
        j as int,
        s.len() as int,
    ));
    piece(s, j, s.len())
}

} // verus!
