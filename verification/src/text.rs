//! Text helpers over the characters of a string.

use vstd::prelude::*;

verus! {

/// The code of `c` with the upper-case ASCII letters mapped to lower case.
pub open spec fn lower_code(c: char) -> u32 {
    if 65 <= c as u32 <= 90 {
        (c as u32 + 32) as u32
    } else {
        c as u32
    }
}

/// `a` and `b` are the same letter: the same character, or, where `fold` is
/// set, two characters that differ only in the case of an ASCII letter.
pub open spec fn same_letter(a: char, b: char, fold: bool) -> bool {
    a == b || (fold && lower_code(a) == lower_code(b))
}

/// `needle` stands in `hay` at position `at`.
pub open spec fn occurs_at(hay: Seq<char>, needle: Seq<char>, at: int, fold: bool) -> bool {
    &&& 0 <= at
    &&& at + needle.len() <= hay.len()
    &&& forall|k: int|
        0 <= k < needle.len() ==> same_letter(hay[at + k], #[trigger] needle[k], fold)
}

/// `needle` stands somewhere in `hay`: as it is, or, where `fold` is set,
/// in any mix of upper and lower case of its ASCII letters.
pub open spec fn contains_text(hay: Seq<char>, needle: Seq<char>, fold: bool) -> bool {
    exists|at: int| occurs_at(hay, needle, at, fold)
}

/// `c` is white space: a character with the Unicode property `White_Space`.
pub open spec fn is_space(c: char) -> bool {
    let code = c as u32;
    ||| 0x09 <= code <= 0x0d
    ||| code == 0x20
    ||| code == 0x85
    ||| code == 0xa0
    ||| code == 0x1680
    ||| 0x2000 <= code <= 0x200a
    ||| code == 0x2028
    ||| code == 0x2029
    ||| code == 0x202f
    ||| code == 0x205f
    ||| code == 0x3000
}

/// `text` holds nothing but white space.
pub open spec fn is_blank(text: Seq<char>) -> bool {
    forall|i: int| 0 <= i < text.len() ==> is_space(#[trigger] text[i])
}

/// The position of the first line feed in `text`, or the length of `text`
/// where it holds none.
pub open spec fn first_line_end(text: Seq<char>) -> int
    decreases text.len(),
{
    if text.len() == 0 {
        0
    } else if text[0] == '\n' {
        0
    } else {
        1 + first_line_end(text.drop_first())
    }
}

/// The first line of `text`, without its line feed.
pub open spec fn first_line(text: Seq<char>) -> Seq<char> {
    text.take(first_line_end(text))
}

/// What follows the first line of `text` and its line feed.
pub open spec fn after_first_line(text: Seq<char>) -> Seq<char> {
    if first_line_end(text) < text.len() {
        text.skip(first_line_end(text) + 1)
    } else {
        Seq::empty()
    }
}

/// `text` without the white space at its two ends.
pub open spec fn trimmed(text: Seq<char>) -> Seq<char>
    decreases text.len(),
{
    if text.len() == 0 {
        text
    } else if is_space(text[0]) {
        trimmed(text.drop_first())
    } else if is_space(text.last()) {
        trimmed(text.drop_last())
    } else {
        text
    }
}

/// The characters of `s`, in order.
pub fn chars_of(s: &str) -> (v: Vec<char>)
    ensures
        v@ == s@,
{
    let mut v: Vec<char> = Vec::new();
    for c in it: s.chars()
        invariant
            it.seq() == s@,
            v@ == it.seq().take(it.index() as int),
    {
        v.push(c);
    }
    v
}

/// Whether two strings hold the same characters.
pub fn same_text(a: &str, b: &str) -> (r: bool)
    ensures
        r == (a@ == b@),
{
    a.to_owned() == b.to_owned()
}

/// Executable form of `same_letter`.
pub fn letters_match(a: char, b: char, fold: bool) -> (r: bool)
    ensures
        r == same_letter(a, b, fold),
{
    if a == b {
        true
    } else if fold {
        let x = a as u32;
        let y = b as u32;
        let lx = if 65 <= x && x <= 90 {
            x + 32
        } else {
            x
        };
        let ly = if 65 <= y && y <= 90 {
            y + 32
        } else {
            y
        };
        lx == ly
    } else {
        false
    }
}

/// Executable form of `is_space`.
pub fn is_whitespace(c: char) -> (r: bool)
    ensures
        r == is_space(c),
{
    let code = c as u32;
    (0x09 <= code && code <= 0x0d) || code == 0x20 || code == 0x85 || code == 0xa0 || code
        == 0x1680 || (0x2000 <= code && code <= 0x200a) || code == 0x2028 || code == 0x2029 || code
        == 0x202f || code == 0x205f || code == 0x3000
}

/// Whether `needle` stands in `hay[from .. to]` at position `at` of that part.
fn occurs_in_part(
    hay: &Vec<char>,
    from: usize,
    to: usize,
    needle: &Vec<char>,
    at: usize,
    fold: bool,
) -> (r: bool)
    requires
        from <= to <= hay@.len(),
        at + needle@.len() <= to - from,
    ensures
        r == occurs_at(hay@.subrange(from as int, to as int), needle@, at as int, fold),
{
    let ghost part = hay@.subrange(from as int, to as int);
    let mut k: usize = 0;
    while k < needle.len()
        invariant
            k <= needle@.len(),
            from <= to <= hay@.len(),
            at + needle@.len() <= to - from,
            part == hay@.subrange(from as int, to as int),
            forall|j: int| 0 <= j < k ==> same_letter(part[at + j], #[trigger] needle@[j], fold),
        decreases needle@.len() - k,
    {
        if !letters_match(hay[from + at + k], needle[k], fold) {
            assert(!same_letter(part[at + k], needle@[k as int], fold));
            return false;
        }
        k = k + 1;
    }
    true
}

/// Whether `needle` stands somewhere in the part `hay[from .. to]`.
pub(crate) fn part_contains(
    hay: &Vec<char>,
    from: usize,
    to: usize,
    needle: &Vec<char>,
    fold: bool,
) -> (r: bool)
    requires
        from <= to <= hay@.len(),
    ensures
        r == contains_text(hay@.subrange(from as int, to as int), needle@, fold),
{
    let ghost part = hay@.subrange(from as int, to as int);
    if needle.len() > to - from {
        return false;
    }
    let last: usize = to - from - needle.len();
    let mut at: usize = 0;
    while at <= last
        invariant
            from <= to <= hay@.len(),
            needle@.len() <= to - from,
            last == to - from - needle@.len(),
            at <= last + 1,
            part == hay@.subrange(from as int, to as int),
            forall|j: int| 0 <= j < at ==> !occurs_at(part, needle@, j, fold),
        decreases last + 1 - at,
    {
        if occurs_in_part(hay, from, to, needle, at, fold) {
            return true;
        }
        at = at + 1;
    }
    false
}

/// Whether `needle` stands somewhere in `hay`, letter for letter.
pub fn text_contains(hay: &str, needle: &str) -> (r: bool)
    ensures
        r == contains_text(hay@, needle@, false),
{
    let h = chars_of(hay);
    let n = chars_of(needle);
    assert(h@.subrange(0, h@.len() as int) =~= h@);
    part_contains(&h, 0, h.len(), &n, false)
}

/// Whether `needle` stands somewhere in `hay`, in any mix of upper and lower
/// case of its ASCII letters.
pub fn text_contains_ignoring_case(hay: &str, needle: &str) -> (r: bool)
    ensures
        r == contains_text(hay@, needle@, true),
{
    let h = chars_of(hay);
    let n = chars_of(needle);
    assert(h@.subrange(0, h@.len() as int) =~= h@);
    part_contains(&h, 0, h.len(), &n, true)
}

/// Whether the part `hay[from .. to]` begins with `prefix`.
pub(crate) fn part_starts_with(
    hay: &Vec<char>,
    from: usize,
    to: usize,
    prefix: &Vec<char>,
) -> (r: bool)
    requires
        from <= to <= hay@.len(),
    ensures
        r == occurs_at(hay@.subrange(from as int, to as int), prefix@, 0, false),
{
    if prefix.len() > to - from {
        false
    } else {
        occurs_in_part(hay, from, to, prefix, 0, false)
    }
}

/// Whether the part `text[from .. to]` holds nothing but white space.
pub(crate) fn part_is_blank(text: &Vec<char>, from: usize, to: usize) -> (r: bool)
    requires
        from <= to <= text@.len(),
    ensures
        r == is_blank(text@.subrange(from as int, to as int)),
{
    let ghost part = text@.subrange(from as int, to as int);
    let mut i: usize = from;
    while i < to
        invariant
            from <= i <= to <= text@.len(),
            part == text@.subrange(from as int, to as int),
            forall|j: int| 0 <= j < i - from ==> is_space(#[trigger] part[j]),
        decreases to - i,
    {
        if !is_whitespace(text[i]) {
            assert(!is_space(part[i - from]));
            return false;
        }
        i = i + 1;
    }
    true
}

proof fn lemma_first_line_end(text: Seq<char>, end: int)
    requires
        0 <= end <= text.len(),
        forall|j: int| 0 <= j < end ==> text[j] != '\n',
        end < text.len() ==> text[end] == '\n',
    ensures
        first_line_end(text) == end,
    decreases text.len(),
{
    if end > 0 {
        let rest = text.drop_first();
        assert forall|j: int| 0 <= j < end - 1 implies rest[j] != '\n' by {
            assert(rest[j] == text[j + 1]);
        }
        lemma_first_line_end(rest, end - 1);
    }
}

/// The position at which the first line of `text` ends.
pub(crate) fn end_of_first_line(text: &Vec<char>) -> (end: usize)
    ensures
        end == first_line_end(text@),
        end <= text@.len(),
{
    let mut i: usize = 0;
    while i < text.len() && text[i] != '\n'
        invariant
            i <= text@.len(),
            forall|j: int| 0 <= j < i ==> text@[j] != '\n',
        decreases text@.len() - i,
    {
        i = i + 1;
    }
    proof {
        lemma_first_line_end(text@, i as int);
    }
    i
}

proof fn lemma_trimmed(text: Seq<char>, from: int, to: int)
    requires
        0 <= from <= to <= text.len(),
        forall|j: int| 0 <= j < from ==> is_space(text[j]),
        forall|j: int| to <= j < text.len() ==> is_space(text[j]),
        from < to ==> !is_space(text[from]) && !is_space(text[to - 1]),
        from == to ==> to == text.len(),
    ensures
        trimmed(text) == text.subrange(from, to),
    decreases text.len(),
{
    if text.len() == 0 {
        assert(text.subrange(from, to) =~= text);
    } else if is_space(text[0]) {
        let rest = text.drop_first();
        if from == 0 {
            // the whole text is white space
            assert(from == to);
        } else {
            assert forall|j: int| 0 <= j < from - 1 implies is_space(rest[j]) by {
                assert(rest[j] == text[j + 1]);
            }
            assert forall|j: int| to - 1 <= j < rest.len() implies is_space(rest[j]) by {
                assert(rest[j] == text[j + 1]);
            }
            lemma_trimmed(rest, from - 1, to - 1);
            assert(rest.subrange(from - 1, to - 1) =~= text.subrange(from, to));
        }
    } else if is_space(text.last()) {
        let rest = text.drop_last();
        assert(from == 0);
        assert(to < text.len());
        assert forall|j: int| to <= j < rest.len() implies is_space(rest[j]) by {
            assert(rest[j] == text[j]);
        }
        lemma_trimmed(rest, from, to);
        assert(rest.subrange(from, to) =~= text.subrange(from, to));
    } else {
        assert(from == 0 && to == text.len());
        assert(text.subrange(from, to) =~= text);
    }
}

/// `text` without the white space at its two ends.
pub fn trim(text: &str) -> (r: String)
    ensures
        r@ == trimmed(text@),
{
    let chars = chars_of(text);
    let mut from: usize = 0;
    while from < chars.len() && is_whitespace(chars[from])
        invariant
            from <= chars@.len(),
            forall|j: int| 0 <= j < from ==> is_space(chars@[j]),
        decreases chars@.len() - from,
    {
        from = from + 1;
    }
    let mut to: usize = chars.len();
    while to > from && is_whitespace(chars[to - 1])
        invariant
            from <= to <= chars@.len(),
            forall|j: int| to <= j < chars@.len() ==> is_space(chars@[j]),
        decreases to,
    {
        to = to - 1;
    }
    proof {
        lemma_trimmed(chars@, from as int, to as int);
    }
    text.substring_char(from, to).to_owned()
}

/// A copy of a list of strings.
pub fn clone_strings(items: &Vec<String>) -> (copy: Vec<String>)
    ensures
        copy.deep_view() == items.deep_view(),
{
    let mut copy: Vec<String> = Vec::new();
    let mut i: usize = 0;
    while i < items.len()
        invariant
            i <= items.len(),
            copy.len() == i,
            forall|k: int| 0 <= k < i ==> (#[trigger] copy@[k])@ == items@[k]@,
        decreases items.len() - i,
    {
        copy.push(items[i].clone());
        i = i + 1;
    }
    assert(copy.deep_view() =~= items.deep_view());
    copy
}

/// A copy of an optional string.
pub fn clone_optional(item: &Option<String>) -> (copy: Option<String>)
    ensures
        copy.deep_view() == item.deep_view(),
{
    match item {
        Some(s) => Some(s.clone()),
        None => None,
    }
}

} // verus!
