//! Texts as sequences of characters: searching, whitespace, joining.

use vstd::prelude::*;

verus! {

/// `pattern` stands in `text` at position `at`.
pub open spec fn occurs_at(text: Seq<char>, pattern: Seq<char>, at: int) -> bool {
    &&& 0 <= at
    &&& at + pattern.len() <= text.len()
    &&& text.subrange(at, at + pattern.len()) == pattern
}

/// `pattern` stands in `text` at position `at`, and nowhere before it.
pub open spec fn is_first_occurrence(text: Seq<char>, pattern: Seq<char>, at: int) -> bool {
    &&& occurs_at(text, pattern, at)
    &&& forall|earlier: int| 0 <= earlier < at ==> !occurs_at(text, pattern, earlier)
}

/// The position of the first occurrence of `pattern` in `text`, if there is one.
pub open spec fn first_occurrence(text: Seq<char>, pattern: Seq<char>) -> Option<int> {
    if exists|at: int| occurs_at(text, pattern, at) {
        Some(choose|at: int| is_first_occurrence(text, pattern, at))
    } else {
        None
    }
}

/// A position that is a first occurrence is the first occurrence.
pub proof fn first_occurrence_is(text: Seq<char>, pattern: Seq<char>, at: int)
    requires
        is_first_occurrence(text, pattern, at),
    ensures
        first_occurrence(text, pattern) == Some(at),
{
    assert(occurs_at(text, pattern, at));
    let chosen = choose|c: int| is_first_occurrence(text, pattern, c);
    assert(is_first_occurrence(text, pattern, chosen));
    if chosen < at {
        assert(!occurs_at(text, pattern, chosen));
    }
    if at < chosen {
        assert(!occurs_at(text, pattern, at));
    }
}

/// The first occurrence, where there is one, is an occurrence with none before it.
pub proof fn first_occurrence_at(text: Seq<char>, pattern: Seq<char>, at: int)
    requires
        first_occurrence(text, pattern) == Some(at),
    ensures
        is_first_occurrence(text, pattern, at),
{
    let some = choose|i: int| occurs_at(text, pattern, i);
    least_occurrence(text, pattern, some);
}

/// Below any occurrence there is a first one.
proof fn least_occurrence(text: Seq<char>, pattern: Seq<char>, at: int)
    requires
        occurs_at(text, pattern, at),
    ensures
        exists|first: int| is_first_occurrence(text, pattern, first),
    decreases at,
{
    if exists|earlier: int| 0 <= earlier < at && occurs_at(text, pattern, earlier) {
        let earlier = choose|earlier: int| 0 <= earlier < at && occurs_at(text, pattern, earlier);
        least_occurrence(text, pattern, earlier);
    } else {
        assert(is_first_occurrence(text, pattern, at));
    }
}

/// Whether `pattern` stands in `text` at position `at`.
pub fn matches_at(text: &[char], pattern: &[char], at: usize) -> (same: bool)
    ensures
        same == occurs_at(text@, pattern@, at as int),
{
    let length = text.len();
    let width = pattern.len();
    if at > length || width > length - at {
        return false;
    }
    let mut done: usize = 0;
    while done < width
        invariant
            length == text@.len(),
            width == pattern@.len(),
            at + width <= length,
            done <= width,
            forall|k: int| 0 <= k < done ==> text@[at + k] == pattern@[k],
        decreases width - done,
    {
        if text[at + done] != pattern[done] {
            assert(text@.subrange(at as int, at + width)[done as int] != pattern@[done as int]);
            return false;
        }
        done += 1;
    }
    assert(text@.subrange(at as int, at + width) =~= pattern@);
    true
}

/// The position of the first occurrence of `pattern` in `text`.
pub fn find(text: &[char], pattern: &[char]) -> (found: Option<usize>)
    ensures
        match found {
            Some(at) => first_occurrence(text@, pattern@) == Some(at as int),
            None => first_occurrence(text@, pattern@) is None,
        },
{
    let length = text.len();
    let width = pattern.len();
    if width > length {
        return None;
    }
    let last = length - width;
    let mut at: usize = 0;
    while at < last
        invariant
            length == text@.len(),
            width == pattern@.len(),
            width <= length,
            last == length - width,
            at <= last,
            forall|earlier: int| 0 <= earlier < at ==> !occurs_at(text@, pattern@, earlier),
        decreases last - at,
    {
        if matches_at(text, pattern, at) {
            proof {
                first_occurrence_is(text@, pattern@, at as int);
            }
            return Some(at);
        }
        at += 1;
    }
    if matches_at(text, pattern, last) {
        proof {
            first_occurrence_is(text@, pattern@, last as int);
        }
        return Some(last);
    }
    None
}

/// The characters of `text`, one by one.
pub fn chars_of(text: &str) -> (chars: Vec<char>)
    ensures
        chars@ == text@,
{
    let mut chars: Vec<char> = Vec::new();
    for c in walk: text.chars()
        invariant
            walk.seq() == text@,
            chars@ == walk.seq().take(walk.index() as int),
    {
        chars.push(c);
    }
    chars
}

/// The characters that Unicode gives the property White_Space.
pub open spec fn is_whitespace(c: char) -> bool {
    let code = c as u32;
    ||| 0x09 <= code <= 0x0D
    ||| code == 0x20
    ||| code == 0x85
    ||| code == 0xA0
    ||| code == 0x1680
    ||| 0x2000 <= code <= 0x200A
    ||| code == 0x2028
    ||| code == 0x2029
    ||| code == 0x202F
    ||| code == 0x205F
    ||| code == 0x3000
}

/// Whether `c` is a whitespace character.
pub fn whitespace(c: char) -> (white: bool)
    ensures
        white == is_whitespace(c),
{
    let code: u32 = c as u32;
    (0x09 <= code && code <= 0x0D) || code == 0x20 || code == 0x85 || code == 0xA0 || code
        == 0x1680 || (0x2000 <= code && code <= 0x200A) || code == 0x2028 || code == 0x2029
        || code == 0x202F || code == 0x205F || code == 0x3000
}

/// `parts` written one after the other, with `separator` between each two.
pub open spec fn joined(parts: Seq<Seq<char>>, separator: Seq<char>) -> Seq<char>
    decreases parts.len(),
{
    if parts.len() == 0 {
        Seq::empty()
    } else if parts.len() == 1 {
        parts[0]
    } else {
        joined(parts.drop_last(), separator) + separator + parts.last()
    }
}

/// `parts` written one after the other, with `separator` between each two.
pub fn join(parts: &Vec<String>, separator: &str) -> (whole: String)
    ensures
        whole@ == joined(parts.deep_view(), separator@),
{
    let mut whole = String::new();
    let count = parts.len();
    let mut done: usize = 0;
    while done < count
        invariant
            count == parts@.len(),
            done <= count,
            whole@ == joined(parts.deep_view().take(done as int), separator@),
        decreases count - done,
    {
        if done > 0 {
            whole.append(separator);
        }
        whole.append(parts[done].as_str());
        proof {
            let before = parts.deep_view().take(done as int);
            let after = parts.deep_view().take(done + 1);
            assert(after.drop_last() =~= before);
            assert(after.last() == parts@[done as int]@);
            assert(Seq::<char>::empty() + parts@[done as int]@ =~= parts@[done as int]@);
        }
        done += 1;
    }
    assert(parts.deep_view().take(count as int) =~= parts.deep_view());
    whole
}

} // verus!
