//! Text helpers, each stated over the characters of its arguments.

use vstd::prelude::*;

verus! {

/// Views an optional string.
pub open spec fn opt_text(text: Option<String>) -> Option<Seq<char>> {
    match text {
        Some(text) => Some(text@),
        None => None,
    }
}

/// Views a list of strings.
pub open spec fn texts(list: Seq<String>) -> Seq<Seq<char>> {
    list.map_values(|text: String| text@)
}

/// The code points with Unicode's `White_Space` property.
pub open spec fn is_white_space(c: char) -> bool {
    ||| '\u{9}' <= c <= '\u{d}'
    ||| c == '\u{20}'
    ||| c == '\u{85}'
    ||| c == '\u{a0}'
    ||| c == '\u{1680}'
    ||| '\u{2000}' <= c <= '\u{200a}'
    ||| c == '\u{2028}'
    ||| c == '\u{2029}'
    ||| c == '\u{202f}'
    ||| c == '\u{205f}'
    ||| c == '\u{3000}'
}

/// A text is blank when nothing but white space is in it.
pub open spec fn blank(text: Seq<char>) -> bool {
    forall|i: int| 0 <= i < text.len() ==> is_white_space(#[trigger] text[i])
}

/// `needle` stands in `text`, starting at `at`.
pub open spec fn occurs_at(text: Seq<char>, needle: Seq<char>, at: int) -> bool {
    &&& 0 <= at
    &&& at + needle.len() <= text.len()
    &&& text.subrange(at, at + needle.len()) == needle
}

/// `needle` stands somewhere in `text`.
pub open spec fn occurs(text: Seq<char>, needle: Seq<char>) -> bool {
    exists|at: int| occurs_at(text, needle, at)
}

/// The parts in order, with `separator` between each two.
pub open spec fn joined(parts: Seq<Seq<char>>, separator: Seq<char>) -> Seq<char>
    decreases parts.len(),
{
    if parts.len() == 0 {
        Seq::empty()
    } else if parts.len() == 1 {
        parts[0]
    } else {
        joined(parts.drop_last(), separator) + separator + parts.last()
    }
}

/// The characters of a text.
fn chars_of(text: &str) -> (r: Vec<char>)
    ensures
        r@ == text@,
{
    let mut list: Vec<char> = Vec::new();
    for c in it: text.chars()
        invariant
            it.seq() == text@,
            list@ == text@.take(it.index()),
    {
        list.push(c);
        assert(text@.take(it.index()).push(c) =~= text@.take(it.index() + 1));
    }
    assert(text@.take(text@.len() as int) =~= text@);
    list
}

/// Tells whether a text is empty once the white space around it is trimmed away.
pub fn is_blank(text: &str) -> (r: bool)
    ensures
        r == blank(text@),
{
    let list: Vec<char> = chars_of(text);
    let mut i: usize = 0;
    while i < list.len()
        invariant
            list@ == text@,
            i <= list.len(),
            forall|j: int| 0 <= j < i ==> is_white_space(#[trigger] text@[j]),
        decreases list.len() - i,
    {
        let c: char = list[i];
        let white: bool = ('\u{9}' <= c && c <= '\u{d}') || c == '\u{20}' || c == '\u{85}' || c
            == '\u{a0}' || c == '\u{1680}' || ('\u{2000}' <= c && c <= '\u{200a}') || c
            == '\u{2028}' || c == '\u{2029}' || c == '\u{202f}' || c == '\u{205f}' || c
            == '\u{3000}';
        if !white {
            assert(!is_white_space(text@[i as int]));
            return false;
        }
        i = i + 1;
    }
    true
}

/// Tells whether `needle` stands somewhere in `text`.
pub fn contains_text(text: &str, needle: &str) -> (r: bool)
    ensures
        r == occurs(text@, needle@),
{
    let hay: Vec<char> = chars_of(text);
    let pin: Vec<char> = chars_of(needle);
    if pin.len() > hay.len() {
        return false;
    }
    let last: usize = hay.len() - pin.len();
    let mut at: usize = 0;
    while at <= last
        invariant
            hay@ == text@,
            pin@ == needle@,
            pin.len() <= hay.len(),
            last == hay.len() - pin.len(),
            at <= last,
            forall|k: int| 0 <= k < at ==> !occurs_at(text@, needle@, k),
        decreases last - at,
    {
        if matches_at(&hay, &pin, at) {
            assert(occurs_at(text@, needle@, at as int));
            return true;
        }
        if at == last {
            assert forall|k: int| !occurs_at(text@, needle@, k) by {
                if 0 <= k && k + needle@.len() <= text@.len() {
                    assert(k <= at);
                }
            }
            return false;
        }
        at = at + 1;
    }
    false
}

/// Tells whether `pin` stands in `hay` at a place where it fits.
fn matches_at(hay: &Vec<char>, pin: &Vec<char>, at: usize) -> (r: bool)
    requires
        at + pin.len() <= hay.len(),
    ensures
        r == occurs_at(hay@, pin@, at as int),
{
    let mut i: usize = 0;
    while i < pin.len()
        invariant
            at + pin.len() <= hay.len(),
            i <= pin.len(),
            forall|j: int| 0 <= j < i ==> hay@[at + j] == #[trigger] pin@[j],
        decreases pin.len() - i,
    {
        if hay[at + i] != pin[i] {
            assert(hay@.subrange(at as int, at + pin@.len())[i as int] != pin@[i as int]);
            return false;
        }
        i = i + 1;
    }
    assert(hay@.subrange(at as int, at + pin@.len()) =~= pin@);
    true
}

/// Joins the parts, with `separator` between each two.
pub fn join_texts(parts: &Vec<String>, separator: &str) -> (r: String)
    ensures
        r@ == joined(texts(parts@), separator@),
{
    let mut line: String = String::new();
    let mut i: usize = 0;
    while i < parts.len()
        invariant
            i <= parts.len(),
            line@ == joined(texts(parts@.take(i as int)), separator@),
        decreases parts.len() - i,
    {
        if i > 0 {
            line.append(separator);
        }
        line.append(parts[i].as_str());
        proof {
            let before = texts(parts@.take(i as int));
            let after = texts(parts@.take(i + 1));
            assert(after.drop_last() =~= before);
            assert(after.last() == parts@[i as int]@);
            if i == 0 {
                assert(line@ =~= after[0]);
            }
        }
        i = i + 1;
    }
    assert(parts@.take(parts@.len() as int) =~= parts@);
    line
}

/// The two texts, one behind the other.
pub fn text_plus(first: &str, second: &str) -> (r: String)
    ensures
        r@ == first@ + second@,
{
    let mut line: String = first.to_owned();
    line.append(second);
    line
}

} // verus!
