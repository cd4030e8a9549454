//! What a caller sees of the text helpers.
//!
//! Each law here speaks of calls: `call_ensures` holds of the arguments and the result of every
//! call that returns.

use vstd::prelude::*;
use crate::text::{contains_text, is_blank, join_texts, text_plus};

verus! {

/// White space is the twenty-five code points that Unicode lists as such.
pub proof fn law_white_space(c: char)
    ensures
        crate::text::is_white_space(c) <==> {
            let code = c as int;
            ||| 0x9 <= code <= 0xd
            ||| code == 0x20
            ||| code == 0x85
            ||| code == 0xa0
            ||| code == 0x1680
            ||| 0x2000 <= code <= 0x200a
            ||| 0x2028 <= code <= 0x2029
            ||| code == 0x202f
            ||| code == 0x205f
            ||| code == 0x3000
        },
{
}

/// The empty text is blank, and a text is blank exactly where both its halves are.
pub proof fn law_blank_in_parts(first: &str, second: &str, whole: &str, a: bool, b: bool, r: bool)
    requires
        whole@ == first@ + second@,
        call_ensures(is_blank, (first,), a),
        call_ensures(is_blank, (second,), b),
        call_ensures(is_blank, (whole,), r),
    ensures
        r <==> a && b,
        first@.len() == 0 ==> a,
{
    let (s, t) = (first@, second@);
    if r {
        assert forall|i: int| 0 <= i < s.len() implies crate::text::is_white_space(
            #[trigger] s[i],
        ) by {
            assert((s + t)[i] == s[i]);
        }
        assert forall|i: int| 0 <= i < t.len() implies crate::text::is_white_space(
            #[trigger] t[i],
        ) by {
            assert((s + t)[s.len() + i] == t[i]);
        }
    }
}

/// A text is blank exactly where no character in it is other than white space.
pub proof fn law_blank(text: &str, r: bool)
    requires
        call_ensures(is_blank, (text,), r),
    ensures
        r ==> forall|i: int| 0 <= i < text@.len() ==> crate::text::is_white_space(
            #[trigger] text@[i],
        ),
        !r ==> exists|i: int|
            0 <= i < text@.len() && !crate::text::is_white_space(#[trigger] text@[i]),
{
}

/// A text contains another exactly where it is made of that one with something, or nothing, before
/// and behind it.
pub proof fn law_contains(text: &str, needle: &str, r: bool)
    requires
        call_ensures(contains_text, (text, needle), r),
    ensures
        r <==> crate::text::occurs(text@, needle@),
        r <==> exists|before: Seq<char>, after: Seq<char>|
            text@ == #[trigger] (before + needle@ + after),
{
    let (t, n) = (text@, needle@);
    if r {
        let at = choose|at: int| crate::text::occurs_at(t, n, at);
        let before = t.subrange(0, at);
        let after = t.subrange(at + n.len(), t.len() as int);
        assert(t.subrange(at, at + n.len()) == n);
        assert(t =~= before + n + after) by {
            assert forall|i: int| at <= i < at + n.len() implies t[i] == n[i - at] by {
                assert(t.subrange(at, at + n.len())[i - at] == t[i]);
            }
        }
    }
    if exists|before: Seq<char>, after: Seq<char>| t == #[trigger] (before + n + after) {
        let (before, after) = choose|before: Seq<char>, after: Seq<char>|
            t == #[trigger] (before + n + after);
        let at = before.len() as int;
        assert(t.subrange(at, at + n.len()) =~= n);
        assert(crate::text::occurs_at(t, n, at));
    }
}

/// Nothing joined is nothing, one text joined is that text, and one more text comes behind the
/// separator.
pub proof fn law_join(
    parts: &Vec<String>,
    more: &Vec<String>,
    separator: &str,
    line: String,
    longer: String,
)
    requires
        call_ensures(join_texts, (parts, separator), line),
        more@.len() == parts@.len() + 1,
        more@.drop_last() == parts@,
        call_ensures(join_texts, (more, separator), longer),
    ensures
        parts@.len() == 0 ==> line@.len() == 0 && longer@ == more@[0]@,
        parts@.len() > 0 ==> longer@ == line@ + separator@ + more@.last()@,
{
    let a = crate::text::texts(parts@);
    let b = crate::text::texts(more@);
    assert(b.drop_last() =~= a);
    assert(b.last() == more@.last()@);
    assert(b.len() > 0 && b[0] == more@[0]@);
}

/// Two texts put together are the one and then the other.
pub proof fn law_text_plus(first: &str, second: &str, r: String)
    requires
        call_ensures(text_plus, (first, second), r),
    ensures
        r@.len() == first@.len() + second@.len(),
        first@.is_prefix_of(r@),
        second@.is_suffix_of(r@),
{
    assert(r@.subrange(0, first@.len() as int) =~= first@);
    assert(r@.subrange(first@.len() as int, r@.len() as int) =~= second@);
}

} // verus!
