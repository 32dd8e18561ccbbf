//! Small operations on text that the rest of the crate shares.

use vstd::prelude::*;
use vstd::string::StringExecFns;

verus! {

/// `str::eq` of the standard library: two texts are equal where their
/// characters are.
pub assume_specification[ <str as PartialEq>::eq ](a: &str, b: &str) -> (same: bool)
    ensures
        same == (a@ == b@),
;

/// `String::push` of the standard library: the character is added at the end.
pub assume_specification[ String::push ](s: &mut String, ch: char)
    ensures
        final(s)@ == old(s)@.push(ch),
;

/// Whether `text` begins with the characters of `prefix`.
pub(crate) fn has_prefix(text: &str, prefix: &str) -> (found: bool)
    ensures
        found == prefix@.is_prefix_of(text@),
{
    let n = prefix.unicode_len();
    if text.unicode_len() < n {
        return false;
    }
    let mut i: usize = 0;
    while i < n
        invariant
            i <= n,
            n == prefix@.len(),
            n <= text@.len(),
            forall|j: int| 0 <= j < i ==> text@[j] == prefix@[j],
        decreases n - i,
    {
        if text.get_char(i) != prefix.get_char(i) {
            assert(text@.subrange(0, n as int)[i as int] != prefix@[i as int]);
            return false;
        }
        i += 1;
    }
    assert(prefix@ =~= text@.subrange(0, n as int));
    true
}

/// Whether two texts hold the same characters.
pub(crate) fn same_text(a: &str, b: &str) -> (same: bool)
    ensures
        same == (a@ == b@),
{
    *a == *b
}

/// The characters that count as white space: those with the Unicode property
/// `White_Space`.
pub open spec fn is_space(c: char) -> bool {
    let code = c as u32;
    ||| 0x09 <= code <= 0x0d
    ||| code == 0x20
    ||| code == 0x85
    ||| code == 0xa0
    ||| code == 0x1680
    ||| 0x2000 <= code <= 0x200a
    ||| code == 0x2028
    ||| code == 0x2029
    ||| code == 0x202f
    ||| code == 0x205f
    ||| code == 0x3000
}

/// A text is blank where it holds nothing but white space.
pub open spec fn blank(text: Seq<char>) -> bool {
    forall|i: int| 0 <= i < text.len() ==> is_space(#[trigger] text[i])
}

/// Whether a line holds nothing but white space.
pub fn is_blank(line: &str) -> (all: bool)
    ensures
        all == blank(line@),
{
    let mut all = true;
    for c in it: line.chars()
        invariant
            it.seq() == line@,
            all == blank(line@.take(it.index())),
    {
        let code: u32 = c as u32;
        let space = (0x09 <= code && code <= 0x0d) || code == 0x20 || code == 0x85 || code == 0xa0
            || code == 0x1680 || (0x2000 <= code && code <= 0x200a) || code == 0x2028 || code
            == 0x2029 || code == 0x202f || code == 0x205f || code == 0x3000;
        proof {
            let before = line@.take(it.index());
            let after = line@.take(it.index() + 1);
            assert(after =~= before.push(c));
            assert(forall|i: int| 0 <= i < before.len() ==> after[i] == before[i]);
            assert(after[before.len() as int] == c);
            if blank(after) {
                assert forall|i: int| 0 <= i < before.len() implies is_space(
                    #[trigger] before[i],
                ) by {
                    assert(is_space(after[i]));
                }
            }
        }
        all = all && space;
    }
    assert(line@.take(line@.len() as int) =~= line@);
    all
}

/// The text made of `head` followed by `tail`.
pub(crate) fn joined(head: &str, tail: &str) -> (whole: String)
    ensures
        whole@ == head@ + tail@,
{
    let mut whole = head.to_owned();
    whole.append(tail);
    whole
}

} // verus!
