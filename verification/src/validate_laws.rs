//! What holds of the verdicts on values.

use crate::outside;
use crate::validate;
use vstd::prelude::*;

verus! {

/// A verdict lets a good value pass and refuses a bad one with its message, and nothing else.
pub proof fn law_verdict(good: bool, message: Seq<char>, r: Result<(), String>)
    requires
        validate::verdict(good, message, r),
    ensures
        r is Ok <==> good,
        !good ==> r->Err_0@ == message,
{
}

/// The message on a bad value says what it should have been and quotes the value.
pub proof fn law_not_valid(what: Seq<char>, val: Seq<char>)
    ensures
        validate::not_valid(what, val) == what + ": '"@ + val + "' is not valid"@,
{
}

proof fn lemma_reach(text: Seq<char>)
    ensures
        outside::host_reach(text) <= 18 * text.len(),
        2 * text.len() <= outside::host_reach(text),
        (forall|i: int| 0 <= i < text.len() ==> ((#[trigger] text[i]) as u32) < 0x80)
            ==> outside::host_reach(text) == 2 * text.len(),
        (forall|i: int| 0 <= i < text.len() ==> ((#[trigger] text[i]) as u32) >= 0x80)
            ==> outside::host_reach(text) == 18 * text.len(),
    decreases text.len(),
{
    if text.len() > 0 {
        lemma_reach(text.drop_last());
    }
}

/// A short text always fits, and so does one of any length that has a `/` or `.` often enough
/// before its query.
pub proof fn law_short_fits(text: Seq<char>)
    requires
        text.len() <= 0x7fff_ffff,
        forall|i: int, j: int| #[trigger]
            outside::in_one_label(text, i, j) ==> j - i <= 214 || (j - i <= 1927 && forall|k: int|
                i <= k < j ==> ((#[trigger] text[k]) as u32) < 0x80),
    ensures
        outside::url_in_reach(text),
{
    assert forall|i: int, j: int| #[trigger]
        outside::in_one_label(text, i, j) implies outside::host_reach(text.subrange(i, j))
        <= 3855 by {
        let part = text.subrange(i, j);
        lemma_reach(part);
        if j - i > 214 {
            assert forall|k: int| 0 <= k < part.len() implies ((#[trigger] part[k]) as u32)
                < 0x80 by {
                assert(part[k] == text[i + k]);
            }
        }
    }
}

/// A text that fits has no stretch of more than 1927 characters before its query without a `/` or
/// `.`, and none of more than 214 that are not ASCII.
pub proof fn law_fit_is_bounded(text: Seq<char>, i: int, j: int)
    requires
        outside::url_in_reach(text),
        0 <= i <= j <= text.len(),
        forall|k: int| 0 <= k < j ==> (#[trigger] text[k]) != '?' && text[k] != '#',
        forall|k: int| i <= k < j ==> (#[trigger] text[k]) != '/' && text[k] != '.',
    ensures
        j - i <= 1927,
        (forall|k: int| i <= k < j ==> ((#[trigger] text[k]) as u32) >= 0x80) ==> j - i <= 214,
{
    let part = text.subrange(i, j);
    lemma_reach(part);
    assert(outside::in_one_label(text, i, j));
    if forall|k: int| i <= k < j ==> ((#[trigger] text[k]) as u32) >= 0x80 {
        assert forall|k: int| 0 <= k < part.len() implies ((#[trigger] part[k]) as u32)
            >= 0x80 by {
            assert(part[k] == text[i + k]);
        }
    }
}

} // verus!
