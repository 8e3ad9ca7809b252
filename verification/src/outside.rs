//! Calls into other crates. What the contracts here say is believed, not proved.

use vstd::prelude::*;

verus! {

/// Whether `url::Url::parse` takes `text` for an absolute URL.
pub uninterp spec fn is_absolute_url(text: Seq<char>) -> bool;

/// `text` as `tabwriter::TabWriter`, with its default settings, lays it out.
pub uninterp spec fn aligned(text: Seq<char>) -> Seq<char>;

/// Whether `c` ends the part of a URL that a host can stand in.
pub open spec fn ends_host(c: char) -> bool {
    c == '?' || c == '#'
}

/// Whether `c` keeps what stands before it from being in one label of a host with what follows.
pub open spec fn parts_labels(c: char) -> bool {
    c == '/' || c == '.'
}

/// Whether `text[i..j]` can be in one label of a host.
pub open spec fn in_one_label(text: Seq<char>, i: int, j: int) -> bool {
    &&& 0 <= i <= j <= text.len()
    &&& forall|k: int| 0 <= k < j ==> !ends_host(#[trigger] text[k])
    &&& forall|k: int| i <= k < j ==> !parts_labels(#[trigger] text[k])
}

/// How many characters one character of a host can come to, once escapes are undone and the name
/// is mapped and normalized: 18 are what U+FDFA comes to, which takes nine characters to escape.
pub open spec fn char_reach(c: char) -> nat {
    if (c as u32) < 0x80 {
        2
    } else {
        18
    }
}

/// How many characters the text of a host can come to at most.
pub open spec fn host_reach(text: Seq<char>) -> nat
    decreases text.len(),
{
    if text.len() == 0 {
        0
    } else {
        host_reach(text.drop_last()) + char_reach(text.last())
    }
}

/// Whether no label of a host in `text` can come to more characters than the encoder of host
/// names can take without overflow, and `text` is no longer than the parser can count.
pub open spec fn url_in_reach(text: Seq<char>) -> bool {
    &&& text.len() <= 0x7fff_ffff
    &&& forall|i: int, j: int| #[trigger]
        in_one_label(text, i, j) ==> host_reach(text.subrange(i, j)) <= 3855
}

/// Calls `url::Url::parse`. The contract claims that whether it succeeds depends on the text
/// alone, and gives that a name; it does not say which texts are URLs.
///
/// The call is left out for texts on which it could overflow. The encoder of host names adds up
/// 32-bit numbers: for a label of `n` characters they stay below `1_113_985 * n`, which fits for
/// 3855 of them. The parser counts the characters before an `@` in an `i32`.
#[verifier::external_body]
pub(crate) fn parses_as_url(text: &str) -> (yes: bool)
    requires
        url_in_reach(text@),
    ensures
        yes == is_absolute_url(text@),
{
    url::Url::parse(text).is_ok()
}

/// Writes `text` to a new `tabwriter::TabWriter`, flushes it with `into_inner` and gives back
/// what it wrote. The contract claims that this depends on the text alone, and gives it a name;
/// it does not say how wide the columns get.
#[verifier::external_body]
pub(crate) fn align_columns(text: &str) -> (lines: String)
    ensures
        lines@ == aligned(text@),
{
    let mut out = tabwriter::TabWriter::new(Vec::new());
    std::io::Write::write_all(&mut out, text.as_bytes()).unwrap();
    String::from_utf8(out.into_inner().unwrap()).unwrap()
}

} // verus!
