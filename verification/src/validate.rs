//! Verdicts on the values that arguments are given, each with the message for a bad one.

use crate::outside;
use vstd::prelude::*;
use vstd::string::*;

verus! {

/// The message that `val` is not a valid `what`.
pub open spec fn not_valid(what: Seq<char>, val: Seq<char>) -> Seq<char> {
    what + ": '"@ + val + "' is not valid"@
}

/// `Ok` where `good`, and otherwise the error `message`.
pub open spec fn verdict(good: bool, message: Seq<char>, r: Result<(), String>) -> bool {
    match r {
        Ok(()) => good,
        Err(text) => !good && text@ == message,
    }
}

fn refuse(what: &str, val: &str) -> (text: String)
    ensures
        text@ == not_valid(what@, val@),
{
    what.to_string().concat(": '").concat(val).concat("' is not valid")
}

/// A service group: `checked` is what its own check says, with the message where it fails.
pub fn valid_service_group(checked: Result<(), String>) -> (r: Result<(), String>)
    ensures
        match checked {
            Ok(()) => r is Ok,
            Err(message) => r is Err && r->Err_0 == message,
        },
{
    match checked {
        Ok(()) => Ok(()),
        Err(message) => Err(message),
    }
}

/// A topology: `parsed` says whether `val` parses as one.
pub fn valid_topology(val: &str, parsed: bool) -> (r: Result<(), String>)
    ensures
        verdict(parsed, not_valid("Service topology"@, val@), r),
{
    if parsed {
        Ok(())
    } else {
        Err(refuse("Service topology", val))
    }
}

/// An address for the gossip system: `parsed` says whether the value parses as one.
pub fn valid_listen_gossip(parsed: bool) -> (r: Result<(), String>)
    ensures
        verdict(
            parsed,
            "Listen gossip address should include both IP and port, eg: '0.0.0.0:9700'"@,
            r,
        ),
{
    if parsed {
        Ok(())
    } else {
        Err(
            "Listen gossip address should include both IP and port, eg: '0.0.0.0:9700'".to_string(),
        )
    }
}

/// An address for the HTTP gateway or the control gateway: `parsed` says whether the value
/// parses as one.
pub fn valid_listen_http(parsed: bool) -> (r: Result<(), String>)
    ensures
        verdict(
            parsed,
            "Listen http address should include both IP and port, eg: '0.0.0.0:9700'"@,
            r,
        ),
{
    if parsed {
        Ok(())
    } else {
        Err("Listen http address should include both IP and port, eg: '0.0.0.0:9700'".to_string())
    }
}

/// An update strategy: `parsed` says whether `val` parses as one.
pub fn valid_update_strategy(val: &str, parsed: bool) -> (r: Result<(), String>)
    ensures
        verdict(parsed, not_valid("Update strategy"@, val@), r),
{
    if parsed {
        Ok(())
    } else {
        Err(refuse("Update strategy", val))
    }
}

/// What stands later in a label comes to no more than all of it.
proof fn lemma_later_part(text: Seq<char>, s: int, i: int, j: int)
    requires
        0 <= s <= i <= j <= text.len(),
    ensures
        outside::host_reach(text.subrange(i, j)) <= outside::host_reach(text.subrange(s, j)),
    decreases j - i,
{
    if i < j {
        lemma_later_part(text, s, i, j - 1);
        assert(text.subrange(i, j).drop_last() =~= text.subrange(i, j - 1));
        assert(text.subrange(s, j).drop_last() =~= text.subrange(s, j - 1));
    }
}

/// Whether `val` can be put to `valid_url`. Any text can in which, before a `?` or `#`, no more
/// than 214 characters follow one another without a `/` or `.` between them, or 1927 where they
/// are ASCII.
pub fn url_fits(val: &str) -> (yes: bool)
    ensures
        yes == outside::url_in_reach(val@),
{
    let mut count: u32 = 0;
    let mut ended: bool = false;
    let mut reach: u32 = 0;
    let ghost mut start: int = 0;
    for c in it: val.chars()
        invariant
            it.seq() == val@,
            count == it.index(),
            count <= 0x7fff_ffff,
            ended == exists|k: int| 0 <= k < count && outside::ends_host(#[trigger] val@[k]),
            !ended ==> {
                &&& 0 <= start <= count
                &&& reach == outside::host_reach(val@.subrange(start, count as int))
                &&& reach <= 3855
                &&& start > 0 ==> outside::parts_labels(val@[start - 1])
                &&& forall|k: int|
                    start <= k < count ==> !outside::parts_labels(#[trigger] val@[k])
            },
            forall|i: int, j: int|
                j <= count && #[trigger] outside::in_one_label(val@, i, j)
                    ==> outside::host_reach(val@.subrange(i, j)) <= 3855,
    {
        if count == 0x7fff_ffff {
            return false;
        }
        let ghost n = count as int;
        let ghost was_ended = ended;
        let ghost from = start;
        let ghost before = reach as nat;
        assert(c == val@[n]);
        if c == '?' || c == '#' {
            ended = true;
        } else if c == '/' || c == '.' {
            reach = 0;
            proof {
                start = n + 1;
            }
        } else if !ended {
            reach = reach + (if (c as u32) < 0x80 {
                2u32
            } else {
                18u32
            });
        }
        count = count + 1;
        proof {
            if ended {
                if !was_ended {
                    assert(outside::ends_host(val@[n]));
                }
                assert forall|i: int, j: int|
                    j <= count && #[trigger] outside::in_one_label(
                        val@,
                        i,
                        j,
                    ) implies outside::host_reach(val@.subrange(i, j)) <= 3855 by {
                    let k = choose|k: int|
                        0 <= k < count && outside::ends_host(#[trigger] val@[k]);
                    assert(j <= k);
                }
            } else {
                assert forall|k: int| 0 <= k < count implies !outside::ends_host(
                    #[trigger] val@[k],
                ) by {
                    if k == n {
                        assert(c != '?' && c != '#');
                    }
                }
                if outside::parts_labels(c) {
                    assert(val@.subrange(start, count as int) =~= Seq::empty());
                    assert forall|i: int, j: int|
                        j <= count && #[trigger] outside::in_one_label(
                            val@,
                            i,
                            j,
                        ) implies outside::host_reach(val@.subrange(i, j)) <= 3855 by {
                        if j == count {
                            assert(i == j);
                            assert(val@.subrange(i, j) =~= Seq::empty());
                        }
                    }
                } else {
                    let run = val@.subrange(from, n + 1);
                    assert(run.drop_last() =~= val@.subrange(from, n));
                    assert(run.last() == c);
                    assert(reach == outside::host_reach(run));
                    assert(outside::in_one_label(val@, from, n + 1));
                    assert forall|i: int, j: int|
                        j <= count && #[trigger] outside::in_one_label(
                            val@,
                            i,
                            j,
                        ) && reach <= 3855 implies outside::host_reach(val@.subrange(i, j))
                        <= 3855 by {
                        if j == count {
                            if i < from {
                                assert(outside::parts_labels(val@[from - 1]));
                            }
                            lemma_later_part(val@, from, i, j);
                        }
                    }
                }
            }
        }
        if !ended && reach > 3855 {
            return false;
        }
    }
    true
}

/// A Builder URL that fits.
pub fn valid_url(val: &str) -> (r: Result<(), String>)
    requires
        outside::url_in_reach(val@),
    ensures
        verdict(outside::is_absolute_url(val@), not_valid("URL"@, val@), r),
{
    url_verdict(val, outside::parses_as_url(val))
}

/// The verdict on a Builder URL, given whether `val` parses as one.
pub fn url_verdict(val: &str, parsed: bool) -> (r: Result<(), String>)
    ensures
        verdict(parsed, not_valid("URL"@, val@), r),
{
    if parsed {
        Ok(())
    } else {
        Err(refuse("URL", val))
    }
}

} // verus!
