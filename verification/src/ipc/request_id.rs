//! Request ids: the text `req_` and a number in decimal, the stamp.
//!
//! Ids are issued along a counter, the least stamp that no id was made of
//! yet. An id gets the stamp that the clock reads, or the counter where the
//! clock is not ahead of it, and the counter moves past that stamp: so no
//! two ids that are issued along one counter are the same.

use vstd::prelude::*;
use vstd::string::StringExecFns;
use crate::clock::unix_nanos;
use crate::ipc::text::{decimal_string, decimal_text, lemma_decimal_injective};

verus! {

/// The id that carries the stamp `stamp`.
pub open spec fn request_id_text(stamp: nat) -> Seq<char> {
    "req_"@ + decimal_text(stamp)
}

/// The stamp that the next id is made of, where the clock reads `stamp`
/// and `next_stamp` is the least stamp that is still free: the reading
/// itself, unless an id was made of it or of a later one before; then the
/// least free stamp.
pub open spec fn issued_stamp(next_stamp: u128, stamp: u128) -> u128 {
    if stamp > next_stamp {
        stamp
    } else {
        next_stamp
    }
}

/// Whether `id` and `after` are what issuing an id gives, where the least
/// free stamp was `before` and the clock reads `stamp`: the id of the
/// issued stamp, with the counter moved past it. Where the issued stamp is
/// `u128::MAX` no stamp would be left after it: then no id is issued and
/// the counter stays.
pub open spec fn id_issued(before: u128, stamp: u128, id: Option<String>, after: u128) -> bool {
    if issued_stamp(before, stamp) == u128::MAX {
        id is None && after == before
    } else {
        &&& id matches Some(text) && text@ == request_id_text(issued_stamp(before, stamp) as nat)
        &&& after == issued_stamp(before, stamp) + 1
    }
}

/// Two stamps with the same id are the same stamp.
pub proof fn lemma_request_id_injective(a: nat, b: nat)
    requires
        request_id_text(a) == request_id_text(b),
    ensures
        a == b,
{
    let prefix = "req_"@;
    let n = prefix.len() as int;
    let ta = request_id_text(a);
    let tb = request_id_text(b);
    assert(ta.subrange(n, ta.len() as int) =~= decimal_text(a));
    assert(tb.subrange(n, tb.len() as int) =~= decimal_text(b));
    lemma_decimal_injective(a, b);
}

/// No id is issued twice along one counter: an id that is issued where the
/// least free stamp is `later` differs from every id whose stamp is below
/// `later`, and so from every id issued along the counter before, whatever
/// the clock read then and reads now.
pub proof fn lemma_issued_ids_differ(earlier: u128, later: u128, stamp: u128)
    requires
        earlier < later,
    ensures
        issued_stamp(later, stamp) > earlier,
        request_id_text(issued_stamp(later, stamp) as nat) != request_id_text(earlier as nat),
{
    if request_id_text(issued_stamp(later, stamp) as nat) == request_id_text(earlier as nat) {
        lemma_request_id_injective(issued_stamp(later, stamp) as nat, earlier as nat);
    }
}

/// The id that carries the stamp `stamp`.
pub fn request_id_for(stamp: u128) -> (id: String)
    ensures
        id@ == request_id_text(stamp as nat),
{
    let digits = decimal_string(stamp);
    String::from_str("req_").concat(digits.as_str())
}

/// Issues the next id along the counter `next_stamp`, with the clock
/// reading `stamp`, and moves the counter past the stamp of the id. It
/// gives `None`, and leaves the counter, where the stamp to issue is
/// `u128::MAX`.
pub fn issue_request_id(next_stamp: &mut u128, stamp: u128) -> (id: Option<String>)
    ensures
        id_issued(*old(next_stamp), stamp, id, *final(next_stamp)),
{
    let issued: u128 = if stamp > *next_stamp {
        stamp
    } else {
        *next_stamp
    };
    if issued == u128::MAX {
        return None;
    }
    *next_stamp = issued + 1;
    Some(request_id_for(issued))
}

/// Issues the next id along the counter `next_stamp`, stamped with the
/// system clock's nanoseconds since the Unix epoch where the clock is ahead
/// of the counter. The counter starts at 0 and belongs to whoever needs ids
/// that differ from one another.
///
/// An id is issued unless the counter has reached `u128::MAX`, which the
/// clock alone never brings about.
pub fn generate_request_id(next_stamp: &mut u128) -> (id: Option<String>)
    ensures
        exists|stamp: u128|
            stamp < u128::MAX && #[trigger] id_issued(
                *old(next_stamp),
                stamp,
                id,
                *final(next_stamp),
            ),
        id is None <==> *old(next_stamp) == u128::MAX,
{
    let stamp = unix_nanos();
    issue_request_id(next_stamp, stamp)
}

} // verus!
