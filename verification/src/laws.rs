//! What holds of every page, whatever the entries and the list of ids are.

use crate::claim::{ClaimStatus, GetClaimResult, PendingClaim};
use crate::paging::{
    admission, admits, admitted, effective_limit, eligible, page, resolve, wants_terminal,
    MAX_PAGE_SIZE,
};
use crate::storage::{StorageKey, StoredValue};
use vstd::prelude::*;

verus! {

/// The claim stored under an id, whatever its state.
pub open spec fn stored_claim(entries: Map<StorageKey, StoredValue>) -> spec_fn(u64) -> Option<
    PendingClaim,
> {
    |claim_id: u64|
        match resolve(entries, claim_id) {
            Some(GetClaimResult::Found(claim)) => Some(claim),
            _ => None,
        }
}

/// Whether `claim` is stored under one of the ids of the list.
pub open spec fn listed(entries: Map<StorageKey, StoredValue>, ids: Seq<u64>, claim: PendingClaim)
    -> bool {
    exists|k: int|
        0 <= k < ids.len() && resolve(entries, #[trigger] ids[k]) == Some(
            GetClaimResult::Found(claim),
        )
}

/// The claims of two lists put together are the claims of the first followed
/// by the claims of the second.
pub proof fn eligible_of_joined_lists(
    entries: Map<StorageKey, StoredValue>,
    first: Seq<u64>,
    second: Seq<u64>,
    include_terminal: bool,
)
    ensures
        eligible(entries, first + second, include_terminal) == eligible(
            entries,
            first,
            include_terminal,
        ) + eligible(entries, second, include_terminal),
    decreases second.len(),
{
    let f = admission(entries, include_terminal);
    if second.len() == 0 {
        assert(first + second =~= first);
        assert(first.filter_map(f) + second.filter_map(f) =~= first.filter_map(f));
    } else {
        let joined = first + second;
        assert(joined.drop_last() =~= first + second.drop_last());
        assert(joined.last() == second.last());
        eligible_of_joined_lists(entries, first, second.drop_last(), include_terminal);
        let head = first.filter_map(f);
        let tail = second.drop_last().filter_map(f);
        match f(second.last()) {
            Some(claim) => {
                assert((head + tail) + seq![claim] =~= head + (tail + seq![claim]));
            },
            None => {},
        }
    }
}

/// A page is never longer than its effective limit, and it is shorter only
/// where no more claims pass: a limit of zero, or any other, leaves no page
/// empty while a claim passes.
pub proof fn page_length(
    entries: Map<StorageKey, StoredValue>,
    ids: Seq<u64>,
    limit: u32,
    include_terminal: bool,
)
    ensures
        1 <= effective_limit(limit) <= MAX_PAGE_SIZE,
        page(entries, ids, limit, include_terminal).len() <= effective_limit(limit),
        page(entries, ids, limit, include_terminal).len() == if eligible(
            entries,
            ids,
            include_terminal,
        ).len() <= effective_limit(limit) {
            eligible(entries, ids, include_terminal).len()
        } else {
            effective_limit(limit) as nat
        },
        eligible(entries, ids, include_terminal).len() > 0 ==> page(
            entries,
            ids,
            limit,
            include_terminal,
        ).len() > 0,
{
}

/// A request for no claims at all is served as a request for one: the page
/// holds the first claim that passes, where there is one.
pub proof fn zero_limit_serves_one(
    entries: Map<StorageKey, StoredValue>,
    ids: Seq<u64>,
    include_terminal: bool,
)
    ensures
        effective_limit(0) == 1,
        page(entries, ids, 0, include_terminal) == page(entries, ids, 1, include_terminal),
        page(entries, ids, 0, include_terminal).len() <= 1,
        eligible(entries, ids, include_terminal).len() > 0 ==> page(
            entries,
            ids,
            0,
            include_terminal,
        ) == seq![eligible(entries, ids, include_terminal)[0]],
{
    let all = eligible(entries, ids, include_terminal);
    if all.len() > 0 {
        assert(page(entries, ids, 0, include_terminal) =~= seq![all[0]]);
    }
}

/// A request for more than `MAX_PAGE_SIZE` claims is served as a request for
/// `MAX_PAGE_SIZE`.
pub proof fn large_limit_serves_maximum(
    entries: Map<StorageKey, StoredValue>,
    ids: Seq<u64>,
    limit: u32,
    include_terminal: bool,
)
    requires
        limit > MAX_PAGE_SIZE,
    ensures
        effective_limit(limit) == MAX_PAGE_SIZE,
        page(entries, ids, limit, include_terminal) == page(
            entries,
            ids,
            MAX_PAGE_SIZE,
            include_terminal,
        ),
        page(entries, ids, limit, include_terminal).len() <= MAX_PAGE_SIZE,
{
}

/// A page opens the claims that the whole list stands for: it is what a
/// larger limit would serve, cut short.
pub proof fn page_is_prefix(
    entries: Map<StorageKey, StoredValue>,
    ids: Seq<u64>,
    limit: u32,
    include_terminal: bool,
)
    ensures
        page(entries, ids, limit, include_terminal).is_prefix_of(
            eligible(entries, ids, include_terminal),
        ),
{
}

/// The claims that a list stands for come in the order of the list. The
/// result gives, for each claim, a position in the list whose id is admitted
/// with that claim; the positions rise strictly, so of two claims the earlier
/// one stems from the earlier id.
pub proof fn eligible_keeps_list_order(
    entries: Map<StorageKey, StoredValue>,
    ids: Seq<u64>,
    include_terminal: bool,
) -> (positions: Seq<int>)
    ensures
        positions.len() == eligible(entries, ids, include_terminal).len(),
        forall|i: int|
            0 <= i < positions.len() ==> 0 <= #[trigger] positions[i] < ids.len() && admitted(
                entries,
                include_terminal,
                ids[positions[i]],
            ) == Some(eligible(entries, ids, include_terminal)[i]),
        forall|i: int, j: int|
            0 <= i < j < positions.len() ==> #[trigger] positions[i] < #[trigger] positions[j],
    decreases ids.len(),
{
    if ids.len() == 0 {
        Seq::empty()
    } else {
        let shorter = ids.drop_last();
        let before = eligible_keeps_list_order(entries, shorter, include_terminal);
        assert forall|i: int| 0 <= i < before.len() implies ids[#[trigger] before[i]]
            == shorter[before[i]] by {}
        match admitted(entries, include_terminal, ids.last()) {
            Some(claim) => {
                let claims = eligible(entries, shorter, include_terminal);
                assert(eligible(entries, ids, include_terminal) =~= claims.push(claim));
                before.push(ids.len() - 1)
            },
            None => before,
        }
    }
}

/// The claims of a page come in the order of the list, as those of the whole
/// list do.
pub proof fn page_keeps_list_order(
    entries: Map<StorageKey, StoredValue>,
    ids: Seq<u64>,
    limit: u32,
    include_terminal: bool,
) -> (positions: Seq<int>)
    ensures
        positions.len() == page(entries, ids, limit, include_terminal).len(),
        forall|i: int|
            0 <= i < positions.len() ==> 0 <= #[trigger] positions[i] < ids.len() && admitted(
                entries,
                include_terminal,
                ids[positions[i]],
            ) == Some(page(entries, ids, limit, include_terminal)[i]),
        forall|i: int, j: int|
            0 <= i < j < positions.len() ==> #[trigger] positions[i] < #[trigger] positions[j],
{
    let all = eligible_keeps_list_order(entries, ids, include_terminal);
    if all.len() <= effective_limit(limit) {
        all
    } else {
        all.take(effective_limit(limit) as int)
    }
}

/// Every claim of a page is stored under an id of the list and passes the
/// filter.
pub proof fn page_holds_admitted_claims(
    entries: Map<StorageKey, StoredValue>,
    ids: Seq<u64>,
    limit: u32,
    include_terminal: bool,
)
    ensures
        forall|i: int|
            0 <= i < page(entries, ids, limit, include_terminal).len() ==> admits(
                (#[trigger] page(entries, ids, limit, include_terminal)[i]).status,
                include_terminal,
            ),
        forall|i: int|
            0 <= i < page(entries, ids, limit, include_terminal).len() ==> #[trigger] listed(
                entries,
                ids,
                page(entries, ids, limit, include_terminal)[i],
            ),
{
    let served = page(entries, ids, limit, include_terminal);
    let positions = page_keeps_list_order(entries, ids, limit, include_terminal);
    assert forall|i: int| 0 <= i < served.len() implies admits(
        (#[trigger] served[i]).status,
        include_terminal,
    ) && listed(entries, ids, served[i]) by {
        let k = positions[i];
        assert(admitted(entries, include_terminal, ids[k]) == Some(served[i]));
        assert(resolve(entries, ids[k]) == Some(GetClaimResult::Found(served[i])));
    }
}

/// Unless terminal claims are asked for, every claim of a page is pending:
/// none is claimed or cancelled.
pub proof fn default_page_holds_pending_claims(
    entries: Map<StorageKey, StoredValue>,
    ids: Seq<u64>,
    limit: u32,
    include_terminal: Option<bool>,
)
    requires
        include_terminal is None || include_terminal == Some(false),
    ensures
        !wants_terminal(include_terminal),
        forall|i: int|
            0 <= i < page(entries, ids, limit, wants_terminal(include_terminal)).len() ==> (
            #[trigger] page(entries, ids, limit, wants_terminal(include_terminal))[i]).status
                == ClaimStatus::Pending,
{
    page_holds_admitted_claims(entries, ids, limit, false);
}

/// Where terminal claims are asked for, the state of a claim keeps it from no
/// page: the list stands for every claim that is stored under one of its ids.
pub proof fn terminal_claims_pass_on_request(
    entries: Map<StorageKey, StoredValue>,
    ids: Seq<u64>,
)
    ensures
        forall|status: ClaimStatus| #[trigger] admits(status, true),
        eligible(entries, ids, true) == ids.filter_map(stored_claim(entries)),
    decreases ids.len(),
{
    if ids.len() > 0 {
        terminal_claims_pass_on_request(entries, ids.drop_last());
    }
}

/// An id that is admitted with no claim can be struck from the list: the
/// claims that the list stands for stay as they are, and so does every page.
pub proof fn unadmitted_id_changes_nothing(
    entries: Map<StorageKey, StoredValue>,
    ids: Seq<u64>,
    limit: u32,
    include_terminal: bool,
    position: int,
)
    requires
        0 <= position < ids.len(),
        admitted(entries, include_terminal, ids[position]) is None,
    ensures
        eligible(entries, ids, include_terminal) == eligible(
            entries,
            ids.remove(position),
            include_terminal,
        ),
        page(entries, ids, limit, include_terminal) == page(
            entries,
            ids.remove(position),
            limit,
            include_terminal,
        ),
{
    let f = admission(entries, include_terminal);
    let front = ids.take(position);
    let back = ids.skip(position + 1);
    let single = seq![ids[position]];
    assert(ids =~= (front + single) + back);
    assert(ids.remove(position) =~= front + back);
    eligible_of_joined_lists(entries, front + single, back, include_terminal);
    eligible_of_joined_lists(entries, front, single, include_terminal);
    eligible_of_joined_lists(entries, front, back, include_terminal);
    assert(single.drop_last() =~= Seq::<u64>::empty());
    assert(single.filter_map(f) =~= Seq::<PendingClaim>::empty()) by {
        assert(single.drop_last().filter_map(f) =~= Seq::<PendingClaim>::empty());
        assert(single.last() == ids[position]);
    }
    assert(front.filter_map(f) + Seq::<PendingClaim>::empty() =~= front.filter_map(f));
}

/// An id under which no claim is stored is skipped: with or without it, the
/// list stands for the same claims and serves the same pages.
pub proof fn dangling_id_is_skipped(
    entries: Map<StorageKey, StoredValue>,
    ids: Seq<u64>,
    limit: u32,
    include_terminal: bool,
    position: int,
)
    requires
        0 <= position < ids.len(),
        !entries.contains_key(StorageKey::Claim(ids[position])),
    ensures
        resolve(entries, ids[position]) == Some(GetClaimResult::NotFound),
        eligible(entries, ids, include_terminal) == eligible(
            entries,
            ids.remove(position),
            include_terminal,
        ),
        page(entries, ids, limit, include_terminal) == page(
            entries,
            ids.remove(position),
            limit,
            include_terminal,
        ),
{
    unadmitted_id_changes_nothing(entries, ids, limit, include_terminal, position);
}

} // verus!
