//! The read-only queries: one claim by its id, the claims listed for an
//! address page by page, and the settings of the claim window.

use crate::claim::{ClaimWindowConfig, GetClaimResult, PendingClaim};
use crate::paging::{
    claim_readable, effective_limit, eligible, index_readable, lemma_eligible_prefix,
    lemma_eligible_step, listed_ids, page, resolve, scan_meets_unknown_state, scan_readable, scans,
    wants_terminal, PageBuilder,
};
use crate::storage::{
    entries_of, ids_get, ids_len, ids_of, persistent_entries, read_claim, read_config,
    read_creator_index, read_recipient_index, stored, StorageKey,
};
use soroban_sdk::{Address, Env};
use vstd::prelude::*;

verus! {

/// The two lists of claim ids that are kept per address.
#[derive(Clone, Copy, Debug, PartialEq, Eq, Structural)]
pub enum ClaimIndex {
    ByRecipient,
    ByCreator,
}

impl ClaimIndex {
    /// The key under which the list of `owner` is stored.
    pub open spec fn key(self, owner: Address) -> StorageKey {
        match self {
            ClaimIndex::ByRecipient => StorageKey::ByRecipient(owner),
            ClaimIndex::ByCreator => StorageKey::ByCreator(owner),
        }
    }
}

/// A list query can run: a contract runs in `env`, the list of `owner` can be
/// read, and so can every claim entry that the scan looks at.
pub open spec fn list_readable(
    env: Env,
    index: ClaimIndex,
    owner: Address,
    limit: u32,
    include_terminal: Option<bool>,
) -> bool {
    &&& persistent_entries(env) is Some
    &&& index_readable(entries_of(env), index.key(owner))
    &&& scan_readable(
        entries_of(env),
        listed_ids(entries_of(env), index.key(owner)),
        effective_limit(limit),
        wants_terminal(include_terminal),
    )
}

/// A list query meets a record whose state it cannot tell.
pub open spec fn list_meets_unknown_state(
    env: Env,
    index: ClaimIndex,
    owner: Address,
    limit: u32,
    include_terminal: Option<bool>,
) -> bool {
    scan_meets_unknown_state(
        entries_of(env),
        listed_ids(entries_of(env), index.key(owner)),
        effective_limit(limit),
        wants_terminal(include_terminal),
    )
}

/// The page that a list query serves.
pub open spec fn listed_page(
    env: Env,
    index: ClaimIndex,
    owner: Address,
    limit: u32,
    include_terminal: Option<bool>,
) -> Seq<PendingClaim> {
    page(
        entries_of(env),
        listed_ids(entries_of(env), index.key(owner)),
        limit,
        wants_terminal(include_terminal),
    )
}

/// Walks `ids` in order and fills a page with the claims that they are
/// admitted with, until the page is full or the ids are used up. Gives
/// nothing where it comes to a record whose state it cannot tell.
fn collect_page(env: &Env, ids: &soroban_sdk::Vec<u64>, start: PageBuilder) -> (found: Option<
    Vec<PendingClaim>,
>)
    requires
        start.well_formed(),
        start.claims() == Seq::<PendingClaim>::empty(),
        persistent_entries(*env) is Some,
        ids_of(*ids) is Some,
        scan_readable(
            entries_of(*env),
            ids_of(*ids).unwrap(),
            start.bound(),
            start.include_terminal(),
        ),
    ensures
        found is None <==> scan_meets_unknown_state(
            entries_of(*env),
            ids_of(*ids).unwrap(),
            start.bound(),
            start.include_terminal(),
        ),
        found matches Some(claims) ==> {
            let all = eligible(entries_of(*env), ids_of(*ids).unwrap(), start.include_terminal());
            claims@ == if all.len() <= start.bound() {
                all
            } else {
                all.take(start.bound() as int)
            }
        },
{
    let ghost entries = entries_of(*env);
    let ghost listed = ids_of(*ids).unwrap();
    let ghost bound = start.bound();
    let ghost include_terminal = start.include_terminal();
    let count = ids_len(ids);
    let mut page = start;
    let mut position: u32 = 0;
    proof {
        assert(listed.take(0) =~= Seq::<u64>::empty());
    }
    while position < count && !page.is_full()
        invariant
            persistent_entries(*env) == Some(entries),
            ids_of(*ids) == Some(listed),
            count == listed.len(),
            position <= count,
            bound == start.bound(),
            include_terminal == start.include_terminal(),
            page.well_formed(),
            page.bound() == bound,
            page.include_terminal() == include_terminal,
            page.claims() == eligible(entries, listed.take(position as int), include_terminal),
            scan_readable(entries, listed, bound, include_terminal),
            forall|earlier: int|
                0 <= earlier < position ==> resolve(entries, #[trigger] listed[earlier]) is Some,
        decreases count - position,
    {
        assert(scans(entries, listed, bound, include_terminal, position as int));
        proof {
            lemma_eligible_step(entries, listed, include_terminal, position as int);
        }
        match ids_get(ids, position) {
            Some(claim_id) => {
                match WhsperStellar::try_get_pending_claim(env, claim_id) {
                    Some(found) => {
                        page.offer(found);
                    },
                    None => {
                        return None;
                    },
                }
            },
            None => {},
        }
        position = position + 1;
    }
    proof {
        let all = eligible(entries, listed, include_terminal);
        let seen = position as int;
        assert(listed.take(listed.len() as int) =~= listed);
        lemma_eligible_prefix(entries, listed, include_terminal, seen, listed.len() as int);
        assert forall|later: int| #[trigger]
            scans(entries, listed, bound, include_terminal, later) implies resolve(
            entries,
            listed[later],
        ) is Some by {
            if later >= seen {
                lemma_eligible_prefix(entries, listed, include_terminal, seen, later);
            }
        }
        if all.len() > bound {
            assert(page.claims() =~= all.take(bound as int));
        } else {
            assert(page.claims() =~= all);
        }
    }
    Some(page.finish())
}

/// The read-only queries on the claims of the running contract.
pub struct WhsperStellar;

impl WhsperStellar {
    /// Looks one claim up: `NotFound` where no claim is stored under the id,
    /// else the stored claim. Gives nothing where the stored record names no
    /// state.
    pub fn try_get_pending_claim(env: &Env, claim_id: u64) -> (found: Option<GetClaimResult>)
        requires
            persistent_entries(*env) is Some,
            claim_readable(entries_of(*env), claim_id),
        ensures
            found == resolve(entries_of(*env), claim_id),
    {
        GetClaimResult::from_stored(read_claim(env, claim_id))
    }

    /// Looks one claim up: `NotFound` where no claim is stored under the id,
    /// else the claim as it was stored, field by field. The stored record
    /// must name a state; `try_get_pending_claim` tells where it does not.
    pub fn get_pending_claim(env: Env, claim_id: u64) -> (found: GetClaimResult)
        requires
            persistent_entries(env) is Some,
            resolve(entries_of(env), claim_id) is Some,
        ensures
            Some(found) == resolve(entries_of(env), claim_id),
            !entries_of(env).contains_key(StorageKey::Claim(claim_id)) ==> found
                == GetClaimResult::NotFound,
            entries_of(env).contains_key(StorageKey::Claim(claim_id)) ==> found
                == GetClaimResult::Found(
                entries_of(env)[StorageKey::Claim(claim_id)]->Claim_0.spec_decode().unwrap(),
            ),
    {
        match Self::try_get_pending_claim(&env, claim_id) {
            Some(found) => found,
            None => GetClaimResult::NotFound,
        }
    }

    /// Serves one page of the claims listed under `index` for `owner`: the
    /// first claims, in the order of the list, that are stored and pass the
    /// filter, as many as the effective limit allows. Gives nothing where the
    /// scan comes to a record whose state it cannot tell.
    pub fn try_list_claims(
        env: &Env,
        index: ClaimIndex,
        owner: &Address,
        limit: u32,
        include_terminal: Option<bool>,
    ) -> (found: Option<Vec<PendingClaim>>)
        requires
            list_readable(*env, index, *owner, limit, include_terminal),
        ensures
            found is None <==> list_meets_unknown_state(
                *env,
                index,
                *owner,
                limit,
                include_terminal,
            ),
            found matches Some(claims) ==> claims@ == listed_page(
                *env,
                index,
                *owner,
                limit,
                include_terminal,
            ) && claims@.len() <= effective_limit(limit),
    {
        let page = PageBuilder::new(limit, include_terminal);
        let listed = match index {
            ClaimIndex::ByRecipient => read_recipient_index(env, owner),
            ClaimIndex::ByCreator => read_creator_index(env, owner),
        };
        match listed {
            Some(ids) => collect_page(env, &ids, page),
            None => {
                proof {
                    let none = Seq::<u64>::empty();
                    assert(eligible(entries_of(*env), none, page.include_terminal())
                        =~= Seq::empty());
                }
                Some(page.finish())
            },
        }
    }

    /// One page of the claims made out to `recipient`: of the ids listed for
    /// it, in their order, those under which a claim is stored that passes
    /// the filter, cut to the effective limit. An address without a list has
    /// an empty page. Every record that the scan looks at must name a state;
    /// `try_list_claims` tells where one does not.
    pub fn get_claims_by_recipient(
        env: Env,
        recipient: Address,
        limit: u32,
        include_claimed_cancelled: Option<bool>,
    ) -> (claims: Vec<PendingClaim>)
        requires
            list_readable(
                env,
                ClaimIndex::ByRecipient,
                recipient,
                limit,
                include_claimed_cancelled,
            ),
            !list_meets_unknown_state(
                env,
                ClaimIndex::ByRecipient,
                recipient,
                limit,
                include_claimed_cancelled,
            ),
        ensures
            claims@ == listed_page(
                env,
                ClaimIndex::ByRecipient,
                recipient,
                limit,
                include_claimed_cancelled,
            ),
            claims@.len() <= effective_limit(limit),
    {
        match Self::try_list_claims(
            &env,
            ClaimIndex::ByRecipient,
            &recipient,
            limit,
            include_claimed_cancelled,
        ) {
            Some(claims) => claims,
            None => Vec::new(),
        }
    }

    /// One page of the claims that `creator` created, chosen and cut in the
    /// same way from the ids listed for it.
    pub fn get_claims_by_creator(
        env: Env,
        creator: Address,
        limit: u32,
        include_claimed_cancelled: Option<bool>,
    ) -> (claims: Vec<PendingClaim>)
        requires
            list_readable(env, ClaimIndex::ByCreator, creator, limit, include_claimed_cancelled),
            !list_meets_unknown_state(
                env,
                ClaimIndex::ByCreator,
                creator,
                limit,
                include_claimed_cancelled,
            ),
        ensures
            claims@ == listed_page(
                env,
                ClaimIndex::ByCreator,
                creator,
                limit,
                include_claimed_cancelled,
            ),
            claims@.len() <= effective_limit(limit),
    {
        match Self::try_list_claims(
            &env,
            ClaimIndex::ByCreator,
            &creator,
            limit,
            include_claimed_cancelled,
        ) {
            Some(claims) => claims,
            None => Vec::new(),
        }
    }

    /// The settings of the claim window: the stored ones, or both zero where
    /// none were stored.
    pub fn get_claim_window_config(env: Env) -> (config: ClaimWindowConfig)
        requires
            persistent_entries(env) is Some,
            stored(persistent_entries(env), StorageKey::Config) matches Some(value)
                ==> value is Config,
        ensures
            config == match stored(persistent_entries(env), StorageKey::Config) {
                Some(value) => value->Config_0,
                None => ClaimWindowConfig::unset(),
            },
    {
        ClaimWindowConfig::or_unset(read_config(&env))
    }
}

} // verus!
