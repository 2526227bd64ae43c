//! What a page of claims is: the bound on its size, the filter on the state
//! of a claim, and the claims that a list of ids stands for.

use crate::claim::{ClaimStatus, GetClaimResult, PendingClaim};
use crate::storage::{StorageKey, StoredValue};
use vstd::prelude::*;

verus! {

/// The most claims that one page holds.
pub const MAX_PAGE_SIZE: u32 = 100;

/// The bound that a page is cut to: the requested one, but at least 1 and at
/// most `MAX_PAGE_SIZE`.
pub open spec fn effective_limit(limit: u32) -> u32 {
    if limit < 1 {
        1
    } else if limit > MAX_PAGE_SIZE {
        MAX_PAGE_SIZE
    } else {
        limit
    }
}

/// Whether claims in a terminal state are wanted; they are not unless the
/// caller says so.
pub open spec fn wants_terminal(include_terminal: Option<bool>) -> bool {
    include_terminal == Some(true)
}

/// The filter on the state: a pending claim always passes, another one only
/// where terminal claims are wanted.
pub open spec fn admits(status: ClaimStatus, include_terminal: bool) -> bool {
    include_terminal || !status.spec_is_terminal()
}

/// Whether the entry of a claim can be read: there is none, or it holds a
/// claim record.
pub open spec fn claim_readable(entries: Map<StorageKey, StoredValue>, claim_id: u64) -> bool {
    entries.contains_key(StorageKey::Claim(claim_id)) ==> entries[StorageKey::Claim(
        claim_id,
    )] is Claim
}

/// What a lookup of `claim_id` gives: `NotFound` where no claim is stored
/// under it, else the stored claim. There is no answer where the entry is no
/// claim record, or the record names no state.
pub open spec fn resolve(entries: Map<StorageKey, StoredValue>, claim_id: u64) -> Option<
    GetClaimResult,
> {
    if !entries.contains_key(StorageKey::Claim(claim_id)) {
        GetClaimResult::spec_from_stored(None)
    } else {
        match entries[StorageKey::Claim(claim_id)] {
            StoredValue::Claim(record) => GetClaimResult::spec_from_stored(Some(record)),
            _ => None,
        }
    }
}

/// The claim that a lookup adds to a page: the one that was found, where the
/// filter lets it pass.
pub open spec fn taken(found: GetClaimResult, include_terminal: bool) -> Option<PendingClaim> {
    match found {
        GetClaimResult::Found(claim) => if admits(claim.status, include_terminal) {
            Some(claim)
        } else {
            None
        },
        GetClaimResult::NotFound => None,
    }
}

/// The claim that `claim_id` adds to a page: the one stored under it, where
/// there is one and the filter lets it pass.
pub open spec fn admitted(
    entries: Map<StorageKey, StoredValue>,
    include_terminal: bool,
    claim_id: u64,
) -> Option<PendingClaim> {
    match resolve(entries, claim_id) {
        Some(found) => taken(found, include_terminal),
        None => None,
    }
}

/// `admitted` as a function of the id alone.
pub open spec fn admission(entries: Map<StorageKey, StoredValue>, include_terminal: bool)
    -> spec_fn(u64) -> Option<PendingClaim> {
    |claim_id: u64| admitted(entries, include_terminal, claim_id)
}

/// The claims that a list of ids stands for, in the order of the list: each
/// id that resolves to a claim which passes the filter gives that claim, and
/// every other id gives nothing.
pub open spec fn eligible(
    entries: Map<StorageKey, StoredValue>,
    ids: Seq<u64>,
    include_terminal: bool,
) -> Seq<PendingClaim> {
    ids.filter_map(admission(entries, include_terminal))
}

/// The page served for a list of ids: the first claims of `eligible`, as many
/// as the effective limit allows.
pub open spec fn page(
    entries: Map<StorageKey, StoredValue>,
    ids: Seq<u64>,
    limit: u32,
    include_terminal: bool,
) -> Seq<PendingClaim> {
    let all = eligible(entries, ids, include_terminal);
    if all.len() <= effective_limit(limit) {
        all
    } else {
        all.take(effective_limit(limit) as int)
    }
}

/// Whether a scan that fills a page of `bound` claims looks at the id at
/// `position`: it does while fewer than `bound` claims were found before it.
pub open spec fn scans(
    entries: Map<StorageKey, StoredValue>,
    ids: Seq<u64>,
    bound: u32,
    include_terminal: bool,
    position: int,
) -> bool {
    0 <= position < ids.len() && eligible(entries, ids.take(position), include_terminal).len()
        < bound
}

/// Every entry that the scan looks at can be read.
pub open spec fn scan_readable(
    entries: Map<StorageKey, StoredValue>,
    ids: Seq<u64>,
    bound: u32,
    include_terminal: bool,
) -> bool {
    forall|position: int| #[trigger]
        scans(entries, ids, bound, include_terminal, position) ==> claim_readable(
            entries,
            ids[position],
        )
}

/// The scan looks at a record whose state it cannot tell.
pub open spec fn scan_meets_unknown_state(
    entries: Map<StorageKey, StoredValue>,
    ids: Seq<u64>,
    bound: u32,
    include_terminal: bool,
) -> bool {
    exists|position: int| #[trigger]
        scans(entries, ids, bound, include_terminal, position) && resolve(
            entries,
            ids[position],
        ) is None
}

/// The ids listed under an index key; none where the key has no entry.
pub open spec fn listed_ids(entries: Map<StorageKey, StoredValue>, key: StorageKey) -> Seq<u64> {
    if entries.contains_key(key) && entries[key] is Ids {
        entries[key]->Ids_0
    } else {
        Seq::empty()
    }
}

/// Whether the entry of an index can be read: there is none, or it holds a
/// vector of ids.
pub open spec fn index_readable(entries: Map<StorageKey, StoredValue>, key: StorageKey) -> bool {
    entries.contains_key(key) ==> entries[key] is Ids
}

/// Computes the effective limit.
pub fn clamp_limit(limit: u32) -> (bound: u32)
    ensures
        bound == effective_limit(limit),
        1 <= bound <= MAX_PAGE_SIZE,
{
    if limit < 1 {
        1
    } else if limit > MAX_PAGE_SIZE {
        MAX_PAGE_SIZE
    } else {
        limit
    }
}

/// Applies the filter to the state of a claim.
pub fn passes_filter(status: ClaimStatus, include_terminal: bool) -> (passes: bool)
    ensures
        passes == admits(status, include_terminal),
{
    include_terminal || !status.is_terminal()
}

/// A page while it is filled: the claims taken so far, the bound on their
/// number and the filter that they passed.
pub struct PageBuilder {
    claims: Vec<PendingClaim>,
    bound: u32,
    include_terminal: bool,
}

impl PageBuilder {
    /// The claims taken so far, in the order in which they were offered.
    pub closed spec fn claims(&self) -> Seq<PendingClaim> {
        self.claims@
    }

    /// The most claims that the page takes.
    pub closed spec fn bound(&self) -> u32 {
        self.bound
    }

    /// Whether the page takes claims in a terminal state.
    pub closed spec fn include_terminal(&self) -> bool {
        self.include_terminal
    }

    /// The page holds no more claims than its bound, which lies between 1 and
    /// `MAX_PAGE_SIZE`.
    pub open spec fn well_formed(&self) -> bool {
        &&& 1 <= self.bound() <= MAX_PAGE_SIZE
        &&& self.claims().len() <= self.bound()
    }

    /// The page cannot take another claim.
    pub open spec fn spec_is_full(&self) -> bool {
        self.claims().len() >= self.bound()
    }

    /// An empty page for a request: its bound is the effective limit, and it
    /// takes terminal claims only where the request asks for them.
    pub fn new(limit: u32, include_terminal: Option<bool>) -> (page: PageBuilder)
        ensures
            page.well_formed(),
            page.claims() == Seq::<PendingClaim>::empty(),
            page.bound() == effective_limit(limit),
            page.include_terminal() == wants_terminal(include_terminal),
    {
        let include_all = match include_terminal {
            Some(flag) => flag,
            None => false,
        };
        PageBuilder { claims: Vec::new(), bound: clamp_limit(limit), include_terminal: include_all }
    }

    #[verifier::when_used_as_spec(spec_is_full)]
    pub fn is_full(&self) -> (full: bool)
        requires
            self.well_formed(),
        ensures
            full == self.spec_is_full(),
    {
        self.claims.len() >= self.bound as usize
    }

    /// Offers the answer of one lookup. A page that is not full takes the
    /// claim that was found, where the filter lets it pass; anything else
    /// leaves the page as it is.
    pub fn offer(&mut self, found: GetClaimResult)
        requires
            old(self).well_formed(),
        ensures
            final(self).well_formed(),
            final(self).bound() == old(self).bound(),
            final(self).include_terminal() == old(self).include_terminal(),
            final(self).claims() == if old(self).spec_is_full() {
                old(self).claims()
            } else {
                match taken(found, old(self).include_terminal()) {
                    Some(claim) => old(self).claims().push(claim),
                    None => old(self).claims(),
                }
            },
    {
        if self.claims.len() < self.bound as usize {
            match found {
                GetClaimResult::Found(claim) => {
                    if passes_filter(claim.status, self.include_terminal) {
                        self.claims.push(claim);
                    }
                },
                GetClaimResult::NotFound => {},
            }
        }
    }

    /// The claims of the page.
    pub fn finish(self) -> (claims: Vec<PendingClaim>)
        ensures
            claims@ == self.claims(),
    {
        self.claims
    }
}

/// Adding an id to a list adds the claim that it is admitted with, if any.
pub proof fn lemma_eligible_step(
    entries: Map<StorageKey, StoredValue>,
    ids: Seq<u64>,
    include_terminal: bool,
    position: int,
)
    requires
        0 <= position < ids.len(),
    ensures
        eligible(entries, ids.take(position + 1), include_terminal) == match admitted(
            entries,
            include_terminal,
            ids[position],
        ) {
            Some(claim) => eligible(entries, ids.take(position), include_terminal).push(claim),
            None => eligible(entries, ids.take(position), include_terminal),
        },
{
    let f = admission(entries, include_terminal);
    ids.lemma_filter_map_take_succ(f, position);
    let before = ids.take(position).filter_map(f);
    match f(ids[position]) {
        Some(claim) => {
            assert(before + seq![claim] =~= before.push(claim));
        },
        None => {
            assert(before + Seq::<PendingClaim>::empty() =~= before);
        },
    }
}

/// The claims of a shorter list open the claims of a longer one.
pub proof fn lemma_eligible_prefix(
    entries: Map<StorageKey, StoredValue>,
    ids: Seq<u64>,
    include_terminal: bool,
    shorter: int,
    longer: int,
)
    requires
        0 <= shorter <= longer <= ids.len(),
    ensures
        eligible(entries, ids.take(shorter), include_terminal).is_prefix_of(
            eligible(entries, ids.take(longer), include_terminal),
        ),
    decreases longer - shorter,
{
    if shorter < longer {
        lemma_eligible_prefix(entries, ids, include_terminal, shorter, longer - 1);
        lemma_eligible_step(entries, ids, include_terminal, longer - 1);
    }
}

} // verus!
