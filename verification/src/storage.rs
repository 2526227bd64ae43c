//! The persistent entries of the running contract, and the reads that the
//! queries make of them.
//!
//! Nothing in this file is proved. The host keeps the entries, `soroban_sdk`
//! reads them, and the contracts here say what its documentation and its
//! source promise of each read. They speak of the entries as one invocation
//! finds them: the queries never write, and the host shows an invocation one
//! state of the ledger. The host may also end an invocation that has used up
//! its budget, at any call; no contract here speaks of that.

use crate::claim::{ClaimRecord, ClaimWindowConfig};
use soroban_sdk::{Address, Env, IntoVal, Symbol, Val};
use vstd::prelude::*;

verus! {

/// `soroban_sdk::Env`: the handle through which a contract reaches its host.
#[verifier::external_type_specification]
#[verifier::external_body]
pub struct ExEnv(Env);

/// `soroban_sdk::Address`: an account or a contract, known to the host.
#[verifier::external_type_specification]
#[verifier::external_body]
pub struct ExAddress(Address);

/// `soroban_sdk::Vec`: a sequence that the host keeps.
#[verifier::external_type_specification]
#[verifier::external_body]
#[verifier::reject_recursive_types(T)]
pub struct ExHostVec<T>(soroban_sdk::Vec<T>);

/// `Clone::clone` of `soroban_sdk::Address`, which the derived `Clone` of the
/// claim types calls: the copy names the same address.
pub assume_specification[ <Address as Clone>::clone ](address: &Address) -> (copy: Address)
    ensures
        copy == *address,
;

/// The keys under which the entries that the queries read are stored.
pub enum StorageKey {
    /// The claim with this id: the pair of the symbol `claim` and the id.
    Claim(u64),
    /// The ids of the claims made out to this address: the pair of the
    /// symbol `claims_rc` and the address.
    ByRecipient(Address),
    /// The ids of the claims that this address created: the pair of the
    /// symbol `claims_cr` and the address.
    ByCreator(Address),
    /// The settings of the claim window: the symbol `claim_cfg`.
    Config,
}

/// What an entry under one of those keys holds.
pub enum StoredValue {
    /// A map from field names to values that holds the nine fields of a
    /// claim, each a value of the field's type: `id`, `created_at`,
    /// `claim_window_start` and `claim_window_end` are `u64`, `amount` is
    /// `i128`, `status` is `u32`, and `creator`, `recipient` and `token` are
    /// addresses.
    Claim(ClaimRecord),
    /// A vector whose items are all `u64`.
    Ids(Seq<u64>),
    /// A map from field names to `u64` values that holds
    /// `window_duration_secs` and `min_claim_delay_secs`.
    Config(ClaimWindowConfig),
    /// Anything else.
    Other,
}

/// The persistent entries of the contract that runs in `env`, under the keys
/// above; `None` where the host serves no read of them, as it does where no
/// contract runs in `env`.
pub uninterp spec fn persistent_entries(env: Env) -> Option<Map<StorageKey, StoredValue>>;

/// The ids that a vector of the host holds, in order; `None` where one of its
/// items is no `u64`.
pub uninterp spec fn ids_of(ids: soroban_sdk::Vec<u64>) -> Option<Seq<u64>>;

/// The entries that the queries read in `env`.
pub open spec fn entries_of(env: Env) -> Map<StorageKey, StoredValue> {
    persistent_entries(env).unwrap()
}

/// What the entries hold under `key`, if they hold anything there.
pub open spec fn stored(entries: Option<Map<StorageKey, StoredValue>>, key: StorageKey) -> Option<
    StoredValue,
> {
    match entries {
        Some(held) => if held.contains_key(key) {
            Some(held[key])
        } else {
            None
        },
        None => None,
    }
}

/// Reads the entry of one claim with `Persistent::get`, as a map from field
/// names to values, and moves its nine fields into a record. `get` gives
/// `None` where the key has no entry. The host refuses the read where no
/// contract runs, and the conversions fail on an entry that is no such map:
/// both are ruled out.
#[verifier::external_body]
pub(crate) fn read_claim(env: &Env, claim_id: u64) -> (record: Option<ClaimRecord>)
    requires
        persistent_entries(*env) is Some,
        stored(persistent_entries(*env), StorageKey::Claim(claim_id)) matches Some(value)
            ==> value is Claim,
    ensures
        record == match stored(persistent_entries(*env), StorageKey::Claim(claim_id)) {
            Some(value) => Some(value->Claim_0),
            None => None,
        },
{
    let key = (Symbol::new(env, "claim"), claim_id);
    env.storage().persistent().get::<_, soroban_sdk::Map<Symbol, Val>>(&key).map(|fields| {
        let at = |name: &str| fields.get_unchecked(Symbol::new(env, name));
        ClaimRecord {
            id: at("id").into_val(env),
            creator: at("creator").into_val(env),
            recipient: at("recipient").into_val(env),
            amount: at("amount").into_val(env),
            token: at("token").into_val(env),
            status: at("status").into_val(env),
            created_at: at("created_at").into_val(env),
            claim_window_start: at("claim_window_start").into_val(env),
            claim_window_end: at("claim_window_end").into_val(env),
        }
    })
}

/// Reads the ids listed for a recipient with `Persistent::get`, which gives
/// `None` where the key has no entry. The vector that comes back holds the
/// ids of the entry; `get` takes any vector, and an item is only converted
/// when it is read.
#[verifier::external_body]
pub(crate) fn read_recipient_index(env: &Env, recipient: &Address) -> (ids: Option<
    soroban_sdk::Vec<u64>,
>)
    requires
        persistent_entries(*env) is Some,
        stored(persistent_entries(*env), StorageKey::ByRecipient(*recipient)) matches Some(value)
            ==> value is Ids,
    ensures
        match stored(persistent_entries(*env), StorageKey::ByRecipient(*recipient)) {
            Some(value) => ids matches Some(listed) && ids_of(listed) == Some(value->Ids_0),
            None => ids is None,
        },
{
    let key = (Symbol::new(env, "claims_rc"), recipient.clone());
    env.storage().persistent().get(&key)
}

/// Reads the ids listed for a creator with `Persistent::get`, in the same
/// way.
#[verifier::external_body]
pub(crate) fn read_creator_index(env: &Env, creator: &Address) -> (ids: Option<
    soroban_sdk::Vec<u64>,
>)
    requires
        persistent_entries(*env) is Some,
        stored(persistent_entries(*env), StorageKey::ByCreator(*creator)) matches Some(value)
            ==> value is Ids,
    ensures
        match stored(persistent_entries(*env), StorageKey::ByCreator(*creator)) {
            Some(value) => ids matches Some(listed) && ids_of(listed) == Some(value->Ids_0),
            None => ids is None,
        },
{
    let key = (Symbol::new(env, "claims_cr"), creator.clone());
    env.storage().persistent().get(&key)
}

/// Reads the settings of the claim window with `Persistent::get`, as a map
/// from field names to `u64` values, and moves its two fields out. `get`
/// gives `None` where the key has no entry.
#[verifier::external_body]
pub(crate) fn read_config(env: &Env) -> (config: Option<ClaimWindowConfig>)
    requires
        persistent_entries(*env) is Some,
        stored(persistent_entries(*env), StorageKey::Config) matches Some(value)
            ==> value is Config,
    ensures
        config == match stored(persistent_entries(*env), StorageKey::Config) {
            Some(value) => Some(value->Config_0),
            None => None,
        },
{
    let key = Symbol::new(env, "claim_cfg");
    env.storage().persistent().get::<_, soroban_sdk::Map<Symbol, u64>>(&key).map(|fields| {
        ClaimWindowConfig {
            window_duration_secs: fields.get_unchecked(Symbol::new(env, "window_duration_secs")),
            min_claim_delay_secs: fields.get_unchecked(Symbol::new(env, "min_claim_delay_secs")),
        }
    })
}

/// `soroban_sdk::Vec::len`: the number of items, whatever they are.
#[verifier::external_body]
pub(crate) fn ids_len(ids: &soroban_sdk::Vec<u64>) -> (len: u32)
    ensures
        ids_of(*ids) matches Some(items) ==> len == items.len(),
{
    ids.len()
}

/// `soroban_sdk::Vec::get`: the item at a position, or `None` past the end.
/// The call fails on an item that is no `u64`, which is ruled out.
#[verifier::external_body]
pub(crate) fn ids_get(ids: &soroban_sdk::Vec<u64>, position: u32) -> (id: Option<u64>)
    requires
        ids_of(*ids) is Some,
    ensures
        id == if position < ids_of(*ids).unwrap().len() {
            Some(ids_of(*ids).unwrap()[position as int])
        } else {
            None
        },
{
    ids.get(position)
}

} // verus!
