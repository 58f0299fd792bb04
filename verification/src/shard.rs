//! Shard selection: how a caller's optional shard key and shard id resolve
//! to the engine's internal selector, on the read path and on the write
//! path, whose empty cases deliberately differ.

use vstd::prelude::*;

verus! {

/// Identifier of one physical shard.
pub type ShardId = u32;

/// A user-defined shard key: a keyword or a number.
#[derive(Clone, Debug, PartialEq, Eq)]
pub enum ShardKey {
    Keyword(String),
    Number(u64),
}

/// A shard-key selector as a caller supplies it: one key or several.
#[derive(Clone, Debug, PartialEq, Eq)]
pub enum ShardKeySelector {
    ShardKey(ShardKey),
    ShardKeys(Vec<ShardKey>),
}

/// The resolved, internal shard selection handed to the engine.
///
/// `Empty` means the default (unsharded) destination and is produced only on
/// the write path; `All` targets every shard and is produced only on the read
/// path.  The two are deliberately distinct values.
#[derive(Clone, Debug, PartialEq, Eq)]
pub enum ShardSelector {
    Empty,
    All,
    ShardId(ShardId),
    Key(ShardKey),
    Keys(Vec<ShardKey>),
}

/// The resolved selector a shard-key selector stands for, on its own.
pub open spec fn selector_of_keys(keys: ShardKeySelector) -> ShardSelector {
    match keys {
        ShardKeySelector::ShardKey(k) => ShardSelector::Key(k),
        ShardKeySelector::ShardKeys(ks) => ShardSelector::Keys(ks),
    }
}

/// Resolves the shard selection of a read operation.  A read with no selector
/// targets all shards.
pub open spec fn spec_shard_selector(shard_key: Option<ShardKeySelector>) -> ShardSelector {
    match shard_key {
        None => ShardSelector::All,
        Some(keys) => selector_of_keys(keys),
    }
}

/// Resolves the shard selection of a write operation.
///
/// An explicit shard id always wins; a shard key is used only when no id is
/// given; with neither, the write goes to the default (unsharded) destination,
/// not to all shards.  Supplying both an id and a key is caller misuse: the
/// key is ignored.
pub open spec fn spec_shard_selector_for_update(
    shard_selection: Option<ShardId>,
    shard_key: Option<ShardKeySelector>,
) -> ShardSelector {
    match shard_selection {
        Some(id) => ShardSelector::ShardId(id),
        None => match shard_key {
            Some(keys) => selector_of_keys(keys),
            None => ShardSelector::Empty,
        },
    }
}

/// Converts an optional shard-key selector into the internal selection used
/// by read (search/retrieve) operations.
pub fn shard_selector(shard_key: Option<ShardKeySelector>) -> (r: ShardSelector)
    ensures
        r == spec_shard_selector(shard_key),
{
    match shard_key {
        None => ShardSelector::All,
        Some(ShardKeySelector::ShardKey(k)) => ShardSelector::Key(k),
        Some(ShardKeySelector::ShardKeys(ks)) => ShardSelector::Keys(ks),
    }
}

/// Converts the pair of write-path shard parameters into the internal
/// selection used by update operations.
///
/// The key difference from the read path is that an empty selection here
/// means the default shard, while an empty selection on the read path means
/// all shards.
pub fn get_shard_selector_for_update(
    shard_selection: Option<ShardId>,
    shard_key: Option<ShardKeySelector>,
) -> (r: ShardSelector)
    ensures
        r == spec_shard_selector_for_update(shard_selection, shard_key),
{
    match (shard_selection, shard_key) {
        (Some(id), None) => ShardSelector::ShardId(id),
        (Some(id), Some(_)) => ShardSelector::ShardId(id),
        (None, Some(ShardKeySelector::ShardKey(k))) => ShardSelector::Key(k),
        (None, Some(ShardKeySelector::ShardKeys(ks))) => ShardSelector::Keys(ks),
        (None, None) => ShardSelector::Empty,
    }
}

/// Law: on the write path a concrete shard id always takes precedence; any
/// shard-key selector supplied beside it is ignored.
pub proof fn lemma_shard_id_precedence(id: ShardId, shard_key: Option<ShardKeySelector>)
    ensures
        spec_shard_selector_for_update(Some(id), shard_key) == ShardSelector::ShardId(id),
{
}

/// Law: the empty selection is asymmetric by design.  A read with no
/// shard-key selector targets all shards; a write with neither id nor key
/// targets the default shard; and the two results are distinct.
pub proof fn lemma_empty_selector_asymmetry()
    ensures
        spec_shard_selector(None) == ShardSelector::All,
        spec_shard_selector_for_update(None, None) == ShardSelector::Empty,
        spec_shard_selector(None) != spec_shard_selector_for_update(None, None),
{
}

} // verus!
