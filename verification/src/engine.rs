//! The engine model: collections and aliases as plain state, with one
//! relation per operation stating exactly what it returns and changes.

use vstd::prelude::*;
use vstd::pervasive::VecAdditionalExecFns;

use crate::error::EngineError;
use crate::types::{
    lemma_filter_push, lemma_map_values_push, lemma_map_values_remove, lemma_map_values_update,
    lemma_take_succ,
    ColName, CollectionInfo, CreateCollection, PointStruct, PointV, UpdateCollection,
    VectorsConfig,
};

verus! {

/// One collection as the model engine stores it.
#[derive(Debug)]
pub struct Collection {
    pub name: ColName,
    pub config: VectorsConfig,
    pub points: Vec<PointStruct>,
}

/// Mathematical value of a collection.
#[verifier::ext_equal]
pub ghost struct ColV {
    pub name: Seq<char>,
    pub config: VectorsConfig,
    pub points: Seq<PointV>,
}

impl View for Collection {
    type V = ColV;

    open spec fn view(&self) -> ColV {
        ColV {
            name: self.name@,
            config: self.config,
            points: self.points@.map_values(|p: PointStruct| p@),
        }
    }
}

/// One alias entry: an alternative name for a collection.
#[derive(Clone, Debug, PartialEq, Eq)]
pub struct AliasDescription {
    pub alias_name: String,
    pub collection_name: ColName,
}

/// Mathematical value of an alias entry.
#[verifier::ext_equal]
pub ghost struct AliasV {
    pub alias_name: Seq<char>,
    pub collection_name: Seq<char>,
}

impl View for AliasDescription {
    type V = AliasV;

    open spec fn view(&self) -> AliasV {
        AliasV { alias_name: self.alias_name@, collection_name: self.collection_name@ }
    }
}

/// The engine's answer to an alias listing.
#[derive(Clone, Debug, PartialEq, Eq)]
pub struct CollectionsAliasesResponse {
    pub aliases: Vec<AliasDescription>,
}

/// Mathematical value of a list of alias entries.
pub open spec fn aliases_view(v: Seq<AliasDescription>) -> Seq<AliasV> {
    v.map_values(|a: AliasDescription| a@)
}

/// In-memory model of the storage engine behind the actor layer.
///
/// The real engine is an external collaborator; this model is the layer's
/// reference semantics for it, precise enough to dispatch against and to act
/// as a test double.  It holds collections of points and a global alias
/// table, and numbers every accepted write.
#[derive(Debug)]
pub struct Engine {
    pub collections: Vec<Collection>,
    pub aliases: Vec<AliasDescription>,
    pub op_counter: u64,
}

/// Mathematical value of the whole engine state.
#[verifier::ext_equal]
pub ghost struct EngineV {
    pub collections: Seq<ColV>,
    pub aliases: Seq<AliasV>,
    pub op_counter: u64,
}

impl View for Engine {
    type V = EngineV;

    open spec fn view(&self) -> EngineV {
        EngineV {
            collections: self.collections@.map_values(|c: Collection| c@),
            aliases: aliases_view(self.aliases@),
            op_counter: self.op_counter,
        }
    }
}

/// True iff a collection with this name exists.
pub open spec fn has_col(cols: Seq<ColV>, name: Seq<char>) -> bool {
    exists|i: int| 0 <= i < cols.len() && cols[i].name == name
}

/// The index of the collection with this name (well defined under `engine_wf`).
pub open spec fn col_index(cols: Seq<ColV>, name: Seq<char>) -> int {
    choose|i: int| 0 <= i < cols.len() && cols[i].name == name
}

/// True iff an alias with this name exists.
pub open spec fn has_alias(als: Seq<AliasV>, alias_name: Seq<char>) -> bool {
    exists|i: int| 0 <= i < als.len() && als[i].alias_name == alias_name
}

/// The index of the alias with this name (well defined under `engine_wf`).
pub open spec fn alias_index(als: Seq<AliasV>, alias_name: Seq<char>) -> int {
    choose|i: int| 0 <= i < als.len() && als[i].alias_name == alias_name
}

/// Point identifiers within one collection are unique.
pub open spec fn ids_unique(pts: Seq<PointV>) -> bool {
    forall|i: int, j: int| 0 <= i < j < pts.len() ==> pts[i].id != pts[j].id
}

/// The engine's invariant: collection names are unique, alias names are
/// unique, and every collection's point identifiers are unique.
pub open spec fn engine_wf(e: EngineV) -> bool {
    &&& forall|i: int, j: int|
        0 <= i < j < e.collections.len() ==> e.collections[i].name != e.collections[j].name
    &&& forall|i: int, j: int|
        0 <= i < j < e.aliases.len() ==> e.aliases[i].alias_name != e.aliases[j].alias_name
    &&& forall|i: int| 0 <= i < e.collections.len() ==> ids_unique(#[trigger] e.collections[i].points)
}

/// The result is this engine error, `NotFound`, carrying this name.
pub open spec fn err_not_found<T>(r: Result<T, EngineError>, name: Seq<char>) -> bool {
    match r {
        Err(EngineError::NotFound(s)) => s@ == name,
        _ => false,
    }
}

/// The result is this engine error, `BadInput`, carrying this description.
pub open spec fn err_bad_input<T>(r: Result<T, EngineError>, what: Seq<char>) -> bool {
    match r {
        Err(EngineError::BadInput(s)) => s@ == what,
        _ => false,
    }
}

/// The result is this engine error, `BadRequest`, carrying this description.
pub open spec fn err_bad_request<T>(r: Result<T, EngineError>, what: Seq<char>) -> bool {
    match r {
        Err(EngineError::BadRequest(s)) => s@ == what,
        _ => false,
    }
}

// What each collection operation does to the engine, stated as a relation
// between the state before, the state after, and the result.  These
// relations are the reference the dispatcher and the client are verified
// against.

/// Listing collections returns every collection's name, in storage order,
/// and changes nothing.
pub open spec fn list_collections_rel(pre: EngineV, post: EngineV, r: Vec<String>) -> bool {
    &&& post == pre
    &&& r@.len() == pre.collections.len()
    &&& forall|i: int| 0 <= i < r@.len() ==> r@[i]@ == pre.collections[i].name
}

/// Getting a collection reports its configuration and point count, or
/// `NotFound`, and changes nothing.
pub open spec fn get_collection_rel(
    pre: EngineV,
    name: Seq<char>,
    post: EngineV,
    r: Result<CollectionInfo, EngineError>,
) -> bool {
    &&& post == pre
    &&& if has_col(pre.collections, name) {
        r == Ok::<CollectionInfo, EngineError>(
            CollectionInfo {
                config: pre.collections[col_index(pre.collections, name)].config,
                points_count: pre.collections[col_index(pre.collections, name)].points.len() as usize,
            },
        )
    } else {
        err_not_found(r, name)
    }
}

/// Creating a collection appends an empty collection under the given name;
/// a name already in use is refused as bad input.
pub open spec fn create_collection_rel(
    pre: EngineV,
    name: Seq<char>,
    op: CreateCollection,
    post: EngineV,
    r: Result<bool, EngineError>,
) -> bool {
    if has_col(pre.collections, name) {
        &&& post == pre
        &&& err_bad_input(r, name)
    } else {
        &&& r == Ok::<bool, EngineError>(true)
        &&& post == (EngineV {
            collections: pre.collections.push(
                ColV { name: name, config: op.vectors, points: Seq::empty() },
            ),
            ..pre
        })
    }
}

/// Updating a collection replaces its configuration where a new one is
/// given, or leaves it as it is; a missing collection is `NotFound`.
pub open spec fn update_collection_rel(
    pre: EngineV,
    name: Seq<char>,
    op: UpdateCollection,
    post: EngineV,
    r: Result<bool, EngineError>,
) -> bool {
    if has_col(pre.collections, name) {
        &&& r == Ok::<bool, EngineError>(true)
        &&& post == (EngineV {
            collections: pre.collections.update(
                col_index(pre.collections, name),
                ColV {
                    config: match op.vectors {
                        Some(v) => v,
                        None => pre.collections[col_index(pre.collections, name)].config,
                    },
                    ..pre.collections[col_index(pre.collections, name)]
                },
            ),
            ..pre
        })
    } else {
        &&& post == pre
        &&& err_not_found(r, name)
    }
}

/// Deleting a collection removes it and reports `true`; deleting a missing
/// collection reports `false` and is not an error.
pub open spec fn delete_collection_rel(
    pre: EngineV,
    name: Seq<char>,
    post: EngineV,
    r: Result<bool, EngineError>,
) -> bool {
    if has_col(pre.collections, name) {
        &&& r == Ok::<bool, EngineError>(true)
        &&& post == (EngineV {
            collections: pre.collections.remove(col_index(pre.collections, name)),
            ..pre
        })
    } else {
        &&& post == pre
        &&& r == Ok::<bool, EngineError>(false)
    }
}

/// Listing aliases returns the whole alias table, in storage order, and
/// changes nothing.
pub open spec fn list_aliases_rel(
    pre: EngineV,
    post: EngineV,
    r: CollectionsAliasesResponse,
) -> bool {
    &&& post == pre
    &&& aliases_view(r.aliases@) == pre.aliases
}

/// Listing one collection's aliases returns the table entries that point at
/// it, in storage order; a missing collection is `NotFound`.
pub open spec fn collection_aliases_rel(
    pre: EngineV,
    name: Seq<char>,
    post: EngineV,
    r: Result<CollectionsAliasesResponse, EngineError>,
) -> bool {
    &&& post == pre
    &&& if has_col(pre.collections, name) {
        match r {
            Ok(resp) => aliases_view(resp.aliases@) == pre.aliases.filter(
                |a: AliasV| a.collection_name == name,
            ),
            Err(_) => false,
        }
    } else {
        err_not_found(r, name)
    }
}

/// Creating an alias appends it to the table; the collection must exist and
/// the alias name must be free.
pub open spec fn create_alias_rel(
    pre: EngineV,
    collection_name: Seq<char>,
    alias_name: Seq<char>,
    post: EngineV,
    r: Result<bool, EngineError>,
) -> bool {
    if !has_col(pre.collections, collection_name) {
        &&& post == pre
        &&& err_not_found(r, collection_name)
    } else if has_alias(pre.aliases, alias_name) {
        &&& post == pre
        &&& err_bad_input(r, alias_name)
    } else {
        &&& r == Ok::<bool, EngineError>(true)
        &&& post == (EngineV {
            aliases: pre.aliases.push(
                AliasV { alias_name: alias_name, collection_name: collection_name },
            ),
            ..pre
        })
    }
}

/// Deleting an alias removes its table entry; a missing alias is `NotFound`.
pub open spec fn delete_alias_rel(
    pre: EngineV,
    alias_name: Seq<char>,
    post: EngineV,
    r: Result<bool, EngineError>,
) -> bool {
    if has_alias(pre.aliases, alias_name) {
        &&& r == Ok::<bool, EngineError>(true)
        &&& post == (EngineV {
            aliases: pre.aliases.remove(alias_index(pre.aliases, alias_name)),
            ..pre
        })
    } else {
        &&& post == pre
        &&& err_not_found(r, alias_name)
    }
}

/// Renaming an alias rewrites its name in place; the old name must exist and
/// the new name must be free (renaming to a taken name, its own included, is
/// bad input).
pub open spec fn rename_alias_rel(
    pre: EngineV,
    old_alias_name: Seq<char>,
    new_alias_name: Seq<char>,
    post: EngineV,
    r: Result<bool, EngineError>,
) -> bool {
    if !has_alias(pre.aliases, old_alias_name) {
        &&& post == pre
        &&& err_not_found(r, old_alias_name)
    } else if has_alias(pre.aliases, new_alias_name) {
        &&& post == pre
        &&& err_bad_input(r, new_alias_name)
    } else {
        &&& r == Ok::<bool, EngineError>(true)
        &&& post == (EngineV {
            aliases: pre.aliases.update(
                alias_index(pre.aliases, old_alias_name),
                AliasV {
                    alias_name: new_alias_name,
                    ..pre.aliases[alias_index(pre.aliases, old_alias_name)]
                },
            ),
            ..pre
        })
    }
}

impl Engine {
    /// A fresh engine: no collections, no aliases, counter at zero.
    pub fn new() -> (r: Engine)
        ensures
            r@.collections == Seq::<ColV>::empty(),
            r@.aliases == Seq::<AliasV>::empty(),
            r@.op_counter == 0,
            engine_wf(r@),
    {
        let e = Engine { collections: Vec::new(), aliases: Vec::new(), op_counter: 0 };
        proof {
            assert(e@.collections =~= Seq::<ColV>::empty());
            assert(e@.aliases =~= Seq::<AliasV>::empty());
        }
        e
    }

    /// Finds the index of the collection with this name.
    pub(crate) fn find_col(&self, name: &String) -> (r: Option<usize>)
        requires
            engine_wf(self@),
        ensures
            match r {
                Some(i) => {
                    &&& i < self.collections@.len()
                    &&& self@.collections[i as int].name == name@
                    &&& has_col(self@.collections, name@)
                    &&& col_index(self@.collections, name@) == i as int
                },
                None => !has_col(self@.collections, name@),
            },
    {
        let mut i: usize = 0;
        while i < self.collections.len()
            invariant
                engine_wf(self@),
                0 <= i <= self.collections@.len(),
                forall|j: int| 0 <= j < i ==> self@.collections[j].name != name@,
            decreases self.collections@.len() - i,
        {
            if self.collections[i].name.eq(name) {
                proof {
                    assert(self@.collections[i as int].name == name@);
                    let k = col_index(self@.collections, name@);
                    assert(0 <= k < self@.collections.len() && self@.collections[k].name
                        == name@);
                    if k != i as int {
                        assert(false);
                    }
                }
                return Some(i);
            }
            i += 1;
        }
        None
    }

    /// Finds the index of the alias with this name.
    fn find_alias(&self, alias_name: &String) -> (r: Option<usize>)
        requires
            engine_wf(self@),
        ensures
            match r {
                Some(i) => {
                    &&& i < self.aliases@.len()
                    &&& self@.aliases[i as int].alias_name == alias_name@
                    &&& has_alias(self@.aliases, alias_name@)
                    &&& alias_index(self@.aliases, alias_name@) == i as int
                },
                None => !has_alias(self@.aliases, alias_name@),
            },
    {
        let mut i: usize = 0;
        while i < self.aliases.len()
            invariant
                engine_wf(self@),
                0 <= i <= self.aliases@.len(),
                forall|j: int| 0 <= j < i ==> self@.aliases[j].alias_name != alias_name@,
            decreases self.aliases@.len() - i,
        {
            if self.aliases[i].alias_name.eq(alias_name) {
                proof {
                    assert(self@.aliases[i as int].alias_name == alias_name@);
                    let k = alias_index(self@.aliases, alias_name@);
                    assert(0 <= k < self@.aliases.len() && self@.aliases[k].alias_name
                        == alias_name@);
                    if k != i as int {
                        assert(false);
                    }
                }
                return Some(i);
            }
            i += 1;
        }
        None
    }

    /// Lists every collection's name.
    pub fn all_collections(&self) -> (r: Vec<String>)
        requires
            engine_wf(self@),
        ensures
            list_collections_rel(self@, self@, r),
    {
        let mut out: Vec<String> = Vec::new();
        let mut i: usize = 0;
        while i < self.collections.len()
            invariant
                0 <= i <= self.collections@.len(),
                out@.len() == i,
                forall|j: int| 0 <= j < i ==> out@[j]@ == self@.collections[j].name,
            decreases self.collections@.len() - i,
        {
            out.push(self.collections[i].name.clone());
            i += 1;
        }
        out
    }

    /// Reports a collection's configuration and point count.
    pub fn get_collection_info(&self, name: &String) -> (r: Result<CollectionInfo, EngineError>)
        requires
            engine_wf(self@),
        ensures
            get_collection_rel(self@, name@, self@, r),
    {
        match self.find_col(name) {
            Some(i) => Ok(
                CollectionInfo {
                    config: self.collections[i].config,
                    points_count: self.collections[i].points.len(),
                },
            ),
            None => Err(EngineError::NotFound(name.clone())),
        }
    }

    /// Creates an empty collection under this name.
    pub fn create_collection(&mut self, name: ColName, op: CreateCollection) -> (r: Result<
        bool,
        EngineError,
    >)
        requires
            engine_wf(old(self)@),
        ensures
            engine_wf(final(self)@),
            create_collection_rel(old(self)@, name@, op, final(self)@, r),
    {
        match self.find_col(&name) {
            Some(_) => Err(EngineError::BadInput(name)),
            None => {
                let ghost pre = self@;
                let col = Collection { name, config: op.vectors, points: Vec::new() };
                let ghost colv = col@;
                self.collections.push(col);
                proof {
                    lemma_map_values_push(
                        old(self).collections@,
                        |c: Collection| c@,
                        self.collections@.last(),
                    );
                    assert(colv.points =~= Seq::<PointV>::empty());
                    assert(self@.collections =~= pre.collections.push(colv));
                    assert(self@ == (EngineV { collections: pre.collections.push(colv), ..pre }));
                }
                Ok(true)
            },
        }
    }

    /// Replaces a collection's configuration where a new one is given.
    pub fn update_collection(&mut self, name: &String, op: UpdateCollection) -> (r: Result<
        bool,
        EngineError,
    >)
        requires
            engine_wf(old(self)@),
        ensures
            engine_wf(final(self)@),
            update_collection_rel(old(self)@, name@, op, final(self)@, r),
    {
        match self.find_col(name) {
            None => Err(EngineError::NotFound(name.clone())),
            Some(i) => {
                let ghost pre = self@;
                match op.vectors {
                    None => {
                        proof {
                            assert(pre.collections[i as int] == (ColV {
                                config: pre.collections[i as int].config,
                                ..pre.collections[i as int]
                            }));
                            assert(pre.collections =~= pre.collections.update(
                                i as int,
                                pre.collections[i as int],
                            ));
                            assert(update_collection_rel(pre, name@, op, self@, Ok(true)));
                        }
                    },
                    Some(v) => {
                        let mut col = Collection {
                            name: String::new(),
                            config: v,
                            points: Vec::new(),
                        };
                        self.collections.set_and_swap(i, &mut col);
                        col.config = v;
                        let ghost colv = col@;
                        self.collections.set_and_swap(i, &mut col);
                        proof {
                            assert(self.collections@ =~= old(self).collections@.update(
                                i as int,
                                self.collections@[i as int],
                            ));
                            assert(self@.collections =~= pre.collections.update(i as int, colv));
                            assert(colv == (ColV {
                                config: v,
                                ..pre.collections[i as int]
                            }));
                        }
                    },
                }
                Ok(true)
            },
        }
    }

    /// Removes a collection; removing a missing one reports `false`.
    pub fn delete_collection(&mut self, name: &String) -> (r: Result<bool, EngineError>)
        requires
            engine_wf(old(self)@),
        ensures
            engine_wf(final(self)@),
            delete_collection_rel(old(self)@, name@, final(self)@, r),
    {
        match self.find_col(name) {
            None => Ok(false),
            Some(i) => {
                let ghost pre = self@;
                self.collections.remove(i);
                proof {
                    lemma_map_values_remove(old(self).collections@, |c: Collection| c@, i as int);
                    assert(self@.collections =~= pre.collections.remove(i as int));
                    assert(self@ == (EngineV {
                        collections: pre.collections.remove(i as int),
                        ..pre
                    }));
                    pre.collections.remove_ensures(i as int);
                    let post = self@.collections;
                    assert forall|a: int, b: int|
                        0 <= a < b < post.len() implies post[a].name != post[b].name by {
                        assert(post[a] == if a < i as int {
                            pre.collections[a]
                        } else {
                            pre.collections[a + 1]
                        });
                        assert(post[b] == if b < i as int {
                            pre.collections[b]
                        } else {
                            pre.collections[b + 1]
                        });
                    };
                    assert forall|a: int| 0 <= a < post.len() implies ids_unique(
                        #[trigger] post[a].points,
                    ) by {
                        assert(post[a] == if a < i as int {
                            pre.collections[a]
                        } else {
                            pre.collections[a + 1]
                        });
                    };
                }
                Ok(true)
            },
        }
    }

    /// Lists the whole alias table.
    pub fn list_aliases(&self) -> (r: CollectionsAliasesResponse)
        requires
            engine_wf(self@),
        ensures
            list_aliases_rel(self@, self@, r),
    {
        let mut out: Vec<AliasDescription> = Vec::new();
        let mut i: usize = 0;
        while i < self.aliases.len()
            invariant
                0 <= i <= self.aliases@.len(),
                aliases_view(out@) =~= self@.aliases.take(i as int),
            decreases self.aliases@.len() - i,
        {
            let a = AliasDescription {
                alias_name: self.aliases[i].alias_name.clone(),
                collection_name: self.aliases[i].collection_name.clone(),
            };
            let ghost ga = a;
            let ghost out0 = out@;
            out.push(a);
            proof {
                lemma_map_values_push(out0, |a: AliasDescription| a@, ga);
                lemma_take_succ(self@.aliases, i as int);
                assert(self@.aliases[i as int] == self.aliases@[i as int]@);
                assert(aliases_view(out@) =~= self@.aliases.take(i + 1));
            }
            i += 1;
        }
        proof {
            assert(self@.aliases.take(self@.aliases.len() as int) =~= self@.aliases);
        }
        CollectionsAliasesResponse { aliases: out }
    }

    /// Lists the aliases of one collection.
    pub fn collection_aliases(&self, name: &String) -> (r: Result<
        CollectionsAliasesResponse,
        EngineError,
    >)
        requires
            engine_wf(self@),
        ensures
            collection_aliases_rel(self@, name@, self@, r),
    {
        if self.find_col(name).is_none() {
            return Err(EngineError::NotFound(name.clone()));
        }
        let ghost pred = |a: AliasV| a.collection_name == name@;
        let mut out: Vec<AliasDescription> = Vec::new();
        let mut i: usize = 0;
        proof {
            assert(self@.aliases.take(0) =~= Seq::<AliasV>::empty());
        }
        while i < self.aliases.len()
            invariant
                0 <= i <= self.aliases@.len(),
                pred == (|a: AliasV| a.collection_name == name@),
                aliases_view(out@) =~= self@.aliases.take(i as int).filter(pred),
            decreases self.aliases@.len() - i,
        {
            proof {
                lemma_take_succ(self@.aliases, i as int);
                lemma_filter_push(self@.aliases.take(i as int), pred, self@.aliases[i as int]);
                assert(self@.aliases[i as int] == self.aliases@[i as int]@);
            }
            if self.aliases[i].collection_name.eq(name) {
                let a = AliasDescription {
                    alias_name: self.aliases[i].alias_name.clone(),
                    collection_name: self.aliases[i].collection_name.clone(),
                };
                let ghost ga = a;
                let ghost out0 = out@;
                out.push(a);
                proof {
                    lemma_map_values_push(out0, |a: AliasDescription| a@, ga);
                    assert(pred(self@.aliases[i as int]));
                    assert(aliases_view(out@) =~= self@.aliases.take(i + 1).filter(pred));
                }
            } else {
                proof {
                    assert(!pred(self@.aliases[i as int]));
                    assert(aliases_view(out@) =~= self@.aliases.take(i + 1).filter(pred));
                }
            }
            i += 1;
        }
        proof {
            assert(self@.aliases.take(self@.aliases.len() as int) =~= self@.aliases);
        }
        Ok(CollectionsAliasesResponse { aliases: out })
    }

    /// Adds an alias for a collection.
    pub fn create_alias(&mut self, collection_name: &String, alias_name: String) -> (r: Result<
        bool,
        EngineError,
    >)
        requires
            engine_wf(old(self)@),
        ensures
            engine_wf(final(self)@),
            create_alias_rel(old(self)@, collection_name@, alias_name@, final(self)@, r),
    {
        if self.find_col(collection_name).is_none() {
            return Err(EngineError::NotFound(collection_name.clone()));
        }
        if self.find_alias(&alias_name).is_some() {
            return Err(EngineError::BadInput(alias_name));
        }
        let ghost pre = self@;
        let a = AliasDescription { alias_name, collection_name: collection_name.clone() };
        let ghost ga = a;
        self.aliases.push(a);
        proof {
            lemma_map_values_push(old(self).aliases@, |a: AliasDescription| a@, ga);
            assert(self@.aliases =~= pre.aliases.push(ga@));
            assert(self@ == (EngineV { aliases: pre.aliases.push(ga@), ..pre }));
        }
        Ok(true)
    }

    /// Removes an alias.
    pub fn delete_alias(&mut self, alias_name: &String) -> (r: Result<bool, EngineError>)
        requires
            engine_wf(old(self)@),
        ensures
            engine_wf(final(self)@),
            delete_alias_rel(old(self)@, alias_name@, final(self)@, r),
    {
        match self.find_alias(alias_name) {
            None => Err(EngineError::NotFound(alias_name.clone())),
            Some(i) => {
                let ghost pre = self@;
                self.aliases.remove(i);
                proof {
                    lemma_map_values_remove(old(self).aliases@, |a: AliasDescription| a@, i as int);
                    assert(self@.aliases =~= pre.aliases.remove(i as int));
                    assert(self@ == (EngineV { aliases: pre.aliases.remove(i as int), ..pre }));
                    pre.aliases.remove_ensures(i as int);
                    let post = self@.aliases;
                    assert forall|a: int, b: int|
                        0 <= a < b < post.len() implies post[a].alias_name
                        != post[b].alias_name by {
                        assert(post[a] == if a < i as int {
                            pre.aliases[a]
                        } else {
                            pre.aliases[a + 1]
                        });
                        assert(post[b] == if b < i as int {
                            pre.aliases[b]
                        } else {
                            pre.aliases[b + 1]
                        });
                    };
                }
                Ok(true)
            },
        }
    }

    /// Renames an alias.
    pub fn rename_alias(&mut self, old_alias_name: &String, new_alias_name: String) -> (r: Result<
        bool,
        EngineError,
    >)
        requires
            engine_wf(old(self)@),
        ensures
            engine_wf(final(self)@),
            rename_alias_rel(old(self)@, old_alias_name@, new_alias_name@, final(self)@, r),
    {
        let i = match self.find_alias(old_alias_name) {
            None => {
                return Err(EngineError::NotFound(old_alias_name.clone()));
            },
            Some(i) => i,
        };
        if self.find_alias(&new_alias_name).is_some() {
            return Err(EngineError::BadInput(new_alias_name));
        }
        let ghost pre = self@;
        let ghost newname = new_alias_name@;
        let coll = self.aliases[i].collection_name.clone();
        let a = AliasDescription { alias_name: new_alias_name, collection_name: coll };
        let ghost ga = a;
        self.aliases.set(i, a);
        proof {
            lemma_map_values_update(old(self).aliases@, |a: AliasDescription| a@, i as int, ga);
            assert(ga@ == (AliasV { alias_name: newname, ..pre.aliases[i as int] }));
            assert(self@.aliases =~= pre.aliases.update(
                i as int,
                AliasV { alias_name: newname, ..pre.aliases[i as int] },
            ));
        }
        Ok(true)
    }
}

} // verus!
