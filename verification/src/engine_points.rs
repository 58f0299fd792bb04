//! Point storage operations of the engine model: retrieve, count, and the
//! update family (upsert, delete, vector and payload rewrites), each pinned
//! down by a relation over the engine's mathematical state.

use vstd::prelude::*;
use vstd::pervasive::VecAdditionalExecFns;

use crate::engine::{
    col_index, engine_wf, err_not_found, has_col, ids_unique, AliasDescription, ColV, Collection,
    Engine, EngineV,
};
use crate::error::EngineError;
use crate::operations::{
    CollectionUpdateOperations, CountResult, PayloadOps, PointOperations, PointVectors,
    VectorOperations,
};
use crate::shard::ShardSelector;
use crate::types::{
    clone_payload, clone_point, clone_vector, contains_id, lemma_filter_push,
    lemma_map_values_push, lemma_map_values_update, lemma_take_succ, payload_has, payload_has_key,
    payload_matches, payload_view, points_view, records_view, Filter, KvV, PointId, PointStruct,
    PointV, Record, UpdateResult, UpdateStatus, WriteOrdering,
};

verus! {

/// True iff a point with this identifier exists.
pub open spec fn has_pt(pts: Seq<PointV>, id: PointId) -> bool {
    exists|i: int| 0 <= i < pts.len() && pts[i].id == id
}

/// The index of the point with this identifier (well defined under
/// `ids_unique`).
pub open spec fn pt_index(pts: Seq<PointV>, id: PointId) -> int {
    choose|i: int| 0 <= i < pts.len() && pts[i].id == id
}

/// Upserting one point replaces the stored point with the same identifier,
/// or appends the point if its identifier is new.
pub open spec fn spec_upsert_one(pts: Seq<PointV>, p: PointV) -> Seq<PointV> {
    if has_pt(pts, p.id) {
        pts.update(pt_index(pts, p.id), p)
    } else {
        pts.push(p)
    }
}

/// Upserting a list of points applies `spec_upsert_one` left to right, so a
/// later point wins over an earlier one with the same identifier.
pub open spec fn spec_upsert(pts: Seq<PointV>, new: Seq<PointV>) -> Seq<PointV>
    decreases new.len(),
{
    if new.len() == 0 {
        pts
    } else {
        spec_upsert_one(spec_upsert(pts, new.drop_last()), new.last())
    }
}

/// Replacing one point's vector, if the point exists.
pub open spec fn spec_set_vector(pts: Seq<PointV>, id: PointId, vector: Seq<u64>) -> Seq<
    PointV,
> {
    if has_pt(pts, id) {
        pts.update(pt_index(pts, id), PointV { vector: vector, ..pts[pt_index(pts, id)] })
    } else {
        pts
    }
}

/// Replacing the vectors of a list of points, left to right; a point absent
/// from the collection is skipped.
pub open spec fn spec_update_vectors(pts: Seq<PointV>, upds: Seq<PointVectors>) -> Seq<PointV>
    decreases upds.len(),
{
    if upds.len() == 0 {
        pts
    } else {
        spec_set_vector(
            spec_update_vectors(pts, upds.drop_last()),
            upds.last().id,
            upds.last().vector@,
        )
    }
}

/// The names of a list of payload keys.
pub open spec fn keys_view(keys: Seq<String>) -> Seq<Seq<char>> {
    keys.map_values(|s: String| s@)
}

/// Setting a payload merges: entries whose key the new payload also has are
/// dropped, then the new entries are appended.
pub open spec fn spec_merge(p: Seq<KvV>, q: Seq<KvV>) -> Seq<KvV> {
    p.filter(|e: KvV| !payload_has_key(q, e.key)) + q
}

/// Deleting payload keys keeps the entries whose key is not listed.
pub open spec fn spec_delete_keys(p: Seq<KvV>, keys: Seq<Seq<char>>) -> Seq<KvV> {
    p.filter(|e: KvV| !keys.contains(e.key))
}

/// Which points a payload operation targets: the listed identifiers if any
/// are given, otherwise the filter if one is given, otherwise no point.
pub open spec fn target_sel(
    points: Option<Vec<PointId>>,
    filter: Option<Filter>,
    p: PointV,
) -> bool {
    match points {
        Some(ids) => ids@.contains(p.id),
        None => match filter {
            Some(f) => payload_has(p.payload, f.key@, f.value@),
            None => false,
        },
    }
}

/// Which points a vector delete clears: every listed point and every point
/// matching the filter — the union, in one operation.
pub open spec fn vector_delete_target(
    points: Option<Vec<PointId>>,
    filter: Option<Filter>,
    p: PointV,
) -> bool {
    ||| (match points {
        Some(ids) => ids@.contains(p.id),
        None => false,
    })
    ||| (match filter {
        Some(f) => payload_has(p.payload, f.key@, f.value@),
        None => false,
    })
}

/// Clearing the vectors a vector delete targets.
pub open spec fn spec_clear_vectors(
    pts: Seq<PointV>,
    points: Option<Vec<PointId>>,
    filter: Option<Filter>,
) -> Seq<PointV> {
    pts.map_values(
        |p: PointV| if vector_delete_target(points, filter, p) {
            PointV { vector: Seq::empty(), ..p }
        } else {
            p
        },
    )
}

/// What a payload operation does to one stored point.
pub open spec fn payload_point_xform(op: PayloadOps, p: PointV) -> PointV {
    match op {
        PayloadOps::SetPayload(s) => if target_sel(s.points, s.filter, p) {
            PointV { payload: spec_merge(p.payload, payload_view(s.payload@)), ..p }
        } else {
            p
        },
        PayloadOps::OverwritePayload(s) => if target_sel(s.points, s.filter, p) {
            PointV { payload: payload_view(s.payload@), ..p }
        } else {
            p
        },
        PayloadOps::DeletePayload(d) => if target_sel(d.points, d.filter, p) {
            PointV { payload: spec_delete_keys(p.payload, keys_view(d.keys@)), ..p }
        } else {
            p
        },
        PayloadOps::ClearPayload { points } => if points@.contains(p.id) {
            PointV { payload: Seq::empty(), ..p }
        } else {
            p
        },
        PayloadOps::ClearPayloadByFilter(f) => if payload_has(p.payload, f.key@, f.value@) {
            PointV { payload: Seq::empty(), ..p }
        } else {
            p
        },
    }
}

/// What any update operation does to a collection's points.
pub open spec fn apply_update_op(pts: Seq<PointV>, op: CollectionUpdateOperations) -> Seq<
    PointV,
> {
    match op {
        CollectionUpdateOperations::PointOperation(pop) => match pop {
            PointOperations::UpsertPoints(new) => spec_upsert(pts, points_view(new@)),
            PointOperations::DeletePoints { ids } => pts.filter(
                |p: PointV| !ids@.contains(p.id),
            ),
            PointOperations::DeletePointsByFilter(f) => pts.filter(
                |p: PointV| !payload_has(p.payload, f.key@, f.value@),
            ),
        },
        CollectionUpdateOperations::VectorOperation(vop) => match vop {
            VectorOperations::UpdateVectors(u) => spec_update_vectors(pts, u.points@),
            VectorOperations::DeleteVectors(d) => spec_clear_vectors(pts, d.points, d.filter),
        },
        CollectionUpdateOperations::PayloadOperation(pop) => pts.map_values(
            |p: PointV| payload_point_xform(pop, p),
        ),
    }
}

/// The operation counter after one accepted write.
pub open spec fn next_op(c: u64) -> u64 {
    if c == u64::MAX {
        0
    } else {
        (c + 1) as u64
    }
}

/// The engine's receipt for the write numbered `c`.
pub open spec fn receipt(c: u64) -> UpdateResult {
    UpdateResult { operation_id: c, status: UpdateStatus::Completed }
}

/// Retrieving points returns a record for every stored point whose
/// identifier is listed, in storage order, and changes nothing.
pub open spec fn retrieve_rel(
    pre: EngineV,
    name: Seq<char>,
    ids: Seq<PointId>,
    post: EngineV,
    r: Result<Vec<Record>, EngineError>,
) -> bool {
    &&& post == pre
    &&& if has_col(pre.collections, name) {
        match r {
            Ok(recs) => records_view(recs@) == pre.collections[col_index(
                pre.collections,
                name,
            )].points.filter(|p: PointV| ids.contains(p.id)),
            Err(_) => false,
        }
    } else {
        err_not_found(r, name)
    }
}

/// Counting points returns how many stored points match the filter, and
/// changes nothing.  The model engine always counts exactly, whatever the
/// `exact` flag asks.
pub open spec fn count_rel(
    pre: EngineV,
    name: Seq<char>,
    filter: Option<Filter>,
    post: EngineV,
    r: Result<CountResult, EngineError>,
) -> bool {
    &&& post == pre
    &&& if has_col(pre.collections, name) {
        match r {
            Ok(c) => c.count == pre.collections[col_index(pre.collections, name)].points.filter(
                |p: PointV| payload_matches(p.payload, match filter {
                    None => None,
                    Some(f) => Some(f@),
                }),
            ).len(),
            Err(_) => false,
        }
    } else {
        err_not_found(r, name)
    }
}

/// An update rewrites the collection's points as `apply_update_op` says,
/// bumps the operation counter, and returns the receipt for the write; a
/// missing collection is `NotFound` and changes nothing.
pub open spec fn update_rel(
    pre: EngineV,
    name: Seq<char>,
    op: CollectionUpdateOperations,
    post: EngineV,
    r: Result<UpdateResult, EngineError>,
) -> bool {
    if has_col(pre.collections, name) {
        &&& r == Ok::<UpdateResult, EngineError>(receipt(pre.op_counter))
        &&& post == (EngineV {
            collections: pre.collections.update(
                col_index(pre.collections, name),
                ColV {
                    points: apply_update_op(
                        pre.collections[col_index(pre.collections, name)].points,
                        op,
                    ),
                    ..pre.collections[col_index(pre.collections, name)]
                },
            ),
            op_counter: next_op(pre.op_counter),
            ..pre
        })
    } else {
        &&& post == pre
        &&& err_not_found(r, name)
    }
}

/// Filtering keeps point identifiers unique.
pub proof fn lemma_filter_ids_unique(pts: Seq<PointV>, pred: spec_fn(PointV) -> bool)
    requires
        ids_unique(pts),
    ensures
        ids_unique(pts.filter(pred)),
    decreases pts.len(),
{
    reveal(Seq::filter);
    if pts.len() > 0 {
        let rest = pts.drop_last();
        assert(ids_unique(rest)) by {
            assert(forall|i: int| 0 <= i < rest.len() ==> rest[i] == pts[i]);
        }
        lemma_filter_ids_unique(rest, pred);
        if pred(pts.last()) {
            let f = rest.filter(pred);
            assert forall|i: int| 0 <= i < f.len() implies f[i].id != pts.last().id by {
                Seq::lemma_filter_contains_rev(rest, pred, f[i]);
                let k = choose|k: int| 0 <= k < rest.len() && rest[k] == f[i];
                assert(pts[k] == rest[k]);
            }
        }
    }
}

/// Finds the index of the point with this identifier in a point list.
fn find_pt(pts: &Vec<PointStruct>, id: PointId) -> (r: Option<usize>)
        requires
            ids_unique(points_view(pts@)),
        ensures
            match r {
                Some(i) => {
                    &&& i < pts@.len()
                    &&& points_view(pts@)[i as int].id == id
                    &&& has_pt(points_view(pts@), id)
                    &&& pt_index(points_view(pts@), id) == i as int
                },
                None => !has_pt(points_view(pts@), id),
            },
    {
        let ghost ptsv = points_view(pts@);
        let mut i: usize = 0;
        while i < pts.len()
            invariant
                ptsv == points_view(pts@),
                ids_unique(ptsv),
                0 <= i <= pts@.len(),
                forall|j: int| 0 <= j < i ==> ptsv[j].id != id,
            decreases pts@.len() - i,
        {
            proof {
                assert(ptsv[i as int] == pts@[i as int]@);
            }
            if pts[i].id == id {
                proof {
                    let k = pt_index(ptsv, id);
                    assert(0 <= k < ptsv.len() && ptsv[k].id == id);
                    if k != i as int {
                        assert(false);
                    }
                }
                return Some(i);
            }
            i += 1;
        }
        None
}

impl Engine {
    /// Fetches the stored points whose identifiers are listed.
    pub fn retrieve(&self, name: &String, ids: &Vec<PointId>) -> (r: Result<
        Vec<Record>,
        EngineError,
    >)
        requires
            engine_wf(self@),
        ensures
            retrieve_rel(self@, name@, ids@, self@, r),
    {
        let ci = match self.find_col(name) {
            None => {
                return Err(EngineError::NotFound(name.clone()));
            },
            Some(ci) => ci,
        };
        let pts = &self.collections[ci].points;
        let ghost ptsv = self@.collections[ci as int].points;
        let ghost pred = |p: PointV| ids@.contains(p.id);
        proof {
            assert(ptsv.take(0) =~= Seq::<PointV>::empty());
        }
        let mut out: Vec<Record> = Vec::new();
        let mut i: usize = 0;
        while i < pts.len()
            invariant
                ptsv == points_view(pts@),
                pred == (|p: PointV| ids@.contains(p.id)),
                0 <= i <= pts@.len(),
                records_view(out@) =~= ptsv.take(i as int).filter(pred),
            decreases pts@.len() - i,
        {
            proof {
                lemma_take_succ(ptsv, i as int);
                lemma_filter_push(ptsv.take(i as int), pred, ptsv[i as int]);
                assert(ptsv[i as int] == pts@[i as int]@);
            }
            if contains_id(ids, pts[i].id) {
                let rec = Record {
                    id: pts[i].id,
                    vector: clone_vector(&pts[i].vector),
                    payload: clone_payload(&pts[i].payload),
                };
                let ghost grec = rec;
                let ghost out0 = out@;
                out.push(rec);
                proof {
                    lemma_map_values_push(out0, |r: Record| r@, grec);
                    assert(grec@ == ptsv[i as int]);
                    assert(records_view(out@) =~= ptsv.take(i + 1).filter(pred));
                }
            } else {
                proof {
                    assert(!pred(ptsv[i as int]));
                    assert(records_view(out@) =~= ptsv.take(i + 1).filter(pred));
                }
            }
            i += 1;
        }
        proof {
            assert(ptsv.take(ptsv.len() as int) =~= ptsv);
        }
        Ok(out)
    }

    /// Counts the stored points that match the filter.
    pub fn count(&self, name: &String, filter: &Option<Filter>, _exact: bool) -> (r: Result<
        CountResult,
        EngineError,
    >)
        requires
            engine_wf(self@),
        ensures
            count_rel(self@, name@, *filter, self@, r),
    {
        let ci = match self.find_col(name) {
            None => {
                return Err(EngineError::NotFound(name.clone()));
            },
            Some(ci) => ci,
        };
        let pts = &self.collections[ci].points;
        let ghost ptsv = self@.collections[ci as int].points;
        let ghost pred = |p: PointV| payload_matches(p.payload, match *filter {
            None => None,
            Some(f) => Some(f@),
        });
        proof {
            assert(ptsv.take(0) =~= Seq::<PointV>::empty());
        }
        let mut n: usize = 0;
        let mut i: usize = 0;
        while i < pts.len()
            invariant
                ptsv == points_view(pts@),
                pred == (|p: PointV| payload_matches(p.payload, match *filter {
                    None => None,
                    Some(f) => Some(f@),
                })),
                0 <= i <= pts@.len(),
                n <= i,
                n == ptsv.take(i as int).filter(pred).len(),
            decreases pts@.len() - i,
        {
            proof {
                lemma_take_succ(ptsv, i as int);
                lemma_filter_push(ptsv.take(i as int), pred, ptsv[i as int]);
                assert(ptsv[i as int] == pts@[i as int]@);
            }
            if payload_matches_ref(&pts[i].payload, filter) {
                proof {
                    assert(pred(ptsv[i as int]));
                }
                n += 1;
            } else {
                proof {
                    assert(!pred(ptsv[i as int]));
                }
            }
            i += 1;
        }
        proof {
            assert(ptsv.take(ptsv.len() as int) =~= ptsv);
        }
        Ok(CountResult { count: n })
    }

    /// Applies one update operation to a collection and numbers the write.
    /// The model engine has a single shard, so the shard selection, the
    /// `wait` flag and the write ordering do not change what it stores.
    pub fn update(
        &mut self,
        name: &String,
        operation: CollectionUpdateOperations,
        _wait: bool,
        _ordering: WriteOrdering,
        _shard_selector: ShardSelector,
    ) -> (r: Result<UpdateResult, EngineError>)
        requires
            engine_wf(old(self)@),
        ensures
            engine_wf(final(self)@),
            update_rel(old(self)@, name@, operation, final(self)@, r),
    {
        let ci = match self.find_col(name) {
            None => {
                return Err(EngineError::NotFound(name.clone()));
            },
            Some(ci) => ci,
        };
        let ghost pre = self@;
        let ghost gop = operation;
        let mut col = Collection {
            name: String::new(),
            config: self.collections[ci].config,
            points: Vec::new(),
        };
        self.collections.set_and_swap(ci, &mut col);
        proof {
            assert(col@ == pre.collections[ci as int]);
        }
        proof {
            assert(ids_unique(points_view(col.points@)));
        }
        match &operation {
            CollectionUpdateOperations::PointOperation(pop) => match pop {
                PointOperations::UpsertPoints(new) => {
                    upsert_points_vec(&mut col.points, new);
                    proof {
                        assert(points_view(col.points@) =~= apply_update_op(
                            pre.collections[ci as int].points,
                            gop,
                        ));
                    }
                },
                PointOperations::DeletePoints { ids } => {
                    delete_points_by_ids(&mut col.points, ids);
                    proof {
                        assert(points_view(col.points@) =~= apply_update_op(
                            pre.collections[ci as int].points,
                            gop,
                        ));
                    }
                },
                PointOperations::DeletePointsByFilter(f) => {
                    delete_points_by_filter(&mut col.points, f);
                    proof {
                        assert(points_view(col.points@) =~= apply_update_op(
                            pre.collections[ci as int].points,
                            gop,
                        ));
                    }
                },
            },
            CollectionUpdateOperations::VectorOperation(vop) => match vop {
                VectorOperations::UpdateVectors(u) => {
                    update_vectors_vec(&mut col.points, &u.points);
                    proof {
                        assert(points_view(col.points@) =~= apply_update_op(
                            pre.collections[ci as int].points,
                            gop,
                        ));
                    }
                },
                VectorOperations::DeleteVectors(d) => {
                    clear_vectors(&mut col.points, &d.points, &d.filter);
                    proof {
                        assert(points_view(col.points@) =~= apply_update_op(
                            pre.collections[ci as int].points,
                            gop,
                        ));
                    }
                },
            },
            CollectionUpdateOperations::PayloadOperation(pop) => {
                apply_payload_ops(&mut col.points, pop);
                proof {
                    assert(points_view(col.points@) =~= apply_update_op(
                        pre.collections[ci as int].points,
                        gop,
                    ));
                }
            },
        }
        let ghost colv = col@;
        self.collections.set_and_swap(ci, &mut col);
        let receipt_id = self.op_counter;
        self.op_counter = if self.op_counter == u64::MAX {
            0
        } else {
            self.op_counter + 1
        };
        proof {
            assert(self.collections@ =~= old(self).collections@.update(
                ci as int,
                self.collections@[ci as int],
            ));
            lemma_map_values_update(
                old(self).collections@,
                |c: Collection| c@,
                ci as int,
                self.collections@[ci as int],
            );
            assert(colv == (ColV {
                points: apply_update_op(pre.collections[ci as int].points, gop),
                ..pre.collections[ci as int]
            }));
            assert(self@ == (EngineV {
                collections: pre.collections.update(ci as int, colv),
                op_counter: next_op(pre.op_counter),
                ..pre
            }));
        }
        Ok(UpdateResult { operation_id: receipt_id, status: UpdateStatus::Completed })
    }
}

/// Exec check for `payload_matches` on a borrowed filter.
fn payload_matches_ref(p: &crate::types::Payload, f: &Option<Filter>) -> (r: bool)
    ensures
        r == payload_matches(payload_view(p@), match *f {
            None => None,
            Some(ff) => Some(ff@),
        }),
{
    match f {
        None => true,
        Some(ff) => crate::types::payload_has_exec(p, &ff.key, &ff.value),
    }
}

/// Upserts a list of points into a point list.
fn upsert_points_vec(pts: &mut Vec<PointStruct>, new: &Vec<PointStruct>)
    requires
        ids_unique(points_view(old(pts)@)),
    ensures
        points_view(final(pts)@) == spec_upsert(points_view(old(pts)@), points_view(new@)),
        ids_unique(points_view(final(pts)@)),
{
    let ghost origv = points_view(pts@);
    let ghost newv = points_view(new@);
    let mut k: usize = 0;
    proof {
        assert(newv.take(0) =~= Seq::<PointV>::empty());
        assert(spec_upsert(origv, newv.take(0)) == origv);
    }
    while k < new.len()
        invariant
            origv == points_view(old(pts)@),
            newv == points_view(new@),
            0 <= k <= new@.len(),
            points_view(pts@) == spec_upsert(origv, newv.take(k as int)),
            ids_unique(points_view(pts@)),
        decreases new@.len() - k,
    {
        let ghost curv = points_view(pts@);
        proof {
            lemma_take_succ(newv, k as int);
            assert(newv.take(k + 1).drop_last() =~= newv.take(k as int));
            assert(newv.take(k + 1).last() == newv[k as int]);
            assert(newv[k as int] == new@[k as int]@);
        }
        let p = clone_point(&new[k]);
        let ghost gp = p;
        match find_pt(pts, p.id) {
            Some(idx) => {
                let ghost pts0 = pts@;
                pts.set(idx, p);
                proof {
                    lemma_map_values_update(pts0, |q: PointStruct| q@, idx as int, gp);
                    assert(points_view(pts@) =~= curv.update(idx as int, gp@));
                    assert(points_view(pts@) == spec_upsert_one(curv, newv[k as int]));
                    assert forall|a: int, b: int|
                        0 <= a < b < points_view(pts@).len() implies points_view(pts@)[a].id
                        != points_view(pts@)[b].id by {
                        assert(points_view(pts@)[a] == if a == idx as int {
                            gp@
                        } else {
                            curv[a]
                        });
                        assert(points_view(pts@)[b] == if b == idx as int {
                            gp@
                        } else {
                            curv[b]
                        });
                    }
                }
            },
            None => {
                let ghost pts0 = pts@;
                pts.push(p);
                proof {
                    lemma_map_values_push(pts0, |q: PointStruct| q@, gp);
                    assert(points_view(pts@) =~= curv.push(gp@));
                    assert(points_view(pts@) == spec_upsert_one(curv, newv[k as int]));
                    assert forall|a: int, b: int|
                        0 <= a < b < points_view(pts@).len() implies points_view(pts@)[a].id
                        != points_view(pts@)[b].id by {
                        assert(points_view(pts@)[a] == if a < curv.len() as int {
                            curv[a]
                        } else {
                            gp@
                        });
                        assert(points_view(pts@)[b] == if b < curv.len() as int {
                            curv[b]
                        } else {
                            gp@
                        });
                    }
                }
            },
        }
        proof {
            assert(spec_upsert(origv, newv.take(k + 1)) == spec_upsert_one(
                spec_upsert(origv, newv.take(k as int)),
                newv[k as int],
            ));
        }
        k += 1;
    }
    proof {
        assert(newv.take(newv.len() as int) =~= newv);
    }
}

/// Removes the points whose identifiers are listed.
fn delete_points_by_ids(pts: &mut Vec<PointStruct>, ids: &Vec<PointId>)
    requires
        ids_unique(points_view(old(pts)@)),
    ensures
        points_view(final(pts)@) == points_view(old(pts)@).filter(
            |p: PointV| !ids@.contains(p.id),
        ),
        ids_unique(points_view(final(pts)@)),
{
    let ghost origv = points_view(pts@);
    let ghost pred = |p: PointV| !ids@.contains(p.id);
    let mut out: Vec<PointStruct> = Vec::new();
    let mut i: usize = 0;
    proof {
        assert(origv.take(0) =~= Seq::<PointV>::empty());
    }
    while i < pts.len()
        invariant
            origv == points_view(pts@),
            pred == (|p: PointV| !ids@.contains(p.id)),
            0 <= i <= pts@.len(),
            points_view(out@) =~= origv.take(i as int).filter(pred),
        decreases pts@.len() - i,
    {
        proof {
            lemma_take_succ(origv, i as int);
            lemma_filter_push(origv.take(i as int), pred, origv[i as int]);
            assert(origv[i as int] == pts@[i as int]@);
        }
        if !contains_id(ids, pts[i].id) {
            let p = clone_point(&pts[i]);
            let ghost gp = p;
            let ghost out0 = out@;
            out.push(p);
            proof {
                lemma_map_values_push(out0, |q: PointStruct| q@, gp);
                assert(points_view(out@) =~= origv.take(i + 1).filter(pred));
            }
        } else {
            proof {
                assert(!pred(origv[i as int]));
                assert(points_view(out@) =~= origv.take(i + 1).filter(pred));
            }
        }
        i += 1;
    }
    proof {
        assert(origv.take(origv.len() as int) =~= origv);
        lemma_filter_ids_unique(origv, pred);
    }
    *pts = out;
}

/// Removes the points that match the filter.
fn delete_points_by_filter(pts: &mut Vec<PointStruct>, f: &Filter)
    requires
        ids_unique(points_view(old(pts)@)),
    ensures
        points_view(final(pts)@) == points_view(old(pts)@).filter(
            |p: PointV| !payload_has(p.payload, f.key@, f.value@),
        ),
        ids_unique(points_view(final(pts)@)),
{
    let ghost origv = points_view(pts@);
    let ghost pred = |p: PointV| !payload_has(p.payload, f.key@, f.value@);
    let mut out: Vec<PointStruct> = Vec::new();
    let mut i: usize = 0;
    proof {
        assert(origv.take(0) =~= Seq::<PointV>::empty());
    }
    while i < pts.len()
        invariant
            origv == points_view(pts@),
            pred == (|p: PointV| !payload_has(p.payload, f.key@, f.value@)),
            0 <= i <= pts@.len(),
            points_view(out@) =~= origv.take(i as int).filter(pred),
        decreases pts@.len() - i,
    {
        proof {
            lemma_take_succ(origv, i as int);
            lemma_filter_push(origv.take(i as int), pred, origv[i as int]);
            assert(origv[i as int] == pts@[i as int]@);
        }
        if !crate::types::payload_has_exec(&pts[i].payload, &f.key, &f.value) {
            let p = clone_point(&pts[i]);
            let ghost gp = p;
            let ghost out0 = out@;
            out.push(p);
            proof {
                lemma_map_values_push(out0, |q: PointStruct| q@, gp);
                assert(points_view(out@) =~= origv.take(i + 1).filter(pred));
            }
        } else {
            proof {
                assert(!pred(origv[i as int]));
                assert(points_view(out@) =~= origv.take(i + 1).filter(pred));
            }
        }
        i += 1;
    }
    proof {
        assert(origv.take(origv.len() as int) =~= origv);
        lemma_filter_ids_unique(origv, pred);
    }
    *pts = out;
}

/// Replaces the vectors of the listed points, left to right.
fn update_vectors_vec(pts: &mut Vec<PointStruct>, upds: &Vec<PointVectors>)
    requires
        ids_unique(points_view(old(pts)@)),
    ensures
        points_view(final(pts)@) == spec_update_vectors(points_view(old(pts)@), upds@),
        ids_unique(points_view(final(pts)@)),
{
    let ghost origv = points_view(pts@);
    let mut k: usize = 0;
    proof {
        assert(upds@.take(0) =~= Seq::<PointVectors>::empty());
        assert(spec_update_vectors(origv, upds@.take(0)) == origv);
    }
    while k < upds.len()
        invariant
            origv == points_view(old(pts)@),
            0 <= k <= upds@.len(),
            points_view(pts@) == spec_update_vectors(origv, upds@.take(k as int)),
            ids_unique(points_view(pts@)),
        decreases upds@.len() - k,
    {
        let ghost curv = points_view(pts@);
        proof {
            lemma_take_succ(upds@, k as int);
            assert(upds@.take(k + 1).drop_last() =~= upds@.take(k as int));
            assert(upds@.take(k + 1).last() == upds@[k as int]);
        }
        match find_pt(pts, upds[k].id) {
            Some(idx) => {
                let np = PointStruct {
                    id: pts[idx].id,
                    vector: clone_vector(&upds[k].vector),
                    payload: clone_payload(&pts[idx].payload),
                };
                let ghost gnp = np;
                let ghost pts0 = pts@;
                pts.set(idx, np);
                proof {
                    lemma_map_values_update(pts0, |q: PointStruct| q@, idx as int, gnp);
                    assert(points_view(pts@) =~= curv.update(idx as int, gnp@));
                    assert(gnp@ == (PointV { vector: upds@[k as int].vector@, ..curv[idx as int] }));
                    assert(points_view(pts@) == spec_set_vector(
                        curv,
                        upds@[k as int].id,
                        upds@[k as int].vector@,
                    ));
                    assert forall|a: int, b: int|
                        0 <= a < b < points_view(pts@).len() implies points_view(pts@)[a].id
                        != points_view(pts@)[b].id by {
                        assert(points_view(pts@)[a] == if a == idx as int {
                            gnp@
                        } else {
                            curv[a]
                        });
                        assert(points_view(pts@)[b] == if b == idx as int {
                            gnp@
                        } else {
                            curv[b]
                        });
                    }
                }
            },
            None => {
                proof {
                    assert(points_view(pts@) == spec_set_vector(
                        curv,
                        upds@[k as int].id,
                        upds@[k as int].vector@,
                    ));
                }
            },
        }
        proof {
            assert(spec_update_vectors(origv, upds@.take(k + 1)) == spec_set_vector(
                spec_update_vectors(origv, upds@.take(k as int)),
                upds@[k as int].id,
                upds@[k as int].vector@,
            ));
        }
        k += 1;
    }
    proof {
        assert(upds@.take(upds@.len() as int) =~= upds@);
    }
}

/// True iff a vector delete targets this point.
fn is_vector_delete_target(
    p: &PointStruct,
    points: &Option<Vec<PointId>>,
    filter: &Option<Filter>,
) -> (r: bool)
    ensures
        r == vector_delete_target(*points, *filter, p@),
{
    let by_id = match points {
        Some(ids) => contains_id(ids, p.id),
        None => false,
    };
    let by_filter = match filter {
        Some(f) => crate::types::payload_has_exec(&p.payload, &f.key, &f.value),
        None => false,
    };
    by_id || by_filter
}

/// Clears the vector of every point the delete targets, in one pass.
fn clear_vectors(
    pts: &mut Vec<PointStruct>,
    points: &Option<Vec<PointId>>,
    filter: &Option<Filter>,
)
    requires
        ids_unique(points_view(old(pts)@)),
    ensures
        points_view(final(pts)@) == spec_clear_vectors(points_view(old(pts)@), *points, *filter),
        ids_unique(points_view(final(pts)@)),
{
    let ghost origv = points_view(pts@);
    let mut i: usize = 0;
    while i < pts.len()
        invariant
            0 <= i <= pts@.len(),
            pts@.len() == origv.len(),
            forall|m: int| i <= m < pts@.len() ==> points_view(pts@)[m] == origv[m],
            forall|m: int|
                0 <= m < i ==> points_view(pts@)[m] == (if vector_delete_target(
                    *points,
                    *filter,
                    origv[m],
                ) {
                    PointV { vector: Seq::empty(), ..origv[m] }
                } else {
                    origv[m]
                }),
            ids_unique(points_view(pts@)),
        decreases pts@.len() - i,
    {
        let ghost curv = points_view(pts@);
        if is_vector_delete_target(&pts[i], points, filter) {
            let np = PointStruct {
                id: pts[i].id,
                vector: Vec::new(),
                payload: clone_payload(&pts[i].payload),
            };
            let ghost gnp = np;
            let ghost pts0 = pts@;
            pts.set(i, np);
            proof {
                lemma_map_values_update(pts0, |q: PointStruct| q@, i as int, gnp);
                assert(points_view(pts@) =~= curv.update(i as int, gnp@));
                assert(gnp@ == (PointV { vector: Seq::empty(), ..origv[i as int] }));
            }
        }
        i += 1;
    }
    proof {
        assert(points_view(pts@) =~= spec_clear_vectors(origv, *points, *filter));
    }
}

/// True iff the payload holds an entry with this key.
fn has_key_exec(p: &crate::types::Payload, key: &String) -> (r: bool)
    ensures
        r == payload_has_key(payload_view(p@), key@),
{
    let mut i: usize = 0;
    while i < p.len()
        invariant
            0 <= i <= p@.len(),
            forall|j: int| 0 <= j < i ==> p@[j].key@ != key@,
        decreases p@.len() - i,
    {
        if p[i].key.eq(key) {
            proof {
                assert(payload_view(p@)[i as int] == p@[i as int]@);
            }
            return true;
        }
        i += 1;
    }
    proof {
        assert(forall|j: int| 0 <= j < p@.len() ==> payload_view(p@)[j] == p@[j]@);
    }
    false
}

/// True iff the key list holds this key.
fn contains_key_string(keys: &Vec<String>, k: &String) -> (r: bool)
    ensures
        r == keys_view(keys@).contains(k@),
{
    let mut i: usize = 0;
    while i < keys.len()
        invariant
            0 <= i <= keys@.len(),
            forall|j: int| 0 <= j < i ==> keys@[j]@ != k@,
        decreases keys@.len() - i,
    {
        if keys[i].eq(k) {
            proof {
                assert(keys_view(keys@)[i as int] == keys@[i as int]@);
            }
            return true;
        }
        i += 1;
    }
    proof {
        assert(forall|j: int| 0 <= j < keys@.len() ==> keys_view(keys@)[j] == keys@[j]@);
    }
    false
}

/// Merges a new payload into an old one: old entries whose key the new
/// payload also uses are dropped, then the new entries are appended.
fn merge_payload(old_p: &crate::types::Payload, new_p: &crate::types::Payload) -> (r:
    crate::types::Payload)
    ensures
        payload_view(r@) == spec_merge(payload_view(old_p@), payload_view(new_p@)),
{
    let ghost oldv = payload_view(old_p@);
    let ghost newv = payload_view(new_p@);
    let ghost pred = |e: KvV| !payload_has_key(newv, e.key);
    let mut out: crate::types::Payload = Vec::new();
    let mut i: usize = 0;
    proof {
        assert(oldv.take(0) =~= Seq::<KvV>::empty());
    }
    while i < old_p.len()
        invariant
            oldv == payload_view(old_p@),
            newv == payload_view(new_p@),
            pred == (|e: KvV| !payload_has_key(newv, e.key)),
            0 <= i <= old_p@.len(),
            payload_view(out@) =~= oldv.take(i as int).filter(pred),
        decreases old_p@.len() - i,
    {
        proof {
            lemma_take_succ(oldv, i as int);
            lemma_filter_push(oldv.take(i as int), pred, oldv[i as int]);
            assert(oldv[i as int] == old_p@[i as int]@);
        }
        if !has_key_exec(new_p, &old_p[i].key) {
            let e = crate::types::PayloadEntry {
                key: old_p[i].key.clone(),
                value: old_p[i].value.clone(),
            };
            let ghost ge = e;
            let ghost out0 = out@;
            out.push(e);
            proof {
                lemma_map_values_push(out0, |q: crate::types::PayloadEntry| q@, ge);
                assert(payload_view(out@) =~= oldv.take(i + 1).filter(pred));
            }
        } else {
            proof {
                assert(!pred(oldv[i as int]));
                assert(payload_view(out@) =~= oldv.take(i + 1).filter(pred));
            }
        }
        i += 1;
    }
    proof {
        assert(oldv.take(oldv.len() as int) =~= oldv);
    }
    let mut tail = clone_payload(new_p);
    let ghost outpre = out@;
    let ghost tailpre = tail@;
    out.append(&mut tail);
    proof {
        assert(out@ == outpre + tailpre);
        assert(payload_view(out@) =~= payload_view(outpre) + payload_view(tailpre)) by {
            assert(forall|j: int|
                0 <= j < out@.len() ==> payload_view(out@)[j] == out@[j]@);
        }
        assert(payload_view(out@) =~= oldv.filter(pred) + newv);
    }
    out
}

/// Keeps the payload entries whose key is not listed.
fn delete_keys_payload(p: &crate::types::Payload, keys: &Vec<String>) -> (r:
    crate::types::Payload)
    ensures
        payload_view(r@) == spec_delete_keys(payload_view(p@), keys_view(keys@)),
{
    let ghost pv = payload_view(p@);
    let ghost kv = keys_view(keys@);
    let ghost pred = |e: KvV| !kv.contains(e.key);
    let mut out: crate::types::Payload = Vec::new();
    let mut i: usize = 0;
    proof {
        assert(pv.take(0) =~= Seq::<KvV>::empty());
    }
    while i < p.len()
        invariant
            pv == payload_view(p@),
            kv == keys_view(keys@),
            pred == (|e: KvV| !kv.contains(e.key)),
            0 <= i <= p@.len(),
            payload_view(out@) =~= pv.take(i as int).filter(pred),
        decreases p@.len() - i,
    {
        proof {
            lemma_take_succ(pv, i as int);
            lemma_filter_push(pv.take(i as int), pred, pv[i as int]);
            assert(pv[i as int] == p@[i as int]@);
        }
        if !contains_key_string(keys, &p[i].key) {
            let e = crate::types::PayloadEntry {
                key: p[i].key.clone(),
                value: p[i].value.clone(),
            };
            let ghost ge = e;
            let ghost out0 = out@;
            out.push(e);
            proof {
                lemma_map_values_push(out0, |q: crate::types::PayloadEntry| q@, ge);
                assert(payload_view(out@) =~= pv.take(i + 1).filter(pred));
            }
        } else {
            proof {
                assert(!pred(pv[i as int]));
                assert(payload_view(out@) =~= pv.take(i + 1).filter(pred));
            }
        }
        i += 1;
    }
    proof {
        assert(pv.take(pv.len() as int) =~= pv);
    }
    out
}

/// True iff a payload operation targets this point.
fn is_target(p: &PointStruct, points: &Option<Vec<PointId>>, filter: &Option<Filter>) -> (r:
    bool)
    ensures
        r == target_sel(*points, *filter, p@),
{
    match points {
        Some(ids) => contains_id(ids, p.id),
        None => match filter {
            Some(f) => crate::types::payload_has_exec(&p.payload, &f.key, &f.value),
            None => false,
        },
    }
}

/// Applies one payload operation to every point it targets.
fn apply_payload_ops(pts: &mut Vec<PointStruct>, op: &PayloadOps)
    requires
        ids_unique(points_view(old(pts)@)),
    ensures
        points_view(final(pts)@) == points_view(old(pts)@).map_values(
            |p: PointV| payload_point_xform(*op, p),
        ),
        ids_unique(points_view(final(pts)@)),
{
    let ghost origv = points_view(pts@);
    let ghost f = |p: PointV| payload_point_xform(*op, p);
    let mut i: usize = 0;
    while i < pts.len()
        invariant
            0 <= i <= pts@.len(),
            pts@.len() == origv.len(),
            f == (|p: PointV| payload_point_xform(*op, p)),
            forall|m: int| i <= m < pts@.len() ==> points_view(pts@)[m] == origv[m],
            forall|m: int| 0 <= m < i ==> points_view(pts@)[m] == f(origv[m]),
            ids_unique(points_view(pts@)),
        decreases pts@.len() - i,
    {
        let ghost curv = points_view(pts@);
        let newp: Option<PointStruct> = match op {
            PayloadOps::SetPayload(s) => {
                if is_target(&pts[i], &s.points, &s.filter) {
                    Some(
                        PointStruct {
                            id: pts[i].id,
                            vector: clone_vector(&pts[i].vector),
                            payload: merge_payload(&pts[i].payload, &s.payload),
                        },
                    )
                } else {
                    None
                }
            },
            PayloadOps::OverwritePayload(s) => {
                if is_target(&pts[i], &s.points, &s.filter) {
                    Some(
                        PointStruct {
                            id: pts[i].id,
                            vector: clone_vector(&pts[i].vector),
                            payload: clone_payload(&s.payload),
                        },
                    )
                } else {
                    None
                }
            },
            PayloadOps::DeletePayload(d) => {
                if is_target(&pts[i], &d.points, &d.filter) {
                    Some(
                        PointStruct {
                            id: pts[i].id,
                            vector: clone_vector(&pts[i].vector),
                            payload: delete_keys_payload(&pts[i].payload, &d.keys),
                        },
                    )
                } else {
                    None
                }
            },
            PayloadOps::ClearPayload { points } => {
                if contains_id(points, pts[i].id) {
                    Some(
                        PointStruct {
                            id: pts[i].id,
                            vector: clone_vector(&pts[i].vector),
                            payload: Vec::new(),
                        },
                    )
                } else {
                    None
                }
            },
            PayloadOps::ClearPayloadByFilter(ff) => {
                if crate::types::payload_has_exec(&pts[i].payload, &ff.key, &ff.value) {
                    Some(
                        PointStruct {
                            id: pts[i].id,
                            vector: clone_vector(&pts[i].vector),
                            payload: Vec::new(),
                        },
                    )
                } else {
                    None
                }
            },
        };
        match newp {
            Some(np) => {
                let ghost gnp = np;
                let ghost pts0 = pts@;
                pts.set(i, np);
                proof {
                    lemma_map_values_update(pts0, |q: PointStruct| q@, i as int, gnp);
                    assert(points_view(pts@) =~= curv.update(i as int, gnp@));
                    assert(gnp@ == f(origv[i as int]));
                }
            },
            None => {
                proof {
                    assert(curv[i as int] == f(origv[i as int]));
                }
            },
        }
        i += 1;
    }
    proof {
        assert(points_view(pts@) =~= origv.map_values(f));
    }
}

} // verus!
