//! Query operations of the engine model: search, recommendation and
//! grouped variants.  The model does not rank, so hits keep storage order
//! and carry score zero; everything else — filters, exclusions, limits,
//! grouping — is exact.

use vstd::prelude::*;
use vstd::pervasive::VecAdditionalExecFns;

use crate::engine::{col_index, engine_wf, err_not_found, has_col, Engine, EngineV};
use crate::error::EngineError;
use crate::operations::{
    GroupsResult, PointGroup, RecommendRequestInternal, SearchRequestInternal,
};
use crate::types::{
    clone_payload, contains_id, filter_view, hit_of, lemma_filter_push, lemma_map_values_push,
    lemma_map_values_update, lemma_take_succ, payload_get, payload_get_exec, payload_matches,
    payload_matches_exec, payload_view, scored_view, Filter, KvV, PointId, PointV, ScoredPoint,
    ScoredV,
};

verus! {

/// The first `n` elements, or the whole sequence if it is shorter.
pub open spec fn take_at_most<A>(s: Seq<A>, n: int) -> Seq<A> {
    if n <= s.len() {
        s.take(n)
    } else {
        s
    }
}

/// What a recommendation returns: the stored points that match the filter
/// and are not themselves examples, in storage order, cut to the limit,
/// each as a hit with score zero.
pub open spec fn spec_recommend(
    pts: Seq<PointV>,
    positive: Seq<PointId>,
    negative: Seq<PointId>,
    filter: Option<KvV>,
    limit: int,
) -> Seq<ScoredV> {
    take_at_most(
        pts.filter(
            |p: PointV| payload_matches(p.payload, filter) && !positive.contains(p.id)
                && !negative.contains(p.id),
        ),
        limit,
    ).map_values(|p: PointV| hit_of(p))
}

/// What a search returns: a recommendation with nothing excluded.
pub open spec fn spec_search(pts: Seq<PointV>, filter: Option<KvV>, limit: int) -> Seq<
    ScoredV,
> {
    spec_recommend(pts, Seq::empty(), Seq::empty(), filter, limit)
}

/// Searching reports the collection's matching points, cut to the limit, and
/// changes nothing.  The model engine does not rank, so the hits keep their
/// storage order and carry score zero.
pub open spec fn search_rel(
    pre: EngineV,
    name: Seq<char>,
    req: SearchRequestInternal,
    post: EngineV,
    r: Result<Vec<ScoredPoint>, EngineError>,
) -> bool {
    &&& post == pre
    &&& if has_col(pre.collections, name) {
        match r {
            Ok(hits) => scored_view(hits@) == spec_search(
                pre.collections[col_index(pre.collections, name)].points,
                filter_view(req.filter),
                req.limit as int,
            ),
            Err(_) => false,
        }
    } else {
        err_not_found(r, name)
    }
}

/// Law: a search against a missing collection resolves with the engine's
/// own not-found error, carrying that collection's name, passed through
/// unchanged — never reinterpreted — and leaves the engine untouched.  Any
/// number of such searches therefore fail alike, and the engine keeps
/// serving.
pub proof fn lemma_search_missing_collection(
    pre: EngineV,
    name: Seq<char>,
    req: SearchRequestInternal,
    post: EngineV,
    r: Result<Vec<ScoredPoint>, EngineError>,
)
    requires
        !has_col(pre.collections, name),
        search_rel(pre, name, req, post, r),
    ensures
        post == pre,
        err_not_found(r, name),
{
}

/// A batch of searches resolves each search as `search_rel` says, in order,
/// and changes nothing.
pub open spec fn search_batch_rel(
    pre: EngineV,
    name: Seq<char>,
    reqs: Seq<SearchRequestInternal>,
    post: EngineV,
    r: Result<Vec<Vec<ScoredPoint>>, EngineError>,
) -> bool {
    &&& post == pre
    &&& if has_col(pre.collections, name) {
        match r {
            Ok(rs) => {
                &&& rs@.len() == reqs.len()
                &&& forall|i: int|
                    0 <= i < reqs.len() ==> scored_view(rs@[i]@) == spec_search(
                        pre.collections[col_index(pre.collections, name)].points,
                        filter_view(reqs[i].filter),
                        reqs[i].limit as int,
                    )
            },
            Err(_) => false,
        }
    } else {
        err_not_found(r, name)
    }
}

/// Recommending reports matching points that are not themselves examples,
/// cut to the limit; it needs at least one positive example.
pub open spec fn recommend_rel(
    pre: EngineV,
    name: Seq<char>,
    req: RecommendRequestInternal,
    post: EngineV,
    r: Result<Vec<ScoredPoint>, EngineError>,
) -> bool {
    &&& post == pre
    &&& if !has_col(pre.collections, name) {
        err_not_found(r, name)
    } else if req.positive@.len() == 0 {
        crate::engine::err_bad_request(r, "No positive examples provided"@)
    } else {
        match r {
            Ok(hits) => scored_view(hits@) == spec_recommend(
                pre.collections[col_index(pre.collections, name)].points,
                req.positive@,
                req.negative@,
                filter_view(req.filter),
                req.limit as int,
            ),
            Err(_) => false,
        }
    }
}

/// A batch of recommendations resolves each one as `recommend_rel` says.
pub open spec fn recommend_batch_rel(
    pre: EngineV,
    name: Seq<char>,
    reqs: Seq<RecommendRequestInternal>,
    post: EngineV,
    r: Result<Vec<Vec<ScoredPoint>>, EngineError>,
) -> bool {
    &&& post == pre
    &&& if !has_col(pre.collections, name) {
        err_not_found(r, name)
    } else if exists|i: int| 0 <= i < reqs.len() && reqs[i].positive@.len() == 0 {
        crate::engine::err_bad_request(r, "No positive examples provided"@)
    } else {
        match r {
            Ok(rs) => {
                &&& rs@.len() == reqs.len()
                &&& forall|i: int|
                    0 <= i < reqs.len() ==> scored_view(rs@[i]@) == spec_recommend(
                        pre.collections[col_index(pre.collections, name)].points,
                        reqs[i].positive@,
                        reqs[i].negative@,
                        filter_view(reqs[i].filter),
                        reqs[i].limit as int,
                    )
            },
            Err(_) => false,
        }
    }
}

/// Mathematical value of one group of hits.
#[verifier::ext_equal]
pub ghost struct GroupV {
    pub id: Seq<char>,
    pub hits: Seq<ScoredV>,
}

impl View for PointGroup {
    type V = GroupV;

    open spec fn view(&self) -> GroupV {
        GroupV { id: self.id@, hits: scored_view(self.hits@) }
    }
}

/// Mathematical value of a list of groups.
pub open spec fn groups_view(v: Seq<PointGroup>) -> Seq<GroupV> {
    v.map_values(|g: PointGroup| g@)
}

/// True iff a group with this identifier exists.
pub open spec fn has_group(gs: Seq<GroupV>, id: Seq<char>) -> bool {
    exists|i: int| 0 <= i < gs.len() && gs[i].id == id
}

/// The index of the group with this identifier (well defined when group
/// identifiers are unique).
pub open spec fn group_index(gs: Seq<GroupV>, id: Seq<char>) -> int {
    choose|i: int| 0 <= i < gs.len() && gs[i].id == id
}

/// Group identifiers are unique.
pub open spec fn group_ids_unique(gs: Seq<GroupV>) -> bool {
    forall|i: int, j: int| 0 <= i < j < gs.len() ==> gs[i].id != gs[j].id
}

/// Sorting one point into the groups: a point without the key is dropped; a
/// point whose value already has a group joins it; any other point opens a
/// new group.
pub open spec fn add_to_groups(gs: Seq<GroupV>, p: PointV, key: Seq<char>) -> Seq<GroupV> {
    match payload_get(p.payload, key) {
        None => gs,
        Some(v) => if has_group(gs, v) {
            gs.update(
                group_index(gs, v),
                GroupV { hits: gs[group_index(gs, v)].hits.push(hit_of(p)), ..gs[group_index(gs, v)] },
            )
        } else {
            gs.push(GroupV { id: v, hits: seq![hit_of(p)] })
        },
    }
}

/// The groups of the points that match the filter and are not excluded, in
/// first-occurrence order, before any cut.
pub open spec fn spec_groups(
    pts: Seq<PointV>,
    filter: Option<KvV>,
    exclude: Seq<PointId>,
    key: Seq<char>,
) -> Seq<GroupV>
    decreases pts.len(),
{
    if pts.len() == 0 {
        Seq::empty()
    } else {
        let rest = spec_groups(pts.drop_last(), filter, exclude, key);
        if payload_matches(pts.last().payload, filter) && !exclude.contains(pts.last().id) {
            add_to_groups(rest, pts.last(), key)
        } else {
            rest
        }
    }
}

/// The cut the caller asked for: at most `limit` groups, each with at most
/// `group_size` hits.
pub open spec fn cap_groups(gs: Seq<GroupV>, limit: int, group_size: int) -> Seq<GroupV> {
    take_at_most(gs, limit).map_values(
        |g: GroupV| GroupV { hits: take_at_most(g.hits, group_size), ..g },
    )
}

/// A grouped query reports the matching points grouped by the value they
/// carry under the key, groups in first-occurrence order, hits in storage
/// order, cut to `limit` groups of at most `group_size` hits each; it
/// changes nothing.
pub open spec fn groups_rel(
    pre: EngineV,
    name: Seq<char>,
    filter: Option<KvV>,
    exclude: Seq<PointId>,
    key: Seq<char>,
    group_size: int,
    limit: int,
    post: EngineV,
    r: Result<GroupsResult, EngineError>,
) -> bool {
    &&& post == pre
    &&& if has_col(pre.collections, name) {
        match r {
            Ok(res) => groups_view(res.groups@) == cap_groups(
                spec_groups(
                    pre.collections[col_index(pre.collections, name)].points,
                    filter,
                    exclude,
                    key,
                ),
                limit,
                group_size,
            ),
            Err(_) => false,
        }
    } else {
        err_not_found(r, name)
    }
}

/// Finds the index of the group with this identifier.
fn find_group(gs: &Vec<PointGroup>, id: &String) -> (r: Option<usize>)
    requires
        group_ids_unique(groups_view(gs@)),
    ensures
        match r {
            Some(i) => {
                &&& i < gs@.len()
                &&& groups_view(gs@)[i as int].id == id@
                &&& has_group(groups_view(gs@), id@)
                &&& group_index(groups_view(gs@), id@) == i as int
            },
            None => !has_group(groups_view(gs@), id@),
        },
{
    let ghost gv = groups_view(gs@);
    let mut i: usize = 0;
    while i < gs.len()
        invariant
            gv == groups_view(gs@),
            group_ids_unique(gv),
            0 <= i <= gs@.len(),
            forall|j: int| 0 <= j < i ==> gv[j].id != id@,
        decreases gs@.len() - i,
    {
        proof {
            assert(gv[i as int] == gs@[i as int]@);
        }
        if gs[i].id.eq(id) {
            proof {
                let k = group_index(gv, id@);
                assert(0 <= k < gv.len() && gv[k].id == id@);
                if k != i as int {
                    assert(false);
                }
            }
            return Some(i);
        }
        i += 1;
    }
    None
}

/// Builds the uncut groups of the matching, non-excluded points.
fn build_groups(
    pts: &Vec<crate::types::PointStruct>,
    filter: &Option<Filter>,
    exclude: &Vec<PointId>,
    key: &String,
) -> (r: Vec<PointGroup>)
    ensures
        groups_view(r@) == spec_groups(
            crate::types::points_view(pts@),
            filter_view(*filter),
            exclude@,
            key@,
        ),
        group_ids_unique(groups_view(r@)),
{
    let ghost ptsv = crate::types::points_view(pts@);
    let ghost fv = filter_view(*filter);
    let mut gs: Vec<PointGroup> = Vec::new();
    let mut i: usize = 0;
    proof {
        assert(ptsv.take(0) =~= Seq::<PointV>::empty());
        assert(groups_view(gs@) =~= Seq::<GroupV>::empty());
    }
    while i < pts.len()
        invariant
            ptsv == crate::types::points_view(pts@),
            fv == filter_view(*filter),
            0 <= i <= pts@.len(),
            groups_view(gs@) == spec_groups(ptsv.take(i as int), fv, exclude@, key@),
            group_ids_unique(groups_view(gs@)),
        decreases pts@.len() - i,
    {
        let ghost gv0 = groups_view(gs@);
        proof {
            lemma_take_succ(ptsv, i as int);
            assert(ptsv.take(i + 1).drop_last() =~= ptsv.take(i as int));
            assert(ptsv.take(i + 1).last() == ptsv[i as int]);
            assert(ptsv[i as int] == pts@[i as int]@);
        }
        if payload_matches_exec(&pts[i].payload, filter) && !contains_id(exclude, pts[i].id) {
            match payload_get_exec(&pts[i].payload, key) {
                None => {
                    proof {
                        assert(add_to_groups(gv0, ptsv[i as int], key@) == gv0);
                    }
                },
                Some(v) => {
                    match find_group(&gs, &v) {
                        Some(gi) => {
                            let ghost gs_before = gs@;
                            let mut g = PointGroup { id: String::new(), hits: Vec::new() };
                            gs.set_and_swap(gi, &mut g);
                            let ghost g0 = g@;
                            let hit = ScoredPoint {
                                id: pts[i].id,
                                score: 0,
                                payload: clone_payload(&pts[i].payload),
                            };
                            let ghost ghit = hit;
                            let ghost hits0 = g.hits@;
                            g.hits.push(hit);
                            proof {
                                lemma_map_values_push(hits0, |s: ScoredPoint| s@, ghit);
                                assert(ghit@ == hit_of(ptsv[i as int]));
                                assert(g0 == gv0[gi as int]);
                                assert(g@ == (GroupV {
                                    hits: g0.hits.push(hit_of(ptsv[i as int])),
                                    ..g0
                                }));
                            }
                            let ghost gexec = g;
                            gs.set_and_swap(gi, &mut g);
                            proof {
                                assert(gs@ =~= gs_before.update(gi as int, gexec));
                                lemma_map_values_update(
                                    gs_before,
                                    |x: PointGroup| x@,
                                    gi as int,
                                    gexec,
                                );
                                assert(groups_view(gs@) =~= gv0.update(gi as int, gexec@));
                                assert(groups_view(gs@) == add_to_groups(
                                    gv0,
                                    ptsv[i as int],
                                    key@,
                                ));
                                assert forall|a: int, b: int|
                                    0 <= a < b < groups_view(gs@).len() implies groups_view(
                                    gs@,
                                )[a].id != groups_view(gs@)[b].id by {
                                    assert(groups_view(gs@)[a] == if a == gi as int {
                                        gexec@
                                    } else {
                                        gv0[a]
                                    });
                                    assert(groups_view(gs@)[b] == if b == gi as int {
                                        gexec@
                                    } else {
                                        gv0[b]
                                    });
                                }
                            }
                        },
                        None => {
                            let hit = ScoredPoint {
                                id: pts[i].id,
                                score: 0,
                                payload: clone_payload(&pts[i].payload),
                            };
                            let g = PointGroup { id: v, hits: vec![hit] };
                            let ghost gg = g;
                            let ghost gs0 = gs@;
                            gs.push(g);
                            proof {
                                lemma_map_values_push(gs0, |x: PointGroup| x@, gg);
                                assert(gg@.hits =~= seq![hit_of(ptsv[i as int])]);
                                assert(gg@ =~= (GroupV {
                                    id: gg@.id,
                                    hits: seq![hit_of(ptsv[i as int])],
                                }));
                                assert(groups_view(gs@) =~= gv0.push(gg@));
                                assert(groups_view(gs@) == add_to_groups(
                                    gv0,
                                    ptsv[i as int],
                                    key@,
                                ));
                                assert forall|a: int, b: int|
                                    0 <= a < b < groups_view(gs@).len() implies groups_view(
                                    gs@,
                                )[a].id != groups_view(gs@)[b].id by {
                                    assert(groups_view(gs@)[a] == if a < gv0.len() as int {
                                        gv0[a]
                                    } else {
                                        gg@
                                    });
                                    assert(groups_view(gs@)[b] == if b < gv0.len() as int {
                                        gv0[b]
                                    } else {
                                        gg@
                                    });
                                }
                            }
                        },
                    }
                },
            }
        }
        proof {
            assert(groups_view(gs@) == spec_groups(ptsv.take(i + 1), fv, exclude@, key@));
            assert(group_ids_unique(groups_view(gs@)));
        }
        i += 1;
    }
    proof {
        assert(ptsv.take(ptsv.len() as int) =~= ptsv);
    }
    gs
}

/// Collects the hits of one search or recommendation: matching,
/// non-excluded points in storage order, cut to the limit.
fn collect_hits(
    pts: &Vec<crate::types::PointStruct>,
    filter: &Option<Filter>,
    positive: &Vec<PointId>,
    negative: &Vec<PointId>,
    limit: usize,
) -> (r: Vec<ScoredPoint>)
    ensures
        scored_view(r@) == spec_recommend(
            crate::types::points_view(pts@),
            positive@,
            negative@,
            filter_view(*filter),
            limit as int,
        ),
{
    let ghost ptsv = crate::types::points_view(pts@);
    let ghost fv = filter_view(*filter);
    let ghost pred = |p: PointV| payload_matches(p.payload, fv) && !positive@.contains(p.id)
        && !negative@.contains(p.id);
    let ghost hcl = |p: PointV| hit_of(p);
    let mut out: Vec<ScoredPoint> = Vec::new();
    let mut i: usize = 0;
    proof {
        assert(ptsv.take(0) =~= Seq::<PointV>::empty());
        assert(scored_view(out@) =~= take_at_most(
            ptsv.take(0).filter(pred),
            limit as int,
        ).map_values(hcl));
    }
    while i < pts.len()
        invariant
            ptsv == crate::types::points_view(pts@),
            fv == filter_view(*filter),
            pred == (|p: PointV| payload_matches(p.payload, fv) && !positive@.contains(p.id)
                && !negative@.contains(p.id)),
            hcl == (|p: PointV| hit_of(p)),
            0 <= i <= pts@.len(),
            out@.len() <= limit,
            out@.len() == take_at_most(ptsv.take(i as int).filter(pred), limit as int).len(),
            scored_view(out@) =~= take_at_most(
                ptsv.take(i as int).filter(pred),
                limit as int,
            ).map_values(hcl),
        decreases pts@.len() - i,
    {
        let ghost fs = ptsv.take(i as int).filter(pred);
        proof {
            lemma_take_succ(ptsv, i as int);
            lemma_filter_push(ptsv.take(i as int), pred, ptsv[i as int]);
            assert(ptsv[i as int] == pts@[i as int]@);
        }
        let keep = payload_matches_exec(&pts[i].payload, filter) && !contains_id(
            positive,
            pts[i].id,
        ) && !contains_id(negative, pts[i].id);
        if keep && out.len() < limit {
            let hit = ScoredPoint {
                id: pts[i].id,
                score: 0,
                payload: clone_payload(&pts[i].payload),
            };
            let ghost ghit = hit;
            let ghost out0 = out@;
            out.push(hit);
            proof {
                assert(pred(ptsv[i as int]));
                assert(fs.len() < limit as int);
                assert(take_at_most(fs, limit as int) =~= fs);
                let fs2 = ptsv.take(i + 1).filter(pred);
                assert(fs2 == fs.push(ptsv[i as int]));
                assert(take_at_most(fs2, limit as int) =~= fs2);
                lemma_map_values_push(fs, hcl, ptsv[i as int]);
                lemma_map_values_push(out0, |s: ScoredPoint| s@, ghit);
                assert(ghit@ == hit_of(ptsv[i as int]));
                assert(scored_view(out@) =~= take_at_most(fs2, limit as int).map_values(hcl));
            }
        } else if keep {
            proof {
                assert(pred(ptsv[i as int]));
                assert(out@.len() == limit);
                assert(fs.len() >= limit as int);
                let fs2 = ptsv.take(i + 1).filter(pred);
                assert(fs2 == fs.push(ptsv[i as int]));
                assert(fs2.take(limit as int) =~= fs.take(limit as int));
                assert(take_at_most(fs2, limit as int) =~= take_at_most(fs, limit as int));
                assert(scored_view(out@) =~= take_at_most(fs2, limit as int).map_values(hcl));
            }
        } else {
            proof {
                assert(!pred(ptsv[i as int]));
                assert(ptsv.take(i + 1).filter(pred) == fs);
            }
        }
        i += 1;
    }
    proof {
        assert(ptsv.take(ptsv.len() as int) =~= ptsv);
    }
    out
}

impl Engine {
    /// Resolves a batch of searches against one collection, in order.
    pub fn core_search_batch(
        &self,
        name: &String,
        requests: &Vec<SearchRequestInternal>,
    ) -> (r: Result<Vec<Vec<ScoredPoint>>, EngineError>)
        requires
            engine_wf(self@),
        ensures
            search_batch_rel(self@, name@, requests@, self@, r),
    {
        let ci = match self.find_col(name) {
            None => {
                return Err(EngineError::NotFound(name.clone()));
            },
            Some(ci) => ci,
        };
        let none_ids: Vec<PointId> = Vec::new();
        proof {
            assert(none_ids@ =~= Seq::<PointId>::empty());
        }
        let mut out: Vec<Vec<ScoredPoint>> = Vec::new();
        let mut k: usize = 0;
        while k < requests.len()
            invariant
                engine_wf(self@),
                ci < self.collections@.len(),
                col_index(self@.collections, name@) == ci as int,
                has_col(self@.collections, name@),
                none_ids@ == Seq::<PointId>::empty(),
                0 <= k <= requests@.len(),
                out@.len() == k,
                forall|j: int|
                    0 <= j < k ==> scored_view(out@[j]@) == spec_search(
                        self@.collections[ci as int].points,
                        filter_view(requests@[j].filter),
                        requests@[j].limit as int,
                    ),
            decreases requests@.len() - k,
        {
            let hits = collect_hits(
                &self.collections[ci].points,
                &requests[k].filter,
                &none_ids,
                &none_ids,
                requests[k].limit,
            );
            out.push(hits);
            k += 1;
        }
        Ok(out)
    }

    /// Resolves one recommendation against a collection.
    pub fn recommend(&self, name: &String, request: &RecommendRequestInternal) -> (r: Result<
        Vec<ScoredPoint>,
        EngineError,
    >)
        requires
            engine_wf(self@),
        ensures
            recommend_rel(self@, name@, *request, self@, r),
    {
        let ci = match self.find_col(name) {
            None => {
                return Err(EngineError::NotFound(name.clone()));
            },
            Some(ci) => ci,
        };
        if request.positive.len() == 0 {
            return Err(EngineError::BadRequest("No positive examples provided".to_owned()));
        }
        Ok(
            collect_hits(
                &self.collections[ci].points,
                &request.filter,
                &request.positive,
                &request.negative,
                request.limit,
            ),
        )
    }

    /// Resolves a batch of recommendations against one collection, in
    /// order; every one of them needs a positive example.
    pub fn recommend_batch(
        &self,
        name: &String,
        requests: &Vec<RecommendRequestInternal>,
    ) -> (r: Result<Vec<Vec<ScoredPoint>>, EngineError>)
        requires
            engine_wf(self@),
        ensures
            recommend_batch_rel(self@, name@, requests@, self@, r),
    {
        let ci = match self.find_col(name) {
            None => {
                return Err(EngineError::NotFound(name.clone()));
            },
            Some(ci) => ci,
        };
        let mut k: usize = 0;
        while k < requests.len()
            invariant
                has_col(self@.collections, name@),
                0 <= k <= requests@.len(),
                forall|j: int| 0 <= j < k ==> requests@[j].positive@.len() != 0,
            decreases requests@.len() - k,
        {
            if requests[k].positive.len() == 0 {
                proof {
                    assert(requests@[k as int].positive@.len() == 0);
                    assert(exists|i: int|
                        0 <= i < requests@.len() && requests@[i].positive@.len() == 0);
                }
                return Err(EngineError::BadRequest("No positive examples provided".to_owned()));
            }
            k += 1;
        }
        let mut out: Vec<Vec<ScoredPoint>> = Vec::new();
        let mut k: usize = 0;
        while k < requests.len()
            invariant
                engine_wf(self@),
                ci < self.collections@.len(),
                col_index(self@.collections, name@) == ci as int,
                has_col(self@.collections, name@),
                0 <= k <= requests@.len(),
                out@.len() == k,
                forall|j: int|
                    0 <= j < k ==> scored_view(out@[j]@) == spec_recommend(
                        self@.collections[ci as int].points,
                        requests@[j].positive@,
                        requests@[j].negative@,
                        filter_view(requests@[j].filter),
                        requests@[j].limit as int,
                    ),
            decreases requests@.len() - k,
        {
            let hits = collect_hits(
                &self.collections[ci].points,
                &requests[k].filter,
                &requests[k].positive,
                &requests[k].negative,
                requests[k].limit,
            );
            out.push(hits);
            k += 1;
        }
        Ok(out)
    }

    /// Resolves a grouped query: matching, non-excluded points grouped by
    /// the value they carry under `key`, cut to `limit` groups of at most
    /// `group_size` hits each.
    pub fn group_by(
        &self,
        name: &String,
        filter: &Option<Filter>,
        exclude: &Vec<PointId>,
        key: &String,
        group_size: usize,
        limit: usize,
    ) -> (r: Result<GroupsResult, EngineError>)
        requires
            engine_wf(self@),
        ensures
            groups_rel(
                self@,
                name@,
                filter_view(*filter),
                exclude@,
                key@,
                group_size as int,
                limit as int,
                self@,
                r,
            ),
    {
        let ci = match self.find_col(name) {
            None => {
                return Err(EngineError::NotFound(name.clone()));
            },
            Some(ci) => ci,
        };
        let mut gs = build_groups(&self.collections[ci].points, filter, exclude, key);
        let ghost full = groups_view(gs@);
        gs.truncate(limit);
        proof {
            assert(groups_view(gs@) =~= take_at_most(full, limit as int));
        }
        let ghost cut = groups_view(gs@);
        let ghost capped = |g: GroupV| GroupV { hits: take_at_most(g.hits, group_size as int), ..g };
        let mut j: usize = 0;
        while j < gs.len()
            invariant
                cut.len() == gs@.len(),
                capped == (|g: GroupV| GroupV {
                    hits: take_at_most(g.hits, group_size as int),
                    ..g
                }),
                0 <= j <= gs@.len(),
                forall|m: int| j <= m < gs@.len() ==> groups_view(gs@)[m] == cut[m],
                forall|m: int| 0 <= m < j ==> groups_view(gs@)[m] == capped(cut[m]),
            decreases gs@.len() - j,
        {
            let ghost gs_before = gs@;
            let mut g = PointGroup { id: String::new(), hits: Vec::new() };
            gs.set_and_swap(j, &mut g);
            let ghost g0 = g@;
            let ghost hits0 = g.hits@;
            g.hits.truncate(group_size);
            proof {
                if group_size <= hits0.len() {
                    assert(g.hits@ =~= hits0.take(group_size as int));
                    assert(scored_view(g.hits@) =~= take_at_most(
                        scored_view(hits0),
                        group_size as int,
                    ));
                } else {
                    assert(scored_view(g.hits@) =~= take_at_most(
                        scored_view(hits0),
                        group_size as int,
                    ));
                }
                assert(g@ == capped(g0));
            }
            let ghost gexec = g;
            gs.set_and_swap(j, &mut g);
            proof {
                assert(gs@ =~= gs_before.update(j as int, gexec));
                lemma_map_values_update(gs_before, |x: PointGroup| x@, j as int, gexec);
                assert(g0 == cut[j as int]);
            }
            j += 1;
        }
        proof {
            assert(groups_view(gs@) =~= cut.map_values(capped));
            assert(groups_view(gs@) =~= cap_groups(full, limit as int, group_size as int));
        }
        Ok(GroupsResult { groups: gs })
    }
}

} // verus!
