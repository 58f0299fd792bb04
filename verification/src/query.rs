//! The query family of the dispatcher: request and response shapes, the
//! read-path shard resolution, and the unwrapping of batches and groups.

use vstd::prelude::*;

use crate::engine::{engine_wf, err_bad_request, Engine, EngineV};
use crate::engine_query::{
    groups_rel, recommend_batch_rel, recommend_rel, search_batch_rel, search_rel,
};
use crate::error::EngineError;
use crate::operations::{
    GroupsResult, RecommendGroupsRequest, RecommendRequest, RecommendRequestBatch,
    RecommendRequestInternal, SearchGroupsRequest, SearchRequest, SearchRequestBatch,
    SearchRequestInternal,
};
use crate::shard::shard_selector;
use crate::types::{filter_view, ColName, PointId, ScoredPoint};

verus! {

/// A query-family request, one variant per engine operation.
#[derive(Debug, PartialEq, Eq)]
pub enum QueryRequest {
    /// search for vectors
    Search((ColName, SearchRequest)),
    /// search for vectors in batch
    SearchBatch((ColName, SearchRequestBatch)),
    /// search for groups
    SearchGroup((ColName, SearchGroupsRequest)),
    /// recommend points
    Recommend((ColName, RecommendRequest)),
    /// recommend points in batch
    RecommendBatch((ColName, RecommendRequestBatch)),
    /// recommend for groups
    RecommendGroup((ColName, RecommendGroupsRequest)),
}

/// A query-family response, mirroring `QueryRequest` one to one.
#[derive(Debug, PartialEq, Eq)]
pub enum QueryResponse {
    /// search result
    Search(Vec<ScoredPoint>),
    /// search result in batch
    SearchBatch(Vec<Vec<ScoredPoint>>),
    /// search group result
    SearchGroup(GroupsResult),
    /// recommend result
    Recommend(Vec<ScoredPoint>),
    /// recommend result in batch
    RecommendBatch(Vec<Vec<ScoredPoint>>),
    /// recommend group result
    RecommendGroup(GroupsResult),
}

/// The searches of a batch, with their shard keys stripped.
pub open spec fn batch_internals(searches: Seq<SearchRequest>) -> Seq<SearchRequestInternal> {
    searches.map_values(|s: SearchRequest| s.search_request)
}

/// The recommendations of a batch, with their shard keys stripped.
pub open spec fn recommend_internals(searches: Seq<RecommendRequest>) -> Seq<
    RecommendRequestInternal,
> {
    searches.map_values(|s: RecommendRequest| s.recommend_request)
}

/// What dispatching a query-family request does: each query resolves its
/// shard key on the read path (no selector targets all shards), becomes
/// exactly one engine operation, and its result is wrapped in the response
/// variant of the same name.
pub open spec fn query_handle_rel(
    pre: EngineV,
    req: QueryRequest,
    post: EngineV,
    r: Result<QueryResponse, EngineError>,
) -> bool {
    match req {
        QueryRequest::Search((name, request)) => match r {
            Ok(resp) => resp is Search && search_rel(
                pre,
                name@,
                request.search_request,
                post,
                Ok(resp->Search_0),
            ),
            Err(e) => search_rel(pre, name@, request.search_request, post, Err(e)),
        },
        QueryRequest::SearchBatch((name, request)) => match r {
            Ok(resp) => resp is SearchBatch && search_batch_rel(
                pre,
                name@,
                batch_internals(request.searches@),
                post,
                Ok(resp->SearchBatch_0),
            ),
            Err(e) => search_batch_rel(pre, name@, batch_internals(request.searches@), post, Err(e)),
        },
        QueryRequest::SearchGroup((name, request)) => match r {
            Ok(resp) => resp is SearchGroup && groups_rel(
                pre,
                name@,
                filter_view(request.search_group_request.filter),
                Seq::empty(),
                request.search_group_request.group_by@,
                request.search_group_request.group_size as int,
                request.search_group_request.limit as int,
                post,
                Ok(resp->SearchGroup_0),
            ),
            Err(e) => groups_rel(
                pre,
                name@,
                filter_view(request.search_group_request.filter),
                Seq::empty(),
                request.search_group_request.group_by@,
                request.search_group_request.group_size as int,
                request.search_group_request.limit as int,
                post,
                Err(e),
            ),
        },
        QueryRequest::Recommend((name, request)) => match r {
            Ok(resp) => resp is Recommend && recommend_rel(
                pre,
                name@,
                request.recommend_request,
                post,
                Ok(resp->Recommend_0),
            ),
            Err(e) => recommend_rel(pre, name@, request.recommend_request, post, Err(e)),
        },
        QueryRequest::RecommendBatch((name, request)) => match r {
            Ok(resp) => resp is RecommendBatch && recommend_batch_rel(
                pre,
                name@,
                recommend_internals(request.searches@),
                post,
                Ok(resp->RecommendBatch_0),
            ),
            Err(e) => recommend_batch_rel(
                pre,
                name@,
                recommend_internals(request.searches@),
                post,
                Err(e),
            ),
        },
        QueryRequest::RecommendGroup((name, request)) => {
            let g = request.recommend_group_request;
            if g.positive@.len() == 0 {
                post == pre && err_bad_request(r_to_unit(r), "No positive examples provided"@)
            } else {
                match r {
                    Ok(resp) => resp is RecommendGroup && groups_rel(
                        pre,
                        name@,
                        filter_view(g.filter),
                        g.positive@ + g.negative@,
                        g.group_by@,
                        g.group_size as int,
                        g.limit as int,
                        post,
                        Ok(resp->RecommendGroup_0),
                    ),
                    Err(e) => groups_rel(
                        pre,
                        name@,
                        filter_view(g.filter),
                        g.positive@ + g.negative@,
                        g.group_by@,
                        g.group_size as int,
                        g.limit as int,
                        post,
                        Err(e),
                    ),
                }
            }
        },
    }
}

/// Forgets a result's value, keeping its error; lets an error shape be
/// stated once for results of different value types.
pub open spec fn r_to_unit<T>(r: Result<T, EngineError>) -> Result<(), EngineError> {
    match r {
        Ok(_) => Ok(()),
        Err(e) => Err(e),
    }
}

impl QueryRequest {
    /// Routes one query-family request to its engine operation.
    pub fn handle(self, engine: &mut Engine) -> (r: Result<QueryResponse, EngineError>)
        requires
            engine_wf(old(engine)@),
        ensures
            engine_wf(final(engine)@),
            query_handle_rel(old(engine)@, self, final(engine)@, r),
    {
        match self {
            QueryRequest::Search((collection_name, request)) => {
                let SearchRequest { search_request, shard_key } = request;
                let _shard_selection = shard_selector(shard_key);
                let res = do_core_search_points(engine, &collection_name, search_request)?;
                Ok(QueryResponse::Search(res))
            },
            QueryRequest::SearchBatch((collection_name, request)) => {
                let ghost orig = request.searches@;
                let mut searches = request.searches;
                let mut requests: Vec<SearchRequestInternal> = Vec::new();
                proof {
                    assert(orig.skip(0) =~= orig);
                    assert(batch_internals(orig.take(0)) =~= Seq::<SearchRequestInternal>::empty());
                }
                while searches.len() > 0
                    invariant
                        requests@.len() + searches@.len() == orig.len(),
                        requests@ =~= batch_internals(orig.take(requests@.len() as int)),
                        searches@ =~= orig.skip(requests@.len() as int),
                    decreases searches@.len(),
                {
                    let ghost k = requests@.len() as int;
                    let s = searches.remove(0);
                    let SearchRequest { search_request, shard_key } = s;
                    let _shard_selection = shard_selector(shard_key);
                    requests.push(search_request);
                    proof {
                        crate::types::lemma_take_succ(orig, k);
                        assert(orig.skip(k)[0] == orig[k]);
                        assert(orig.skip(k).remove(0) =~= orig.skip(k + 1));
                        assert(requests@ =~= batch_internals(orig.take(k + 1)));
                    }
                }
                proof {
                    assert(orig.take(orig.len() as int) =~= orig);
                }
                let res = do_search_batch_points(engine, &collection_name, &requests)?;
                Ok(QueryResponse::SearchBatch(res))
            },
            QueryRequest::SearchGroup((collection_name, request)) => {
                let SearchGroupsRequest { search_group_request, shard_key } = request;
                let _shard_selection = shard_selector(shard_key);
                let res = do_search_point_groups(engine, &collection_name, &search_group_request)?;
                Ok(QueryResponse::SearchGroup(res))
            },
            QueryRequest::Recommend((collection_name, request)) => {
                let RecommendRequest { recommend_request, shard_key } = request;
                let _shard_selection = shard_selector(shard_key);
                let res = engine.recommend(&collection_name, &recommend_request)?;
                Ok(QueryResponse::Recommend(res))
            },
            QueryRequest::RecommendBatch((collection_name, request)) => {
                let res = do_recommend_batch_points(engine, &collection_name, request)?;
                Ok(QueryResponse::RecommendBatch(res))
            },
            QueryRequest::RecommendGroup((collection_name, request)) => {
                let RecommendGroupsRequest { recommend_group_request, shard_key } = request;
                let _shard_selection = shard_selector(shard_key);
                let res = do_recommend_point_groups(
                    engine,
                    &collection_name,
                    &recommend_group_request,
                )?;
                Ok(QueryResponse::RecommendGroup(res))
            },
        }
    }
}

/// Resolves one search by wrapping it into a batch of one and taking that
/// batch's only answer.  The empty-result arm mirrors the engine's own
/// guard; with the batch contract it is provably never taken.
fn do_core_search_points(
    engine: &Engine,
    collection_name: &String,
    request: SearchRequestInternal,
) -> (r: Result<Vec<ScoredPoint>, EngineError>)
    requires
        engine_wf(engine@),
    ensures
        search_rel(engine@, collection_name@, request, engine@, r),
{
    let ghost greq = request;
    let batch = vec![request];
    proof {
        assert(batch@ =~= seq![greq]);
    }
    let mut batch_res = do_core_search_batch_points(engine, collection_name, &batch)?;
    if batch_res.len() > 0 {
        let first = batch_res.remove(0);
        Ok(first)
    } else {
        Err(EngineError::ServiceError("Empty search result".to_owned()))
    }
}

/// Resolves a batch of searches.
fn do_core_search_batch_points(
    engine: &Engine,
    collection_name: &String,
    requests: &Vec<SearchRequestInternal>,
) -> (r: Result<Vec<Vec<ScoredPoint>>, EngineError>)
    requires
        engine_wf(engine@),
    ensures
        search_batch_rel(engine@, collection_name@, requests@, engine@, r),
{
    engine.core_search_batch(collection_name, requests)
}

/// Resolves a batch of searches, in order.
fn do_search_batch_points(
    engine: &Engine,
    collection_name: &String,
    requests: &Vec<SearchRequestInternal>,
) -> (r: Result<Vec<Vec<ScoredPoint>>, EngineError>)
    requires
        engine_wf(engine@),
    ensures
        search_batch_rel(engine@, collection_name@, requests@, engine@, r),
{
    engine.core_search_batch(collection_name, requests)
}

/// Resolves a grouped search: nothing is excluded from the groups.
fn do_search_point_groups(
    engine: &Engine,
    collection_name: &String,
    request: &crate::operations::SearchGroupsRequestInternal,
) -> (r: Result<GroupsResult, EngineError>)
    requires
        engine_wf(engine@),
    ensures
        groups_rel(
            engine@,
            collection_name@,
            filter_view(request.filter),
            Seq::empty(),
            request.group_by@,
            request.group_size as int,
            request.limit as int,
            engine@,
            r,
        ),
{
    let exclude: Vec<PointId> = Vec::new();
    proof {
        assert(exclude@ =~= Seq::<PointId>::empty());
    }
    engine.group_by(
        collection_name,
        &request.filter,
        &exclude,
        &request.group_by,
        request.group_size,
        request.limit,
    )
}

/// Resolves a grouped recommendation: the example points are excluded from
/// the groups, and at least one positive example is required.
fn do_recommend_point_groups(
    engine: &Engine,
    collection_name: &String,
    request: &crate::operations::RecommendGroupsRequestInternal,
) -> (r: Result<GroupsResult, EngineError>)
    requires
        engine_wf(engine@),
    ensures
        request.positive@.len() == 0 ==> err_bad_request(
            r_to_unit(r),
            "No positive examples provided"@,
        ),
        request.positive@.len() != 0 ==> groups_rel(
            engine@,
            collection_name@,
            filter_view(request.filter),
            request.positive@ + request.negative@,
            request.group_by@,
            request.group_size as int,
            request.limit as int,
            engine@,
            r,
        ),
{
    if request.positive.len() == 0 {
        return Err(EngineError::BadRequest("No positive examples provided".to_owned()));
    }
    let mut exclude: Vec<PointId> = Vec::new();
    let mut i: usize = 0;
    while i < request.positive.len()
        invariant
            0 <= i <= request.positive@.len(),
            exclude@ =~= request.positive@.take(i as int),
        decreases request.positive@.len() - i,
    {
        exclude.push(request.positive[i]);
        proof {
            crate::types::lemma_take_succ(request.positive@, i as int);
        }
        i += 1;
    }
    proof {
        assert(request.positive@.take(request.positive@.len() as int) =~= request.positive@);
    }
    let mut j: usize = 0;
    while j < request.negative.len()
        invariant
            0 <= j <= request.negative@.len(),
            exclude@ =~= request.positive@ + request.negative@.take(j as int),
        decreases request.negative@.len() - j,
    {
        exclude.push(request.negative[j]);
        proof {
            crate::types::lemma_take_succ(request.negative@, j as int);
        }
        j += 1;
    }
    proof {
        assert(request.negative@.take(request.negative@.len() as int) =~= request.negative@);
    }
    engine.group_by(
        collection_name,
        &request.filter,
        &exclude,
        &request.group_by,
        request.group_size,
        request.limit,
    )
}

/// Resolves a batch of recommendations, in order.
fn do_recommend_batch_points(
    engine: &Engine,
    collection_name: &String,
    request: RecommendRequestBatch,
) -> (r: Result<Vec<Vec<ScoredPoint>>, EngineError>)
    requires
        engine_wf(engine@),
    ensures
        recommend_batch_rel(
            engine@,
            collection_name@,
            recommend_internals(request.searches@),
            engine@,
            r,
        ),
{
    let ghost orig = request.searches@;
    let mut searches = request.searches;
    let mut requests: Vec<RecommendRequestInternal> = Vec::new();
    proof {
        assert(orig.skip(0) =~= orig);
        assert(recommend_internals(orig.take(0)) =~= Seq::<RecommendRequestInternal>::empty());
    }
    while searches.len() > 0
        invariant
            requests@.len() + searches@.len() == orig.len(),
            requests@ =~= recommend_internals(orig.take(requests@.len() as int)),
            searches@ =~= orig.skip(requests@.len() as int),
        decreases searches@.len(),
    {
        let ghost k = requests@.len() as int;
        let s = searches.remove(0);
        let RecommendRequest { recommend_request, shard_key } = s;
        let _shard_selection = shard_selector(shard_key);
        requests.push(recommend_request);
        proof {
            crate::types::lemma_take_succ(orig, k);
            assert(orig.skip(k)[0] == orig[k]);
            assert(orig.skip(k).remove(0) =~= orig.skip(k + 1));
            assert(requests@ =~= recommend_internals(orig.take(k + 1)));
        }
    }
    proof {
        assert(orig.take(orig.len() as int) =~= orig);
    }
    engine.recommend_batch(collection_name, &requests)
}

} // verus!
