//! The sequential model of the whole actor: one value that behaves as the
//! queue, worker and engine together.  `submit` admits and dispatches one
//! request at a time; the client methods mirror the public handle, each
//! with the exact contract of its operation.

use vstd::prelude::*;

use vstd::pervasive::unreached;

use crate::collections::{
    alias_handle_rel, collection_handle_rel, AliasRequest, AliasResponse, CollectionRequest,
    CollectionResponse,
};
use crate::engine::{
    col_index, collection_aliases_rel, create_alias_rel, create_collection_rel,
    delete_alias_rel, delete_collection_rel, engine_wf, err_bad_request, err_not_found, has_col,
    list_collections_rel, rename_alias_rel, update_collection_rel, AliasDescription, AliasV,
    Engine, EngineV,
};
use crate::engine_points::{count_rel, retrieve_rel, update_rel};
use crate::engine_query::{
    groups_rel, recommend_batch_rel, recommend_rel, search_batch_rel, search_rel,
};
use crate::error::{engine_result_of, EngineError, QdrantError};
use crate::lifecycle::Phase;
use crate::operations::{
    CollectionUpdateOperations, CountRequest, CountRequestInternal, CountResult, DeletePayload,
    DeleteVectors, GroupsResult, PointGroup, PointInsertOperations, PointOperations, PointRequest,
    PointVectors, PointsSelector, RecommendGroupsRequest, RecommendRequest, RecommendRequestBatch,
    SearchGroupsRequest, SearchRequest, SearchRequestBatch, SetPayload, UpdateVectors,
};
use crate::points::{
    clear_payload_op, delete_payload_update, delete_points_op, delete_vectors_rel,
    points_handle_rel, set_payload_update, PointsRequest, PointsResponse,
};
use crate::query::{
    batch_internals, query_handle_rel, r_to_unit, recommend_internals, QueryRequest, QueryResponse,
};
use crate::types::{
    filter_view, ColName, CollectionInfo, CreateCollection, Filter, PointStruct, Record,
    ScoredPoint, UpdateCollection, UpdateResult, VectorsConfig,
};

verus! {

/// Any request a client can submit: one of the four families.
#[derive(Debug, PartialEq, Eq)]
pub enum QdrantRequest {
    Collection(CollectionRequest),
    Alias(AliasRequest),
    Points(PointsRequest),
    Query(QueryRequest),
}

/// Any response the engine can return, mirroring `QdrantRequest` family by
/// family.
#[derive(Debug, PartialEq, Eq)]
pub enum QdrantResponse {
    Collection(CollectionResponse),
    Alias(AliasResponse),
    Points(PointsResponse),
    Query(QueryResponse),
}

impl From<CollectionRequest> for QdrantRequest {
    fn from(req: CollectionRequest) -> (r: Self) {
        QdrantRequest::Collection(req)
    }
}

impl vstd::std_specs::convert::FromSpecImpl<CollectionRequest> for QdrantRequest {
    open spec fn obeys_from_spec() -> bool {
        true
    }

    open spec fn from_spec(req: CollectionRequest) -> Self {
        QdrantRequest::Collection(req)
    }
}

impl From<AliasRequest> for QdrantRequest {
    fn from(req: AliasRequest) -> (r: Self) {
        QdrantRequest::Alias(req)
    }
}

impl vstd::std_specs::convert::FromSpecImpl<AliasRequest> for QdrantRequest {
    open spec fn obeys_from_spec() -> bool {
        true
    }

    open spec fn from_spec(req: AliasRequest) -> Self {
        QdrantRequest::Alias(req)
    }
}

impl From<PointsRequest> for QdrantRequest {
    fn from(req: PointsRequest) -> (r: Self) {
        QdrantRequest::Points(req)
    }
}

impl vstd::std_specs::convert::FromSpecImpl<PointsRequest> for QdrantRequest {
    open spec fn obeys_from_spec() -> bool {
        true
    }

    open spec fn from_spec(req: PointsRequest) -> Self {
        QdrantRequest::Points(req)
    }
}

impl From<QueryRequest> for QdrantRequest {
    fn from(req: QueryRequest) -> (r: Self) {
        QdrantRequest::Query(req)
    }
}

impl vstd::std_specs::convert::FromSpecImpl<QueryRequest> for QdrantRequest {
    open spec fn obeys_from_spec() -> bool {
        true
    }

    open spec fn from_spec(req: QueryRequest) -> Self {
        QdrantRequest::Query(req)
    }
}

/// What dispatching any request does: the request is routed to its family's
/// handler and the response comes back in the same family.
pub open spec fn qdrant_handle_rel(
    pre: EngineV,
    req: QdrantRequest,
    post: EngineV,
    r: Result<QdrantResponse, EngineError>,
) -> bool {
    match req {
        QdrantRequest::Collection(cr) => match r {
            Ok(resp) => resp is Collection && collection_handle_rel(
                pre,
                cr,
                post,
                Ok(resp->Collection_0),
            ),
            Err(e) => collection_handle_rel(pre, cr, post, Err(e)),
        },
        QdrantRequest::Alias(ar) => match r {
            Ok(resp) => resp is Alias && alias_handle_rel(pre, ar, post, Ok(resp->Alias_0)),
            Err(e) => alias_handle_rel(pre, ar, post, Err(e)),
        },
        QdrantRequest::Points(pr) => match r {
            Ok(resp) => resp is Points && points_handle_rel(pre, pr, post, Ok(resp->Points_0)),
            Err(e) => points_handle_rel(pre, pr, post, Err(e)),
        },
        QdrantRequest::Query(qr) => match r {
            Ok(resp) => resp is Query && query_handle_rel(pre, qr, post, Ok(resp->Query_0)),
            Err(e) => query_handle_rel(pre, qr, post, Err(e)),
        },
    }
}

/// A collection-family response answers the same sub-operation its request
/// named.
pub open spec fn collection_matches(req: CollectionRequest, resp: CollectionResponse) -> bool {
    match (req, resp) {
        (CollectionRequest::List, CollectionResponse::List(_)) => true,
        (CollectionRequest::Get(_), CollectionResponse::Get(_)) => true,
        (CollectionRequest::Create(_), CollectionResponse::Create(_)) => true,
        (CollectionRequest::Update(_), CollectionResponse::Update(_)) => true,
        (CollectionRequest::Delete(_), CollectionResponse::Delete(_)) => true,
        _ => false,
    }
}

/// An alias-family response answers the same sub-operation its request
/// named.
pub open spec fn alias_matches(req: AliasRequest, resp: AliasResponse) -> bool {
    match (req, resp) {
        (AliasRequest::List, AliasResponse::List(_)) => true,
        (AliasRequest::Get(_), AliasResponse::Get(_)) => true,
        (AliasRequest::Create(_), AliasResponse::Create(_)) => true,
        (AliasRequest::Delete(_), AliasResponse::Delete(_)) => true,
        (AliasRequest::Rename(_), AliasResponse::Rename(_)) => true,
        _ => false,
    }
}

/// A points-family response answers the same sub-operation its request
/// named.
pub open spec fn points_matches(req: PointsRequest, resp: PointsResponse) -> bool {
    match (req, resp) {
        (PointsRequest::Get(_), PointsResponse::Get(_)) => true,
        (PointsRequest::Count(_), PointsResponse::Count(_)) => true,
        (PointsRequest::Delete(_), PointsResponse::Delete(_)) => true,
        (PointsRequest::Upsert(_), PointsResponse::Upsert(_)) => true,
        (PointsRequest::UpdateVectors(_), PointsResponse::UpdateVectors(_)) => true,
        (PointsRequest::DeleteVectors(_), PointsResponse::DeleteVectors(_)) => true,
        (PointsRequest::SetPayload(_), PointsResponse::SetPayload(_)) => true,
        (PointsRequest::OverwritePayload(_), PointsResponse::OverwritePayload(_)) => true,
        (PointsRequest::DeletePayload(_), PointsResponse::DeletePayload(_)) => true,
        (PointsRequest::ClearPayload(_), PointsResponse::ClearPayload(_)) => true,
        _ => false,
    }
}

/// A query-family response answers the same sub-operation its request
/// named.
pub open spec fn query_matches(req: QueryRequest, resp: QueryResponse) -> bool {
    match (req, resp) {
        (QueryRequest::Search(_), QueryResponse::Search(_)) => true,
        (QueryRequest::SearchBatch(_), QueryResponse::SearchBatch(_)) => true,
        (QueryRequest::SearchGroup(_), QueryResponse::SearchGroup(_)) => true,
        (QueryRequest::Recommend(_), QueryResponse::Recommend(_)) => true,
        (QueryRequest::RecommendBatch(_), QueryResponse::RecommendBatch(_)) => true,
        (QueryRequest::RecommendGroup(_), QueryResponse::RecommendGroup(_)) => true,
        _ => false,
    }
}

/// A response answers the same family and sub-operation its request named.
pub open spec fn response_matches(req: QdrantRequest, resp: QdrantResponse) -> bool {
    match (req, resp) {
        (QdrantRequest::Collection(cr), QdrantResponse::Collection(cresp)) => collection_matches(
            cr,
            cresp,
        ),
        (QdrantRequest::Alias(ar), QdrantResponse::Alias(aresp)) => alias_matches(ar, aresp),
        (QdrantRequest::Points(pr), QdrantResponse::Points(presp)) => points_matches(pr, presp),
        (QdrantRequest::Query(qr), QdrantResponse::Query(qresp)) => query_matches(qr, qresp),
        _ => false,
    }
}

/// Law: every successfully dispatched request is answered in its own family
/// and sub-operation — the request-to-response mapping is an exhaustive
/// one-to-one round trip.
pub proof fn lemma_response_matches(
    pre: EngineV,
    req: QdrantRequest,
    post: EngineV,
    resp: QdrantResponse,
)
    requires
        qdrant_handle_rel(pre, req, post, Ok(resp)),
    ensures
        response_matches(req, resp),
{
    match req {
        QdrantRequest::Collection(cr) => {
            match cr {
                CollectionRequest::List => {},
                CollectionRequest::Get(_) => {},
                CollectionRequest::Create(_) => {},
                CollectionRequest::Update(_) => {},
                CollectionRequest::Delete(_) => {},
            }
        },
        QdrantRequest::Alias(ar) => {
            match ar {
                AliasRequest::List => {},
                AliasRequest::Get(_) => {},
                AliasRequest::Create(_) => {},
                AliasRequest::Delete(_) => {},
                AliasRequest::Rename(_) => {},
            }
        },
        QdrantRequest::Points(pr) => {
            match pr {
                PointsRequest::Get(_) => {},
                PointsRequest::Count(_) => {},
                PointsRequest::Delete(_) => {},
                PointsRequest::Upsert(_) => {},
                PointsRequest::UpdateVectors(_) => {},
                PointsRequest::DeleteVectors(_) => {},
                PointsRequest::SetPayload(_) => {},
                PointsRequest::OverwritePayload(_) => {},
                PointsRequest::DeletePayload(_) => {},
                PointsRequest::ClearPayload(_) => {},
            }
        },
        QdrantRequest::Query(qr) => {
            match qr {
                QueryRequest::Search(_) => {},
                QueryRequest::SearchBatch(_) => {},
                QueryRequest::SearchGroup(_) => {},
                QueryRequest::Recommend(_) => {},
                QueryRequest::RecommendBatch(_) => {},
                QueryRequest::RecommendGroup(g) => {
                    if g.1.recommend_group_request.positive@.len() == 0 {
                    }
                },
            }
        },
    }
}

impl QdrantRequest {
    /// Routes any request to its family's handler.
    pub fn handle(self, engine: &mut Engine) -> (r: Result<QdrantResponse, EngineError>)
        requires
            engine_wf(old(engine)@),
        ensures
            engine_wf(final(engine)@),
            qdrant_handle_rel(old(engine)@, self, final(engine)@, r),
    {
        match self {
            QdrantRequest::Collection(req) => {
                let resp = req.handle(engine)?;
                Ok(QdrantResponse::Collection(resp))
            },
            QdrantRequest::Alias(req) => {
                let resp = req.handle(engine)?;
                Ok(QdrantResponse::Alias(resp))
            },
            QdrantRequest::Points(req) => {
                let resp = req.handle(engine)?;
                Ok(QdrantResponse::Points(resp))
            },
            QdrantRequest::Query(req) => {
                let resp = req.handle(engine)?;
                Ok(QdrantResponse::Query(resp))
            },
        }
    }
}

/// The embedded engine together with its admission state: the sequential
/// reference model of the whole actor.  One value of this type behaves as
/// the worker, the queue and the engine do together, with every submission
/// dispatched at once; the concurrency protocol around it is modelled
/// separately by the actor state machine.
#[derive(Debug)]
pub struct QdrantInstance {
    pub engine: Engine,
    pub phase: Phase,
}

impl QdrantInstance {
    /// The instance's invariant: its engine is well formed.
    pub open spec fn wf(self) -> bool {
        engine_wf(self.engine@)
    }

    /// Starts an embedded instance: a fresh engine, admission open.
    pub fn start() -> (r: QdrantInstance)
        ensures
            r.wf(),
            r.phase == Phase::Active,
            r.engine@.collections == Seq::<crate::engine::ColV>::empty(),
            r.engine@.aliases == Seq::<crate::engine::AliasV>::empty(),
            r.engine@.op_counter == 0,
    {
        QdrantInstance { engine: Engine::new(), phase: Phase::Active }
    }

    /// Closes admission, as dropping the last client handle or an explicit
    /// terminate request does.  Closing is monotonic: a closed or terminated
    /// instance stays so.
    pub fn close(&mut self)
        ensures
            final(self).engine == old(self).engine,
            final(self).phase == (match old(self).phase {
                Phase::Active => Phase::Closing,
                Phase::Closing => Phase::Closing,
                Phase::Terminated => Phase::Terminated,
            }),
    {
        match self.phase {
            Phase::Active => {
                self.phase = Phase::Closing;
            },
            Phase::Closing => {},
            Phase::Terminated => {},
        }
    }

    /// Submits one request and waits for its response, as a client handle
    /// does.  Once admission has closed, every submission fails with
    /// `ChannelClosed` and nothing else happens; while admission is open,
    /// the request is dispatched exactly once and the response answers it
    /// in the same family and sub-operation.
    pub fn submit(&mut self, req: QdrantRequest) -> (r: Result<QdrantResponse, QdrantError>)
        requires
            old(self).wf(),
        ensures
            final(self).wf(),
            final(self).phase == old(self).phase,
            old(self).phase != Phase::Active ==> r == Err::<QdrantResponse, QdrantError>(
                QdrantError::ChannelClosed,
            ) && *final(self) == *old(self),
            old(self).phase == Phase::Active ==> {
                &&& (match r {
                    Err(e) => e is Storage,
                    Ok(_) => true,
                })
                &&& qdrant_handle_rel(
                    old(self).engine@,
                    req,
                    final(self).engine@,
                    engine_result_of(r),
                )
                &&& (match r {
                    Ok(resp) => response_matches(req, resp),
                    Err(_) => true,
                })
            },
    {
        match self.phase {
            Phase::Active => {},
            _ => {
                return Err(QdrantError::ChannelClosed);
            },
        }
        let ghost greq = req;
        let ghost pre = self.engine@;
        match req.handle(&mut self.engine) {
            Ok(resp) => {
                proof {
                    lemma_response_matches(pre, greq, self.engine@, resp);
                }
                Ok(resp)
            },
            Err(e) => Err(QdrantError::Storage(e)),
        }
    }

    /// Creates a new collection.
    pub fn create_collection(&mut self, name: ColName, config: VectorsConfig) -> (r: Result<
        bool,
        QdrantError,
    >)
        requires
            old(self).wf(),
        ensures
            final(self).wf(),
            final(self).phase == old(self).phase,
            old(self).phase != Phase::Active ==> rejected(*old(self), *final(self), r),
            old(self).phase == Phase::Active ==> {
                &&& (r matches Err(e) ==> e is Storage)
                &&& create_collection_rel(
                    old(self).engine@,
                    name@,
                    CreateCollection { vectors: config },
                    final(self).engine@,
                    engine_result_of(r),
                )
            },
    {
        let data = CreateCollection { vectors: config };
        let msg = CollectionRequest::Create((name, data));
        match self.submit(QdrantRequest::from(msg)) {
            Ok(QdrantResponse::Collection(CollectionResponse::Create(v))) => Ok(v),
            Err(e) => Err(e),
            _ => unreached(),
        }
    }

    /// Lists all collections.
    pub fn list_collections(&mut self) -> (r: Result<Vec<String>, QdrantError>)
        requires
            old(self).wf(),
        ensures
            final(self).wf(),
            final(self).phase == old(self).phase,
            old(self).phase != Phase::Active ==> rejected(*old(self), *final(self), r),
            old(self).phase == Phase::Active ==> (r matches Ok(v) && list_collections_rel(
                old(self).engine@,
                final(self).engine@,
                v,
            )),
    {
        match self.submit(QdrantRequest::from(CollectionRequest::List)) {
            Ok(QdrantResponse::Collection(CollectionResponse::List(v))) => Ok(v),
            Err(e) => Err(e),
            _ => unreached(),
        }
    }

    /// Gets collection info by name; a missing collection is reported as
    /// `None`, not as an error.
    pub fn get_collection(&mut self, name: ColName) -> (r: Result<
        Option<CollectionInfo>,
        QdrantError,
    >)
        requires
            old(self).wf(),
        ensures
            final(self).wf(),
            final(self).phase == old(self).phase,
            old(self).phase != Phase::Active ==> rejected(*old(self), *final(self), r),
            old(self).phase == Phase::Active ==> {
                &&& final(self).engine@ == old(self).engine@
                &&& has_col(old(self).engine@.collections, name@) ==> r
                    == Ok::<Option<CollectionInfo>, QdrantError>(
                    Some(
                        CollectionInfo {
                            config: old(self).engine@.collections[col_index(
                                old(self).engine@.collections,
                                name@,
                            )].config,
                            points_count: old(self).engine@.collections[col_index(
                                old(self).engine@.collections,
                                name@,
                            )].points.len() as usize,
                        },
                    ),
                )
                &&& !has_col(old(self).engine@.collections, name@) ==> r == Ok::<
                    Option<CollectionInfo>,
                    QdrantError,
                >(None)
            },
    {
        match self.submit(QdrantRequest::from(CollectionRequest::Get(name))) {
            Ok(QdrantResponse::Collection(CollectionResponse::Get(v))) => Ok(Some(v)),
            Err(QdrantError::Storage(EngineError::NotFound(_))) => Ok(None),
            Err(e) => Err(e),
            _ => unreached(),
        }
    }

    /// Updates a collection's configuration by name.
    pub fn update_collection(&mut self, name: ColName, data: UpdateCollection) -> (r: Result<
        bool,
        QdrantError,
    >)
        requires
            old(self).wf(),
        ensures
            final(self).wf(),
            final(self).phase == old(self).phase,
            old(self).phase != Phase::Active ==> rejected(*old(self), *final(self), r),
            old(self).phase == Phase::Active ==> {
                &&& (r matches Err(e) ==> e is Storage)
                &&& update_collection_rel(
                    old(self).engine@,
                    name@,
                    data,
                    final(self).engine@,
                    engine_result_of(r),
                )
            },
    {
        let msg = CollectionRequest::Update((name, data));
        match self.submit(QdrantRequest::from(msg)) {
            Ok(QdrantResponse::Collection(CollectionResponse::Update(v))) => Ok(v),
            Err(e) => Err(e),
            _ => unreached(),
        }
    }

    /// Deletes a collection by name.
    pub fn delete_collection(&mut self, name: ColName) -> (r: Result<bool, QdrantError>)
        requires
            old(self).wf(),
        ensures
            final(self).wf(),
            final(self).phase == old(self).phase,
            old(self).phase != Phase::Active ==> rejected(*old(self), *final(self), r),
            old(self).phase == Phase::Active ==> {
                &&& (r matches Err(e) ==> e is Storage)
                &&& delete_collection_rel(
                    old(self).engine@,
                    name@,
                    final(self).engine@,
                    engine_result_of(r),
                )
            },
    {
        match self.submit(QdrantRequest::from(CollectionRequest::Delete(name))) {
            Ok(QdrantResponse::Collection(CollectionResponse::Delete(v))) => Ok(v),
            Err(e) => Err(e),
            _ => unreached(),
        }
    }

    /// Creates an alias for a collection.
    pub fn create_alias(&mut self, collection_name: ColName, alias_name: String) -> (r: Result<
        bool,
        QdrantError,
    >)
        requires
            old(self).wf(),
        ensures
            final(self).wf(),
            final(self).phase == old(self).phase,
            old(self).phase != Phase::Active ==> rejected(*old(self), *final(self), r),
            old(self).phase == Phase::Active ==> {
                &&& (r matches Err(e) ==> e is Storage)
                &&& create_alias_rel(
                    old(self).engine@,
                    collection_name@,
                    alias_name@,
                    final(self).engine@,
                    engine_result_of(r),
                )
            },
    {
        let msg = AliasRequest::Create((collection_name, alias_name));
        match self.submit(QdrantRequest::from(msg)) {
            Ok(QdrantResponse::Alias(AliasResponse::Create(v))) => Ok(v),
            Err(e) => Err(e),
            _ => unreached(),
        }
    }

    /// Lists all aliases, each as a collection-name/alias-name pair.
    pub fn list_aliases(&mut self) -> (r: Result<Vec<(ColName, String)>, QdrantError>)
        requires
            old(self).wf(),
        ensures
            final(self).wf(),
            final(self).phase == old(self).phase,
            old(self).phase != Phase::Active ==> rejected(*old(self), *final(self), r),
            old(self).phase == Phase::Active ==> {
                &&& final(self).engine@ == old(self).engine@
                &&& (r matches Ok(ts) && alias_pairs_of(ts@, old(self).engine@.aliases))
            },
    {
        match self.submit(QdrantRequest::from(AliasRequest::List)) {
            Ok(QdrantResponse::Alias(AliasResponse::List(v))) => Ok(alias_tuples(v.aliases)),
            Err(e) => Err(e),
            _ => unreached(),
        }
    }

    /// Lists one collection's aliases, each as a collection-name/alias-name
    /// pair.
    pub fn get_aliases(&mut self, collection_name: ColName) -> (r: Result<
        Vec<(ColName, String)>,
        QdrantError,
    >)
        requires
            old(self).wf(),
        ensures
            final(self).wf(),
            final(self).phase == old(self).phase,
            old(self).phase != Phase::Active ==> rejected(*old(self), *final(self), r),
            old(self).phase == Phase::Active ==> {
                &&& final(self).engine@ == old(self).engine@
                &&& (r matches Err(e) ==> e is Storage)
                &&& has_col(old(self).engine@.collections, collection_name@) ==> (r matches Ok(
                    ts,
                ) && alias_pairs_of(
                    ts@,
                    old(self).engine@.aliases.filter(
                        |a: AliasV| a.collection_name == collection_name@,
                    ),
                ))
                &&& !has_col(old(self).engine@.collections, collection_name@) ==> err_not_found(
                    engine_result_of(r),
                    collection_name@,
                )
            },
    {
        match self.submit(QdrantRequest::from(AliasRequest::Get(collection_name))) {
            Ok(QdrantResponse::Alias(AliasResponse::Get(v))) => Ok(alias_tuples(v.aliases)),
            Err(e) => Err(e),
            _ => unreached(),
        }
    }

    /// Deletes an alias by name.
    pub fn delete_alias(&mut self, alias_name: String) -> (r: Result<bool, QdrantError>)
        requires
            old(self).wf(),
        ensures
            final(self).wf(),
            final(self).phase == old(self).phase,
            old(self).phase != Phase::Active ==> rejected(*old(self), *final(self), r),
            old(self).phase == Phase::Active ==> {
                &&& (r matches Err(e) ==> e is Storage)
                &&& delete_alias_rel(
                    old(self).engine@,
                    alias_name@,
                    final(self).engine@,
                    engine_result_of(r),
                )
            },
    {
        let msg = AliasRequest::Delete(alias_name);
        match self.submit(QdrantRequest::from(msg)) {
            Ok(QdrantResponse::Alias(AliasResponse::Delete(v))) => Ok(v),
            Err(e) => Err(e),
            _ => unreached(),
        }
    }

    /// Renames an alias.
    pub fn rename_alias(&mut self, old_alias_name: String, new_alias_name: String) -> (r: Result<
        bool,
        QdrantError,
    >)
        requires
            old(self).wf(),
        ensures
            final(self).wf(),
            final(self).phase == old(self).phase,
            old(self).phase != Phase::Active ==> rejected(*old(self), *final(self), r),
            old(self).phase == Phase::Active ==> {
                &&& (r matches Err(e) ==> e is Storage)
                &&& rename_alias_rel(
                    old(self).engine@,
                    old_alias_name@,
                    new_alias_name@,
                    final(self).engine@,
                    engine_result_of(r),
                )
            },
    {
        let msg = AliasRequest::Rename((old_alias_name, new_alias_name));
        match self.submit(QdrantRequest::from(msg)) {
            Ok(QdrantResponse::Alias(AliasResponse::Rename(v))) => Ok(v),
            Err(e) => Err(e),
            _ => unreached(),
        }
    }

    /// Gets points from a collection.
    pub fn get_points(&mut self, collection_name: ColName, data: PointRequest) -> (r: Result<
        Vec<Record>,
        QdrantError,
    >)
        requires
            old(self).wf(),
        ensures
            final(self).wf(),
            final(self).phase == old(self).phase,
            old(self).phase != Phase::Active ==> rejected(*old(self), *final(self), r),
            old(self).phase == Phase::Active ==> {
                &&& (r matches Err(e) ==> e is Storage)
                &&& retrieve_rel(
                    old(self).engine@,
                    collection_name@,
                    data.point_request.ids@,
                    final(self).engine@,
                    engine_result_of(r),
                )
            },
    {
        let msg = PointsRequest::Get((collection_name, data));
        match self.submit(QdrantRequest::from(msg)) {
            Ok(QdrantResponse::Points(PointsResponse::Get(v))) => Ok(v),
            Err(e) => Err(e),
            _ => unreached(),
        }
    }

    /// Upserts points into a collection.
    pub fn upsert_points(&mut self, collection_name: ColName, points: Vec<PointStruct>) -> (r:
        Result<UpdateResult, QdrantError>)
        requires
            old(self).wf(),
        ensures
            final(self).wf(),
            final(self).phase == old(self).phase,
            old(self).phase != Phase::Active ==> rejected(*old(self), *final(self), r),
            old(self).phase == Phase::Active ==> {
                &&& (r matches Err(e) ==> e is Storage)
                &&& update_rel(
                    old(self).engine@,
                    collection_name@,
                    CollectionUpdateOperations::PointOperation(
                        PointOperations::UpsertPoints(points),
                    ),
                    final(self).engine@,
                    engine_result_of(r),
                )
            },
    {
        let msg = PointsRequest::Upsert((collection_name, PointInsertOperations::from(points)));
        match self.submit(QdrantRequest::from(msg)) {
            Ok(QdrantResponse::Points(PointsResponse::Upsert(v))) => Ok(v),
            Err(e) => Err(e),
            _ => unreached(),
        }
    }

    /// Deletes points from a collection, by identifier list or by filter.
    pub fn delete_points(&mut self, collection_name: ColName, points: PointsSelector) -> (r:
        Result<UpdateResult, QdrantError>)
        requires
            old(self).wf(),
        ensures
            final(self).wf(),
            final(self).phase == old(self).phase,
            old(self).phase != Phase::Active ==> rejected(*old(self), *final(self), r),
            old(self).phase == Phase::Active ==> {
                &&& (r matches Err(e) ==> e is Storage)
                &&& update_rel(
                    old(self).engine@,
                    collection_name@,
                    delete_points_op(points),
                    final(self).engine@,
                    engine_result_of(r),
                )
            },
    {
        let msg = PointsRequest::Delete((collection_name, points));
        match self.submit(QdrantRequest::from(msg)) {
            Ok(QdrantResponse::Points(PointsResponse::Delete(v))) => Ok(v),
            Err(e) => Err(e),
            _ => unreached(),
        }
    }

    /// Counts the points of a collection that match a filter.  The model
    /// engine always counts exactly, whatever `exact` asks.
    pub fn count_points(
        &mut self,
        collection_name: ColName,
        filter: Option<Filter>,
        exact: bool,
    ) -> (r: Result<usize, QdrantError>)
        requires
            old(self).wf(),
        ensures
            final(self).wf(),
            final(self).phase == old(self).phase,
            old(self).phase != Phase::Active ==> rejected(*old(self), *final(self), r),
            old(self).phase == Phase::Active ==> {
                &&& final(self).engine@ == old(self).engine@
                &&& (r matches Err(e) ==> e is Storage)
                &&& (r matches Ok(c) ==> count_rel(
                    old(self).engine@,
                    collection_name@,
                    filter,
                    final(self).engine@,
                    Ok(CountResult { count: c }),
                ))
                &&& (r matches Err(e) ==> count_rel(
                    old(self).engine@,
                    collection_name@,
                    filter,
                    final(self).engine@,
                    Err(e->Storage_0),
                ))
            },
    {
        let data = CountRequest {
            count_request: CountRequestInternal { filter, exact },
            shard_key: None,
        };
        let msg = PointsRequest::Count((collection_name, data));
        match self.submit(QdrantRequest::from(msg)) {
            Ok(QdrantResponse::Points(PointsResponse::Count(v))) => Ok(v.count),
            Err(e) => Err(e),
            _ => unreached(),
        }
    }

    /// Replaces the vectors of points in a collection.
    pub fn update_vectors(&mut self, collection_name: ColName, points: Vec<PointVectors>) -> (r:
        Result<UpdateResult, QdrantError>)
        requires
            old(self).wf(),
        ensures
            final(self).wf(),
            final(self).phase == old(self).phase,
            old(self).phase != Phase::Active ==> rejected(*old(self), *final(self), r),
            old(self).phase == Phase::Active ==> {
                &&& (r matches Err(e) ==> e is Storage)
                &&& update_rel(
                    old(self).engine@,
                    collection_name@,
                    CollectionUpdateOperations::VectorOperation(
                        crate::operations::VectorOperations::UpdateVectors(
                            crate::operations::UpdateVectorsOp { points: points },
                        ),
                    ),
                    final(self).engine@,
                    engine_result_of(r),
                )
            },
    {
        let data = UpdateVectors { points, shard_key: None };
        let msg = PointsRequest::UpdateVectors((collection_name, data));
        match self.submit(QdrantRequest::from(msg)) {
            Ok(QdrantResponse::Points(PointsResponse::UpdateVectors(v))) => Ok(v),
            Err(e) => Err(e),
            _ => unreached(),
        }
    }

    /// Deletes vectors of points in a collection.
    pub fn delete_vectors(&mut self, collection_name: ColName, data: DeleteVectors) -> (r: Result<
        UpdateResult,
        QdrantError,
    >)
        requires
            old(self).wf(),
        ensures
            final(self).wf(),
            final(self).phase == old(self).phase,
            old(self).phase != Phase::Active ==> rejected(*old(self), *final(self), r),
            old(self).phase == Phase::Active ==> {
                &&& (r matches Err(e) ==> e is Storage)
                &&& delete_vectors_rel(
                    old(self).engine@,
                    collection_name@,
                    data,
                    final(self).engine@,
                    engine_result_of(r),
                )
            },
    {
        let msg = PointsRequest::DeleteVectors((collection_name, data));
        match self.submit(QdrantRequest::from(msg)) {
            Ok(QdrantResponse::Points(PointsResponse::DeleteVectors(v))) => Ok(v),
            Err(e) => Err(e),
            _ => unreached(),
        }
    }

    /// Sets (merges) payload on points of a collection.
    pub fn set_payload(&mut self, collection_name: ColName, data: SetPayload) -> (r: Result<
        UpdateResult,
        QdrantError,
    >)
        requires
            old(self).wf(),
        ensures
            final(self).wf(),
            final(self).phase == old(self).phase,
            old(self).phase != Phase::Active ==> rejected(*old(self), *final(self), r),
            old(self).phase == Phase::Active ==> {
                &&& (r matches Err(e) ==> e is Storage)
                &&& update_rel(
                    old(self).engine@,
                    collection_name@,
                    set_payload_update(data),
                    final(self).engine@,
                    engine_result_of(r),
                )
            },
    {
        let msg = PointsRequest::SetPayload((collection_name, data));
        match self.submit(QdrantRequest::from(msg)) {
            Ok(QdrantResponse::Points(PointsResponse::SetPayload(v))) => Ok(v),
            Err(e) => Err(e),
            _ => unreached(),
        }
    }

    /// Deletes payload keys from points of a collection.
    pub fn delete_payload(&mut self, collection_name: ColName, data: DeletePayload) -> (r: Result<
        UpdateResult,
        QdrantError,
    >)
        requires
            old(self).wf(),
        ensures
            final(self).wf(),
            final(self).phase == old(self).phase,
            old(self).phase != Phase::Active ==> rejected(*old(self), *final(self), r),
            old(self).phase == Phase::Active ==> {
                &&& (r matches Err(e) ==> e is Storage)
                &&& update_rel(
                    old(self).engine@,
                    collection_name@,
                    delete_payload_update(data),
                    final(self).engine@,
                    engine_result_of(r),
                )
            },
    {
        let msg = PointsRequest::DeletePayload((collection_name, data));
        match self.submit(QdrantRequest::from(msg)) {
            Ok(QdrantResponse::Points(PointsResponse::DeletePayload(v))) => Ok(v),
            Err(e) => Err(e),
            _ => unreached(),
        }
    }

    /// Clears the payload of points of a collection.
    pub fn clear_payload(&mut self, collection_name: ColName, points: PointsSelector) -> (r:
        Result<UpdateResult, QdrantError>)
        requires
            old(self).wf(),
        ensures
            final(self).wf(),
            final(self).phase == old(self).phase,
            old(self).phase != Phase::Active ==> rejected(*old(self), *final(self), r),
            old(self).phase == Phase::Active ==> {
                &&& (r matches Err(e) ==> e is Storage)
                &&& update_rel(
                    old(self).engine@,
                    collection_name@,
                    clear_payload_op(points),
                    final(self).engine@,
                    engine_result_of(r),
                )
            },
    {
        let msg = PointsRequest::ClearPayload((collection_name, points));
        match self.submit(QdrantRequest::from(msg)) {
            Ok(QdrantResponse::Points(PointsResponse::ClearPayload(v))) => Ok(v),
            Err(e) => Err(e),
            _ => unreached(),
        }
    }

    /// Searches a collection for vectors.
    pub fn search_points(&mut self, collection_name: ColName, data: SearchRequest) -> (r: Result<
        Vec<ScoredPoint>,
        QdrantError,
    >)
        requires
            old(self).wf(),
        ensures
            final(self).wf(),
            final(self).phase == old(self).phase,
            old(self).phase != Phase::Active ==> rejected(*old(self), *final(self), r),
            old(self).phase == Phase::Active ==> {
                &&& (r matches Err(e) ==> e is Storage)
                &&& search_rel(
                    old(self).engine@,
                    collection_name@,
                    data.search_request,
                    final(self).engine@,
                    engine_result_of(r),
                )
            },
    {
        let msg = QueryRequest::Search((collection_name, data));
        match self.submit(QdrantRequest::from(msg)) {
            Ok(QdrantResponse::Query(QueryResponse::Search(v))) => Ok(v),
            Err(e) => Err(e),
            _ => unreached(),
        }
    }

    /// Searches a collection for vectors, several searches at once.
    pub fn search_points_batch(&mut self, collection_name: ColName, data: Vec<SearchRequest>) -> (r:
        Result<Vec<Vec<ScoredPoint>>, QdrantError>)
        requires
            old(self).wf(),
        ensures
            final(self).wf(),
            final(self).phase == old(self).phase,
            old(self).phase != Phase::Active ==> rejected(*old(self), *final(self), r),
            old(self).phase == Phase::Active ==> {
                &&& (r matches Err(e) ==> e is Storage)
                &&& search_batch_rel(
                    old(self).engine@,
                    collection_name@,
                    batch_internals(data@),
                    final(self).engine@,
                    engine_result_of(r),
                )
            },
    {
        let data = SearchRequestBatch { searches: data };
        let msg = QueryRequest::SearchBatch((collection_name, data));
        match self.submit(QdrantRequest::from(msg)) {
            Ok(QdrantResponse::Query(QueryResponse::SearchBatch(v))) => Ok(v),
            Err(e) => Err(e),
            _ => unreached(),
        }
    }

    /// Searches a collection and groups the hits by a payload key.
    pub fn search_points_group_by(
        &mut self,
        collection_name: ColName,
        data: SearchGroupsRequest,
    ) -> (r: Result<Vec<PointGroup>, QdrantError>)
        requires
            old(self).wf(),
        ensures
            final(self).wf(),
            final(self).phase == old(self).phase,
            old(self).phase != Phase::Active ==> rejected(*old(self), *final(self), r),
            old(self).phase == Phase::Active ==> {
                &&& (r matches Err(e) ==> e is Storage)
                &&& (r matches Ok(gs) ==> groups_rel(
                    old(self).engine@,
                    collection_name@,
                    filter_view(data.search_group_request.filter),
                    Seq::empty(),
                    data.search_group_request.group_by@,
                    data.search_group_request.group_size as int,
                    data.search_group_request.limit as int,
                    final(self).engine@,
                    Ok(GroupsResult { groups: gs }),
                ))
                &&& (r matches Err(e) ==> groups_rel(
                    old(self).engine@,
                    collection_name@,
                    filter_view(data.search_group_request.filter),
                    Seq::empty(),
                    data.search_group_request.group_by@,
                    data.search_group_request.group_size as int,
                    data.search_group_request.limit as int,
                    final(self).engine@,
                    Err(e->Storage_0),
                ))
            },
    {
        let msg = QueryRequest::SearchGroup((collection_name, data));
        match self.submit(QdrantRequest::from(msg)) {
            Ok(QdrantResponse::Query(QueryResponse::SearchGroup(v))) => Ok(v.groups),
            Err(e) => Err(e),
            _ => unreached(),
        }
    }

    /// Recommends points of a collection, given example points.
    pub fn recommend_points(&mut self, collection_name: ColName, data: RecommendRequest) -> (r:
        Result<Vec<ScoredPoint>, QdrantError>)
        requires
            old(self).wf(),
        ensures
            final(self).wf(),
            final(self).phase == old(self).phase,
            old(self).phase != Phase::Active ==> rejected(*old(self), *final(self), r),
            old(self).phase == Phase::Active ==> {
                &&& (r matches Err(e) ==> e is Storage)
                &&& recommend_rel(
                    old(self).engine@,
                    collection_name@,
                    data.recommend_request,
                    final(self).engine@,
                    engine_result_of(r),
                )
            },
    {
        let msg = QueryRequest::Recommend((collection_name, data));
        match self.submit(QdrantRequest::from(msg)) {
            Ok(QdrantResponse::Query(QueryResponse::Recommend(v))) => Ok(v),
            Err(e) => Err(e),
            _ => unreached(),
        }
    }

    /// Recommends points, several recommendations at once.
    pub fn recommend_points_batch(
        &mut self,
        collection_name: ColName,
        data: Vec<RecommendRequest>,
    ) -> (r: Result<Vec<Vec<ScoredPoint>>, QdrantError>)
        requires
            old(self).wf(),
        ensures
            final(self).wf(),
            final(self).phase == old(self).phase,
            old(self).phase != Phase::Active ==> rejected(*old(self), *final(self), r),
            old(self).phase == Phase::Active ==> {
                &&& (r matches Err(e) ==> e is Storage)
                &&& recommend_batch_rel(
                    old(self).engine@,
                    collection_name@,
                    recommend_internals(data@),
                    final(self).engine@,
                    engine_result_of(r),
                )
            },
    {
        let data = RecommendRequestBatch { searches: data };
        let msg = QueryRequest::RecommendBatch((collection_name, data));
        match self.submit(QdrantRequest::from(msg)) {
            Ok(QdrantResponse::Query(QueryResponse::RecommendBatch(v))) => Ok(v),
            Err(e) => Err(e),
            _ => unreached(),
        }
    }

    /// Recommends points and groups the hits by a payload key.
    pub fn recommend_points_group_by(
        &mut self,
        collection_name: ColName,
        data: RecommendGroupsRequest,
    ) -> (r: Result<Vec<PointGroup>, QdrantError>)
        requires
            old(self).wf(),
        ensures
            final(self).wf(),
            final(self).phase == old(self).phase,
            old(self).phase != Phase::Active ==> rejected(*old(self), *final(self), r),
            old(self).phase == Phase::Active ==> {
                &&& (r matches Err(e) ==> e is Storage)
                &&& data.recommend_group_request.positive@.len() == 0 ==> final(self).engine@
                    == old(self).engine@ && err_bad_request(
                    engine_result_of(r),
                    "No positive examples provided"@,
                )
                &&& data.recommend_group_request.positive@.len() != 0 ==> {
                    &&& (r matches Ok(gs) ==> groups_rel(
                        old(self).engine@,
                        collection_name@,
                        filter_view(data.recommend_group_request.filter),
                        data.recommend_group_request.positive@
                            + data.recommend_group_request.negative@,
                        data.recommend_group_request.group_by@,
                        data.recommend_group_request.group_size as int,
                        data.recommend_group_request.limit as int,
                        final(self).engine@,
                        Ok(GroupsResult { groups: gs }),
                    ))
                    &&& (r matches Err(e) ==> groups_rel(
                        old(self).engine@,
                        collection_name@,
                        filter_view(data.recommend_group_request.filter),
                        data.recommend_group_request.positive@
                            + data.recommend_group_request.negative@,
                        data.recommend_group_request.group_by@,
                        data.recommend_group_request.group_size as int,
                        data.recommend_group_request.limit as int,
                        final(self).engine@,
                        Err(e->Storage_0),
                    ))
                }
            },
    {
        let msg = QueryRequest::RecommendGroup((collection_name, data));
        match self.submit(QdrantRequest::from(msg)) {
            Ok(QdrantResponse::Query(QueryResponse::RecommendGroup(v))) => Ok(v.groups),
            Err(e) => Err(e),
            _ => unreached(),
        }
    }
}

/// A submission refused because admission has closed: the error is
/// `ChannelClosed` and nothing changed.
pub open spec fn rejected<T>(
    pre: QdrantInstance,
    post: QdrantInstance,
    r: Result<T, QdrantError>,
) -> bool {
    &&& r == Err::<T, QdrantError>(QdrantError::ChannelClosed)
    &&& post == pre
}

/// The tuple list mirrors the alias entries, pair by pair.
pub open spec fn alias_pairs_of(ts: Seq<(ColName, String)>, als: Seq<AliasV>) -> bool {
    &&& ts.len() == als.len()
    &&& forall|i: int|
        0 <= i < ts.len() ==> (#[trigger] ts[i]).0@ == als[i].collection_name && ts[i].1@
            == als[i].alias_name
}

/// Turns alias entries into collection-name/alias-name pairs.
fn alias_tuples(v: Vec<AliasDescription>) -> (r: Vec<(ColName, String)>)
    ensures
        alias_pairs_of(r@, crate::engine::aliases_view(v@)),
{
    let mut out: Vec<(ColName, String)> = Vec::new();
    let mut i: usize = 0;
    while i < v.len()
        invariant
            0 <= i <= v@.len(),
            out@.len() == i,
            forall|j: int|
                0 <= j < i ==> (#[trigger] out@[j]).0@ == v@[j].collection_name@ && out@[j].1@
                    == v@[j].alias_name@,
        decreases v@.len() - i,
    {
        out.push((v[i].collection_name.clone(), v[i].alias_name.clone()));
        i += 1;
    }
    proof {
        assert(forall|j: int|
            0 <= j < v@.len() ==> crate::engine::aliases_view(v@)[j] == v@[j]@);
    }
    out
}

} // verus!
