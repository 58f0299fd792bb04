//! The operation vocabulary: the request payloads callers build and the
//! update operations the dispatcher hands to the engine once the shard key
//! has been split off.

use vstd::prelude::*;

use crate::shard::ShardKeySelector;
use crate::types::{Filter, Payload, PointId, PointStruct, ScoredPoint, Vector};

verus! {

/// A list of point identifiers with an optional shard-key selector.
#[derive(Clone, Debug, PartialEq, Eq)]
pub struct PointIdsList {
    pub points: Vec<PointId>,
    pub shard_key: Option<ShardKeySelector>,
}

/// A filter with an optional shard-key selector.
#[derive(Clone, Debug, PartialEq, Eq)]
pub struct FilterSelector {
    pub filter: Filter,
    pub shard_key: Option<ShardKeySelector>,
}

/// How a caller picks the points a delete or clear operation acts on:
/// by explicit identifiers or by filter.
#[derive(Clone, Debug, PartialEq, Eq)]
pub enum PointsSelector {
    PointIdsSelector(PointIdsList),
    FilterSelector(FilterSelector),
}

/// The points of an upsert, with the shard key still attached.
#[derive(Clone, Debug, PartialEq, Eq)]
pub struct PointInsertOperations {
    pub points: Vec<PointStruct>,
    pub shard_key: Option<ShardKeySelector>,
}

impl PointInsertOperations {
    /// Splits the shard key off the list of points to insert.
    pub fn decompose(self) -> (r: (Option<ShardKeySelector>, Vec<PointStruct>))
        ensures
            r.0 == self.shard_key,
            r.1 == self.points,
    {
        (self.shard_key, self.points)
    }
}

impl From<Vec<PointStruct>> for PointInsertOperations {
    fn from(points: Vec<PointStruct>) -> (r: Self) {
        PointInsertOperations { points, shard_key: None }
    }
}

impl vstd::std_specs::convert::FromSpecImpl<Vec<PointStruct>> for PointInsertOperations {
    open spec fn obeys_from_spec() -> bool {
        true
    }

    open spec fn from_spec(points: Vec<PointStruct>) -> Self {
        PointInsertOperations { points, shard_key: None }
    }
}

/// A new vector for one point.
#[derive(Clone, Debug, PartialEq, Eq)]
pub struct PointVectors {
    pub id: PointId,
    pub vector: Vector,
}

/// Arguments of an update-vectors operation.
#[derive(Clone, Debug, PartialEq, Eq)]
pub struct UpdateVectors {
    pub points: Vec<PointVectors>,
    pub shard_key: Option<ShardKeySelector>,
}

/// Arguments of a delete-vectors operation.  At least one of `filter` and
/// `points` must be given; `vector` names the vectors to drop (the model
/// engine stores a single vector per point and clears it whatever the
/// names say).
#[derive(Clone, Debug, PartialEq, Eq)]
pub struct DeleteVectors {
    pub vector: Vec<String>,
    pub filter: Option<Filter>,
    pub points: Option<Vec<PointId>>,
    pub shard_key: Option<ShardKeySelector>,
}

/// Arguments of a set-payload or overwrite-payload operation.
#[derive(Clone, Debug, PartialEq, Eq)]
pub struct SetPayload {
    pub payload: Payload,
    pub points: Option<Vec<PointId>>,
    pub filter: Option<Filter>,
    pub shard_key: Option<ShardKeySelector>,
}

/// Arguments of a delete-payload operation: the keys to drop and the points
/// to drop them from.
#[derive(Clone, Debug, PartialEq, Eq)]
pub struct DeletePayload {
    pub keys: Vec<String>,
    pub points: Option<Vec<PointId>>,
    pub filter: Option<Filter>,
    pub shard_key: Option<ShardKeySelector>,
}

/// A retrieve request: which points to fetch.
#[derive(Clone, Debug, PartialEq, Eq)]
pub struct PointRequestInternal {
    pub ids: Vec<PointId>,
}

/// A retrieve request with its shard-key selector.
#[derive(Clone, Debug, PartialEq, Eq)]
pub struct PointRequest {
    pub point_request: PointRequestInternal,
    pub shard_key: Option<ShardKeySelector>,
}

/// A count request: an optional filter, and whether the count must be exact.
#[derive(Clone, Debug, PartialEq, Eq)]
pub struct CountRequestInternal {
    pub filter: Option<Filter>,
    pub exact: bool,
}

/// A count request with its shard-key selector.
#[derive(Clone, Debug, PartialEq, Eq)]
pub struct CountRequest {
    pub count_request: CountRequestInternal,
    pub shard_key: Option<ShardKeySelector>,
}

/// The engine's answer to a count request.
#[derive(Clone, Copy, Debug, PartialEq, Eq, Structural)]
pub struct CountResult {
    pub count: usize,
}

// The update operations the dispatcher forwards to the engine, after the
// shard key has been split off.

/// A new payload for chosen points, set (merged) or overwritten.
#[derive(Clone, Debug, PartialEq, Eq)]
pub struct SetPayloadOp {
    pub payload: Payload,
    pub points: Option<Vec<PointId>>,
    pub filter: Option<Filter>,
}

/// Payload keys to drop from chosen points.
#[derive(Clone, Debug, PartialEq, Eq)]
pub struct DeletePayloadOp {
    pub keys: Vec<String>,
    pub points: Option<Vec<PointId>>,
    pub filter: Option<Filter>,
}

/// New vectors for chosen points.
#[derive(Clone, Debug, PartialEq, Eq)]
pub struct UpdateVectorsOp {
    pub points: Vec<PointVectors>,
}

/// Vectors to clear: those of the listed points and those of the points
/// matching the filter, in one operation.  `vector_names` names the vectors
/// to drop (the model engine stores a single vector per point and clears it
/// whatever the names say).
#[derive(Clone, Debug, PartialEq, Eq)]
pub struct DeleteVectorsOp {
    pub points: Option<Vec<PointId>>,
    pub filter: Option<Filter>,
    pub vector_names: Vec<String>,
}

/// Operations on whole points.
#[derive(Clone, Debug, PartialEq, Eq)]
pub enum PointOperations {
    UpsertPoints(Vec<PointStruct>),
    DeletePoints { ids: Vec<PointId> },
    DeletePointsByFilter(Filter),
}

/// Operations on the vectors of points.
#[derive(Clone, Debug, PartialEq, Eq)]
pub enum VectorOperations {
    UpdateVectors(UpdateVectorsOp),
    DeleteVectors(DeleteVectorsOp),
}

/// Operations on the payloads of points.
#[derive(Clone, Debug, PartialEq, Eq)]
pub enum PayloadOps {
    SetPayload(SetPayloadOp),
    OverwritePayload(SetPayloadOp),
    DeletePayload(DeletePayloadOp),
    ClearPayload { points: Vec<PointId> },
    ClearPayloadByFilter(Filter),
}

/// Any update the dispatcher can hand to the engine.
#[derive(Clone, Debug, PartialEq, Eq)]
pub enum CollectionUpdateOperations {
    PointOperation(PointOperations),
    VectorOperation(VectorOperations),
    PayloadOperation(PayloadOps),
}

// Query requests and their results.

/// One search: a query vector, an optional filter, and how many hits to
/// return at most.
#[derive(Clone, Debug, PartialEq, Eq)]
pub struct SearchRequestInternal {
    pub vector: Vector,
    pub filter: Option<Filter>,
    pub limit: usize,
}

/// A search with its shard-key selector.
#[derive(Clone, Debug, PartialEq, Eq)]
pub struct SearchRequest {
    pub search_request: SearchRequestInternal,
    pub shard_key: Option<ShardKeySelector>,
}

/// Several searches against one collection.
#[derive(Clone, Debug, PartialEq, Eq)]
pub struct SearchRequestBatch {
    pub searches: Vec<SearchRequest>,
}

/// A grouped search: hits are grouped by a payload key.
#[derive(Clone, Debug, PartialEq, Eq)]
pub struct SearchGroupsRequestInternal {
    pub vector: Vector,
    pub filter: Option<Filter>,
    pub group_by: String,
    pub group_size: usize,
    pub limit: usize,
}

/// A grouped search with its shard-key selector.
#[derive(Clone, Debug, PartialEq, Eq)]
pub struct SearchGroupsRequest {
    pub search_group_request: SearchGroupsRequestInternal,
    pub shard_key: Option<ShardKeySelector>,
}

/// One recommendation: positive and negative example points, an optional
/// filter, and how many hits to return at most.
#[derive(Clone, Debug, PartialEq, Eq)]
pub struct RecommendRequestInternal {
    pub positive: Vec<PointId>,
    pub negative: Vec<PointId>,
    pub filter: Option<Filter>,
    pub limit: usize,
}

/// A recommendation with its shard-key selector.
#[derive(Clone, Debug, PartialEq, Eq)]
pub struct RecommendRequest {
    pub recommend_request: RecommendRequestInternal,
    pub shard_key: Option<ShardKeySelector>,
}

/// Several recommendations against one collection.
#[derive(Clone, Debug, PartialEq, Eq)]
pub struct RecommendRequestBatch {
    pub searches: Vec<RecommendRequest>,
}

/// A grouped recommendation.
#[derive(Clone, Debug, PartialEq, Eq)]
pub struct RecommendGroupsRequestInternal {
    pub positive: Vec<PointId>,
    pub negative: Vec<PointId>,
    pub filter: Option<Filter>,
    pub group_by: String,
    pub group_size: usize,
    pub limit: usize,
}

/// A grouped recommendation with its shard-key selector.
#[derive(Clone, Debug, PartialEq, Eq)]
pub struct RecommendGroupsRequest {
    pub recommend_group_request: RecommendGroupsRequestInternal,
    pub shard_key: Option<ShardKeySelector>,
}

/// One group of hits: the payload value the group shares, and its hits.
#[derive(Clone, Debug, PartialEq, Eq)]
pub struct PointGroup {
    pub id: String,
    pub hits: Vec<ScoredPoint>,
}

/// The engine's answer to a grouped query.
#[derive(Clone, Debug, PartialEq, Eq)]
pub struct GroupsResult {
    pub groups: Vec<PointGroup>,
}

} // verus!
