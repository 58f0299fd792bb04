//! The points family of the dispatcher: request and response shapes, the
//! reshaping of each request into an engine update, and the write-path
//! shard resolution.

use vstd::prelude::*;

use crate::engine::{engine_wf, err_bad_request, Engine, EngineV};
use crate::engine_points::{count_rel, retrieve_rel, update_rel};
use crate::error::EngineError;
use crate::operations::{
    CollectionUpdateOperations, CountRequest, CountResult, DeletePayload, DeletePayloadOp,
    DeleteVectors, DeleteVectorsOp, FilterSelector, PayloadOps, PointIdsList,
    PointInsertOperations, PointOperations, PointRequest, PointsSelector, SetPayload,
    SetPayloadOp, UpdateVectors, UpdateVectorsOp, VectorOperations,
};
use crate::shard::{get_shard_selector_for_update, shard_selector, ShardId};
use crate::types::{ColName, Record, UpdateResult, WriteOrdering};

verus! {

/// A points-family request, one variant per engine operation.
#[derive(Debug, PartialEq, Eq)]
pub enum PointsRequest {
    /// get points with given info
    Get((ColName, PointRequest)),
    /// count points for given collection
    Count((ColName, CountRequest)),
    /// delete points with given info
    Delete((ColName, PointsSelector)),
    /// upsert points with given info
    Upsert((ColName, PointInsertOperations)),
    /// update point vectors
    UpdateVectors((ColName, UpdateVectors)),
    /// delete point vectors
    DeleteVectors((ColName, DeleteVectors)),
    /// set point payload
    SetPayload((ColName, SetPayload)),
    /// overwrite point payload
    OverwritePayload((ColName, SetPayload)),
    /// delete point payload
    DeletePayload((ColName, DeletePayload)),
    /// clear point payload
    ClearPayload((ColName, PointsSelector)),
}

/// A points-family response, mirroring `PointsRequest` one to one.
#[derive(Debug, PartialEq, Eq)]
pub enum PointsResponse {
    /// get points result
    Get(Vec<Record>),
    /// count status
    Count(CountResult),
    /// delete status
    Delete(UpdateResult),
    /// upsert status
    Upsert(UpdateResult),
    /// update status
    UpdateVectors(UpdateResult),
    /// delete status
    DeleteVectors(UpdateResult),
    /// set payload status
    SetPayload(UpdateResult),
    /// overwrite payload status
    OverwritePayload(UpdateResult),
    /// delete payload status
    DeletePayload(UpdateResult),
    /// clear payload status
    ClearPayload(UpdateResult),
}

/// The engine update that a delete-points selector turns into.
pub open spec fn delete_points_op(selector: PointsSelector) -> CollectionUpdateOperations {
    match selector {
        PointsSelector::PointIdsSelector(l) => CollectionUpdateOperations::PointOperation(
            PointOperations::DeletePoints { ids: l.points },
        ),
        PointsSelector::FilterSelector(fs) => CollectionUpdateOperations::PointOperation(
            PointOperations::DeletePointsByFilter(fs.filter),
        ),
    }
}

/// The engine update that a clear-payload selector turns into.
pub open spec fn clear_payload_op(selector: PointsSelector) -> CollectionUpdateOperations {
    match selector {
        PointsSelector::PointIdsSelector(l) => CollectionUpdateOperations::PayloadOperation(
            PayloadOps::ClearPayload { points: l.points },
        ),
        PointsSelector::FilterSelector(fs) => CollectionUpdateOperations::PayloadOperation(
            PayloadOps::ClearPayloadByFilter(fs.filter),
        ),
    }
}

/// The engine update that a delete-vectors request turns into: one
/// operation clearing the vectors of the listed points and of the points
/// matching the filter.
pub open spec fn delete_vectors_op(operation: DeleteVectors) -> CollectionUpdateOperations {
    CollectionUpdateOperations::VectorOperation(
        VectorOperations::DeleteVectors(
            DeleteVectorsOp {
                points: operation.points,
                filter: operation.filter,
                vector_names: operation.vector,
            },
        ),
    )
}

/// What deleting vectors does: one engine update covering the listed points
/// and the matching points together; with neither a filter nor a point list
/// the request is refused and nothing changes.
pub open spec fn delete_vectors_rel(
    pre: EngineV,
    name: Seq<char>,
    operation: DeleteVectors,
    post: EngineV,
    r: Result<UpdateResult, EngineError>,
) -> bool {
    if operation.filter is None && operation.points is None {
        &&& post == pre
        &&& err_bad_request(r, "No filter or points provided"@)
    } else {
        update_rel(pre, name, delete_vectors_op(operation), post, r)
    }
}

/// What dispatching a points-family request does: the shard selection is
/// resolved as the write or read path asks, the request becomes exactly one
/// engine operation, and the result is wrapped in the response variant of
/// the same name.
pub open spec fn points_handle_rel(
    pre: EngineV,
    req: PointsRequest,
    post: EngineV,
    r: Result<PointsResponse, EngineError>,
) -> bool {
    match req {
        PointsRequest::Get((name, request)) => match r {
            Ok(resp) => resp is Get && retrieve_rel(
                pre,
                name@,
                request.point_request.ids@,
                post,
                Ok(resp->Get_0),
            ),
            Err(e) => retrieve_rel(pre, name@, request.point_request.ids@, post, Err(e)),
        },
        PointsRequest::Count((name, request)) => match r {
            Ok(resp) => resp is Count && count_rel(
                pre,
                name@,
                request.count_request.filter,
                post,
                Ok(resp->Count_0),
            ),
            Err(e) => count_rel(pre, name@, request.count_request.filter, post, Err(e)),
        },
        PointsRequest::Delete((name, selector)) => match r {
            Ok(resp) => resp is Delete && update_rel(
                pre,
                name@,
                delete_points_op(selector),
                post,
                Ok(resp->Delete_0),
            ),
            Err(e) => update_rel(pre, name@, delete_points_op(selector), post, Err(e)),
        },
        PointsRequest::Upsert((name, ops)) => match r {
            Ok(resp) => resp is Upsert && update_rel(
                pre,
                name@,
                CollectionUpdateOperations::PointOperation(
                    PointOperations::UpsertPoints(ops.points),
                ),
                post,
                Ok(resp->Upsert_0),
            ),
            Err(e) => update_rel(
                pre,
                name@,
                CollectionUpdateOperations::PointOperation(
                    PointOperations::UpsertPoints(ops.points),
                ),
                post,
                Err(e),
            ),
        },
        PointsRequest::UpdateVectors((name, operation)) => match r {
            Ok(resp) => resp is UpdateVectors && update_rel(
                pre,
                name@,
                CollectionUpdateOperations::VectorOperation(
                    VectorOperations::UpdateVectors(UpdateVectorsOp { points: operation.points }),
                ),
                post,
                Ok(resp->UpdateVectors_0),
            ),
            Err(e) => update_rel(
                pre,
                name@,
                CollectionUpdateOperations::VectorOperation(
                    VectorOperations::UpdateVectors(UpdateVectorsOp { points: operation.points }),
                ),
                post,
                Err(e),
            ),
        },
        PointsRequest::DeleteVectors((name, operation)) => match r {
            Ok(resp) => resp is DeleteVectors && delete_vectors_rel(
                pre,
                name@,
                operation,
                post,
                Ok(resp->DeleteVectors_0),
            ),
            Err(e) => delete_vectors_rel(pre, name@, operation, post, Err(e)),
        },
        PointsRequest::SetPayload((name, payload)) => match r {
            Ok(resp) => resp is SetPayload && update_rel(
                pre,
                name@,
                set_payload_update(payload),
                post,
                Ok(resp->SetPayload_0),
            ),
            Err(e) => update_rel(pre, name@, set_payload_update(payload), post, Err(e)),
        },
        PointsRequest::OverwritePayload((name, payload)) => match r {
            Ok(resp) => resp is OverwritePayload && update_rel(
                pre,
                name@,
                overwrite_payload_update(payload),
                post,
                Ok(resp->OverwritePayload_0),
            ),
            Err(e) => update_rel(pre, name@, overwrite_payload_update(payload), post, Err(e)),
        },
        PointsRequest::DeletePayload((name, payload)) => match r {
            Ok(resp) => resp is DeletePayload && update_rel(
                pre,
                name@,
                delete_payload_update(payload),
                post,
                Ok(resp->DeletePayload_0),
            ),
            Err(e) => update_rel(pre, name@, delete_payload_update(payload), post, Err(e)),
        },
        PointsRequest::ClearPayload((name, selector)) => match r {
            Ok(resp) => resp is ClearPayload && update_rel(
                pre,
                name@,
                clear_payload_op(selector),
                post,
                Ok(resp->ClearPayload_0),
            ),
            Err(e) => update_rel(pre, name@, clear_payload_op(selector), post, Err(e)),
        },
    }
}

/// The engine update that a set-payload request turns into.
pub open spec fn set_payload_update(payload: SetPayload) -> CollectionUpdateOperations {
    CollectionUpdateOperations::PayloadOperation(
        PayloadOps::SetPayload(
            SetPayloadOp {
                payload: payload.payload,
                points: payload.points,
                filter: payload.filter,
            },
        ),
    )
}

/// The engine update that an overwrite-payload request turns into.
pub open spec fn overwrite_payload_update(payload: SetPayload) -> CollectionUpdateOperations {
    CollectionUpdateOperations::PayloadOperation(
        PayloadOps::OverwritePayload(
            SetPayloadOp {
                payload: payload.payload,
                points: payload.points,
                filter: payload.filter,
            },
        ),
    )
}

/// The engine update that a delete-payload request turns into.
pub open spec fn delete_payload_update(payload: DeletePayload) -> CollectionUpdateOperations {
    CollectionUpdateOperations::PayloadOperation(
        PayloadOps::DeletePayload(
            DeletePayloadOp {
                keys: payload.keys,
                points: payload.points,
                filter: payload.filter,
            },
        ),
    )
}

impl PointsRequest {
    /// Routes one points-family request to its engine operation.  Reads
    /// resolve their shard key on the read path; writes resolve theirs on
    /// the write path, where an explicit shard id would take precedence.
    pub fn handle(self, engine: &mut Engine) -> (r: Result<PointsResponse, EngineError>)
        requires
            engine_wf(old(engine)@),
        ensures
            engine_wf(final(engine)@),
            points_handle_rel(old(engine)@, self, final(engine)@, r),
    {
        match self {
            PointsRequest::Get((col_name, request)) => {
                let PointRequest { point_request, shard_key } = request;
                let _shard = shard_selector(shard_key);
                let ret = engine.retrieve(&col_name, &point_request.ids)?;
                Ok(PointsResponse::Get(ret))
            },
            PointsRequest::Count((col_name, request)) => {
                let CountRequest { count_request, shard_key } = request;
                let _shard = shard_selector(shard_key);
                let ret = engine.count(&col_name, &count_request.filter, count_request.exact)?;
                Ok(PointsResponse::Count(ret))
            },
            PointsRequest::Delete((col_name, selector)) => {
                let ret = do_delete_points(
                    engine,
                    &col_name,
                    selector,
                    None,
                    false,
                    WriteOrdering::default(),
                )?;
                Ok(PointsResponse::Delete(ret))
            },
            PointsRequest::Upsert((col_name, ops)) => {
                let ret = do_upsert_points(engine, &col_name, ops, None, false, WriteOrdering::default())?;
                Ok(PointsResponse::Upsert(ret))
            },
            PointsRequest::UpdateVectors((col_name, operation)) => {
                let ret = do_update_vectors(
                    engine,
                    &col_name,
                    operation,
                    None,
                    false,
                    WriteOrdering::default(),
                )?;
                Ok(PointsResponse::UpdateVectors(ret))
            },
            PointsRequest::DeleteVectors((col_name, operation)) => {
                let ret = do_delete_vectors(
                    engine,
                    &col_name,
                    operation,
                    None,
                    false,
                    WriteOrdering::default(),
                )?;
                Ok(PointsResponse::DeleteVectors(ret))
            },
            PointsRequest::SetPayload((col_name, payload)) => {
                let ret = do_set_payload(engine, &col_name, payload, None, false, WriteOrdering::default())?;
                Ok(PointsResponse::SetPayload(ret))
            },
            PointsRequest::OverwritePayload((col_name, payload)) => {
                let ret = do_overwrite_payload(
                    engine,
                    &col_name,
                    payload,
                    None,
                    false,
                    WriteOrdering::default(),
                )?;
                Ok(PointsResponse::OverwritePayload(ret))
            },
            PointsRequest::DeletePayload((col_name, payload)) => {
                let ret = do_delete_payload(
                    engine,
                    &col_name,
                    payload,
                    None,
                    false,
                    WriteOrdering::default(),
                )?;
                Ok(PointsResponse::DeletePayload(ret))
            },
            PointsRequest::ClearPayload((col_name, selector)) => {
                let ret = do_clear_payload(
                    engine,
                    &col_name,
                    selector,
                    None,
                    false,
                    WriteOrdering::default(),
                )?;
                Ok(PointsResponse::ClearPayload(ret))
            },
        }
    }
}

/// Upserts points: splits the shard key off, resolves the write-path shard
/// selection, and hands the engine one upsert operation.
fn do_upsert_points(
    engine: &mut Engine,
    collection_name: &String,
    operation: PointInsertOperations,
    shard_selection: Option<ShardId>,
    wait: bool,
    ordering: WriteOrdering,
) -> (r: Result<UpdateResult, EngineError>)
    requires
        engine_wf(old(engine)@),
    ensures
        engine_wf(final(engine)@),
        update_rel(
            old(engine)@,
            collection_name@,
            CollectionUpdateOperations::PointOperation(
                PointOperations::UpsertPoints(operation.points),
            ),
            final(engine)@,
            r,
        ),
{
    let (shard_key, points) = operation.decompose();
    let collection_operation = CollectionUpdateOperations::PointOperation(
        PointOperations::UpsertPoints(points),
    );
    let shard = get_shard_selector_for_update(shard_selection, shard_key);
    engine.update(collection_name, collection_operation, wait, ordering, shard)
}

/// Deletes points by identifier list or by filter.
fn do_delete_points(
    engine: &mut Engine,
    collection_name: &String,
    points: PointsSelector,
    shard_selection: Option<ShardId>,
    wait: bool,
    ordering: WriteOrdering,
) -> (r: Result<UpdateResult, EngineError>)
    requires
        engine_wf(old(engine)@),
    ensures
        engine_wf(final(engine)@),
        update_rel(old(engine)@, collection_name@, delete_points_op(points), final(engine)@, r),
{
    let ghost gsel = points;
    let (point_operation, shard_key) = match points {
        PointsSelector::PointIdsSelector(PointIdsList { points, shard_key }) => (
            PointOperations::DeletePoints { ids: points },
            shard_key,
        ),
        PointsSelector::FilterSelector(FilterSelector { filter, shard_key }) => (
            PointOperations::DeletePointsByFilter(filter),
            shard_key,
        ),
    };
    let collection_operation = CollectionUpdateOperations::PointOperation(point_operation);
    let shard = get_shard_selector_for_update(shard_selection, shard_key);
    engine.update(collection_name, collection_operation, wait, ordering, shard)
}

/// Replaces point vectors.
fn do_update_vectors(
    engine: &mut Engine,
    collection_name: &String,
    operation: UpdateVectors,
    shard_selection: Option<ShardId>,
    wait: bool,
    ordering: WriteOrdering,
) -> (r: Result<UpdateResult, EngineError>)
    requires
        engine_wf(old(engine)@),
    ensures
        engine_wf(final(engine)@),
        update_rel(
            old(engine)@,
            collection_name@,
            CollectionUpdateOperations::VectorOperation(
                VectorOperations::UpdateVectors(UpdateVectorsOp { points: operation.points }),
            ),
            final(engine)@,
            r,
        ),
{
    let UpdateVectors { points, shard_key } = operation;
    let collection_operation = CollectionUpdateOperations::VectorOperation(
        VectorOperations::UpdateVectors(UpdateVectorsOp { points }),
    );
    let shard = get_shard_selector_for_update(shard_selection, shard_key);
    engine.update(collection_name, collection_operation, wait, ordering, shard)
}

/// Deletes vectors of the listed points and of the matching points in one
/// engine update; with neither a filter nor a point list the request is
/// refused.
fn do_delete_vectors(
    engine: &mut Engine,
    collection_name: &String,
    operation: DeleteVectors,
    shard_selection: Option<ShardId>,
    wait: bool,
    ordering: WriteOrdering,
) -> (r: Result<UpdateResult, EngineError>)
    requires
        engine_wf(old(engine)@),
    ensures
        engine_wf(final(engine)@),
        delete_vectors_rel(old(engine)@, collection_name@, operation, final(engine)@, r),
{
    let DeleteVectors { vector, filter, points, shard_key } = operation;
    if filter.is_none() && points.is_none() {
        return Err(EngineError::BadRequest("No filter or points provided".to_owned()));
    }
    let collection_operation = CollectionUpdateOperations::VectorOperation(
        VectorOperations::DeleteVectors(
            DeleteVectorsOp { points, filter, vector_names: vector },
        ),
    );
    let shard = get_shard_selector_for_update(shard_selection, shard_key);
    engine.update(collection_name, collection_operation, wait, ordering, shard)
}

/// Sets (merges) point payload.
fn do_set_payload(
    engine: &mut Engine,
    collection_name: &String,
    operation: SetPayload,
    shard_selection: Option<ShardId>,
    wait: bool,
    ordering: WriteOrdering,
) -> (r: Result<UpdateResult, EngineError>)
    requires
        engine_wf(old(engine)@),
    ensures
        engine_wf(final(engine)@),
        update_rel(
            old(engine)@,
            collection_name@,
            set_payload_update(operation),
            final(engine)@,
            r,
        ),
{
    let SetPayload { payload, points, filter, shard_key } = operation;
    let collection_operation = CollectionUpdateOperations::PayloadOperation(
        PayloadOps::SetPayload(SetPayloadOp { payload, points, filter }),
    );
    let shard = get_shard_selector_for_update(shard_selection, shard_key);
    engine.update(collection_name, collection_operation, wait, ordering, shard)
}

/// Overwrites point payload.
fn do_overwrite_payload(
    engine: &mut Engine,
    collection_name: &String,
    operation: SetPayload,
    shard_selection: Option<ShardId>,
    wait: bool,
    ordering: WriteOrdering,
) -> (r: Result<UpdateResult, EngineError>)
    requires
        engine_wf(old(engine)@),
    ensures
        engine_wf(final(engine)@),
        update_rel(
            old(engine)@,
            collection_name@,
            overwrite_payload_update(operation),
            final(engine)@,
            r,
        ),
{
    let SetPayload { payload, points, filter, shard_key } = operation;
    let collection_operation = CollectionUpdateOperations::PayloadOperation(
        PayloadOps::OverwritePayload(SetPayloadOp { payload, points, filter }),
    );
    let shard = get_shard_selector_for_update(shard_selection, shard_key);
    engine.update(collection_name, collection_operation, wait, ordering, shard)
}

/// Deletes payload keys.
fn do_delete_payload(
    engine: &mut Engine,
    collection_name: &String,
    operation: DeletePayload,
    shard_selection: Option<ShardId>,
    wait: bool,
    ordering: WriteOrdering,
) -> (r: Result<UpdateResult, EngineError>)
    requires
        engine_wf(old(engine)@),
    ensures
        engine_wf(final(engine)@),
        update_rel(
            old(engine)@,
            collection_name@,
            delete_payload_update(operation),
            final(engine)@,
            r,
        ),
{
    let DeletePayload { keys, points, filter, shard_key } = operation;
    let collection_operation = CollectionUpdateOperations::PayloadOperation(
        PayloadOps::DeletePayload(DeletePayloadOp { keys, points, filter }),
    );
    let shard = get_shard_selector_for_update(shard_selection, shard_key);
    engine.update(collection_name, collection_operation, wait, ordering, shard)
}

/// Clears point payload by identifier list or by filter.
fn do_clear_payload(
    engine: &mut Engine,
    collection_name: &String,
    points: PointsSelector,
    shard_selection: Option<ShardId>,
    wait: bool,
    ordering: WriteOrdering,
) -> (r: Result<UpdateResult, EngineError>)
    requires
        engine_wf(old(engine)@),
    ensures
        engine_wf(final(engine)@),
        update_rel(old(engine)@, collection_name@, clear_payload_op(points), final(engine)@, r),
{
    let (point_operation, shard_key) = match points {
        PointsSelector::PointIdsSelector(PointIdsList { points, shard_key }) => (
            PayloadOps::ClearPayload { points },
            shard_key,
        ),
        PointsSelector::FilterSelector(FilterSelector { filter, shard_key }) => (
            PayloadOps::ClearPayloadByFilter(filter),
            shard_key,
        ),
    };
    let collection_operation = CollectionUpdateOperations::PayloadOperation(point_operation);
    let shard = get_shard_selector_for_update(shard_selection, shard_key);
    engine.update(collection_name, collection_operation, wait, ordering, shard)
}

} // verus!
