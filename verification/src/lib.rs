mod collections;
mod config;
mod engine;
mod engine_points;
mod engine_query;
mod error;
mod helpers;
mod instance;
mod lifecycle;
mod operations;
mod points;
mod query;
mod shard;
mod types;

pub use collections::{CollectionRequest, AliasRequest, CollectionResponse, AliasResponse, CreateAlias, DeleteAlias, RenameAlias, AliasOperations, ChangeAliasesOperation, create_alias_op, delete_alias_op, rename_alias_op, collection_handle_rel, alias_handle_rel};
pub use config::{StorageSettings, Settings, default_log_level, default_telemetry_disabled};
pub use helpers::{spec_search_thread_count, search_thread_count, update_blocking_threads, general_worker_threads};
pub use engine::{Collection, ColV, AliasDescription, AliasV, CollectionsAliasesResponse, aliases_view, Engine, EngineV, has_col, col_index, has_alias, alias_index, ids_unique, engine_wf, err_not_found, err_bad_input, err_bad_request, list_collections_rel, get_collection_rel, create_collection_rel, update_collection_rel, delete_collection_rel, list_aliases_rel, collection_aliases_rel, create_alias_rel, delete_alias_rel, rename_alias_rel};
pub use engine_points::{has_pt, pt_index, spec_upsert_one, spec_upsert, spec_set_vector, spec_update_vectors, keys_view, spec_merge, spec_delete_keys, target_sel, vector_delete_target, spec_clear_vectors, payload_point_xform, apply_update_op, next_op, receipt, retrieve_rel, count_rel, update_rel, lemma_filter_ids_unique};
pub use operations::{PointIdsList, FilterSelector, PointsSelector, PointInsertOperations, PointVectors, UpdateVectors, DeleteVectors, SetPayload, DeletePayload, PointRequestInternal, PointRequest, CountRequestInternal, CountRequest, CountResult, SetPayloadOp, DeletePayloadOp, UpdateVectorsOp, DeleteVectorsOp, PointOperations, VectorOperations, PayloadOps, CollectionUpdateOperations, SearchRequestInternal, SearchRequest, SearchRequestBatch, SearchGroupsRequestInternal, SearchGroupsRequest, RecommendRequestInternal, RecommendRequest, RecommendRequestBatch, RecommendGroupsRequestInternal, RecommendGroupsRequest, PointGroup, GroupsResult};
pub use engine_query::{take_at_most, spec_search, spec_recommend, search_rel, lemma_search_missing_collection, search_batch_rel, recommend_rel, recommend_batch_rel, GroupV, groups_view, has_group, group_index, group_ids_unique, add_to_groups, spec_groups, cap_groups, groups_rel};
pub use error::{EngineError, QdrantError};
pub use instance::{QdrantRequest, QdrantResponse, qdrant_handle_rel, collection_matches, alias_matches, points_matches, query_matches, response_matches, lemma_response_matches, QdrantInstance};
pub use lifecycle::{Phase, phase_rank, QDRANT_CHANNEL_BUFFER, ActorState, Event, StepOutcome, live_holders, spec_init, spec_step, inv, spec_run, lemma_init_inv, lemma_step_preserves_inv, lemma_run_preserves_inv, lemma_phase_monotonic, lemma_no_admission_after_close, lemma_teardown_requires_quiescence, lemma_signal_at_most_once, signals_fired, lemma_signal_exactly_once, lemma_signal_after_teardown, lemma_signal_implies_drained};
pub use points::{PointsRequest, PointsResponse, delete_points_op, clear_payload_op, delete_vectors_op, delete_vectors_rel, points_handle_rel, set_payload_update, overwrite_payload_update, delete_payload_update};
pub use query::{QueryRequest, QueryResponse, batch_internals, recommend_internals, query_handle_rel, r_to_unit};
pub use shard::{ShardId, ShardKey, ShardKeySelector, ShardSelector, selector_of_keys, spec_shard_selector, spec_shard_selector_for_update, shard_selector, get_shard_selector_for_update, lemma_shard_id_precedence, lemma_empty_selector_asymmetry};
pub use types::{ColName, PointId, Vector, PayloadEntry, Payload, KvV, payload_view, Filter, filter_view, PointStruct, Record, PointV, points_view, records_view, ScoredPoint, ScoredV, scored_view, hit_of, Distance, VectorsConfig, CreateCollection, UpdateCollection, CollectionInfo, WriteOrdering, UpdateStatus, UpdateResult, payload_has, payload_has_key, payload_get, payload_matches, payload_has_exec, payload_matches_exec, payload_get_exec, contains_id, lemma_map_values_push, lemma_map_values_update, lemma_map_values_remove, lemma_filter_push, lemma_take_succ, clone_vector, clone_payload, clone_point};
