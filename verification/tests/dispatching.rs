use qdrant_embedded::{
    AliasRequest, CollectionRequest, Distance, EngineError, Filter, PayloadEntry, PointStruct,
    PointsRequest, QdrantError, QdrantInstance, QdrantRequest, QdrantResponse, QueryRequest,
    SearchRequest, SearchRequestInternal, VectorsConfig,
};

fn config() -> VectorsConfig {
    VectorsConfig { size: 2, distance: Distance::Dot }
}

fn kv(key: &str, value: &str) -> PayloadEntry {
    PayloadEntry { key: key.to_string(), value: value.to_string() }
}

fn point(id: u64, doc: &str) -> PointStruct {
    PointStruct { id, vector: vec![id], payload: vec![kv("doc", doc)] }
}

#[test]
fn responses_come_back_in_the_request_family() {
    let mut inst = QdrantInstance::start();

    let r = inst.submit(QdrantRequest::Collection(CollectionRequest::List)).unwrap();
    assert!(matches!(
        r,
        QdrantResponse::Collection(qdrant_embedded::CollectionResponse::List(_))
    ));

    let r = inst.submit(QdrantRequest::Alias(AliasRequest::List)).unwrap();
    assert!(matches!(r, QdrantResponse::Alias(qdrant_embedded::AliasResponse::List(_))));

    let r = inst
        .submit(QdrantRequest::Collection(CollectionRequest::Create((
            "docs".to_string(),
            qdrant_embedded::CreateCollection { vectors: config() },
        ))))
        .unwrap();
    assert!(matches!(
        r,
        QdrantResponse::Collection(qdrant_embedded::CollectionResponse::Create(true))
    ));

    let r = inst
        .submit(QdrantRequest::Points(PointsRequest::Count((
            "docs".to_string(),
            qdrant_embedded::CountRequest {
                count_request: qdrant_embedded::CountRequestInternal {
                    filter: None,
                    exact: true,
                },
                shard_key: None,
            },
        ))))
        .unwrap();
    assert!(matches!(
        r,
        QdrantResponse::Points(qdrant_embedded::PointsResponse::Count(_))
    ));

    let r = inst
        .submit(QdrantRequest::Query(QueryRequest::Search((
            "docs".to_string(),
            SearchRequest {
                search_request: SearchRequestInternal { vector: vec![1], filter: None, limit: 5 },
                shard_key: None,
            },
        ))))
        .unwrap();
    assert!(matches!(
        r,
        QdrantResponse::Query(qdrant_embedded::QueryResponse::Search(_))
    ));
}

#[test]
fn alias_lifecycle() {
    let mut inst = QdrantInstance::start();
    assert_eq!(inst.create_collection("docs".to_string(), config()), Ok(true));
    assert_eq!(inst.create_collection("other".to_string(), config()), Ok(true));

    assert_eq!(inst.create_alias("docs".to_string(), "d".to_string()), Ok(true));
    assert_eq!(inst.create_alias("other".to_string(), "o".to_string()), Ok(true));

    assert_eq!(
        inst.list_aliases(),
        Ok(vec![
            ("docs".to_string(), "d".to_string()),
            ("other".to_string(), "o".to_string()),
        ])
    );
    assert_eq!(
        inst.get_aliases("docs".to_string()),
        Ok(vec![("docs".to_string(), "d".to_string())])
    );

    assert_eq!(inst.rename_alias("d".to_string(), "dd".to_string()), Ok(true));
    assert_eq!(
        inst.get_aliases("docs".to_string()),
        Ok(vec![("docs".to_string(), "dd".to_string())])
    );

    assert_eq!(inst.delete_alias("dd".to_string()), Ok(true));
    assert_eq!(inst.get_aliases("docs".to_string()), Ok(vec![]));

    // An alias for a missing collection is refused.
    assert_eq!(
        inst.create_alias("missing".to_string(), "m".to_string()),
        Err(QdrantError::Storage(EngineError::NotFound("missing".to_string())))
    );
    // A taken alias name is refused as bad input.
    assert_eq!(
        inst.create_alias("docs".to_string(), "o".to_string()),
        Err(QdrantError::Storage(EngineError::BadInput("o".to_string())))
    );
    // Deleting a missing alias is an error.
    assert_eq!(
        inst.delete_alias("gone".to_string()),
        Err(QdrantError::Storage(EngineError::NotFound("gone".to_string())))
    );
}

#[test]
fn collection_lifecycle_errors() {
    let mut inst = QdrantInstance::start();
    assert_eq!(inst.create_collection("docs".to_string(), config()), Ok(true));
    // Creating a collection under a taken name is bad input.
    assert_eq!(
        inst.create_collection("docs".to_string(), config()),
        Err(QdrantError::Storage(EngineError::BadInput("docs".to_string())))
    );
    // Updating a missing collection is not found.
    assert_eq!(
        inst.update_collection(
            "missing".to_string(),
            qdrant_embedded::UpdateCollection { vectors: None },
        ),
        Err(QdrantError::Storage(EngineError::NotFound("missing".to_string())))
    );
    // Deleting reports whether anything was there.
    assert_eq!(inst.delete_collection("docs".to_string()), Ok(true));
    assert_eq!(inst.delete_collection("docs".to_string()), Ok(false));
    assert_eq!(inst.get_collection("docs".to_string()), Ok(None));
}

#[test]
fn update_collection_replaces_config() {
    let mut inst = QdrantInstance::start();
    inst.create_collection("docs".to_string(), config()).unwrap();
    let newcfg = VectorsConfig { size: 4, distance: Distance::Euclid };
    assert_eq!(
        inst.update_collection(
            "docs".to_string(),
            qdrant_embedded::UpdateCollection { vectors: Some(newcfg) },
        ),
        Ok(true)
    );
    let info = inst.get_collection("docs".to_string()).unwrap().unwrap();
    assert_eq!(info.config, newcfg);
}

#[test]
fn upsert_replaces_points_with_same_id() {
    let mut inst = QdrantInstance::start();
    inst.create_collection("docs".to_string(), config()).unwrap();
    inst.upsert_points("docs".to_string(), vec![point(1, "a"), point(2, "b")]).unwrap();
    // A later upsert of id 1 replaces the stored point; the count stays.
    inst.upsert_points("docs".to_string(), vec![point(1, "changed")]).unwrap();
    assert_eq!(inst.count_points("docs".to_string(), None, true), Ok(2));
    let recs = inst
        .get_points(
            "docs".to_string(),
            qdrant_embedded::PointRequest {
                point_request: qdrant_embedded::PointRequestInternal { ids: vec![1] },
                shard_key: None,
            },
        )
        .unwrap();
    assert_eq!(recs.len(), 1);
    assert_eq!(recs[0].payload, vec![kv("doc", "changed")]);
}

#[test]
fn count_honours_the_filter() {
    let mut inst = QdrantInstance::start();
    inst.create_collection("docs".to_string(), config()).unwrap();
    inst.upsert_points(
        "docs".to_string(),
        vec![point(1, "a"), point(2, "b"), point(3, "a")],
    )
    .unwrap();
    let f = Filter { key: "doc".to_string(), value: "a".to_string() };
    assert_eq!(inst.count_points("docs".to_string(), Some(f), true), Ok(2));
    let g = Filter { key: "doc".to_string(), value: "zzz".to_string() };
    assert_eq!(inst.count_points("docs".to_string(), Some(g), false), Ok(0));
}

#[test]
fn update_collection_with_nothing_to_change_keeps_config() {
    let mut inst = QdrantInstance::start();
    inst.create_collection("docs".to_string(), config()).unwrap();
    assert_eq!(
        inst.update_collection(
            "docs".to_string(),
            qdrant_embedded::UpdateCollection { vectors: None },
        ),
        Ok(true)
    );
    let info = inst.get_collection("docs".to_string()).unwrap().unwrap();
    assert_eq!(info.config, config());
}

#[test]
fn list_collections_reports_names_in_creation_order() {
    let mut inst = QdrantInstance::start();
    inst.create_collection("alpha".to_string(), config()).unwrap();
    inst.create_collection("beta".to_string(), config()).unwrap();
    assert_eq!(
        inst.list_collections(),
        Ok(vec!["alpha".to_string(), "beta".to_string()])
    );
}

#[test]
fn get_points_from_missing_collection_is_not_found() {
    let mut inst = QdrantInstance::start();
    let res = inst.get_points(
        "gone".to_string(),
        qdrant_embedded::PointRequest {
            point_request: qdrant_embedded::PointRequestInternal { ids: vec![1] },
            shard_key: None,
        },
    );
    assert_eq!(
        res,
        Err(QdrantError::Storage(EngineError::NotFound("gone".to_string())))
    );
}

#[test]
fn overwrite_payload_replaces_the_whole_document() {
    let mut inst = QdrantInstance::start();
    inst.create_collection("docs".to_string(), config()).unwrap();
    inst.upsert_points("docs".to_string(), vec![point(1, "a")]).unwrap();
    let op = qdrant_embedded::SetPayload {
        payload: vec![kv("only", "this")],
        points: Some(vec![1]),
        filter: None,
        shard_key: None,
    };
    let resp = inst
        .submit(QdrantRequest::Points(PointsRequest::OverwritePayload((
            "docs".to_string(),
            op,
        ))))
        .unwrap();
    assert!(matches!(
        resp,
        QdrantResponse::Points(qdrant_embedded::PointsResponse::OverwritePayload(_))
    ));
    let recs = inst
        .get_points(
            "docs".to_string(),
            qdrant_embedded::PointRequest {
                point_request: qdrant_embedded::PointRequestInternal { ids: vec![1] },
                shard_key: None,
            },
        )
        .unwrap();
    assert_eq!(recs[0].payload, vec![kv("only", "this")]);
}

#[test]
fn write_receipts_number_operations_in_order() {
    let mut inst = QdrantInstance::start();
    inst.create_collection("docs".to_string(), config()).unwrap();
    let r0 = inst.upsert_points("docs".to_string(), vec![point(1, "a")]).unwrap();
    let r1 = inst.upsert_points("docs".to_string(), vec![point(2, "b")]).unwrap();
    assert_eq!(r0.operation_id, 0);
    assert_eq!(r1.operation_id, 1);
    assert_eq!(r1.status, qdrant_embedded::UpdateStatus::Completed);
}
