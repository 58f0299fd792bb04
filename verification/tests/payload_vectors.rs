use qdrant_embedded::{
    DeletePayload, DeleteVectors, Distance, EngineError, Filter, PayloadEntry, PointStruct,
    PointVectors, QdrantError, QdrantInstance, SetPayload, VectorsConfig,
};

fn config() -> VectorsConfig {
    VectorsConfig { size: 2, distance: Distance::Cosine }
}

fn kv(key: &str, value: &str) -> PayloadEntry {
    PayloadEntry { key: key.to_string(), value: value.to_string() }
}

fn seeded() -> QdrantInstance {
    let mut inst = QdrantInstance::start();
    inst.create_collection("docs".to_string(), config()).unwrap();
    inst.upsert_points(
        "docs".to_string(),
        vec![
            PointStruct { id: 1, vector: vec![10], payload: vec![kv("doc", "a"), kv("lang", "en")] },
            PointStruct { id: 2, vector: vec![20], payload: vec![kv("doc", "b")] },
        ],
    )
    .unwrap();
    inst
}

fn fetch(inst: &mut QdrantInstance, ids: Vec<u64>) -> Vec<qdrant_embedded::Record> {
    inst.get_points(
        "docs".to_string(),
        qdrant_embedded::PointRequest {
            point_request: qdrant_embedded::PointRequestInternal { ids },
            shard_key: None,
        },
    )
    .unwrap()
}

#[test]
fn set_payload_merges_by_key() {
    let mut inst = seeded();
    let data = SetPayload {
        payload: vec![kv("doc", "a2"), kv("tag", "new")],
        points: Some(vec![1]),
        filter: None,
        shard_key: None,
    };
    inst.set_payload("docs".to_string(), data).unwrap();
    let recs = fetch(&mut inst, vec![1, 2]);
    // Point 1: "doc" replaced, "lang" kept, "tag" appended.
    assert_eq!(recs[0].payload, vec![kv("lang", "en"), kv("doc", "a2"), kv("tag", "new")]);
    // Point 2 untouched.
    assert_eq!(recs[1].payload, vec![kv("doc", "b")]);
}

#[test]
fn set_payload_by_filter_targets_matching_points() {
    let mut inst = seeded();
    let data = SetPayload {
        payload: vec![kv("seen", "yes")],
        points: None,
        filter: Some(Filter { key: "doc".to_string(), value: "b".to_string() }),
        shard_key: None,
    };
    inst.set_payload("docs".to_string(), data).unwrap();
    let recs = fetch(&mut inst, vec![1, 2]);
    assert_eq!(recs[0].payload, vec![kv("doc", "a"), kv("lang", "en")]);
    assert_eq!(recs[1].payload, vec![kv("doc", "b"), kv("seen", "yes")]);
}

#[test]
fn delete_payload_drops_listed_keys() {
    let mut inst = seeded();
    let data = DeletePayload {
        keys: vec!["lang".to_string()],
        points: Some(vec![1]),
        filter: None,
        shard_key: None,
    };
    inst.delete_payload("docs".to_string(), data).unwrap();
    let recs = fetch(&mut inst, vec![1]);
    assert_eq!(recs[0].payload, vec![kv("doc", "a")]);
}

#[test]
fn clear_payload_empties_selected_points() {
    let mut inst = seeded();
    let selector = qdrant_embedded::PointsSelector::PointIdsSelector(
        qdrant_embedded::PointIdsList { points: vec![2], shard_key: None },
    );
    inst.clear_payload("docs".to_string(), selector).unwrap();
    let recs = fetch(&mut inst, vec![1, 2]);
    assert_eq!(recs[0].payload, vec![kv("doc", "a"), kv("lang", "en")]);
    assert_eq!(recs[1].payload, vec![]);
}

#[test]
fn update_vectors_replaces_only_named_points() {
    let mut inst = seeded();
    inst.update_vectors(
        "docs".to_string(),
        vec![PointVectors { id: 1, vector: vec![99, 98] }],
    )
    .unwrap();
    let recs = fetch(&mut inst, vec![1, 2]);
    assert_eq!(recs[0].vector, vec![99, 98]);
    assert_eq!(recs[1].vector, vec![20]);
}

#[test]
fn delete_vectors_needs_filter_or_points() {
    let mut inst = seeded();
    let data = DeleteVectors { vector: vec![], filter: None, points: None, shard_key: None };
    assert_eq!(
        inst.delete_vectors("docs".to_string(), data),
        Err(QdrantError::Storage(EngineError::BadRequest(
            "No filter or points provided".to_string()
        )))
    );
}

#[test]
fn delete_vectors_clears_selected_vectors() {
    let mut inst = seeded();
    let data = DeleteVectors {
        vector: vec!["default".to_string()],
        filter: None,
        points: Some(vec![2]),
        shard_key: None,
    };
    inst.delete_vectors("docs".to_string(), data).unwrap();
    let recs = fetch(&mut inst, vec![1, 2]);
    assert_eq!(recs[0].vector, vec![10]);
    assert_eq!(recs[1].vector, Vec::<u64>::new());
}

#[test]
fn delete_vectors_with_filter_and_points_is_one_write() {
    let mut inst = seeded();
    // The seed made one write (the upsert, numbered 0).  A delete that
    // carries both a filter and a point list is still a single engine
    // update: it gets the next number, and the write after it the one
    // after that.
    let data = DeleteVectors {
        vector: vec![],
        filter: Some(Filter { key: "doc".to_string(), value: "a".to_string() }),
        points: Some(vec![2]),
        shard_key: None,
    };
    let receipt = inst.delete_vectors("docs".to_string(), data).unwrap();
    assert_eq!(receipt.operation_id, 1);
    let next = inst
        .update_vectors("docs".to_string(), vec![PointVectors { id: 1, vector: vec![7] }])
        .unwrap();
    assert_eq!(next.operation_id, 2);
}

#[test]
fn delete_vectors_with_filter_and_points_clears_both() {
    let mut inst = seeded();
    // Point 1 matches the filter, point 2 is listed: both vectors go.
    let data = DeleteVectors {
        vector: vec![],
        filter: Some(Filter { key: "doc".to_string(), value: "a".to_string() }),
        points: Some(vec![2]),
        shard_key: None,
    };
    inst.delete_vectors("docs".to_string(), data).unwrap();
    let recs = fetch(&mut inst, vec![1, 2]);
    assert_eq!(recs[0].vector, Vec::<u64>::new());
    assert_eq!(recs[1].vector, Vec::<u64>::new());
}

#[test]
fn delete_points_by_filter() {
    let mut inst = seeded();
    let selector = qdrant_embedded::PointsSelector::FilterSelector(
        qdrant_embedded::FilterSelector {
            filter: Filter { key: "doc".to_string(), value: "a".to_string() },
            shard_key: None,
        },
    );
    inst.delete_points("docs".to_string(), selector).unwrap();
    assert_eq!(inst.count_points("docs".to_string(), None, true), Ok(1));
    let recs = fetch(&mut inst, vec![1, 2]);
    assert_eq!(recs.len(), 1);
    assert_eq!(recs[0].id, 2);
}
