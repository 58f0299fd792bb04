use qdrant_embedded::{
    Distance, EngineError, Filter, PayloadEntry, PointGroup, PointStruct, QdrantError,
    QdrantInstance, RecommendGroupsRequest, RecommendGroupsRequestInternal, RecommendRequest,
    RecommendRequestInternal, ScoredPoint, SearchGroupsRequest, SearchGroupsRequestInternal,
    SearchRequest, SearchRequestInternal, VectorsConfig,
};

fn config() -> VectorsConfig {
    VectorsConfig { size: 1, distance: Distance::Cosine }
}

fn kv(key: &str, value: &str) -> PayloadEntry {
    PayloadEntry { key: key.to_string(), value: value.to_string() }
}

fn doc(id: u64, group: &str) -> PointStruct {
    PointStruct { id, vector: vec![id], payload: vec![kv("group", group)] }
}

fn hit(id: u64, group: &str) -> ScoredPoint {
    ScoredPoint { id, score: 0, payload: vec![kv("group", group)] }
}

fn seeded() -> QdrantInstance {
    let mut inst = QdrantInstance::start();
    inst.create_collection("docs".to_string(), config()).unwrap();
    inst.upsert_points(
        "docs".to_string(),
        vec![doc(1, "x"), doc(2, "y"), doc(3, "x"), doc(4, "y"), doc(5, "x")],
    )
    .unwrap();
    inst
}

fn search(filter: Option<Filter>, limit: usize) -> SearchRequest {
    SearchRequest {
        search_request: SearchRequestInternal { vector: vec![0], filter, limit },
        shard_key: None,
    }
}

#[test]
fn search_returns_matching_points_up_to_the_limit() {
    let mut inst = seeded();
    let hits = inst.search_points("docs".to_string(), search(None, 3)).unwrap();
    assert_eq!(hits, vec![hit(1, "x"), hit(2, "y"), hit(3, "x")]);

    let f = Filter { key: "group".to_string(), value: "y".to_string() };
    let hits = inst.search_points("docs".to_string(), search(Some(f), 10)).unwrap();
    assert_eq!(hits, vec![hit(2, "y"), hit(4, "y")]);
}

#[test]
fn search_batch_answers_each_request_in_order() {
    let mut inst = seeded();
    let f = Filter { key: "group".to_string(), value: "x".to_string() };
    let res = inst
        .search_points_batch(
            "docs".to_string(),
            vec![search(None, 1), search(Some(f), 10)],
        )
        .unwrap();
    assert_eq!(res.len(), 2);
    assert_eq!(res[0], vec![hit(1, "x")]);
    assert_eq!(res[1], vec![hit(1, "x"), hit(3, "x"), hit(5, "x")]);
}

#[test]
fn search_groups_by_payload_value_in_first_occurrence_order() {
    let mut inst = seeded();
    let req = SearchGroupsRequest {
        search_group_request: SearchGroupsRequestInternal {
            vector: vec![0],
            filter: None,
            group_by: "group".to_string(),
            group_size: 2,
            limit: 10,
        },
        shard_key: None,
    };
    let groups = inst.search_points_group_by("docs".to_string(), req).unwrap();
    assert_eq!(
        groups,
        vec![
            PointGroup { id: "x".to_string(), hits: vec![hit(1, "x"), hit(3, "x")] },
            PointGroup { id: "y".to_string(), hits: vec![hit(2, "y"), hit(4, "y")] },
        ]
    );
}

#[test]
fn search_groups_honour_the_group_limit() {
    let mut inst = seeded();
    let req = SearchGroupsRequest {
        search_group_request: SearchGroupsRequestInternal {
            vector: vec![0],
            filter: None,
            group_by: "group".to_string(),
            group_size: 10,
            limit: 1,
        },
        shard_key: None,
    };
    let groups = inst.search_points_group_by("docs".to_string(), req).unwrap();
    assert_eq!(
        groups,
        vec![PointGroup {
            id: "x".to_string(),
            hits: vec![hit(1, "x"), hit(3, "x"), hit(5, "x")],
        }]
    );
}

#[test]
fn recommend_excludes_the_example_points() {
    let mut inst = seeded();
    let req = RecommendRequest {
        recommend_request: RecommendRequestInternal {
            positive: vec![1],
            negative: vec![2],
            filter: None,
            limit: 10,
        },
        shard_key: None,
    };
    let hits = inst.recommend_points("docs".to_string(), req).unwrap();
    assert_eq!(hits, vec![hit(3, "x"), hit(4, "y"), hit(5, "x")]);
}

#[test]
fn recommend_requires_a_positive_example() {
    let mut inst = seeded();
    let req = RecommendRequest {
        recommend_request: RecommendRequestInternal {
            positive: vec![],
            negative: vec![],
            filter: None,
            limit: 10,
        },
        shard_key: None,
    };
    assert_eq!(
        inst.recommend_points("docs".to_string(), req),
        Err(QdrantError::Storage(EngineError::BadRequest(
            "No positive examples provided".to_string()
        )))
    );
}

#[test]
fn recommend_batch_answers_each_request() {
    let mut inst = seeded();
    let mk = |positive: Vec<u64>, limit: usize| RecommendRequest {
        recommend_request: RecommendRequestInternal {
            positive,
            negative: vec![],
            filter: None,
            limit,
        },
        shard_key: None,
    };
    let res = inst
        .recommend_points_batch("docs".to_string(), vec![mk(vec![1], 2), mk(vec![5], 10)])
        .unwrap();
    assert_eq!(res[0], vec![hit(2, "y"), hit(3, "x")]);
    assert_eq!(res[1], vec![hit(1, "x"), hit(2, "y"), hit(3, "x"), hit(4, "y")]);
}

#[test]
fn recommend_groups_exclude_examples_and_group_the_rest() {
    let mut inst = seeded();
    let req = RecommendGroupsRequest {
        recommend_group_request: RecommendGroupsRequestInternal {
            positive: vec![1],
            negative: vec![],
            filter: None,
            group_by: "group".to_string(),
            group_size: 10,
            limit: 10,
        },
        shard_key: None,
    };
    let groups = inst.recommend_points_group_by("docs".to_string(), req).unwrap();
    assert_eq!(
        groups,
        vec![
            PointGroup { id: "y".to_string(), hits: vec![hit(2, "y"), hit(4, "y")] },
            PointGroup { id: "x".to_string(), hits: vec![hit(3, "x"), hit(5, "x")] },
        ]
    );
}

#[test]
fn queries_against_a_missing_collection_are_not_found() {
    let mut inst = QdrantInstance::start();
    let err = Err(QdrantError::Storage(EngineError::NotFound("gone".to_string())));
    assert_eq!(inst.search_points("gone".to_string(), search(None, 1)), err);
    let req = RecommendRequest {
        recommend_request: RecommendRequestInternal {
            positive: vec![1],
            negative: vec![],
            filter: None,
            limit: 1,
        },
        shard_key: None,
    };
    assert_eq!(
        inst.recommend_points("gone".to_string(), req),
        Err(QdrantError::Storage(EngineError::NotFound("gone".to_string())))
    );
}
