use qdrant_embedded::{
    ActorState, CollectionInfo, Distance, EngineError, Event, PayloadEntry, PointStruct,
    PointsSelector, PointIdsList, QdrantError, QdrantInstance, Record, SearchRequest,
    SearchRequestInternal, StepOutcome, VectorsConfig,
};

fn doc_point(id: u64, doc: &str) -> PointStruct {
    PointStruct {
        id,
        vector: vec![id, id + 1],
        payload: vec![PayloadEntry { key: "doc".to_string(), value: doc.to_string() }],
    }
}

fn default_config() -> VectorsConfig {
    VectorsConfig { size: 2, distance: Distance::Cosine }
}

#[test]
fn create_upsert_count_delete_get_roundtrip() {
    let mut inst = QdrantInstance::start();
    assert_eq!(inst.create_collection("docs".to_string(), default_config()), Ok(true));

    let points = vec![doc_point(1, "a"), doc_point(2, "b"), doc_point(3, "c")];
    let receipt = inst.upsert_points("docs".to_string(), points).unwrap();
    assert_eq!(receipt.operation_id, 0);

    assert_eq!(inst.count_points("docs".to_string(), None, true), Ok(3));

    let selector = PointsSelector::PointIdsSelector(PointIdsList {
        points: vec![2],
        shard_key: None,
    });
    inst.delete_points("docs".to_string(), selector).unwrap();

    assert_eq!(inst.count_points("docs".to_string(), None, true), Ok(2));

    let records = inst
        .get_points(
            "docs".to_string(),
            qdrant_embedded::PointRequest {
                point_request: qdrant_embedded::PointRequestInternal { ids: vec![1, 3] },
                shard_key: None,
            },
        )
        .unwrap();
    let expected = vec![
        Record {
            id: 1,
            vector: vec![1, 2],
            payload: vec![PayloadEntry { key: "doc".to_string(), value: "a".to_string() }],
        },
        Record {
            id: 3,
            vector: vec![3, 4],
            payload: vec![PayloadEntry { key: "doc".to_string(), value: "c".to_string() }],
        },
    ];
    assert_eq!(records, expected);
}

#[test]
fn fifty_searches_against_missing_collection_all_fail_alike() {
    let mut inst = QdrantInstance::start();
    for _ in 0..50 {
        let req = SearchRequest {
            search_request: SearchRequestInternal { vector: vec![1], filter: None, limit: 10 },
            shard_key: None,
        };
        let res = inst.search_points("missing".to_string(), req);
        assert_eq!(
            res,
            Err(QdrantError::Storage(EngineError::NotFound("missing".to_string())))
        );
    }
    // The worker survives: the instance still accepts and serves requests.
    assert_eq!(inst.create_collection("docs".to_string(), default_config()), Ok(true));
    assert_eq!(
        inst.get_collection("docs".to_string()),
        Ok(Some(CollectionInfo { config: default_config(), points_count: 0 }))
    );
}

#[test]
fn submit_after_close_fails_with_channel_closed() {
    let mut inst = QdrantInstance::start();
    assert_eq!(inst.create_collection("docs".to_string(), default_config()), Ok(true));
    inst.close();
    assert_eq!(
        inst.create_collection("late".to_string(), default_config()),
        Err(QdrantError::ChannelClosed)
    );
    assert_eq!(inst.count_points("docs".to_string(), None, true), Err(QdrantError::ChannelClosed));
    // Closing again changes nothing; submissions still fail the same way.
    inst.close();
    assert_eq!(inst.list_collections(), Err(QdrantError::ChannelClosed));
}

#[test]
fn termination_signal_waits_for_in_flight_replies() {
    let mut actor = ActorState::init();
    // Ten upserts are admitted and dispatched.
    for _ in 0..10 {
        assert_eq!(actor.step(Event::Submit), StepOutcome::Applied);
    }
    for _ in 0..10 {
        assert_eq!(actor.step(Event::DispatchStart), StepOutcome::Applied);
    }
    // The last client handle goes away while the ten are in flight.
    assert_eq!(actor.step(Event::Close), StepOutcome::Applied);
    // Teardown and signal are refused while any reply is outstanding.
    assert_eq!(actor.step(Event::Teardown), StepOutcome::Blocked);
    assert_eq!(actor.step(Event::Signal), StepOutcome::Blocked);
    assert!(!actor.terminated());
    for k in 0..10 {
        assert_eq!(actor.step(Event::DispatchFinish), StepOutcome::Applied);
        if k < 9 {
            assert_eq!(actor.step(Event::Teardown), StepOutcome::Blocked);
            assert!(!actor.terminated());
        }
    }
    // All ten replies are delivered: teardown may run, then the signal.
    assert_eq!(actor.step(Event::Teardown), StepOutcome::Applied);
    assert!(!actor.terminated());
    assert_eq!(actor.step(Event::Signal), StepOutcome::Applied);
    assert!(actor.terminated());
    // The signal fires exactly once.
    assert_eq!(actor.step(Event::Signal), StepOutcome::Blocked);
    assert!(actor.terminated());
}

#[test]
fn admission_is_refused_once_closing_begins() {
    let mut actor = ActorState::init();
    assert_eq!(actor.step(Event::Submit), StepOutcome::Applied);
    assert_eq!(actor.step(Event::Close), StepOutcome::Applied);
    // Already-admitted work drains; new admissions fail deterministically.
    assert_eq!(actor.step(Event::Submit), StepOutcome::Closed);
    assert_eq!(actor.step(Event::DispatchStart), StepOutcome::Applied);
    assert_eq!(actor.step(Event::Submit), StepOutcome::Closed);
    assert_eq!(actor.step(Event::DispatchFinish), StepOutcome::Applied);
    assert_eq!(actor.step(Event::Teardown), StepOutcome::Applied);
    assert_eq!(actor.step(Event::Submit), StepOutcome::Closed);
}

#[test]
fn queue_backpressure_is_not_an_error() {
    let mut actor = ActorState::init();
    for _ in 0..qdrant_embedded::QDRANT_CHANNEL_BUFFER {
        assert_eq!(actor.step(Event::Submit), StepOutcome::Applied);
    }
    // The queue is at capacity: admission blocks rather than closes.
    assert_eq!(actor.step(Event::Submit), StepOutcome::Full);
    assert_eq!(actor.step(Event::DispatchStart), StepOutcome::Applied);
    assert_eq!(actor.step(Event::Submit), StepOutcome::Applied);
}

#[test]
fn teardown_never_runs_before_queue_drains() {
    let mut actor = ActorState::init();
    assert_eq!(actor.step(Event::Submit), StepOutcome::Applied);
    assert_eq!(actor.step(Event::Close), StepOutcome::Applied);
    // One envelope is still queued: no teardown yet.
    assert_eq!(actor.step(Event::Teardown), StepOutcome::Blocked);
    assert_eq!(actor.step(Event::DispatchStart), StepOutcome::Applied);
    assert_eq!(actor.step(Event::Teardown), StepOutcome::Blocked);
    assert_eq!(actor.step(Event::DispatchFinish), StepOutcome::Applied);
    assert_eq!(actor.step(Event::Teardown), StepOutcome::Applied);
}
