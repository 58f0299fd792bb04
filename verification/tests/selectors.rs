use qdrant_embedded::{
    default_log_level, default_telemetry_disabled, general_worker_threads,
    get_shard_selector_for_update, search_thread_count, shard_selector, update_blocking_threads,
    Settings, ShardKey, ShardKeySelector, ShardSelector, StorageSettings,
};

#[test]
fn shard_id_takes_precedence_over_shard_key() {
    let key = ShardKeySelector::ShardKey(ShardKey::Keyword("eu".to_string()));
    let resolved = get_shard_selector_for_update(Some(7), Some(key));
    assert_eq!(resolved, ShardSelector::ShardId(7));
}

#[test]
fn empty_selector_differs_between_read_and_write() {
    let read = shard_selector(None);
    let write = get_shard_selector_for_update(None, None);
    assert_eq!(read, ShardSelector::All);
    assert_eq!(write, ShardSelector::Empty);
    assert_ne!(read, write);
}

#[test]
fn shard_key_resolves_when_no_id_is_given() {
    let key = ShardKeySelector::ShardKey(ShardKey::Number(4));
    assert_eq!(
        get_shard_selector_for_update(None, Some(key)),
        ShardSelector::Key(ShardKey::Number(4))
    );
    let keys = ShardKeySelector::ShardKeys(vec![ShardKey::Number(1), ShardKey::Number(2)]);
    assert_eq!(
        shard_selector(Some(keys)),
        ShardSelector::Keys(vec![ShardKey::Number(1), ShardKey::Number(2)])
    );
}

#[test]
fn search_thread_count_follows_the_cpu_table() {
    // A configured maximum wins outright.
    assert_eq!(search_thread_count(6, 1), 6);
    // Otherwise the count is derived from the CPU count.
    assert_eq!(search_thread_count(0, 0), 1);
    assert_eq!(search_thread_count(0, 1), 1);
    assert_eq!(search_thread_count(0, 2), 2);
    assert_eq!(search_thread_count(0, 3), 2);
    assert_eq!(search_thread_count(0, 4), 3);
    assert_eq!(search_thread_count(0, 5), 4);
}

#[test]
fn update_runtime_caps_blocking_threads_only_when_positive() {
    assert_eq!(update_blocking_threads(0), None);
    assert_eq!(update_blocking_threads(3), Some(3));
}

#[test]
fn general_runtime_gets_at_least_two_workers() {
    assert_eq!(general_worker_threads(0), 2);
    assert_eq!(general_worker_threads(1), 2);
    assert_eq!(general_worker_threads(2), 2);
    assert_eq!(general_worker_threads(8), 8);
}

#[test]
fn settings_defaults() {
    assert_eq!(default_log_level(), "INFO".to_string());
    assert!(!default_telemetry_disabled());
    let storage = StorageSettings {
        storage_path: "./storage".to_string(),
        max_search_threads: 0,
        max_optimization_threads: 0,
    };
    let settings = Settings::with_storage(storage.clone());
    assert_eq!(settings.log_level, "INFO".to_string());
    assert!(!settings.telemetry_disabled);
    assert_eq!(settings.storage, storage);
}
