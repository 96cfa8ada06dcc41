use tarrowyn_repository::replay::{
    frontier_cache_key, is_frontier_cache_for_identity, is_regional_cache_for_identity,
    settlement_cache_key, trim_replay_cache, ReplayCache,
};

#[test]
fn replay_keys_name_the_identity_and_the_request() {
    assert_eq!(frontier_cache_key("ada", "req-1"), "ada:req-1");
    assert_eq!(settlement_cache_key("ada", "req-1"), "phase4:ada:req-1");
    assert!(is_frontier_cache_for_identity("ada:req-1", "ada", "req-1"));
    assert!(!is_frontier_cache_for_identity("ada:req-1", "adam", "req-1"));
    assert!(!is_frontier_cache_for_identity("ada:req-2", "ada", "req-1"));
}

#[test]
fn regional_entries_belong_to_the_identity_whose_prefix_they_carry() {
    assert!(is_regional_cache_for_identity("phase5:ada:req-9", "ada"));
    assert!(is_regional_cache_for_identity("phase5:ada:", "ada"));
    assert!(!is_regional_cache_for_identity("phase5:adam:req-9", "ada"));
    assert!(!is_regional_cache_for_identity("phase5:ada", "ada"));
    assert!(!is_regional_cache_for_identity("phase4:ada:req-9", "ada"));
}

#[test]
fn a_retried_command_is_answered_as_its_first_attempt() {
    let mut cache: ReplayCache<u32> = ReplayCache::new();
    let first = settlement_cache_key("ada", "req-1");
    assert_eq!(cache.lookup(&first), None);
    cache.record(first.clone(), 7, false);
    cache.record(settlement_cache_key("ada", "req-2"), 8, false);
    assert_eq!(cache.lookup(&first), Some(&7));
    cache.record(first.clone(), 9, false);
    assert_eq!(cache.lookup(&first), Some(&9));
    assert_eq!(cache.entries.len(), 2);

    let inspect = settlement_cache_key("ada", "inspect-1");
    cache.record(inspect.clone(), 1, true);
    assert_eq!(cache.lookup(&inspect), None);
    assert_eq!(cache.entries.len(), 2);
}

#[test]
fn trimming_keeps_the_newest_entries_within_the_bound() {
    let mut cache: ReplayCache<u32> = ReplayCache::new();
    for i in 0..5u32 {
        cache.record(format!("k{i}"), i, false);
    }
    trim_replay_cache(&mut cache, 3);
    let keys: Vec<&str> = cache.entries.iter().map(|e| e.key.as_str()).collect();
    assert_eq!(keys, vec!["k2", "k3", "k4"]);
    assert_eq!(cache.lookup(&"k0".to_owned()), None);
    trim_replay_cache(&mut cache, 10);
    assert_eq!(cache.entries.len(), 3);
}
