use pvf_host::artifacts::ArtifactCache;

#[test]
fn artifact_is_usable_only_under_its_own_version() {
    let mut cache = ArtifactCache::new();
    assert_eq!(cache.lookup(1, "v1"), None);
    assert!(!cache.contains(1, "v1"));
    cache.store(1, "v1".to_string(), vec![1, 1]);
    cache.store(2, "v1".to_string(), vec![2, 2]);
    assert_eq!(cache.lookup(1, "v1"), Some(&vec![1, 1]));
    assert_eq!(cache.lookup(2, "v1"), Some(&vec![2, 2]));
    assert_eq!(cache.lookup(1, "v2"), None);
    assert_eq!(cache.lookup(1, "v"), None);
    assert_eq!(cache.lookup(3, "v1"), None);
    assert!(cache.contains(2, "v1"));
}

#[test]
fn storing_again_replaces_the_artifact_of_that_version_only() {
    let mut cache = ArtifactCache::new();
    cache.store(1, "v1".to_string(), vec![1]);
    cache.store(2, "v1".to_string(), vec![2]);
    cache.store(1, "v2".to_string(), vec![3]);
    assert_eq!(cache.lookup(1, "v1"), Some(&vec![1]));
    assert_eq!(cache.lookup(1, "v2"), Some(&vec![3]));
    assert_eq!(cache.lookup(2, "v1"), Some(&vec![2]));
    assert_eq!(cache.lookup(2, "v2"), None);
    cache.store(1, "v2".to_string(), vec![4]);
    assert_eq!(cache.lookup(1, "v2"), Some(&vec![4]));
    assert_eq!(cache.lookup(1, "v1"), Some(&vec![1]));
}

#[test]
fn pruning_drops_the_artifacts_of_other_versions() {
    let mut cache = ArtifactCache::new();
    cache.store(1, "v1".to_string(), vec![1]);
    cache.store(2, "v2".to_string(), vec![2]);
    cache.store(1, "v2".to_string(), vec![3]);
    cache.store(3, "v3".to_string(), vec![4]);
    cache.store(4, "v2".to_string(), vec![5]);
    cache.prune("v2");
    assert_eq!(cache.lookup(1, "v1"), None);
    assert_eq!(cache.lookup(3, "v3"), None);
    assert_eq!(cache.lookup(2, "v2"), Some(&vec![2]));
    assert_eq!(cache.lookup(1, "v2"), Some(&vec![3]));
    assert_eq!(cache.lookup(4, "v2"), Some(&vec![5]));
    cache.prune("v9");
    assert!(!cache.contains(2, "v2"));
    assert!(!cache.contains(1, "v2"));
    cache.prune("v9");
    cache.store(1, "v9".to_string(), vec![9]);
    assert_eq!(cache.lookup(1, "v9"), Some(&vec![9]));
}
