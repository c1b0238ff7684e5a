use m68k::BranchCache060;

#[test]
fn a_taken_miss_allocates_weakly_taken() {
    let mut cache = BranchCache060::default();
    assert_eq!(cache.predict(0x1000), None);
    cache.update(0x1000, false, true);
    assert_eq!(cache.predict(0x1000), None);
    cache.update(0x1000, true, true);
    assert_eq!(cache.predict(0x1000), Some(true));
    let slot = BranchCache060::slot(0x1000);
    assert_eq!(cache.tags()[slot], 0x1000);
    assert_eq!(cache.state()[slot], 0x0E);
    cache.update(0x1000, false, true);
    assert_eq!(cache.predict(0x1000), Some(false));
    assert_eq!(cache.state()[slot], 0x0D);
}

#[test]
fn counters_saturate() {
    let mut cache = BranchCache060::default();
    let slot = BranchCache060::slot(0x42);
    for expected in [6, 7, 7, 7] {
        cache.update(0x42, true, false);
        assert_eq!(cache.state()[slot], expected);
        assert_eq!(cache.predict(0x42), Some(true));
    }
    for (expected, taken) in [(6, true), (5, false), (4, false), (4, false)] {
        cache.update(0x42, false, false);
        assert_eq!(cache.state()[slot], expected);
        assert_eq!(cache.predict(0x42), Some(taken));
    }
    cache.update(0x42, true, true);
    // A hit keeps the privilege mode of the allocation.
    assert_eq!(cache.state()[slot], 5);
}

#[test]
fn slots_are_bits_8_to_1() {
    assert_eq!(BranchCache060::slot(0), 0);
    assert_eq!(BranchCache060::slot(2), 1);
    assert_eq!(BranchCache060::slot(0x1FE), 255);
    assert_eq!(BranchCache060::slot(0x200), 0);
    assert_eq!(BranchCache060::slot(0xFFFF_FFFF), 255);
}

#[test]
fn branches_in_one_slot_evict_each_other() {
    let mut cache = BranchCache060::default();
    cache.update(0x1000, true, false);
    cache.update(0x1002, true, false);
    cache.update(0x1200, false, false);
    assert_eq!(cache.predict(0x1000), Some(true));
    assert_eq!(cache.predict(0x1200), None);
    cache.update(0x1200, true, false);
    assert_eq!(cache.predict(0x1000), None);
    assert_eq!(cache.predict(0x1200), Some(true));
    assert_eq!(cache.predict(0x1002), Some(true));
}

#[test]
fn clearing() {
    let mut cache = BranchCache060::default();
    cache.update(0x1000, true, true);
    cache.update(0x1002, true, false);
    let mut other = cache.clone();
    assert!(other == cache);
    cache.clear_user();
    assert_eq!(cache.predict(0x1000), None);
    assert_eq!(cache.predict(0x1002), Some(true));
    assert!(other != cache);
    other.clear_all();
    assert_eq!(other.predict(0x1000), None);
    assert_eq!(other.predict(0x1002), None);
    assert!(other.state().iter().all(|&s| s == 0));
    // Tags outlive their entries.
    assert_eq!(other.tags()[BranchCache060::slot(0x1000)], 0x1000);
}

#[test]
fn parts_make_up_a_cache() {
    let mut cache = BranchCache060::default();
    cache.update(0x1000, true, true);
    let copy = BranchCache060::from_parts(cache.tags().clone(), cache.state().clone()).unwrap();
    assert!(copy == cache);
    assert_eq!(copy.predict(0x1000), Some(true));
    assert!(BranchCache060::from_parts(vec![0; 255], vec![0; 256]).is_none());
    assert!(BranchCache060::from_parts(vec![0; 256], vec![0; 257]).is_none());
}
