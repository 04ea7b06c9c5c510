use pbr_viewer::ring::UniformRing;

#[test]
fn new_ring_has_one_slot_per_image() {
    let ring = UniformRing::new(3);
    assert_eq!(ring.slot_count(), 3);
    assert_eq!(ring.held(), 0);
    assert!(!ring.full());
    assert!(!ring.holds(0));
    assert!(!ring.holds(1));
    assert!(!ring.holds(2));
}

#[test]
fn ring_never_has_fewer_than_two_slots() {
    assert_eq!(UniformRing::new(0).slot_count(), 2);
    assert_eq!(UniformRing::new(1).slot_count(), 2);
    assert_eq!(UniformRing::new(2).slot_count(), 2);
    assert_eq!(UniformRing::new(5).slot_count(), 5);
}

#[test]
fn claims_rotate_through_the_slots() {
    let mut ring = UniformRing::new(4);
    assert_eq!(ring.claim(), Some(0));
    assert_eq!(ring.claim(), Some(1));
    assert_eq!(ring.claim(), Some(2));
    assert_eq!(ring.held(), 3);
    assert!(ring.full());
    assert!(ring.holds(0) && ring.holds(1) && ring.holds(2));
    assert!(!ring.holds(3));
}

#[test]
fn full_ring_hands_out_nothing_and_stays_as_it_is() {
    let mut ring = UniformRing::new(2);
    assert_eq!(ring.claim(), Some(0));
    assert!(ring.full());
    assert_eq!(ring.claim(), None);
    assert_eq!(ring.held(), 1);
    assert!(ring.holds(0));
    assert!(!ring.holds(1));
}

#[test]
fn retire_frees_the_oldest_slots_first() {
    let mut ring = UniformRing::new(4);
    ring.claim();
    ring.claim();
    ring.claim();
    ring.retire(1);
    assert_eq!(ring.held(), 2);
    assert!(!ring.holds(0));
    assert!(ring.holds(1));
    assert!(ring.holds(2));
    ring.retire(1);
    assert!(!ring.holds(1));
    assert!(ring.holds(2));
}

#[test]
fn retire_of_more_than_is_held_empties_the_ring() {
    let mut ring = UniformRing::new(3);
    ring.claim();
    ring.claim();
    ring.retire(7);
    assert_eq!(ring.held(), 0);
    assert!(!ring.holds(0));
    assert!(!ring.holds(1));
}

#[test]
fn claimed_slot_is_never_one_still_held() {
    let mut ring = UniformRing::new(3);
    for round in 0..20u32 {
        if ring.full() {
            ring.retire(1);
        }
        let before: Vec<bool> = (0..3).map(|slot| ring.holds(slot)).collect();
        let slot = ring.claim().unwrap();
        assert_eq!(slot, round % 3);
        assert!(!before[slot as usize]);
        assert!(ring.holds(slot));
        assert!(ring.held() <= 2);
    }
}

#[test]
fn claim_wraps_around_to_the_first_slot() {
    let mut ring = UniformRing::new(2);
    assert_eq!(ring.claim(), Some(0));
    ring.retire(1);
    assert_eq!(ring.claim(), Some(1));
    ring.retire(1);
    assert_eq!(ring.claim(), Some(0));
    assert!(ring.holds(0));
    assert!(!ring.holds(1));
}

#[test]
fn reset_frees_every_slot_and_keeps_the_rotation() {
    let mut ring = UniformRing::new(3);
    ring.claim();
    ring.claim();
    ring.reset();
    assert_eq!(ring.held(), 0);
    assert!(!ring.holds(0) && !ring.holds(1) && !ring.holds(2));
    assert_eq!(ring.claim(), Some(2));
}

#[test]
fn out_of_range_slot_is_never_held() {
    let mut ring = UniformRing::new(2);
    ring.claim();
    assert!(!ring.holds(2));
    assert!(!ring.holds(u32::MAX));
}
