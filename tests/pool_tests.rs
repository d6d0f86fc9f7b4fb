use asteroids_core::pool::Pool;

fn live(p: &Pool<u32>) -> usize {
    p.slots.iter().filter(|s| s.is_some()).count()
}

#[test]
fn allocation_takes_first_free_slot() {
    let mut p: Pool<u32> = Pool::new(3);
    assert_eq!(p.capacity(), 3);
    assert_eq!(p.allocate(10), Some(0));
    assert_eq!(p.allocate(11), Some(1));
    p.free(0);
    assert_eq!(p.allocate(12), Some(0));
    assert_eq!(p.get(0), Some(12));
    assert_eq!(p.get(2), None);
}

#[test]
fn full_pool_drops_new_entity() {
    let mut p: Pool<u32> = Pool::new(2);
    p.allocate(1);
    p.allocate(2);
    let before = p.slots.clone();
    assert!(!p.has_free());
    assert_eq!(p.allocate(3), None);
    assert_eq!(p.slots, before);
    assert_eq!(live(&p), 2);
}

#[test]
fn freed_slot_is_reused_exactly_once() {
    let mut p: Pool<u32> = Pool::new(8);
    for k in 0..8 {
        assert_eq!(p.allocate(k), Some(k as usize));
    }
    p.free(5);
    assert!(p.has_free());
    assert_eq!(p.allocate(100), Some(5));
    assert_eq!(p.allocate(101), None);
    assert_eq!(p.get(5), Some(100));
    assert_eq!(live(&p), 8);
}

#[test]
fn never_more_live_than_capacity() {
    let mut p: Pool<u32> = Pool::new(4);
    for k in 0..20 {
        p.allocate(k);
        assert!(live(&p) <= 4);
        if k % 3 == 0 {
            p.free((k % 4) as usize);
        }
    }
    assert_eq!(p.slots.len(), 4);
}

#[test]
fn empty_pool_of_no_slots() {
    let mut p: Pool<u32> = Pool::new(0);
    assert!(!p.has_free());
    assert_eq!(p.allocate(1), None);
}
