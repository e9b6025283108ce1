use plumber_rs::arena::{Arena, Handle, NULL_HANDLE};

#[test]
fn handle_packs_generation_above_index() {
    let h = Handle { index: 3, generation: 2 };
    assert_eq!(h.to_raw(), 0x0000_0002_0000_0003);
    let top = Handle { index: u32::MAX, generation: u32::MAX };
    assert_eq!(top.to_raw(), u64::MAX);
}

#[test]
fn handle_unpacks_what_it_packed() {
    let h = Handle { index: 41, generation: 7 };
    assert_eq!(Handle::from_raw(h.to_raw()), Some(h));
    assert_eq!(
        Handle::from_raw(0x0000_0005_0000_0009),
        Some(Handle { index: 9, generation: 5 })
    );
}

#[test]
fn null_word_names_no_handle() {
    assert_eq!(NULL_HANDLE, 0);
    assert_eq!(Handle::from_raw(NULL_HANDLE), None);
}

#[test]
fn word_without_generation_names_no_handle() {
    assert_eq!(Handle::from_raw(17), None);
    assert_eq!(Handle::from_raw(0xFFFF_FFFF), None);
    assert_eq!(Handle::from_raw(0x1_0000_0000), Some(Handle { index: 0, generation: 1 }));
}

#[test]
fn new_arena_holds_nothing() {
    let arena: Arena<u32> = Arena::new();
    assert!(!arena.contains(Handle { index: 0, generation: 1 }));
    assert_eq!(arena.get(Handle { index: 0, generation: 1 }), None);
}

#[test]
fn inserted_value_is_found_under_its_handle() {
    let mut arena: Arena<&str> = Arena::new();
    let a = arena.insert("first").unwrap();
    let b = arena.insert("second").unwrap();
    assert_ne!(a, b);
    assert_eq!(a, Handle { index: 0, generation: 1 });
    assert_eq!(b, Handle { index: 1, generation: 1 });
    assert_eq!(arena.get(a), Some(&"first"));
    assert_eq!(arena.get(b), Some(&"second"));
    assert!(arena.contains(a));
    assert_ne!(a.to_raw(), NULL_HANDLE);
}

#[test]
fn removed_value_leaves_and_its_handle_is_dead() {
    let mut arena: Arena<u8> = Arena::new();
    let a = arena.insert(10).unwrap();
    let b = arena.insert(20).unwrap();
    assert_eq!(arena.remove(a), Some(10));
    assert_eq!(arena.get(a), None);
    assert!(!arena.contains(a));
    assert_eq!(arena.remove(a), None);
    assert_eq!(arena.get(b), Some(&20));
}

#[test]
fn reused_slot_answers_to_the_new_handle_only() {
    let mut arena: Arena<u8> = Arena::new();
    let old = arena.insert(1).unwrap();
    assert_eq!(arena.remove(old), Some(1));
    let new = arena.insert(2).unwrap();
    assert_eq!(new, Handle { index: 0, generation: 2 });
    assert_eq!(arena.get(old), None);
    assert_eq!(arena.remove(old), None);
    assert_eq!(arena.get(new), Some(&2));
}

#[test]
fn get_mut_changes_the_value_in_place() {
    let mut arena: Arena<u32> = Arena::new();
    let a = arena.insert(5).unwrap();
    let b = arena.insert(6).unwrap();
    *arena.get_mut(a).unwrap() += 100;
    assert_eq!(arena.get(a), Some(&105));
    assert_eq!(arena.get(b), Some(&6));
    assert!(arena.get_mut(Handle { index: 9, generation: 1 }).is_none());
    assert!(arena.get_mut(Handle { index: 0, generation: 2 }).is_none());
}

#[test]
fn handle_of_wrong_generation_or_slot_finds_nothing() {
    let mut arena: Arena<u8> = Arena::new();
    let a = arena.insert(1).unwrap();
    assert_eq!(arena.get(Handle { index: a.index, generation: a.generation + 1 }), None);
    assert_eq!(arena.get(Handle { index: a.index + 1, generation: a.generation }), None);
    assert_eq!(arena.get(Handle { index: a.index, generation: 0 }), None);
}
