use pallet_proposal::{ensure_root, ensure_signed, DispatchError, Origin, OrderedSet, StorageMap};

fn set_of(members: &[u64]) -> OrderedSet {
    let mut set = OrderedSet::new();
    for who in members {
        match set.binary_search(*who) {
            Ok(_) => panic!("{} occurs twice", who),
            Err(location) => set.insert(location, *who),
        }
    }
    set
}

#[test]
fn binary_search_finds_each_member_at_its_index() {
    let set = set_of(&[40, 10, 30, 20, 50]);
    assert_eq!(set.to_vec(), vec![10, 20, 30, 40, 50]);
    assert_eq!(set.len(), 5);
    for (index, who) in [10u64, 20, 30, 40, 50].iter().enumerate() {
        assert_eq!(set.binary_search(*who), Ok(index));
        assert!(set.contains(*who));
    }
}

#[test]
fn binary_search_gives_the_place_of_a_missing_account() {
    let set = set_of(&[10, 20, 30]);
    assert_eq!(set.binary_search(0), Err(0));
    assert_eq!(set.binary_search(15), Err(1));
    assert_eq!(set.binary_search(25), Err(2));
    assert_eq!(set.binary_search(31), Err(3));
    assert_eq!(set.binary_search(u64::MAX), Err(3));
    assert!(!set.contains(15));
    assert_eq!(OrderedSet::new().binary_search(7), Err(0));
}

#[test]
fn binary_search_agrees_with_the_standard_one() {
    let members: Vec<u64> = (0..64).map(|i| i * 3 + 1).collect();
    let set = set_of(&members);
    for probe in 0..200u64 {
        assert_eq!(set.binary_search(probe), members.binary_search(&probe));
    }
}

#[test]
fn clone_of_a_set_holds_the_same_members() {
    let set = set_of(&[3, 1, 2]);
    let copy = set.clone();
    assert_eq!(copy, set);
    assert_eq!(copy.to_vec(), vec![1, 2, 3]);
}

#[test]
fn storage_map_insert_then_get() {
    let mut map: StorageMap<u64, u32> = StorageMap::new();
    assert_eq!(map.get(&1), None);
    assert!(!map.contains_key(&1));
    map.insert(1, 100);
    map.insert(2, 200);
    assert_eq!(map.get(&1), Some(&100));
    assert_eq!(map.get(&2), Some(&200));
    assert_eq!(map.get(&3), None);
    assert!(map.contains_key(&2));
}

#[test]
fn storage_map_insert_overwrites() {
    let mut map: StorageMap<[u8; 32], u32> = StorageMap::new();
    let key = [9u8; 32];
    let mut other = [9u8; 32];
    other[16] = 0;
    map.insert(key, 1);
    map.insert(other, 2);
    map.insert(key, 3);
    assert_eq!(map.get(&key), Some(&3));
    assert_eq!(map.get(&other), Some(&2));
}

#[test]
fn origins_are_told_apart() {
    assert_eq!(ensure_signed(Origin::Signed(5)), Ok(5));
    assert_eq!(ensure_signed(Origin::Root), Err(DispatchError::BadOrigin));
    assert_eq!(ensure_signed(Origin::Unsigned), Err(DispatchError::BadOrigin));
    assert_eq!(ensure_root(Origin::Root), Ok(()));
    assert_eq!(ensure_root(Origin::Signed(5)), Err(DispatchError::BadOrigin));
    assert_eq!(ensure_root(Origin::Unsigned), Err(DispatchError::BadOrigin));
}
