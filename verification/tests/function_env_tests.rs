use wasm_host::function_env::FunctionEnv;
use wasm_host::store::{StoreHandle, StoreId, StoreObjects};

#[test]
fn new_then_as_ref_round_trips() {
    let mut store: StoreObjects<String> = StoreObjects::new(StoreId(1));
    let env = FunctionEnv::new(&mut store, String::from("host state"));
    assert!(env.belongs_to(&store));
    assert_eq!(env.as_ref(&store), "host state");
    assert_eq!(store.len(), 1);
    assert_eq!(store.id(), StoreId(1));
}

#[test]
fn earlier_values_stay_in_place() {
    let mut store: StoreObjects<u64> = StoreObjects::new(StoreId(7));
    let first = FunctionEnv::new(&mut store, 10);
    let second = FunctionEnv::new(&mut store, 20);
    let third = FunctionEnv::new(&mut store, 30);
    assert_eq!(*first.as_ref(&store), 10);
    assert_eq!(*second.as_ref(&store), 20);
    assert_eq!(*third.as_ref(&store), 30);
    assert_eq!(store.len(), 3);
}

#[test]
fn distinct_handles_do_not_alias() {
    let mut store: StoreObjects<u64> = StoreObjects::new(StoreId(7));
    let first = FunctionEnv::new(&mut store, 10);
    let second = FunctionEnv::new(&mut store, 10);
    assert_ne!(first, second);
    *first.as_mut(&mut store) = 11;
    assert_eq!(*first.as_ref(&store), 11);
    assert_eq!(*second.as_ref(&store), 10);
    *second.as_mut(&mut store) += 5;
    assert_eq!(*first.as_ref(&store), 11);
    assert_eq!(*second.as_ref(&store), 15);
}

#[test]
fn equality_is_on_the_handle_not_the_value() {
    let mut store: StoreObjects<u64> = StoreObjects::new(StoreId(2));
    let first = FunctionEnv::new(&mut store, 5);
    let second = FunctionEnv::new(&mut store, 5);
    let copy = first.clone();
    assert_eq!(first, copy);
    assert_ne!(first, second);
    *copy.as_mut(&mut store) = 6;
    assert_eq!(*first.as_ref(&store), 6);
    assert_eq!(first, copy);
}

#[test]
fn handle_of_another_store_is_rejected() {
    let mut s1: StoreObjects<u32> = StoreObjects::new(StoreId(1));
    let mut s2: StoreObjects<u32> = StoreObjects::new(StoreId(2));
    let h1 = StoreHandle::new(&mut s1, 111);
    let h2 = StoreHandle::new(&mut s2, 222);
    assert_eq!(h1.store_id(), StoreId(1));
    assert_eq!(h2.store_id(), StoreId(2));
    assert!(h1.belongs_to(&s1));
    assert!(!h1.belongs_to(&s2));
    assert!(!h2.belongs_to(&s1));
    assert_eq!(h1.try_get(&s1), Some(&111));
    assert_eq!(h1.try_get(&s2), None);
    assert_eq!(h2.try_get(&s1), None);
    assert_eq!(*h2.get(&s2), 222);
}

#[test]
fn environment_of_another_store_is_rejected() {
    let mut s1: StoreObjects<u32> = StoreObjects::new(StoreId(1));
    let s2: StoreObjects<u32> = StoreObjects::new(StoreId(2));
    let env = FunctionEnv::new(&mut s1, 9);
    assert!(env.belongs_to(&s1));
    assert!(!env.belongs_to(&s2));
}

#[test]
fn handle_get_mut_writes_its_own_slot() {
    let mut store: StoreObjects<Vec<u8>> = StoreObjects::new(StoreId(3));
    let a = StoreHandle::new(&mut store, vec![1]);
    let b = StoreHandle::new(&mut store, vec![2]);
    a.get_mut(&mut store).push(9);
    assert_eq!(a.get(&store), &vec![1, 9]);
    assert_eq!(b.get(&store), &vec![2]);
}

#[test]
fn view_reads_and_writes_the_environment() {
    let mut store: StoreObjects<u32> = StoreObjects::new(StoreId(4));
    let other = FunctionEnv::new(&mut store, 1);
    let env = FunctionEnv::new(&mut store, 2);
    {
        let mut view = env.clone().into_mut(&mut store);
        assert_eq!(*view.data(), 2);
        *view.data_mut() = 3;
        assert_eq!(*view.data(), 3);
    }
    assert_eq!(*env.as_ref(&store), 3);
    assert_eq!(*other.as_ref(&store), 1);
}

#[test]
fn reborrowed_view_sees_and_keeps_mutations() {
    let mut store: StoreObjects<u32> = StoreObjects::new(StoreId(5));
    let env = FunctionEnv::new(&mut store, 5);
    let mut outer = env.clone().into_mut(&mut store);
    *outer.data_mut() = 6;
    {
        let mut inner = outer.as_mut();
        assert_eq!(*inner.data(), 6);
        *inner.data_mut() = 7;
        {
            let mut innermost = inner.as_mut();
            assert_eq!(*innermost.data(), 7);
            *innermost.data_mut() = 8;
        }
        assert_eq!(*inner.data(), 8);
    }
    assert_eq!(*outer.data(), 8);
    *outer.data_mut() += 1;
    assert_eq!(*env.as_ref(&store), 9);
}

#[test]
fn view_lends_its_store() {
    let mut store: StoreObjects<u32> = StoreObjects::new(StoreId(6));
    let env = FunctionEnv::new(&mut store, 1);
    let mut view = env.clone().into_mut(&mut store);
    assert_eq!(view.as_store_ref().len(), 1);
    assert_eq!(view.as_store_ref().id(), StoreId(6));
    let added = FunctionEnv::new(view.as_store_mut(), 2);
    assert_eq!(view.as_store_ref().len(), 2);
    assert_eq!(*added.as_ref(view.as_store_ref()), 2);
    assert_eq!(*view.data(), 1);
    *view.data_mut() = 3;
    assert_eq!(*env.as_ref(&store), 3);
    assert_eq!(*added.as_ref(&store), 2);
}

#[test]
fn equal_environments_hash_alike() {
    let mut store: StoreObjects<u32> = StoreObjects::new(StoreId(8));
    let first = FunctionEnv::new(&mut store, 1);
    let second = FunctionEnv::new(&mut store, 1);
    let mut set = std::collections::HashSet::new();
    assert!(set.insert(first.clone()));
    assert!(!set.insert(first.clone()));
    assert!(set.insert(second));
    assert_eq!(set.len(), 2);
}
