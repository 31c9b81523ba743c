use interned::compare::compare_hashes;
use interned::text::label_of;
use interned::scalar::{read_scalars, scalars_fit, write_scalars};
use interned::staticize::FIRST_SLICE_ID;
use interned::{
    hash_of, num_interned, num_memoized, static_type_id, static_type_name, DataType,
    DataTypeTypeMarker, Heap, InStr, Interned, Kind, Memoized, Payload, Reference, Scalar,
    ScalarType, Slice, Static, StaticOsStr, StaticPath, StaticStr, StaticValue, Staticize, Store,
    Value,
};
use std::cell::Cell;
use std::cmp::Ordering;
use std::collections::hash_map::DefaultHasher;
use std::hash::{Hash, Hasher};

fn std_hash<T: Hash + ?Sized>(value: &T) -> u64 {
    let mut state = DefaultHasher::new();
    value.hash(&mut state);
    state.finish()
}

#[test]
fn interning_twice_gives_one_address() {
    let mut store = Store::new();
    let first: Interned<u64> = Interned::from(&mut store, 7u64);
    let heap_len = store.heap().len();
    let second: Interned<u64> = Interned::from(&mut store, 7u64);
    assert_eq!(first.as_ptr(), second.as_ptr());
    assert_eq!(first.value.hash_code(), second.value.hash_code());
    assert_eq!(store.heap().len(), heap_len);
    assert_eq!(num_interned::<u64>(&store), 1);
}

#[test]
fn different_hashes_never_share_a_record() {
    let mut store = Store::new();
    let a: Interned<&str> = Interned::from(&mut store, "asdf");
    let b: Interned<&str> = Interned::from(&mut store, "fdsa");
    assert_ne!(a.value.hash_code(), b.value.hash_code());
    assert_ne!(a.as_ptr(), b.as_ptr());
    assert_ne!(a, b);
    let again: Interned<&str> = Interned::from(&mut store, "asdf");
    assert_eq!(again.as_ptr(), a.as_ptr());
}

#[test]
fn generator_runs_once_for_one_key() {
    let mut store = Store::new();
    let calls = Cell::new(0);
    let first: Memoized<&str, usize> = Memoized::from(&mut store, (), "some_input", |s: &str| {
        calls.set(calls.get() + 1);
        s.len()
    });
    let second: Memoized<&str, usize> = Memoized::from(&mut store, (), "some_input", |s: &str| {
        calls.set(calls.get() + 1);
        s.len()
    });
    assert_eq!(calls.get(), 1);
    assert_eq!(first.as_value(&store), 10);
    assert_eq!(second.as_value(&store), 10);
    assert_eq!(first, second);
    assert_eq!(first.interned().as_ptr(), second.interned().as_ptr());
    assert_eq!(num_memoized::<usize>(&store), 1);
}

#[test]
fn a_memoized_key_ignores_a_later_generator() {
    let mut store = Store::new();
    let first: Memoized<u8, u32> = Memoized::from(&mut store, "scope", 1u8, |_| 100u32);
    let second: Memoized<u8, u32> = Memoized::from(&mut store, "scope", 1u8, |_| 200u32);
    assert_eq!(first.as_value(&store), 100);
    assert_eq!(second.as_value(&store), 100);
    assert_eq!(second.interned().as_ptr(), first.interned().as_ptr());
    assert_eq!(num_interned::<u32>(&store), 1);
}

#[test]
fn equal_outputs_share_one_record_across_keys() {
    let mut store = Store::new();
    let calls = Cell::new(0);
    let a: Memoized<&str, usize> = Memoized::from(&mut store, 1u8, "abc", |s: &str| {
        calls.set(calls.get() + 1);
        s.len()
    });
    let b: Memoized<&str, usize> = Memoized::from(&mut store, 2u8, "xyz", |s: &str| {
        calls.set(calls.get() + 1);
        s.len()
    });
    assert_eq!(calls.get(), 2);
    assert_eq!(a.interned().as_ptr(), b.interned().as_ptr());
    assert_eq!(a.as_value(&store), 3);
    assert_eq!(b.as_value(&store), 3);
    assert_eq!(num_memoized::<usize>(&store), 2);
    assert_eq!(num_interned::<usize>(&store), 1);
}

#[test]
fn scope_tells_equal_inputs_apart() {
    let mut store = Store::new();
    let calls = Cell::new(0);
    let a: Memoized<u32, u32> = Memoized::from(&mut store, "left", 5u32, |x| {
        calls.set(calls.get() + 1);
        x + 1
    });
    let b: Memoized<u32, u32> = Memoized::from(&mut store, "right", 5u32, |x| {
        calls.set(calls.get() + 1);
        x + 2
    });
    assert_eq!(calls.get(), 2);
    assert_eq!(a.as_value(&store), 6);
    assert_eq!(b.as_value(&store), 7);
    assert_eq!(num_memoized::<u32>(&store), 2);
}

#[test]
fn counter_goes_up_by_one_for_a_new_value_only() {
    let mut store = Store::new();
    assert_eq!(num_interned::<i32>(&store), 0);
    assert_eq!(num_memoized::<i32>(&store), 0);
    let _ = Interned::from(&mut store, 32i32);
    assert_eq!(num_interned::<i32>(&store), 1);
    let _ = Interned::from(&mut store, 32i32);
    assert_eq!(num_interned::<i32>(&store), 1);
    let _ = Interned::from(&mut store, 33i32);
    assert_eq!(num_interned::<i32>(&store), 2);
    assert_eq!(num_interned::<i64>(&store), 0);
    assert_eq!(num_memoized::<i32>(&store), 0);
}

#[test]
fn types_have_buckets_of_their_own() {
    let mut store = Store::new();
    let a: Interned<i32> = Interned::from(&mut store, 5i32);
    let b: Interned<u32> = Interned::from(&mut store, 5u32);
    assert_eq!(a.value.hash_code(), b.value.hash_code());
    assert_ne!(a.as_ptr(), b.as_ptr());
    assert_eq!(num_interned::<i32>(&store), 1);
    assert_eq!(num_interned::<u32>(&store), 1);
    assert_eq!(a.interned_value(&store), 5i32);
    assert_eq!(b.interned_value(&store), 5u32);
}

#[test]
fn a_supplied_hash_makes_values_one() {
    let mut store = Store::new();
    let first = store.intern(static_type_id::<i32>(), &1i32, Some(99));
    let second = store.intern(static_type_id::<i32>(), &2i32, Some(99));
    assert_eq!(first.hash_code(), 99);
    assert_eq!(second.as_ptr(), first.as_ptr());
    assert_eq!(second.as_value::<i32>(store.heap()), 1);
    assert_eq!(num_interned::<i32>(&store), 1);
    assert_eq!(store.interned(static_type_id::<i32>(), 99).unwrap().as_ptr(), first.as_ptr());
    assert!(store.interned(static_type_id::<i32>(), 98).is_none());
}

#[test]
fn a_record_of_the_heap_can_be_interned() {
    let mut store = Store::new();
    let record = store.allocate(&7u16, Some(1234));
    assert_eq!(record.hash_code(), 1234);
    assert_eq!(num_interned::<u16>(&store), 0);
    let a: Interned<u16> = Interned::from_static(&mut store, record);
    assert_eq!(a.as_ptr(), record.as_ptr());
    assert_eq!(num_interned::<u16>(&store), 1);
    let other = store.allocate(&8u16, Some(1234));
    assert_ne!(other.as_ptr(), record.as_ptr());
    let b: Interned<u16> = Interned::from_static(&mut store, other);
    assert_eq!(b.as_ptr(), record.as_ptr());
    assert_eq!(b.interned_value(&store), 7);
    assert_eq!(num_interned::<u16>(&store), 1);
}

#[test]
fn memo_table_is_first_writer_wins() {
    let mut store = Store::new();
    let id = static_type_id::<u8>();
    let a = store.intern(id, &1u8, None);
    let b = store.intern(id, &2u8, None);
    assert!(store.memoized(id, 5).is_none());
    assert_eq!(store.remember(id, 5, a).as_ptr(), a.as_ptr());
    assert_eq!(store.remember(id, 5, b).as_ptr(), a.as_ptr());
    assert_eq!(store.memoized(id, 5).unwrap().as_ptr(), a.as_ptr());
    assert_eq!(num_memoized::<u8>(&store), 1);
}

#[test]
fn empty_values_are_interned_too() {
    let mut store = Store::new();
    let empty: [u8; 0] = [];
    let a: Interned<&[u8]> = Interned::from(&mut store, empty.as_slice());
    assert_eq!(a.interned_slice(&store), Vec::<u8>::new());
    let b: Interned<&str> = Interned::from(&mut store, "");
    assert_eq!(b.interned_str(&store), "");
    let c: Interned<()> = Interned::from(&mut store, ());
    assert_eq!(c.interned_value(&store), ());
    assert_eq!(num_interned::<&[u8]>(&store), 1);
    assert_eq!(num_interned::<&str>(&store), 1);
    assert_eq!(num_interned::<()>(&store), 1);
}

#[test]
fn owned_and_borrowed_forms_are_one_type() {
    let mut store = Store::new();
    let a: Interned<&str> = Interned::from(&mut store, "shared");
    let b: Interned<&str> = Interned::from(&mut store, String::from("shared"));
    assert_eq!(a.as_ptr(), b.as_ptr());
    let c: Interned<&[i32]> = Interned::from(&mut store, [1, 2].as_slice());
    let d: Interned<&[i32]> = Interned::from(&mut store, vec![1, 2]);
    assert_eq!(c.as_ptr(), d.as_ptr());
    assert_eq!(static_type_id::<&str>(), static_type_id::<String>());
    assert_eq!(static_type_id::<&[i32]>(), static_type_id::<Vec<i32>>());
    assert_eq!(d.deref(&store), vec![1, 2]);
    assert_eq!(b.deref(&store), "shared");
}

#[test]
fn the_store_copies_what_it_interns() {
    let mut store = Store::new();
    let mut local = [1, 2, 3, 4, 5];
    let a: Interned<&[i32]> = Interned::from(&mut store, local.as_slice());
    local[0] = 9;
    local[4] = 0;
    assert_eq!(a.interned_slice(&store), vec![1, 2, 3, 4, 5]);
    let b: Interned<&[i32]> = Interned::from(&mut store, [4, 1, 7].as_slice());
    assert_ne!(a, b);
    assert_eq!(a.interned_slice(&store), vec![1, 2, 3, 4, 5]);
    assert_eq!(b.interned_slice(&store), vec![4, 1, 7]);
    let c: Interned<&[i32]> = Interned::from(&mut store, local.as_slice());
    assert_ne!(a.as_ptr(), c.as_ptr());
    assert_eq!(c.interned_slice(&store), vec![9, 2, 3, 4, 0]);
}

#[test]
fn content_hash_is_the_digest_of_the_bytes() {
    let mut state = DefaultHasher::new();
    state.write(&5u32.to_le_bytes());
    assert_eq!(hash_of(&5u32), state.finish());

    let mut state = DefaultHasher::new();
    state.write(&3u64.to_le_bytes());
    state.write(&[1u8]);
    state.write(&[2u8]);
    state.write(&[3u8]);
    assert_eq!(hash_of([1u8, 2, 3].as_slice()), state.finish());

    let mut state = DefaultHasher::new();
    state.write("asdf".as_bytes());
    state.write(&[0xffu8]);
    assert_eq!(hash_of("asdf"), state.finish());

    assert_eq!(hash_of(&1u8), 4952851536318644461);
    assert_eq!(hash_of(&()), DefaultHasher::new().finish());
    assert_ne!(hash_of(&1u8), hash_of(&2u8));
    assert_eq!(hash_of(&-1i8), hash_of(&255u8));
    assert_eq!(hash_of(&true), hash_of(&1u8));
    assert_eq!(hash_of(&'a'), hash_of(&97u32));
    assert_eq!(hash_of(&7usize), hash_of(&7u64));
}

#[test]
fn content_hash_agrees_with_the_standard_hash() {
    assert_eq!(hash_of(&1289i32), std_hash(&1289i32));
    assert_eq!(hash_of(&-99i64), std_hash(&-99i64));
    assert_eq!(hash_of(&8348783947u64), std_hash(&8348783947u64));
    assert_eq!(hash_of(&u128::MAX), std_hash(&u128::MAX));
    assert_eq!(hash_of(&false), std_hash(&false));
    assert_eq!(hash_of(&'x'), std_hash(&'x'));
    assert_eq!(hash_of("this is a triumph"), std_hash("this is a triumph"));
    assert_eq!(hash_of(&String::from("asdf")), std_hash("asdf"));
    assert_eq!(hash_of([1, 2, 3, 4, 5].as_slice()), std_hash([1, 2, 3, 4, 5].as_slice()));
    assert_eq!(hash_of(&vec![4u16, 1, 7]), std_hash(&vec![4u16, 1, 7]));
    assert_eq!(hash_of(&(1usize, 2usize, 3usize)), std_hash(&(1usize, 2usize, 3usize)));
    assert_eq!(hash_of(&("a", 2u8)), std_hash(&("a", 2u8)));
    assert_eq!(hash_of(&&"some_input"), std_hash(&&"some_input"));
}

#[test]
fn memo_key_hashes_input_scope_and_type() {
    let mut store = Store::new();
    let a: Memoized<u16, u8> = Memoized::from(&mut store, 3u32, 9u16, |_| 1u8);
    let mut state = DefaultHasher::new();
    state.write(&9u16.to_le_bytes());
    state.write(&3u32.to_le_bytes());
    state.write(&static_type_id::<u8>().to_le_bytes());
    let key = state.finish();
    let found = store.memoized(static_type_id::<u8>(), key).unwrap();
    assert_eq!(found.as_ptr(), a.interned().as_ptr());
    assert!(store.memoized(static_type_id::<u8>(), key.wrapping_add(1)).is_none());
}

#[test]
fn type_identities_and_names() {
    assert_eq!(static_type_id::<()>(), 0);
    assert_eq!(static_type_id::<char>(), 1);
    assert_eq!(static_type_id::<bool>(), 2);
    assert_eq!(static_type_id::<usize>(), 3);
    assert_eq!(static_type_id::<u8>(), 4);
    assert_eq!(static_type_id::<u128>(), 8);
    assert_eq!(static_type_id::<i8>(), 9);
    assert_eq!(static_type_id::<i32>(), 11);
    assert_eq!(static_type_id::<i128>(), 13);
    assert_eq!(static_type_id::<&str>(), 14);
    assert_eq!(static_type_id::<&[i32]>(), u64::MAX - 11);
    assert_eq!(static_type_id::<&[()]>(), u64::MAX);
    assert_eq!(<i32 as Staticize>::static_type_id(), 11);
    assert_eq!(static_type_name::<i32>(), "i32");
    assert_eq!(static_type_name::<()>(), "()");
    assert_eq!(static_type_name::<&str>(), "&str");
    assert_eq!(static_type_name::<&[i32]>(), "&[i32]");
    assert_eq!(static_type_name::<Vec<u8>>(), "&[u8]");
    assert_eq!(static_type_name::<interned::OsBytes>(), "&OsStr");
    assert_eq!(static_type_name::<interned::PathBytes>(), "&Path");
    assert_eq!(static_type_id::<interned::OsBytes>(), 15);
    assert_eq!(static_type_id::<interned::PathBytes>(), 16);
}

#[test]
fn identities_are_pairwise_distinct() {
    let own = vec![
        static_type_id::<()>(),
        static_type_id::<char>(),
        static_type_id::<bool>(),
        static_type_id::<usize>(),
        static_type_id::<u8>(),
        static_type_id::<u16>(),
        static_type_id::<u32>(),
        static_type_id::<u64>(),
        static_type_id::<u128>(),
        static_type_id::<i8>(),
        static_type_id::<i16>(),
        static_type_id::<i32>(),
        static_type_id::<i64>(),
        static_type_id::<i128>(),
        static_type_id::<&str>(),
        static_type_id::<interned::OsBytes>(),
        static_type_id::<interned::PathBytes>(),
    ];
    let slices = vec![
        static_type_id::<&[()]>(),
        static_type_id::<&[char]>(),
        static_type_id::<&[bool]>(),
        static_type_id::<&[usize]>(),
        static_type_id::<&[u8]>(),
        static_type_id::<&[u16]>(),
        static_type_id::<&[u32]>(),
        static_type_id::<&[u64]>(),
        static_type_id::<&[u128]>(),
        static_type_id::<&[i8]>(),
        static_type_id::<&[i16]>(),
        static_type_id::<&[i32]>(),
        static_type_id::<&[i64]>(),
        static_type_id::<&[i128]>(),
    ];
    assert_eq!(own, (0..17).collect::<Vec<u64>>());
    assert!(own.iter().all(|id| *id < FIRST_SLICE_ID));
    assert!(slices.iter().all(|id| *id >= FIRST_SLICE_ID));
    for (item, slice) in own.iter().zip(slices.iter()) {
        assert_eq!(*slice, u64::MAX - *item);
    }
    let mut all = own.clone();
    all.extend(slices.iter().copied());
    all.sort();
    all.dedup();
    assert_eq!(all.len(), 31);
    assert_eq!(FIRST_SLICE_ID, 1u64 << 63);
    assert_eq!(static_type_id::<String>(), static_type_id::<&str>());
    assert_eq!(static_type_id::<Vec<i32>>(), static_type_id::<&[i32]>());
    assert_ne!(static_type_id::<&[i32]>(), static_type_id::<i32>());
}

#[test]
fn interning_leaves_the_other_types_alone() {
    let mut store = Store::new();
    let _: Interned<i32> = Interned::from(&mut store, 5i32);
    assert_eq!(num_interned::<i32>(&store), 1);
    assert_eq!(num_interned::<&[i32]>(&store), 0);
    assert_eq!(num_interned::<u32>(&store), 0);
    assert_eq!(num_interned::<&str>(&store), 0);
    let _: Interned<&[i32]> = Interned::from(&mut store, [5i32].as_slice());
    assert_eq!(num_interned::<i32>(&store), 1);
    assert_eq!(num_interned::<&[i32]>(&store), 1);
    assert_eq!(num_interned::<&[u32]>(&store), 0);
    let _: Interned<&str> = Interned::from(&mut store, "5");
    assert_eq!(num_interned::<i32>(&store), 1);
    assert_eq!(num_interned::<&[i32]>(&store), 1);
    assert_eq!(num_interned::<&str>(&store), 1);
    let _: Memoized<u8, i32> = Memoized::from(&mut store, (), 0u8, |_| 6i32);
    assert_eq!(num_memoized::<i32>(&store), 1);
    assert_eq!(num_interned::<i32>(&store), 2);
    assert_eq!(num_memoized::<&[i32]>(&store), 0);
    assert_eq!(num_interned::<&[i32]>(&store), 1);
    let _: Memoized<u8, &[i32]> = Memoized::from(&mut store, (), 0u8, |_| vec![6i32]);
    assert_eq!(num_memoized::<&[i32]>(&store), 1);
    assert_eq!(num_memoized::<i32>(&store), 1);
    assert_eq!(num_interned::<i32>(&store), 2);
    assert_eq!(num_interned::<&[i32]>(&store), 2);
}

#[test]
fn handles_are_ordered_by_hash() {
    let mut store = Store::new();
    let a: Interned<i32> = Interned::from(&mut store, 1);
    let b: Interned<i32> = Interned::from(&mut store, 2);
    let expected = a.value.hash_code().cmp(&b.value.hash_code());
    assert_ne!(expected, Ordering::Equal);
    assert_eq!(a.cmp(&b), expected);
    assert_eq!(b.cmp(&a), expected.reverse());
    assert_eq!(a.partial_cmp(&b), Some(expected));
    assert_eq!(a.cmp(&a), Ordering::Equal);
    assert_eq!(a.value._cmp(&b.value), expected);
    assert_eq!(a.value._partial_cmp(&b.value), Some(expected));
    assert!(a.value._partial_eq(&a.value));
    assert!(!a.value._partial_eq(&b.value));
    assert_eq!(a < b, expected == Ordering::Less);
    assert_eq!(compare_hashes(1, 2), Ordering::Less);
    assert_eq!(compare_hashes(2, 2), Ordering::Equal);
    assert_eq!(compare_hashes(3, 2), Ordering::Greater);
    let m: Memoized<u8, i32> = Memoized::from(&mut store, (), 0u8, |_| 1);
    let n: Memoized<u8, i32> = Memoized::from(&mut store, (), 1u8, |_| 2);
    assert_eq!(m.cmp(&n), expected);
    assert_eq!(m.partial_cmp(&n), Some(expected));
}

#[test]
fn references_of_different_kinds_are_ordered_by_kind() {
    let mut heap = Heap::new();
    let value = Static::from_value(&mut heap, 1u8, Some(50));
    let slice = Static::from(&mut heap, [1u8].as_slice(), Some(40));
    let text = Static::from_str(&mut heap, "a", Some(30));
    let os = Static::from_os_str(&mut heap, b"a", Some(20));
    let path = Static::from_path(&mut heap, b"a", Some(10));
    assert_eq!(value.cmp(&slice), Ordering::Less);
    assert_eq!(slice.cmp(&text), Ordering::Less);
    assert_eq!(text.cmp(&os), Ordering::Less);
    assert_eq!(os.cmp(&path), Ordering::Less);
    assert_eq!(path.cmp(&value), Ordering::Greater);
    assert_eq!(value._cmp(&slice), Ordering::Greater);
    assert!(value < slice);
    assert_ne!(value, slice);
    let same_hash = Static::from_value(&mut heap, 2u8, Some(50));
    assert_eq!(value, same_hash);
    assert_eq!(value.cmp(&same_hash), Ordering::Equal);
    let other_kind = Static::from_str(&mut heap, "b", Some(50));
    assert_ne!(value, other_kind);
    assert!(value._partial_eq(&other_kind));
}

#[test]
fn handles_hash_as_type_and_content_hash() {
    let mut store = Store::new();
    let a: Interned<i32> = Interned::from(&mut store, 1);
    let mut state = DefaultHasher::new();
    state.write(&static_type_id::<i32>().to_le_bytes());
    state.write(&a.value.hash_code().to_le_bytes());
    let expected = state.finish();
    assert_eq!(hash_of(&a), expected);
    let mut state = DefaultHasher::new();
    a.value._hash::<i32>(&mut state);
    assert_eq!(state.finish(), expected);
    let m: Memoized<u8, i32> = Memoized::from(&mut store, (), 0u8, |_| 1);
    assert_eq!(hash_of(&m), expected);
    let mut heap = Heap::new();
    let v = StaticValue::from(&mut heap, 5u8);
    assert_eq!(hash_of(&v), hash_of(&v.hash));
}

#[test]
fn a_checked_read_refuses_a_wrong_type() {
    let mut store = Store::new();
    let a: Interned<i32> = Interned::from(&mut store, 5);
    assert_eq!(a.try_deref(&store), Some(5));
    let wrong: Interned<u8> = Interned::from_static(&mut store, a.value);
    assert_eq!(wrong.try_deref(&store), None);
    let text: Interned<&str> = Interned::from_static(&mut store, a.value);
    assert_eq!(text.try_deref(&store), None);
    let mixed: Interned<&[u8]> = Interned::from(&mut store, [1u8, 2].as_slice());
    let as_bools: Interned<&[bool]> = Interned::from_static(&mut store, mixed.value);
    assert_eq!(as_bools.try_deref(&store), None);
    assert_eq!(mixed.try_deref(&store), Some(vec![1u8, 2]));
    let other = Store::new();
    assert_eq!(a.try_deref(&other), None);
    assert!(a.value.stands_in(store.heap()));
    assert!(!a.value.stands_in(other.heap()));
}

#[test]
fn a_reference_stands_only_where_its_record_is() {
    let mut heap = Heap::new();
    let value = Static::from_value(&mut heap, 1u8, None);
    let slice = Static::from(&mut heap, [1u8, 2, 3].as_slice(), None);
    assert!(value.stands_in(&heap));
    assert!(slice.stands_in(&heap));
    let mut other = Heap::new();
    assert!(!value.stands_in(&other));
    let _ = Static::from_value(&mut other, 2u8, None);
    assert!(!value.stands_in(&other));
    let _ = Static::from_value(&mut other, 1u8, None);
    assert!(!slice.stands_in(&other));
    let same = Static::from_value(&mut Heap::new(), 1u8, None);
    assert!(same.stands_in(&heap));
}

#[test]
fn views_of_a_value() {
    assert_eq!(5i32.as_value(), Some(Scalar::I32(5)));
    assert!(5i32.as_slice().is_none());
    assert_eq!('c'.as_value(), Some(Scalar::Char('c')));
    assert_eq!(().as_value(), Some(Scalar::Unit));
    let items = [1u8, 2];
    let slice: &[u8] = &items;
    assert_eq!(DataType::as_slice(&slice), Some(slice));
    assert_eq!(slice.as_value(), None);
    assert_eq!("text".as_value(), None);
    assert!("text".as_slice().is_none());
    assert_eq!(7u64.to_scalar(), Scalar::U64(7));
    assert_eq!(<u64 as ScalarType>::of_scalar(Scalar::U64(7)), 7);
    assert!(<u64 as ScalarType>::fits(&Scalar::U64(7)));
    assert!(!<u64 as ScalarType>::fits(&Scalar::I64(7)));
    assert!(<i32 as DataType>::accepts(&Payload::Value(Scalar::I32(1))));
    assert!(!<i32 as DataType>::accepts(&Payload::Value(Scalar::U32(1))));
    assert!(!<i32 as DataType>::accepts(&Payload::Str(String::from("1"))));
    assert!(<&[i32] as DataType>::accepts(&Payload::Slice(vec![Scalar::I32(1)])));
    assert!(!<&[i32] as DataType>::accepts(&Payload::Slice(vec![Scalar::I32(1), Scalar::U8(1)])));
    assert_eq!(<&[i32] as DataType>::read(&Payload::Slice(vec![Scalar::I32(1)])), vec![1]);
    assert_eq!(<&str as DataType>::read(&Payload::Str(String::from("1"))), "1");
}

#[test]
fn scalars_of_a_slice() {
    let scalars = write_scalars([1i8, -1].as_slice());
    assert_eq!(scalars, vec![Scalar::I8(1), Scalar::I8(-1)]);
    assert!(scalars_fit::<i8>(&scalars));
    assert!(!scalars_fit::<u8>(&scalars));
    assert!(scalars_fit::<u8>(&Vec::new()));
    assert_eq!(read_scalars::<i8>(&scalars), vec![1i8, -1]);
    assert_eq!(write_scalars::<bool>(&[]), Vec::<Scalar>::new());
    assert_eq!(<Value as DataTypeTypeMarker>::storage_kind(), Kind::Value);
    assert_eq!(<Slice as DataTypeTypeMarker>::storage_kind(), Kind::Slice);
    assert_eq!(<Reference as DataTypeTypeMarker>::storage_kind(), Kind::Reference);
    let mut heap = Heap::new();
    let copied = StaticValue::copy_of(&mut heap, &9u16, Some(4));
    assert_eq!(copied.ptr, 0);
    assert_eq!(copied.hash, 4);
    assert_eq!(copied.as_value::<u16>(&heap), 9);
}

#[test]
fn records_are_made_at_the_end_of_the_heap() {
    let mut heap = Heap::new();
    assert_eq!(heap.len(), 0);
    let a = 5i32.to_static(&mut heap);
    assert_eq!(a.as_ptr(), 0);
    assert_eq!(a.hash_code(), hash_of(&5i32));
    let b = "text".to_static_with_hash(&mut heap, Some(17));
    assert_eq!(b.as_ptr(), 1);
    assert_eq!(b.hash_code(), 17);
    let c = [1u8, 2].as_slice().to_static(&mut heap);
    assert_eq!(c.as_ptr(), 2);
    assert_eq!(heap.len(), 3);
    assert_eq!(heap.hash_code(1), 17);
    assert_eq!(a.as_value::<i32>(&heap), 5);
    assert_eq!(b.as_str(&heap), "text");
    assert_eq!(c.as_slice::<u8>(&heap), vec![1, 2]);
    assert!(matches!(a, Static::Value(_)));
    assert!(matches!(b, Static::Str(_)));
    assert!(matches!(c, Static::Slice(_)));
    match c {
        Static::Slice(slice) => assert_eq!(slice.len(), 2),
        _ => unreachable!(),
    }
    let ptr = heap.allocate(Payload::Value(Scalar::Bool(true)), 1);
    assert_eq!(ptr, 3);
    assert!(matches!(heap.payload(3), Payload::Value(Scalar::Bool(true))));
}

#[test]
fn text_records_keep_their_text() {
    let mut heap = Heap::new();
    let a = StaticStr::from(&mut heap, "hello");
    let b = StaticStr::with_hash(&mut heap, "hello", Some(3));
    assert_eq!(a.as_str(&heap), "hello");
    assert_eq!(b.as_str(&heap), "hello");
    assert_eq!(a.hash, hash_of("hello"));
    assert_eq!(b.hash, 3);
    assert_ne!(a, b);
    let c = StaticOsStr::from(&mut heap, b"os");
    assert_eq!(c.as_os_str(&heap), b"os");
    assert_eq!(c.hash, hash_of(b"os".as_slice()));
    let d = StaticPath::from(&mut heap, b"/p");
    assert_eq!(d.as_path(&heap), b"/p");
    let e = StaticPath::with_hash(&mut heap, b"/q", Some(d.hash));
    assert_eq!(d, e);
    let f = Static::from_os_str(&mut heap, b"x", None);
    assert_eq!(f.as_os_str(&heap), b"x");
    let g = Static::from_path(&mut heap, b"y", None);
    assert_eq!(g.as_path(&heap), b"y");
}

#[test]
fn diagnostic_texts() {
    let mut store = Store::new();
    let a: Interned<i32> = Interned::from(&mut store, 10);
    assert_eq!(a.fmt("10"), "Interned<i32> { value: 10 }");
    assert_eq!(a.fmt(""), "Interned<i32> { value:  }");
    let s: Interned<&str> = Interned::from(&mut store, "asdf");
    assert_eq!(s.fmt("\"asdf\""), "Interned<&str> { str: \"asdf\" }");
    let m: Memoized<u8, i32> = Memoized::from(&mut store, (), 0u8, |_| 10);
    assert_eq!(m.fmt("10"), "Memoized { interned_value: Interned<i32> { value: 10 } }");
    let bytes: Interned<&[u8]> = Interned::from(&mut store, [1u8].as_slice());
    assert_eq!(bytes.fmt("[1]"), "Interned<&[u8]> { slice: [1] }");
    assert_eq!(label_of(&a.value), "value");
    assert_eq!(label_of(&s.value), "str");
    assert_eq!(label_of(&bytes.value), "slice");
    let mut heap = Heap::new();
    assert_eq!(label_of(&Static::from_os_str(&mut heap, b"a", None)), "OsStr");
    assert_eq!(label_of(&Static::from_path(&mut heap, b"a", None)), "Path");
}

#[test]
fn string_handles() {
    let mut store = Store::new();
    let a = InStr::from(&mut store, "this is a triumph");
    let b = InStr::from(&mut store, String::from("this is a triumph").as_str());
    let c = InStr::from(&mut store, "I'm making a note here, huge success");
    assert_eq!(a, b);
    assert_eq!(a.as_str(&store), "this is a triumph");
    assert_ne!(a, c);
    assert_ne!(b, c);
    assert_eq!(a.as_ptr(), b.as_ptr());
}

#[test]
fn handles_can_be_memo_inputs() {
    let mut store = Store::new();
    let word: Interned<&str> = Interned::from(&mut store, "word");
    let calls = Cell::new(0);
    let a: Memoized<Interned<&str>, usize> = Memoized::from(&mut store, (), word, |_| {
        calls.set(calls.get() + 1);
        4usize
    });
    let b: Memoized<Interned<&str>, usize> = Memoized::from(&mut store, (), word, |_| {
        calls.set(calls.get() + 1);
        4usize
    });
    assert_eq!(calls.get(), 1);
    assert_eq!(a, b);
    assert_eq!(a.as_value(&store), 4);
}
