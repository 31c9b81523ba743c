use interned::{
    num_interned, num_memoized, Hashable, Heap, InOsStr, InPath, Interned, Memoized, OsBytes,
    PathBytes, StaticSlice, StaticValue, Store,
};
use std::fmt::Debug;

fn assert_handle_traits<T: Copy + Clone + PartialEq + Eq + PartialOrd + Hashable + Debug>() {}

fn expensive_fn(a: usize, b: usize, c: usize) -> String {
    format!("{}", a * a + b * b + c * c)
}

#[test]
fn test_interned_traits() {
    assert_handle_traits::<Interned<bool>>();
    assert_handle_traits::<Interned<usize>>();
    assert_handle_traits::<Interned<u8>>();
    assert_handle_traits::<Interned<u16>>();
    assert_handle_traits::<Interned<u32>>();
    assert_handle_traits::<Interned<u64>>();
    assert_handle_traits::<Interned<u128>>();
    assert_handle_traits::<Interned<i8>>();
    assert_handle_traits::<Interned<i16>>();
    assert_handle_traits::<Interned<i32>>();
    assert_handle_traits::<Interned<i64>>();
    assert_handle_traits::<Interned<i128>>();
    assert_handle_traits::<Interned<&str>>();

    assert_handle_traits::<Interned<&[bool]>>();
    assert_handle_traits::<Interned<&[usize]>>();
    assert_handle_traits::<Interned<&[u8]>>();
    assert_handle_traits::<Interned<&[u16]>>();
    assert_handle_traits::<Interned<&[u32]>>();
    assert_handle_traits::<Interned<&[u64]>>();
    assert_handle_traits::<Interned<&[u128]>>();
    assert_handle_traits::<Interned<&[i8]>>();
    assert_handle_traits::<Interned<&[i16]>>();
    assert_handle_traits::<Interned<&[i32]>>();
    assert_handle_traits::<Interned<&[i64]>>();
    assert_handle_traits::<Interned<&[i128]>>();
}

#[test]
fn test_memoized_traits() {
    assert_handle_traits::<Memoized<i32, bool>>();
    assert_handle_traits::<Memoized<i32, usize>>();
    assert_handle_traits::<Memoized<i32, u8>>();
    assert_handle_traits::<Memoized<i32, u16>>();
    assert_handle_traits::<Memoized<i32, u32>>();
    assert_handle_traits::<Memoized<i32, u64>>();
    assert_handle_traits::<Memoized<i32, u128>>();
    assert_handle_traits::<Memoized<i32, i8>>();
    assert_handle_traits::<Memoized<i32, i16>>();
    assert_handle_traits::<Memoized<i32, i32>>();
    assert_handle_traits::<Memoized<i32, i64>>();
    assert_handle_traits::<Memoized<i32, i128>>();
    assert_handle_traits::<Memoized<i32, &str>>();

    assert_handle_traits::<Memoized<&str, &[bool]>>();
    assert_handle_traits::<Memoized<&str, &[usize]>>();
    assert_handle_traits::<Memoized<&str, &[u8]>>();
    assert_handle_traits::<Memoized<&str, &[u16]>>();
    assert_handle_traits::<Memoized<&str, &[u32]>>();
    assert_handle_traits::<Memoized<&str, &[u64]>>();
    assert_handle_traits::<Memoized<&str, &[u128]>>();
    assert_handle_traits::<Memoized<&str, &[i8]>>();
    assert_handle_traits::<Memoized<&str, &[i16]>>();
    assert_handle_traits::<Memoized<&str, &[i32]>>();
    assert_handle_traits::<Memoized<&str, &[i64]>>();
    assert_handle_traits::<Memoized<&str, &[i128]>>();
}

#[test]
fn test_static_alloc() {
    let mut heap = Heap::new();
    let a = StaticValue::from(&mut heap, 37);
    assert_eq!(a.as_value::<i32>(&heap), 37);
    let b = StaticValue::from(&mut heap, 37);
    assert_eq!(a, b); // equality goes by the hash, not by the address
    let c = StaticValue::from(&mut heap, 8348783947u64);
    assert_ne!(b, c);
    assert_eq!(c.as_value::<u64>(&heap), 8348783947u64);
}

#[test]
fn test_interned_basics() {
    let mut store = Store::new();
    let initial_interned = num_interned::<i32>(&store);
    let a: Interned<i32> = Interned::from(&mut store, 32);
    let b: Interned<i32> = Interned::from(&mut store, 27);
    assert_ne!(a, b);
    let c: Interned<i32> = Interned::from(&mut store, 32);
    assert_eq!(a, c);
    assert_ne!(b, c);
    assert_eq!(a.interned_value(&store), 32);
    assert_eq!(b.interned_value(&store), 27);
    assert_eq!(c.interned_value(&store), 32);
    assert_eq!(num_interned::<i32>(&store), initial_interned + 2);
}

#[test]
fn test_interned_showcase() {
    let mut store = Store::new();
    let a: Interned<i32> = Interned::from(&mut store, 1289);
    let b = Interned::from(&mut store, 1289);
    let c: Interned<i32> = Interned::from(&mut store, 47);
    assert_eq!(a, b);
    assert_ne!(a, c);
    assert_eq!(a.as_ptr(), b.as_ptr());
    assert_ne!(b.as_ptr(), c.as_ptr());
    let d: Interned<&str> = Interned::from(&mut store, "asdf");
    assert_ne!(d, Interned::from(&mut store, "fdsa"));
    assert_eq!(Interned::from(&mut store, "asdf"), d);
    let e = Interned::from(&mut store, [1, 2, 3, 4, 5].as_slice());
    assert_eq!(e, Interned::from(&mut store, [1, 2, 3, 4, 5].as_slice()));
    assert_ne!(e, Interned::from(&mut store, [4, 1, 7].as_slice()));
    assert_eq!(b.fmt(&format!("{:?}", b.deref(&store))), "Interned<i32> { value: 1289 }");
    assert_eq!(d.fmt(&format!("{:?}", d.deref(&store))), "Interned<&str> { str: \"asdf\" }");
    assert_eq!(e.deref(&store)[3], 4);
    assert_eq!(e.deref(&store)[0], 1);
    assert_eq!(
        e.fmt(&format!("{:?}", e.deref(&store))),
        "Interned<&[i32]> { slice: [1, 2, 3, 4, 5] }"
    );
}

#[test]
fn test_memoized_showcase() {
    let mut store = Store::new();
    let a: Memoized<(usize, usize, usize), &str> =
        Memoized::from(&mut store, (), (1, 2, 3), |tup: (usize, usize, usize)| {
            expensive_fn(tup.0, tup.1, tup.2)
        });
    assert_eq!(a.as_str(&store), "14");
}

#[test]
fn test_interned_into() {
    let mut store = Store::new();
    let a: Interned<i32> = Interned::from(&mut store, 32);
    let b = Interned::from(&mut store, 32);
    assert_eq!(a, b);
    let c: Interned<i32> = Interned::from(&mut store, 43);
    assert_ne!(a, c);
    assert_ne!(c, b);
}

#[test]
fn test_interned_str_types() {
    let mut store = Store::new();
    let a: Interned<&str> = Interned::from(&mut store, "this is a triumph");
    let b: Interned<&str> = Interned::from(&mut store, "I'm making a note here: huge success");
    assert_ne!(a, b);
    assert_ne!(a.interned_str(&store), b.interned_str(&store));
    assert_eq!(a.interned_str(&store), "this is a triumph");
    assert_eq!(b.interned_str(&store), "I'm making a note here: huge success");
    let st = String::from("asdf");
    let c = Interned::from(&mut store, st.as_str());
    let st2 = String::from("asdf");
    let d = Interned::from(&mut store, st2.as_str());
    assert_eq!(c, d);
    assert_ne!(c, b);
    let st3 = String::from("nope nope");
    let e = Interned::from(&mut store, st3.as_str());
    assert_ne!(d, e);
    assert_eq!(c.interned_str(&store).as_ptr(), d.interned_str(&store).as_ptr());
}

#[test]
fn test_interned_deref() {
    let mut store = Store::new();
    let a: Interned<i32> = Interned::from(&mut store, -99);
    assert_eq!(a.interned_value(&store).abs(), 99);
    let b = Interned::from(&mut store, [5, 6, 7].as_slice());
    assert_eq!(b.deref(&store).len(), 3);
    let c = Interned::from(
        &mut store,
        "for the good of all of us except the ones who are dead",
    );
    assert_eq!(c.interned_str(&store).chars().next().unwrap(), 'f');
}

#[test]
fn test_memoized_basic() {
    let mut store = Store::new();
    let initial_interned = num_interned::<usize>(&store);
    let initial_memoized = num_memoized::<usize>(&store);
    let a: Memoized<&&str, usize> =
        Memoized::from(&mut store, (), &"some_input", |input: &&str| input.len());
    let b: Memoized<&&str, usize> =
        Memoized::from(&mut store, (), &"other", |input: &&str| input.len());
    assert_ne!(a, b);
    let c: Memoized<&&str, usize> =
        Memoized::from(&mut store, (), &"some_input", |input: &&str| input.len());
    assert_eq!(a, c);
    assert_ne!(b, c);
    assert_eq!(a.as_value(&store), 10);
    assert_ne!(a.as_value(&store), 11);
    assert_eq!(b.interned().interned_value(&store), 5);
    assert_eq!(c.as_value(&store), 10);
    assert_eq!(num_interned::<usize>(&store), initial_interned + 2);
    assert_eq!(num_memoized::<usize>(&store), initial_memoized + 2);
}

#[test]
fn test_interned_byte_arrays() {
    let mut store = Store::new();
    let a: Interned<&[u8]> = Interned::from(&mut store, [1u8, 2u8, 3u8].as_slice());
    let b = Interned::from(&mut store, [5u8, 4u8, 3u8, 2u8, 1u8].as_slice());
    assert_ne!(a.as_ptr(), b.as_ptr());
    let c = Interned::from(&mut store, [1u8, 2u8, 3u8].as_slice());
    assert_eq!(a.as_ptr(), c.as_ptr());
    assert_eq!(a.interned_slice(&store), c.interned_slice(&store));
    assert_eq!(a, c);
    assert_eq!(c, a);
    assert_ne!(a, b);
    assert_ne!(b, a);
}

#[test]
fn test_static_slice() {
    let mut heap = Heap::new();
    let slice = &mut [1, 2, 3, 4, 5];
    let a = StaticSlice::from(&mut heap, slice.as_slice());
    assert_eq!(a.as_slice::<i32>(&heap), &[1, 2, 3, 4, 5]);
    slice[1] = 7;
    assert_eq!(a.as_slice::<i32>(&heap), [1, 2, 3, 4, 5]);
    let b = StaticSlice::from(&mut heap, [1, 2, 3, 4, 5].as_slice());
    assert_eq!(a, b);
    let c = StaticSlice::from(&mut heap, [true, false, true, false, true, false].as_slice());
    assert_ne!(a, c);
    assert_ne!(b, c);
    assert_eq!(
        c.as_slice::<bool>(&heap),
        &[true, false, true, false, true, false]
    );
}

#[test]
fn test_interned_os_str() {
    let mut store = Store::new();
    let a: Interned<OsBytes> = Interned::from(&mut store, OsBytes(b"hey"));
    let b: &[u8] = b"hey";
    assert_eq!(a.interned_os_str(&store), b);
}

#[test]
fn test_in_os_str() {
    let mut store = Store::new();
    let a: InOsStr = InOsStr::from(&mut store, b"hello world");
    let b: InOsStr = InOsStr::from(&mut store, String::from("hey").as_bytes());
    assert_ne!(a, b);
    let c: InOsStr = InOsStr::from(&mut store, b"hello world");
    assert_eq!(a, c);
    assert_ne!(b, c);
}

#[test]
fn test_interned_path() {
    let mut store = Store::new();
    let a: Interned<PathBytes> = Interned::from(&mut store, PathBytes(b"/hey"));
    let b: &[u8] = b"/hey";
    assert_eq!(a.interned_path(&store), b);
}

#[test]
fn test_in_path() {
    let mut store = Store::new();
    let a: InPath = InPath::from(&mut store, b"/hello/world");
    let b: InPath = InPath::from(&mut store, b"hey");
    assert_ne!(a, b);
    let c: InPath = InPath::from(&mut store, b"/hello/world");
    assert_eq!(a, c);
    assert_ne!(b, c);
}
