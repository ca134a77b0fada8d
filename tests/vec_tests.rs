use deptypes::fin::Fin;
use deptypes::var::Brands;
use deptypes::vec::{DIter, DVec};

#[test]
fn vec_test_fin_range() {
    let mut brands = Brands::new();
    let a = DVec::from(brands.guard(), vec![3u32, 66, 80, 99]);
    println!("hello len={}", a.len().into_inner());
    let mut seen = Vec::new();
    let mut range = Fin::range(a.len());
    while let Some(i) = range.next() {
        let x = *a.get(&i);
        println!("{}: {}", i.into_inner(), x);
        seen.push(x);
    }
    assert_eq!(seen, vec![3, 66, 80, 99]);
    let b = DVec::from(brands.guard(), vec![434u32, 73, 13]);
    let c = a.add(b);
    println!("c len={}", c.len().into_inner());
    assert_eq!(c.len().into_inner(), 7);
    let mut seen = Vec::new();
    let mut range = Fin::range(c.len());
    while let Some(i) = range.next() {
        let x = *c.get(&i);
        println!("{}: {}", i.into_inner(), x);
        seen.push(x);
    }
    assert_eq!(seen, vec![3, 66, 80, 99, 434, 73, 13]);
}

#[test]
fn dvec_push_grows_length() {
    let v: DVec<u8> = DVec::new();
    assert_eq!(v.len().into_inner(), 0);
    let v = v.push(7).push(9);
    assert_eq!(v.len().into_inner(), 2);
    assert_eq!(v.into_vec(), vec![7, 9]);
}

#[test]
fn dvec_swap_remove_moves_last_element() {
    let mut brands = Brands::new();
    let v = DVec::from(brands.guard(), vec![10u8, 20, 30]);
    let before = v.len();
    let v = v.push(40);
    assert_eq!(v.len().into_inner(), 4);
    let i = Fin::from(before, 1usize).unwrap();
    let (v, x) = v.swap_remove(i);
    assert_eq!(x, 20);
    assert_eq!(v.len().into_inner(), 3);
    assert_eq!(v.into_vec(), vec![10, 40, 30]);
}

#[test]
fn dvec_clear_empties() {
    let mut brands = Brands::new();
    let v = DVec::from(brands.guard(), vec![1u8, 2, 3]).clear();
    assert_eq!(v.len().into_inner(), 0);
    assert!(v.into_vec().is_empty());
}

#[test]
fn diter_hands_out_items_in_order() {
    let mut brands = Brands::new();
    let it = DIter::new_exact(brands.guard(), vec!['a', 'b', 'c']);
    assert_eq!(it.len().into_inner(), 3);
    let (it, x) = it.next().ok().unwrap();
    assert_eq!(x, 'a');
    assert_eq!(it.len().into_inner(), 2);
    let (it, y) = it.next().ok().unwrap();
    let (it, z) = it.next().ok().unwrap();
    assert_eq!((y, z), ('b', 'c'));
    assert!(it.next().is_err());
}

#[test]
fn dvec_add_iter_appends_in_order() {
    let mut brands = Brands::new();
    let v = DVec::from(brands.guard(), vec![1u8, 2]);
    let it = DIter::new_exact(brands.guard(), vec![3u8, 4, 5]);
    let v = v.add_iter(it);
    assert_eq!(v.len().into_inner(), 5);
    assert_eq!(v.into_vec(), vec![1, 2, 3, 4, 5]);
}

#[test]
fn fin_from_checks_bound() {
    let mut brands = Brands::new();
    let v = DVec::from(brands.guard(), vec![0u8; 3]);
    assert!(Fin::from(v.len(), 2usize).is_some());
    assert!(Fin::from(v.len(), 3usize).is_none());
    let mut range = Fin::range(v.len());
    let mut n = 0;
    while let Some(i) = range.next() {
        assert_eq!(i.into_inner(), n);
        n += 1;
    }
    assert_eq!(n, 3);
}

#[test]
fn dslice_indexes_within_length() {
    let mut brands = Brands::new();
    let data = [5u16, 6, 7];
    let (s, len) = deptypes::slice::DSlice::new_ref(brands.guard(), &data);
    assert_eq!(len.into_inner(), 3);
    let mut range = Fin::range(s.len());
    let mut seen = Vec::new();
    while let Some(i) = range.next() {
        seen.push(*s.get(&i));
    }
    assert_eq!(seen, vec![5, 6, 7]);
    let v = DVec::from(brands.guard(), vec![1u8, 2]);
    let view = v.as_slice();
    assert_eq!(view.len().into_inner(), 2);
    let short = deptypes::slice::DSlice::with_len(&data, v.len());
    assert!(short.is_none());
}

#[test]
fn dpair_packs_length_with_vector() {
    let mut brands = Brands::new();
    let v = DVec::from(brands.guard(), vec![9u8, 8, 7]);
    let pair = deptypes::pair::DPair::new(v.len(), v);
    let (len, v) = pair.into_inner(brands.guard());
    assert_eq!(*len.get(), 3);
    let mut range = Fin::range(len);
    let mut seen = Vec::new();
    while let Some(i) = range.next() {
        seen.push(*v.get(&i));
    }
    assert_eq!(seen, vec![9, 8, 7]);
}

#[test]
fn diter_into_inner_keeps_order() {
    let mut brands = Brands::new();
    let it = DIter::new_exact(brands.guard(), vec![1u8, 2, 3]);
    let (it, first) = it.next().ok().unwrap();
    assert_eq!(first, 1);
    let (rest, len) = it.into_inner();
    assert_eq!(rest, vec![2, 3]);
    assert_eq!(len.into_inner(), 2);
}
