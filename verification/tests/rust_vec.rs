use cxxbridge::rust_vec::RustVec;
use cxxbridge::vector::Vector;
use std::rc::Rc;

#[derive(Clone, Copy, Debug, PartialEq)]
struct Shared {
    z: usize,
}

fn contents<T: Copy>(v: &Vector<T>) -> Vec<T> {
    let mut out = Vec::new();
    for i in 0..v.size() {
        out.push(*v.get(i).unwrap());
    }
    out
}

#[test]
fn hand_off_keeps_the_elements() {
    let v = RustVec::from(vec![86_u8, 75, 30, 9]);
    assert_eq!(v.len(), 4);
    assert_eq!(v.into_vec(), vec![86_u8, 75, 30, 9]);
}

#[test]
fn hand_off_of_an_empty_vec() {
    let v = RustVec::from(Vec::<u32>::new());
    assert_eq!(v.len(), 0);
    let mut dst = Vector::new();
    v.to_vector(&mut dst);
    assert_eq!(dst.size(), 0);
    assert_eq!(v.into_vec(), Vec::<u32>::new());
}

#[test]
fn hand_off_keeps_the_allocation() {
    let mut s: Vec<u64> = Vec::with_capacity(32);
    s.push(7);
    s.push(11);
    let capacity = s.capacity();
    let back = RustVec::from(s).into_vec();
    assert_eq!(back, vec![7, 11]);
    assert_eq!(back.capacity(), capacity);
}

#[test]
fn len_can_be_read_again_and_again() {
    let v = RustVec::from(vec![1_i32, 2, 3]);
    assert_eq!(v.len(), 3);
    assert_eq!(v.len(), 3);
    assert_eq!(v.len(), 3);
}

#[test]
fn to_vector_copies_every_element_in_order() {
    let v = RustVec::from(vec![86_u8, 75, 30, 9]);
    let mut dst = Vector::new();
    v.to_vector(&mut dst);
    assert_eq!(dst.size(), 4);
    assert_eq!(contents(&dst), vec![86_u8, 75, 30, 9]);
}

#[test]
fn to_vector_leaves_the_source_usable() {
    let v = RustVec::from(vec![5_u16, 6, 7]);
    let mut dst = Vector::new();
    v.to_vector(&mut dst);
    assert_eq!(v.len(), 3);
    assert_eq!(v.into_vec(), vec![5_u16, 6, 7]);
    assert_eq!(contents(&dst), vec![5_u16, 6, 7]);
}

#[test]
fn to_vector_appends_behind_what_is_there() {
    let v = RustVec::from(vec![3_i64, 4]);
    let mut dst = Vector::new();
    dst.push_back(&1);
    dst.push_back(&2);
    v.to_vector(&mut dst);
    assert_eq!(contents(&dst), vec![1_i64, 2, 3, 4]);
    v.to_vector(&mut dst);
    assert_eq!(contents(&dst), vec![1_i64, 2, 3, 4, 3, 4]);
}

#[test]
fn sequence_of_u8_crosses_with_length_and_sum() {
    let v = RustVec::from(vec![86_u8, 75, 30, 9]);
    let mut dst = Vector::new();
    v.to_vector(&mut dst);
    assert_eq!(4, dst.size());
    assert_eq!(200_u8, contents(&dst).into_iter().sum());
}

#[test]
fn sequence_of_structs_crosses_with_length_and_sum() {
    let v = RustVec::from(vec![Shared { z: 1010 }, Shared { z: 1011 }]);
    let mut dst = Vector::new();
    v.to_vector(&mut dst);
    assert_eq!(2, dst.size());
    assert_eq!(2021_usize, contents(&dst).into_iter().map(|o| o.z).sum());
}

#[test]
fn struct_crosses_by_value() {
    let v = RustVec::from(vec![Shared { z: 2020 }]);
    let mut dst = Vector::new();
    v.to_vector(&mut dst);
    assert_eq!(2020, dst.get(0).unwrap().z);
    assert_eq!(2020, v.into_vec()[0].z);
}

#[test]
fn dropped_in_transit_frees_once() {
    let witness = Rc::new(());
    let s = vec![witness.clone(), witness.clone(), witness.clone()];
    assert_eq!(Rc::strong_count(&witness), 4);
    let v = RustVec::from(s);
    assert_eq!(Rc::strong_count(&witness), 4);
    drop(v);
    assert_eq!(Rc::strong_count(&witness), 1);
}

#[test]
fn reclaimed_then_dropped_frees_once() {
    let witness = Rc::new(());
    let v = RustVec::from(vec![witness.clone(), witness.clone()]);
    assert_eq!(v.len(), 2);
    let back = v.into_vec();
    assert_eq!(Rc::strong_count(&witness), 3);
    drop(back);
    assert_eq!(Rc::strong_count(&witness), 1);
}

#[test]
fn vector_starts_empty() {
    let v: Vector<u8> = Vector::new();
    assert_eq!(v.size(), 0);
    assert_eq!(v.get(0), None);
}

#[test]
fn vector_push_back_and_get() {
    let mut v = Vector::new();
    v.push_back(&10_u32);
    v.push_back(&20);
    v.push_back(&30);
    assert_eq!(v.size(), 3);
    assert_eq!(v.get(0), Some(&10));
    assert_eq!(v.get(1), Some(&20));
    assert_eq!(v.get(2), Some(&30));
    assert_eq!(v.get(3), None);
    assert_eq!(v.get(usize::MAX), None);
}
