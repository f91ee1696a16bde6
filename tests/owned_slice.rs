use std::mem;
use std::ops::Deref;
use std::rc::Rc;

use owned_slice::{BoxHeader, Header, Layout, OwnedSlice, Str, TooLong};

#[test]
fn null_ptr_opt() {
    assert_eq!(
        mem::size_of::<OwnedSlice<String>>(),
        mem::size_of::<Option<OwnedSlice<String>>>(),
    );
}

#[test]
fn empty() {
    let s = OwnedSlice::<String>::new(&[]).unwrap();
    assert_eq!(s.deref(), &[] as &[String]);
    assert_eq!(s.as_slice(), &[] as &[String]);
    let s2 = s.clone();
    assert_eq!(&s as &[_], &s2 as &[_]);
    assert_eq!("[]", format!("{:?}", s.deref()));

    let s3 = OwnedSlice::<String>::default();
    assert_eq!(&s as &[_], &s3 as &[_]);
}

#[test]
fn full() {
    let mut s = OwnedSlice::<String>::new(&["Hello".to_owned(), "World".to_owned()]).unwrap();
    assert_eq!(2, s.len());
    assert_eq!(s[1], "World");
    s.set(0, "Round".to_owned());
    assert_eq!(s[0], "Round");
    let s2 = s.clone();
    assert_eq!(s.deref(), s2.deref());
    assert_eq!(2, s2.len());
    assert_eq!("[\"Round\", \"World\"]", format!("{:?}", s2.deref()));
}

#[test]
fn too_long() {
    let long = vec![0u8; 300];
    OwnedSlice::<_>::new(&long).unwrap_err();
}

#[test]
fn strings() {
    let s: Str = Str::new("Hello").unwrap();
    assert_eq!("Hello", s.deref());
    assert_eq!("Hello", s.to_string());
    assert_eq!("\"Hello\"", format!("{:?}", s.deref()));
}

#[test]
fn empty_is_sentinel() {
    let s = OwnedSlice::<u32>::new(&[]).unwrap();
    assert!(s.is_sentinel());
    assert_eq!(s.len(), 0);
    assert!(OwnedSlice::<u32>::default().is_sentinel());
    let one = OwnedSlice::<u32>::new(&[7]).unwrap();
    assert!(!one.is_sentinel());
    assert_eq!(one.len(), 1);
}

#[test]
fn largest_box_run() {
    let src: Vec<u16> = (0..255).collect();
    let s = OwnedSlice::<u16>::new(&src).unwrap();
    assert_eq!(s.len(), 255);
    assert_eq!(s.as_slice(), &src[..]);
    let over: Vec<u16> = (0..256).collect();
    assert_eq!(OwnedSlice::<u16>::new(&over).unwrap_err(), TooLong);
}

#[test]
fn clone_is_independent() {
    let mut a = OwnedSlice::<String>::new(&["x".to_owned(), "y".to_owned()]).unwrap();
    let b = a.clone();
    a.set(1, "z".to_owned());
    assert_eq!(a.as_slice(), &["x".to_owned(), "z".to_owned()]);
    assert_eq!(b.as_slice(), &["x".to_owned(), "y".to_owned()]);
}

#[test]
fn drop_tears_down_each_element_once() {
    let tracker = Rc::new(());
    let src = vec![tracker.clone(), tracker.clone(), tracker.clone()];
    let s = OwnedSlice::<Rc<()>>::new(&src).unwrap();
    assert_eq!(Rc::strong_count(&tracker), 7);
    let s2 = s.clone();
    assert_eq!(Rc::strong_count(&tracker), 10);
    drop(s);
    assert_eq!(Rc::strong_count(&tracker), 7);
    drop(s2);
    assert_eq!(Rc::strong_count(&tracker), 4);
    drop(src);
    assert_eq!(Rc::strong_count(&tracker), 1);
}

#[test]
fn box_header_round_trip() {
    assert_eq!(BoxHeader::extra_needed(0), Ok(0));
    assert_eq!(BoxHeader::extra_needed(255), Ok(0));
    assert_eq!(BoxHeader::extra_needed(256), Err(TooLong));
    let mut extra: Vec<u8> = Vec::new();
    let h = BoxHeader::encode_len(200, &mut extra);
    assert_eq!(h.decode_len(&extra), 200);
    assert!(!h.inc());
    assert!(h.dec());
}

#[test]
fn too_long_message() {
    assert_eq!(TooLong.message(), "Too long");
}

#[test]
fn block_layout_of_u64_run() {
    assert_eq!(OwnedSlice::<u64>::len_offset(), 1);
    let (whole, len_off, data_off) = OwnedSlice::<u64>::layout_and_offsets(3).unwrap();
    assert_eq!(whole, Layout { size: 32, align: 8 });
    assert_eq!(len_off, 1);
    assert_eq!(data_off, 8);
    assert_eq!(OwnedSlice::<u64>::layout(3), whole);
    assert_eq!(OwnedSlice::<u64>::data_offset(3), 8);
    assert_eq!(OwnedSlice::<u64>::layout_and_offsets(256), Err(TooLong));
}

#[test]
fn block_layout_of_byte_run() {
    let (whole, len_off, data_off) = OwnedSlice::<u8>::layout_and_offsets(5).unwrap();
    assert_eq!(whole, Layout { size: 6, align: 1 });
    assert_eq!(len_off, 1);
    assert_eq!(data_off, 1);
}

#[test]
fn layout_extend_pads() {
    let a = Layout { size: 5, align: 1 };
    let b = Layout { size: 8, align: 4 };
    assert_eq!(a.extend(b), Some((Layout { size: 16, align: 4 }, 8)));
    let c = Layout { size: 8, align: 4 };
    assert_eq!(c.extend(a), Some((Layout { size: 13, align: 4 }, 8)));
    let huge = Layout { size: isize::MAX as usize, align: 1 };
    assert_eq!(huge.extend(b), None);
}

#[test]
fn layout_of_types_and_arrays() {
    assert_eq!(Layout::of::<u32>(), Layout { size: 4, align: 4 });
    assert_eq!(Layout::array::<u16>(10), Some(Layout { size: 20, align: 2 }));
    assert_eq!(Layout::array::<u64>(usize::MAX), None);
    assert_eq!(Layout::array::<u8>(0), Some(Layout { size: 0, align: 1 }));
}

#[test]
fn text_default_clone_and_multibyte() {
    let d: Str = Str::default();
    assert_eq!(d.as_str(), "");
    let s: Str = Str::new("héllo wörld").unwrap();
    let t = s.clone();
    assert_eq!(t.as_str(), "héllo wörld");
    assert_eq!(t.to_string(), "héllo wörld".to_owned());
    let long = "a".repeat(256);
    assert!(Str::<BoxHeader>::new(&long).is_err());
}

#[test]
fn text_set_byte_keeps_utf8() {
    let mut s: Str = Str::new("Hello").unwrap();
    s.set_byte(0, b'J');
    assert_eq!(s.as_str(), "Jello");
    assert_eq!(s.to_string(), "Jello".to_owned());
}
