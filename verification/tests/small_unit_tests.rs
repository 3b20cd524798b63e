use fig::small::{SmallFigBuf, SmallFigStr};

#[test]
fn test_small_inline() {
    let buf: SmallFigBuf<32> = SmallFigBuf::from_slice(b"hello");
    assert!(buf.is_inline());
    assert_eq!(buf.len(), 5);
    assert_eq!(&*buf, b"hello");
}

#[test]
fn test_small_heap() {
    let large_data = vec![0u8; 100];
    let buf: SmallFigBuf<32> = SmallFigBuf::from_vec(large_data);
    assert!(!buf.is_inline());
    assert!(buf.is_heap());
    assert_eq!(buf.len(), 100);
}

#[test]
fn test_small_exact_capacity() {
    let buf: SmallFigBuf<5> = SmallFigBuf::from_slice(b"hello");
    assert!(buf.is_inline());
    assert_eq!(buf.len(), 5);
}

#[test]
fn test_small_over_capacity() {
    let buf: SmallFigBuf<4> = SmallFigBuf::from_slice(b"hello");
    assert!(!buf.is_inline());
    assert_eq!(buf.len(), 5);
}

#[test]
fn test_small_clone() {
    let buf1: SmallFigBuf<32> = SmallFigBuf::from_slice(b"test");
    let buf2 = buf1.clone();

    assert_eq!(buf1, buf2);
    assert!(buf1.is_inline());
    assert!(buf2.is_inline());
}

#[test]
fn test_small_slice() {
    let buf: SmallFigBuf<32> = SmallFigBuf::from_slice(b"hello world");
    let slice = buf.slice(0..5);

    assert_eq!(&*slice, b"hello");
    assert!(slice.is_inline());
}

#[test]
fn test_small_empty() {
    let buf: SmallFigBuf<32> = SmallFigBuf::new();
    assert!(buf.is_empty());
    assert!(buf.is_inline());
    assert_eq!(buf.len(), 0);
}

#[test]
fn small_test_small_str_inline() {
    let s: SmallFigStr<32> = SmallFigStr::from("hello");
    assert!(s.is_inline());
    assert_eq!(&*s, "hello");
}

#[test]
fn small_test_small_str_heap() {
    let long = "a".repeat(100);
    let s: SmallFigStr<32> = SmallFigStr::from(&long[..]);
    assert!(!s.is_inline());
    assert_eq!(s.len(), 100);
}

#[test]
fn small_test_small_str_slice() {
    let s: SmallFigStr<32> = SmallFigStr::from("hello world");
    let slice = s.slice(0..5);
    assert_eq!(&*slice, "hello");
}

#[test]
fn small_test_small_str_static() {
    static TEXT: &str = "static text";
    let s: SmallFigStr<32> = SmallFigStr::from_static(TEXT);
    assert_eq!(&*s, "static text");
}
