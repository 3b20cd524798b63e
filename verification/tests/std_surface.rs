use fig::bytes::Bytes;
use fig::compare::{clone_elements, copy_prefix, same_bytes, same_elements};
use fig::range::{
    check_bounds, check_text_range, end_index, first_index, resolve, Limit, SliceError,
};
use fig::small::{SmallFigBuf, SmallFigStr};
use fig::FigBuf;
use std::borrow::Borrow;
use std::collections::HashSet;

#[test]
fn range_ends_resolve_like_the_ranges_of_std() {
    assert_eq!(resolve(Limit::Included(1), Limit::Excluded(4), 5), Ok(1..4));
    assert_eq!(resolve(Limit::Unbounded, Limit::Excluded(3), 5), Ok(0..3));
    assert_eq!(resolve(Limit::Included(2), Limit::Unbounded, 5), Ok(2..5));
    assert_eq!(resolve(Limit::Unbounded, Limit::Unbounded, 5), Ok(0..5));
    assert_eq!(resolve(Limit::Included(1), Limit::Included(4), 5), Ok(1..5));
    assert_eq!(resolve(Limit::Excluded(1), Limit::Included(3), 5), Ok(2..4));
    assert_eq!(resolve(Limit::Excluded(4), Limit::Unbounded, 5), Ok(5..5));
    assert_eq!(resolve(Limit::Unbounded, Limit::Unbounded, 0), Ok(0..0));
}

#[test]
fn range_ends_that_do_not_fit_are_refused() {
    let start_after_end = Err(SliceError::StartAfterEnd);
    let end_out_of_bounds = Err(SliceError::EndOutOfBounds);
    assert_eq!(resolve(Limit::Included(3), Limit::Excluded(1), 5), start_after_end);
    assert_eq!(resolve(Limit::Included(7), Limit::Excluded(6), 5), start_after_end);
    assert_eq!(resolve(Limit::Excluded(5), Limit::Unbounded, 5), start_after_end);
    assert_eq!(resolve(Limit::Included(0), Limit::Excluded(6), 5), end_out_of_bounds);
    assert_eq!(resolve(Limit::Included(0), Limit::Included(5), 5), end_out_of_bounds);
    assert_eq!(resolve(Limit::Included(6), Limit::Excluded(6), 5), end_out_of_bounds);
    let max = usize::MAX;
    assert_eq!(resolve(Limit::Excluded(max), Limit::Excluded(max), max), start_after_end);
    assert_eq!(resolve(Limit::Excluded(max), Limit::Unbounded, 5), start_after_end);
    assert_eq!(resolve(Limit::Unbounded, Limit::Included(max), max), end_out_of_bounds);
    assert_eq!(resolve(Limit::Excluded(max), Limit::Included(max), max), end_out_of_bounds);
    assert_eq!(resolve(Limit::Included(max), Limit::Excluded(max), max), Ok(max..max));
}

#[test]
fn range_ends_as_indices() {
    assert_eq!(first_index(Limit::Included(3)), Some(3));
    assert_eq!(first_index(Limit::Excluded(3)), Some(4));
    assert_eq!(first_index(Limit::Unbounded), Some(0));
    assert_eq!(first_index(Limit::Excluded(usize::MAX)), None);
    assert_eq!(end_index(Limit::Included(3), 9), Some(4));
    assert_eq!(end_index(Limit::Excluded(3), 9), Some(3));
    assert_eq!(end_index(Limit::Unbounded, 9), Some(9));
    assert_eq!(end_index(Limit::Included(usize::MAX), 9), None);
}

#[test]
fn bounds_check_reports_a_reversed_range_first() {
    assert_eq!(check_bounds(0, 0, 0), Ok(()));
    assert_eq!(check_bounds(2, 5, 5), Ok(()));
    assert_eq!(check_bounds(5, 5, 5), Ok(()));
    assert_eq!(check_bounds(3, 2, 5), Err(SliceError::StartAfterEnd));
    assert_eq!(check_bounds(9, 7, 5), Err(SliceError::StartAfterEnd));
    assert_eq!(check_bounds(2, 6, 5), Err(SliceError::EndOutOfBounds));
    assert_eq!(check_bounds(6, 6, 5), Err(SliceError::EndOutOfBounds));
}

#[test]
fn elements_compare_by_their_own_equality() {
    assert!(same_elements::<i32>(&[], &[]));
    assert!(same_elements(&[1, 2, 3], &[1, 2, 3]));
    assert!(!same_elements(&[1, 2, 3], &[1, 2, 4]));
    assert!(!same_elements(&[1, 2, 3], &[1, 2]));
    assert!(!same_elements(&[1, 2], &[1, 2, 3]));
    assert!(same_elements(&["a", "b"], &["a", "b"]));
    assert!(!same_elements(&[f64::NAN], &[f64::NAN]));
    assert!(same_bytes(b"abc", b"abc"));
    assert!(!same_bytes(b"abc", b"abd"));
    assert!(!same_bytes(b"abc", b""));
}

#[test]
fn elements_are_cloned_in_order() {
    let source = vec![String::from("a"), String::from("b"), String::from("c")];
    assert_eq!(clone_elements(&source), source);
    assert_eq!(clone_elements::<u8>(&[]), Vec::<u8>::new());
}

#[test]
fn a_prefix_is_copied_over() {
    let mut dst = [0u8; 4];
    copy_prefix(&mut dst, &[1, 2, 3], 2);
    assert_eq!(dst, [1, 2, 0, 0]);
    copy_prefix(&mut dst, &[9, 9, 9, 9, 9], 4);
    assert_eq!(dst, [9, 9, 9, 9]);
    copy_prefix(&mut dst, &[], 0);
    assert_eq!(dst, [9, 9, 9, 9]);
}

#[test]
fn windows_are_shown_by_what_they_read() {
    let buf = FigBuf::from_vec(vec![1, 2, 3, 4]);
    let part = buf.slice(1..3);
    assert_eq!(format!("{:?}", part), "[2, 3]");
    assert_eq!(format!("{}", part), "[2, 3]");
    assert_eq!(format!("{}", buf), "[1, 2, 3, 4]");
    assert_eq!(format!("{}", buf.slice(2..2)), "[]");
    assert_eq!(format!("{}", buf.slice(3..4)), "[4]");
    let text = FigBuf::from_string(String::from("say \"hi\""));
    assert_eq!(format!("{}", text), "say \"hi\"");
    assert_eq!(format!("{:?}", text), "\"say \\\"hi\\\"\"");
    assert_eq!(text.slice(4..8).to_string(), "\"hi\"");
}

#[test]
fn small_values_are_shown_with_how_they_are_held() {
    let small: SmallFigBuf<4> = SmallFigBuf::from_slice(&[1, 2]);
    assert_eq!(format!("{:?}", small), "SmallFigBuf { len: 2, inline: true, data: [1, 2] }");
    let large: SmallFigBuf<1> = SmallFigBuf::from_slice(&[1, 2]);
    assert_eq!(format!("{:?}", large), "SmallFigBuf { len: 2, inline: false, data: [1, 2] }");
    let text: SmallFigStr<4> = SmallFigStr::from("hi");
    assert_eq!(format!("{:?}", text), "SmallFigStr { len: 2, inline: true, data: \"hi\" }");
    assert_eq!(format!("{}", text), "hi");
    assert_eq!(text.to_string(), "hi");
}

#[test]
fn small_text_parses_from_any_text() {
    let parsed: SmallFigStr<4> = "世界".parse().unwrap();
    assert!(!parsed.is_inline());
    assert_eq!(parsed.as_str(), "世界");
    assert_eq!(parsed.len(), 6);
    let short: SmallFigStr<4> = "ab".parse().unwrap();
    assert!(short.is_inline());
    assert_eq!(short, *"ab");
    assert_eq!(short, "ab");
    let default: SmallFigStr<4> = SmallFigStr::default();
    assert_eq!(default.as_str(), "");
    let reference: &str = short.as_ref();
    assert_eq!(reference, "ab");
}

#[test]
fn windows_with_equal_content_hash_and_compare_alike() {
    let mut seen = HashSet::new();
    let source = FigBuf::from_vec(vec![1u8, 2, 1, 2]);
    assert!(seen.insert(source.slice(0..2)));
    assert!(!seen.insert(source.slice(2..4)));
    assert!(seen.insert(source.slice(1..3)));
    assert!(seen.contains(&[1u8, 2][..]));
    assert!(!seen.contains(&[2u8, 2][..]));

    let mut words = HashSet::new();
    let text = FigBuf::from_string(String::from("abab"));
    assert!(words.insert(text.slice(0..2)));
    assert!(!words.insert(text.slice(2..4)));
    assert!(words.contains("ab"));
    assert!(!words.contains("ba"));
    assert!(text.slice(0..2) == text.slice(2..4));
    assert!(text.slice(0..2) != text.slice(1..3));
}

#[test]
fn windows_read_through_std_references() {
    let buf = FigBuf::from_vec(vec![1, 2, 3]);
    let as_ref: &[i32] = buf.as_ref();
    assert_eq!(as_ref, &[1, 2, 3]);
    let text = FigBuf::<str>::from_static("abc");
    let as_ref: &str = text.as_ref();
    assert_eq!(as_ref, "abc");
    assert_eq!(text.to_uppercase(), "ABC");
    let small: SmallFigBuf<4> = SmallFigBuf::default();
    let as_ref: &[u8] = small.as_ref();
    assert!(as_ref.is_empty());
    let boxed: FigBuf<[i32]> = vec![4, 5].into_boxed_slice().into();
    assert_eq!(boxed.as_slice(), &[4, 5]);
}

#[test]
fn bytes_convert_from_text_without_change() {
    assert_eq!(Bytes::from(String::from("héllo")).as_slice(), "héllo".as_bytes());
    assert_eq!(Bytes::from("héllo").as_slice(), "héllo".as_bytes());
    static RAW: [u8; 2] = [0xff, 0x00];
    assert_eq!(Bytes::from(&RAW[..]).as_slice(), &[0xff, 0x00]);
    assert_eq!(Bytes::from(vec![0xfe]).as_slice(), &[0xfe]);
    let small: SmallFigBuf<2> = "héllo".into();
    assert_eq!(small.as_slice(), "héllo".as_bytes());
    assert!(small.is_heap());
}

#[test]
fn windows_are_borrowed_as_what_they_read() {
    let buf = FigBuf::from_vec(vec![1, 2, 3, 4]);
    let part = buf.slice(1..3);
    let borrowed: &[i32] = part.borrow();
    assert_eq!(borrowed, &[2, 3]);
    assert_eq!(borrowed.as_ptr(), buf.as_slice()[1..].as_ptr());
    let text = FigBuf::from_string(String::from("añb"));
    let part = text.slice(1..3);
    let borrowed: &str = part.borrow();
    assert_eq!(borrowed, "ñ");
}

#[test]
fn text_ranges_are_judged_bounds_first() {
    let text = "a世b";
    assert_eq!(check_text_range(text, 0, 5), Ok(()));
    assert_eq!(check_text_range(text, 1, 4), Ok(()));
    assert_eq!(check_text_range(text, 4, 4), Ok(()));
    assert_eq!(check_text_range(text, 5, 5), Ok(()));
    assert_eq!(check_text_range(text, 2, 1), Err(SliceError::StartAfterEnd));
    assert_eq!(check_text_range(text, 2, 6), Err(SliceError::EndOutOfBounds));
    assert_eq!(check_text_range(text, 6, 6), Err(SliceError::EndOutOfBounds));
    assert_eq!(check_text_range(text, 2, 4), Err(SliceError::StartNotCharBoundary));
    assert_eq!(check_text_range(text, 2, 3), Err(SliceError::StartNotCharBoundary));
    assert_eq!(check_text_range(text, 1, 3), Err(SliceError::EndNotCharBoundary));
    assert_eq!(check_text_range("", 0, 0), Ok(()));
    assert_eq!(check_text_range("", 0, 1), Err(SliceError::EndOutOfBounds));
}

#[test]
fn elements_are_written_without_the_width_of_the_whole() {
    let buf = FigBuf::from_vec(vec![1, 22]);
    assert_eq!(format!("{:>6}", buf), "[1, 22]");
    assert_eq!(format!("{:08.3}", FigBuf::from_vec(vec![1.5f64])), "[1.5]");
    let text = FigBuf::from_string(String::from("ab"));
    assert_eq!(format!("{:>4}", text), "  ab");
    let small: SmallFigStr<4> = SmallFigStr::from("ab");
    assert_eq!(format!("{:<4}|", small), "ab  |");
}
