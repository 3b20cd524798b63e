use fig::buf::{
    granted_text_window, granted_window, needs_copy, shared_count, write_granted, WriteError,
};
use fig::bytes::Bytes;
use fig::range::SliceError;
use fig::small::{SmallFigBuf, SmallFigStr};
use fig::FigBuf;

#[test]
fn slice_reads_the_range_of_what_the_window_reads() {
    let source = FigBuf::from_vec((0..12).collect::<Vec<u32>>());
    let window = source.slice(3..9);
    for start in 0..=window.len() {
        for end in start..=window.len() {
            let part = window.slice(start..end);
            assert_eq!(part.as_slice(), &window.as_slice()[start..end]);
            assert_eq!(part.len(), end - start);
        }
    }
}

#[test]
fn slicing_composes_to_one_window_on_the_backing() {
    let view = FigBuf::from_vec((0..8).collect::<Vec<u16>>());
    for a in 0..=8usize {
        for b in a..=8 {
            let outer = view.slice(a..b);
            for c in 0..=(b - a) {
                for d in c..=(b - a) {
                    let twice = outer.slice(c..d);
                    let once = view.slice(a + c..a + d);
                    assert_eq!(twice.as_slice(), once.as_slice());
                    assert_eq!(twice.as_slice().as_ptr(), once.as_slice().as_ptr());
                    assert_eq!(twice.len(), once.len());
                }
            }
        }
    }
}

#[test]
fn text_slicing_composes_to_one_window_on_the_backing() {
    let text = FigBuf::from_string(String::from("añb€c😀d"));
    let outer = text.slice(1..12);
    let twice = outer.slice(2..6);
    let once = text.slice(3..7);
    assert_eq!(twice.as_str(), "b€");
    assert_eq!(twice.as_str(), once.as_str());
    assert_eq!(twice.as_str().as_ptr(), once.as_str().as_ptr());
}

#[test]
fn clone_adds_exactly_one_holder() {
    let buf = FigBuf::from_vec(vec![1u8, 2, 3]);
    let mut clones = Vec::new();
    for held in 1..6usize {
        assert_eq!(buf.ref_count(), held);
        clones.push(buf.clone());
        assert_eq!(buf.ref_count(), held + 1);
    }
    for (dropped, clone) in clones.into_iter().enumerate() {
        assert_eq!(clone.ref_count(), 6 - dropped);
        drop(clone);
        assert_eq!(buf.ref_count(), 5 - dropped);
    }
}

#[test]
fn immortal_share_count_is_the_sentinel_whatever_is_cloned() {
    let buf = FigBuf::<[u8]>::from_static(b"abc");
    assert_eq!(buf.ref_count(), usize::MAX);
    let one = buf.clone();
    let two = one.clone();
    let part = two.slice(1..2);
    assert_eq!(buf.ref_count(), usize::MAX);
    assert_eq!(one.ref_count(), usize::MAX);
    assert_eq!(two.ref_count(), usize::MAX);
    assert_eq!(part.ref_count(), usize::MAX);
    drop(one);
    assert_eq!(buf.ref_count(), usize::MAX);

    let text = FigBuf::<str>::from_static("abc");
    let other = text.clone();
    assert_eq!(text.ref_count(), usize::MAX);
    assert_eq!(other.ref_count(), usize::MAX);
}

#[test]
fn make_mut_leaves_the_siblings_as_they_were() {
    let mut buf = FigBuf::from_vec(vec![1, 2, 3, 4]);
    let whole = buf.clone();
    let part = buf.slice(1..3);
    assert_eq!(whole.ref_count(), 3);

    let data = buf.make_mut();
    data[0] = 100;
    data[3] = 400;

    assert!(!buf.is_static());
    assert_eq!(buf.ref_count(), 1);
    assert_eq!(buf.as_slice(), &[100, 2, 3, 400]);
    assert_eq!(whole.as_slice(), &[1, 2, 3, 4]);
    assert_eq!(part.as_slice(), &[2, 3]);
    assert_eq!(whole.ref_count(), 2);
    assert_eq!(part.ref_count(), 2);
}

#[test]
fn make_mut_on_a_sole_whole_window_keeps_the_backing() {
    let mut buf = FigBuf::from_vec(vec![1, 2, 3]);
    let before = buf.as_slice().as_ptr();
    buf.make_mut()[1] = 20;
    assert_eq!(buf.as_slice().as_ptr(), before);
    assert_eq!(buf.as_slice(), &[1, 20, 3]);
    assert_eq!(buf.ref_count(), 1);
}

#[test]
fn make_mut_copies_only_the_window() {
    let buf = FigBuf::from_vec((0..1000).collect::<Vec<u32>>());
    let mut part = buf.slice(10..13);
    drop(buf);
    assert_eq!(part.ref_count(), 1);
    let data = part.make_mut();
    assert_eq!(data.len(), 3);
    data[0] = 7;
    assert_eq!(part.as_slice(), &[7, 11, 12]);
    assert_eq!(part.slice(0..3).as_slice(), &[7, 11, 12]);
    assert_eq!(part.try_slice(0..4).err(), Some(SliceError::EndOutOfBounds));
}

#[test]
fn needs_copy_is_the_disjunction_of_its_three_reasons() {
    assert!(!needs_copy(false, 0, 5, 5, 1));
    assert!(needs_copy(true, 0, 5, 5, 1));
    assert!(needs_copy(false, 1, 4, 5, 1));
    assert!(needs_copy(false, 0, 4, 5, 1));
    assert!(needs_copy(false, 0, 5, 5, 2));
    assert!(needs_copy(true, 0, 5, 5, usize::MAX));
    assert!(!needs_copy(false, 0, 0, 0, 1));
    assert!(!needs_copy(false, 0, 5, 5, 0));
}

#[test]
fn small_buffer_is_inline_up_to_its_capacity() {
    for len in 0..=12usize {
        let data = vec![7u8; len];
        let from_slice: SmallFigBuf<8> = SmallFigBuf::from_slice(&data);
        let from_vec: SmallFigBuf<8> = SmallFigBuf::from_vec(data.clone());
        assert_eq!(from_slice.is_inline(), len <= 8);
        assert_eq!(from_slice.is_heap(), len > 8);
        assert_eq!(from_vec.is_inline(), len <= 8);
        assert_eq!(from_vec.is_heap(), len > 8);
        assert_eq!(from_slice.as_slice(), &data[..]);
        assert_eq!(from_vec.as_slice(), &data[..]);
    }
}

#[test]
fn small_buffer_of_no_capacity_is_inline_only_when_empty() {
    let one: SmallFigBuf<0> = SmallFigBuf::from_slice(&[1]);
    assert!(one.is_heap());
    let none: SmallFigBuf<0> = SmallFigBuf::from_slice(&[]);
    assert!(none.is_inline());
    assert!(none.is_empty());
    let new: SmallFigBuf<0> = SmallFigBuf::new();
    assert!(new.is_inline());
    assert_eq!(SmallFigBuf::<0>::inline_capacity(), 0);
}

#[test]
fn small_buffer_from_static_is_never_inline() {
    let buf: SmallFigBuf<32> = SmallFigBuf::from_static(b"hi");
    assert!(buf.is_heap());
    assert_eq!(buf.as_slice(), b"hi");
    assert!(buf.to_figbuf().is_static());
    let text: SmallFigStr<32> = SmallFigStr::from_static("hi");
    assert!(!text.is_inline());
}

#[test]
fn text_slice_succeeds_exactly_between_characters() {
    let source = "Hello, 世界!";
    let text = FigBuf::from_string(String::from(source));
    let small: SmallFigStr<32> = SmallFigStr::from(source);
    let len = source.len();
    assert_eq!(text.slice(0..len).as_str(), source);
    for start in 0..=len {
        for end in start..=len {
            let expected = if !source.is_char_boundary(start) {
                Err(SliceError::StartNotCharBoundary)
            } else if !source.is_char_boundary(end) {
                Err(SliceError::EndNotCharBoundary)
            } else {
                Ok(&source[start..end])
            };
            let got = text.try_slice(start..end);
            assert_eq!(got.as_ref().map(|part| part.as_str()).map_err(|e| *e), expected);
            let got = small.try_slice(start..end);
            assert_eq!(got.as_ref().map(|part| part.as_str()).map_err(|e| *e), expected);
        }
    }
}

#[test]
fn text_slice_of_a_slice_checks_its_own_text() {
    let text = FigBuf::from_string(String::from("a世b界c"));
    let part = text.slice(1..8);
    assert_eq!(part.as_str(), "世b界");
    assert_eq!(part.slice(0..3).as_str(), "世");
    assert_eq!(part.try_slice(1..3).err(), Some(SliceError::StartNotCharBoundary));
    assert_eq!(part.try_slice(3..5).err(), Some(SliceError::EndNotCharBoundary));
    assert_eq!(part.slice(4..7).as_str(), "界");
    assert_eq!(part.slice(7..7).as_str(), "");
    assert_eq!(part.try_slice(7..8).err(), Some(SliceError::EndOutOfBounds));
}

#[test]
fn bounds_are_reported_before_characters_in_a_window() {
    let text = FigBuf::from_string(String::from("世界"));
    assert_eq!(text.try_slice(4..1).err(), Some(SliceError::StartAfterEnd));
    assert_eq!(text.try_slice(1..9).err(), Some(SliceError::EndOutOfBounds));
    assert_eq!(text.try_slice(9..9).err(), Some(SliceError::EndOutOfBounds));
    assert_eq!(text.try_slice(1..2).err(), Some(SliceError::StartNotCharBoundary));
    assert_eq!(text.try_slice(0..2).err(), Some(SliceError::EndNotCharBoundary));
}

#[test]
fn bounds_are_reported_before_characters_in_small_text() {
    let text: SmallFigStr<16> = SmallFigStr::from("世界");
    assert_eq!(text.try_slice(4..1).err(), Some(SliceError::StartAfterEnd));
    assert_eq!(text.try_slice(3..1).err(), Some(SliceError::StartAfterEnd));
    assert_eq!(text.try_slice(1..9).err(), Some(SliceError::EndOutOfBounds));
    assert_eq!(text.try_slice(9..9).err(), Some(SliceError::EndOutOfBounds));
    assert_eq!(text.try_slice(0..9).err(), Some(SliceError::EndOutOfBounds));
    assert_eq!(text.try_slice(1..3).err(), Some(SliceError::StartNotCharBoundary));
    assert_eq!(text.try_slice(0..4).err(), Some(SliceError::EndNotCharBoundary));
    assert_eq!(text.try_slice(6..6).ok().map(|part| part.len()), Some(0));
    let heap: SmallFigStr<2> = SmallFigStr::from("hello");
    assert_eq!(heap.try_slice(0..10).err(), Some(SliceError::EndOutOfBounds));
    let inline: SmallFigStr<32> = SmallFigStr::from("hello");
    assert_eq!(inline.try_slice(0..10).err(), Some(SliceError::EndOutOfBounds));
    assert_eq!(inline.try_slice(0..5).ok().map(|part| part.is_inline()), Some(true));
}

#[test]
fn round_trip_through_a_window() {
    let empty: Vec<i64> = Vec::new();
    assert_eq!(FigBuf::from_vec(empty.clone()).as_slice(), &empty[..]);
    let full = vec![i64::MIN, -1, 0, 1, i64::MAX];
    assert_eq!(FigBuf::from_vec(full.clone()).as_slice(), &full[..]);
    let boxed: Box<[i64]> = full.clone().into_boxed_slice();
    let from_box = FigBuf::from_boxed_slice(boxed);
    assert_eq!(from_box.as_slice(), &full[..]);
    assert!(!from_box.is_static());
    assert_eq!(from_box.ref_count(), 1);
    assert_eq!(FigBuf::from_string(String::new()).as_str(), "");
    assert_eq!(FigBuf::from_string(String::from("Grüße, 世界")).as_str(), "Grüße, 世界");
    assert_eq!(FigBuf::from_string(String::from("Grüße")).len(), 7);
}

#[test]
fn two_slices_of_ten_elements() {
    let buf = FigBuf::from_vec((0..10).collect::<Vec<i32>>());
    let first = buf.slice(2..8);
    let second = first.slice(1..4);
    assert_eq!(second.as_slice(), &[3, 4, 5]);
    assert_eq!(second.as_slice(), &first.as_slice()[1..4]);
    assert_eq!(second.as_slice(), &buf.as_slice()[3..6]);
}

#[test]
fn exclusive_access_follows_the_share_count() {
    let mut buf = FigBuf::from_vec(vec![1, 2, 3]);
    assert_eq!(buf.ref_count(), 1);
    match buf.try_mut() {
        Some(data) => data[2] = 30,
        None => panic!("a sole holder is refused"),
    }
    assert_eq!(buf.as_slice(), &[1, 2, 30]);

    let mut other = buf.clone();
    assert_eq!(buf.ref_count(), 2);
    assert!(buf.try_mut().is_none());
    assert!(other.try_mut().is_none());
    assert!(buf.get_mut().is_none());
    assert_eq!(buf.as_slice(), &[1, 2, 30]);
    assert_eq!(other.as_slice(), &[1, 2, 30]);

    drop(other);
    assert!(buf.try_mut().is_some());
}

#[test]
fn make_mut_on_an_immortal_window_of_three() {
    static DATA: [u8; 3] = [7, 8, 9];
    let mut buf = FigBuf::<[u8]>::from_static(&DATA);
    assert!(buf.is_static());
    let data = buf.make_mut();
    assert_eq!(data, &[7, 8, 9]);
    assert!(!buf.is_static());
    assert_eq!(buf.ref_count(), 1);
    assert_eq!(buf.as_slice(), &[7, 8, 9]);
    assert_eq!(DATA, [7, 8, 9]);
}

#[test]
fn small_buffer_slices_inline_or_on_the_same_backing() {
    let small: SmallFigBuf<32> = SmallFigBuf::from_slice(b"hello world");
    assert!(small.is_inline());
    let part = small.slice(0..5);
    assert!(part.is_inline());
    assert_eq!(part.as_slice(), b"hello");

    let large: SmallFigBuf<32> = SmallFigBuf::from_vec(vec![9u8; 100]);
    assert!(large.is_heap());
    let probe = large.to_figbuf();
    assert_eq!(probe.ref_count(), 2);
    let part = large.slice(10..60);
    assert!(part.is_heap());
    assert_eq!(part.len(), 50);
    assert_eq!(probe.ref_count(), 3);
    assert_eq!(part.as_slice().as_ptr(), large.as_slice()[10..].as_ptr());
    drop(part);
    assert_eq!(probe.ref_count(), 2);
}

#[test]
fn small_buffer_slice_refuses_what_does_not_fit() {
    let small: SmallFigBuf<8> = SmallFigBuf::from_slice(b"abc");
    assert_eq!(small.try_slice(2..1).err(), Some(SliceError::StartAfterEnd));
    assert_eq!(small.try_slice(0..4).err(), Some(SliceError::EndOutOfBounds));
    assert_eq!(small.slice(3..3).len(), 0);
    let large: SmallFigBuf<2> = SmallFigBuf::from_slice(b"abc");
    assert_eq!(large.try_slice(2..1).err(), Some(SliceError::StartAfterEnd));
    assert_eq!(large.try_slice(0..4).err(), Some(SliceError::EndOutOfBounds));
    assert_eq!(large.slice(1..3).as_slice(), b"bc");
}

#[test]
fn shared_form_of_a_small_buffer() {
    let small: SmallFigBuf<8> = SmallFigBuf::from_slice(b"abc");
    let shared = small.to_figbuf();
    assert_eq!(shared.as_slice(), b"abc");
    assert_eq!(shared.ref_count(), 1);
    assert!(!shared.is_static());
    assert_eq!(small.clone().into_figbuf().as_slice(), b"abc");

    let large: SmallFigBuf<2> = SmallFigBuf::from_slice(b"abcdef");
    let shared = large.to_figbuf();
    assert_eq!(shared.ref_count(), 2);
    assert_eq!(shared.as_slice().as_ptr(), large.as_slice().as_ptr());
    let moved = large.into_figbuf();
    assert_eq!(moved.ref_count(), 2);
    assert_eq!(moved.as_slice(), b"abcdef");
}

#[test]
fn a_sole_sub_window_is_written_in_place() {
    let buf = FigBuf::from_vec(vec![1, 2, 3, 4, 5]);
    let mut part = buf.slice(1..4);
    assert!(part.get_mut().is_none());
    drop(buf);
    let data = part.get_mut().unwrap();
    assert_eq!(data, &[2, 3, 4]);
    data[0] = 20;
    data[2] = 40;
    assert_eq!(part.as_slice(), &[20, 3, 40]);
    assert_eq!(part.ref_count(), 1);
}

#[test]
fn a_sole_sub_window_of_text_is_written_in_place() {
    let text = FigBuf::from_string(String::from("Hello, Wörld!"));
    let mut part = text.slice(7..13);
    assert!(part.try_mut().is_none());
    drop(text);
    let word = part.try_mut().unwrap();
    assert_eq!(word, "Wörld");
    word.make_ascii_uppercase();
    assert_eq!(part.as_str(), "WöRLD");
    assert_eq!(part.len(), 6);
}

#[test]
fn immortal_text_is_never_written() {
    let mut text = FigBuf::<str>::from_static("abc");
    assert!(text.try_mut().is_none());
    assert_eq!(text.as_str(), "abc");
    assert!(text.is_static());
}

#[test]
fn make_mut_on_a_window_of_text_copies_the_window() {
    let text = FigBuf::from_string(String::from("one two three"));
    let mut two = text.slice(4..7);
    two.make_mut().make_ascii_uppercase();
    assert_eq!(two.as_str(), "TWO");
    assert_eq!(two.len(), 3);
    assert_eq!(two.ref_count(), 1);
    assert_eq!(text.as_str(), "one two three");
    assert_eq!(text.ref_count(), 1);
}

#[test]
fn reading_moves_the_window_on_its_backing() {
    let mut buf = FigBuf::from_vec(vec![1u8, 2, 3, 4, 5]);
    let keep = buf.clone();
    let mut out = [9u8; 2];
    assert_eq!(buf.read(&mut out), 2);
    assert_eq!(out, [1, 2]);
    assert_eq!(buf.as_slice().as_ptr(), keep.as_slice()[2..].as_ptr());
    let mut none: [u8; 0] = [];
    assert_eq!(buf.read(&mut none), 0);
    assert_eq!(buf.as_slice(), &[3, 4, 5]);
    let mut wide = [9u8; 5];
    assert_eq!(buf.read(&mut wide), 3);
    assert_eq!(wide, [3, 4, 5, 9, 9]);
    assert!(buf.is_empty());
    assert_eq!(buf.read(&mut wide), 0);
    assert_eq!(keep.as_slice(), &[1, 2, 3, 4, 5]);
}

#[test]
fn writing_names_why_it_was_refused() {
    let mut empty = FigBuf::from_vec(Vec::<u8>::new());
    assert_eq!(empty.write(&[1]), Err(WriteError::WriteZero));
    let mut shared = FigBuf::from_vec(vec![0u8; 2]);
    let other = shared.clone();
    assert_eq!(shared.write(&[1]), Err(WriteError::PermissionDenied));
    assert_eq!(shared.as_slice(), &[0, 0]);
    drop(other);
    assert_eq!(shared.write(&[]), Ok(0));
    assert_eq!(shared.write(&[1, 2, 3]), Ok(2));
    assert_eq!(shared.as_slice(), &[1, 2]);
    shared.flush();
    assert_eq!(shared.as_slice(), &[1, 2]);
    let mut immortal = FigBuf::<[u8]>::from_static(b"ab");
    assert_eq!(immortal.write(&[1]), Err(WriteError::PermissionDenied));
    let mut no_room = FigBuf::<[u8]>::from_static(b"");
    assert_eq!(no_room.write(&[1]), Err(WriteError::WriteZero));
}

#[test]
fn bytes_into_vec_needs_a_sole_holder() {
    let bytes = Bytes::from_vec(vec![1, 2, 3]);
    let other = bytes.clone();
    let bytes = match bytes.try_into_vec() {
        Ok(_) => panic!("a shared buffer gave its bytes away"),
        Err(bytes) => bytes,
    };
    assert_eq!(bytes.as_slice(), &[1, 2, 3]);
    drop(other);
    assert_eq!(bytes.try_into_vec().ok(), Some(vec![1, 2, 3]));
    let part = Bytes::from_vec(vec![1, 2, 3]).slice(1..2);
    assert_eq!(part.try_into_vec().ok(), Some(vec![2]));
}

#[test]
fn bytes_split_at_the_ends() {
    let mut bytes = Bytes::from_vec(vec![1, 2, 3]);
    assert!(bytes.split_off(3).is_empty());
    assert!(bytes.split_to(0).is_empty());
    assert_eq!(bytes.as_slice(), &[1, 2, 3]);
    let all = bytes.split_to(3);
    assert_eq!(all.as_slice(), &[1, 2, 3]);
    assert!(bytes.is_empty());
    let mut bytes = all;
    let all = bytes.split_off(0);
    assert_eq!(all.as_slice(), &[1, 2, 3]);
    assert!(bytes.is_empty());
    assert_eq!(all.try_slice(2..1).err(), Some(SliceError::StartAfterEnd));
    assert_eq!(all.try_slice(2..4).err(), Some(SliceError::EndOutOfBounds));
}

#[test]
fn bytes_from_static_is_a_copy() {
    static DATA: [u8; 3] = [1, 2, 3];
    let bytes = Bytes::from_static(&DATA);
    assert_ne!(bytes.as_slice().as_ptr(), DATA.as_ptr());
    assert_eq!(bytes.to_vec(), vec![1, 2, 3]);
    assert_eq!(Bytes::default().len(), 0);
    let mut bytes = bytes;
    bytes.truncate(3);
    assert_eq!(bytes.len(), 3);
    bytes.truncate(0);
    assert!(bytes.is_empty());
}

#[test]
fn granted_access_is_narrowed_to_the_window() {
    let mut data = [1, 2, 3, 4, 5];
    match granted_window(Some(&mut data[..]), 1, 3) {
        Some(part) => {
            assert_eq!(part, &[2, 3, 4]);
            part[0] = 20;
            part[2] = 40;
        }
        None => panic!("access that was given is lost"),
    }
    assert_eq!(data, [1, 20, 3, 40, 5]);
    assert_eq!(granted_window(Some(&mut data[..]), 5, 0), Some(&mut [][..]));
    assert_eq!(granted_window(Some(&mut data[..]), 0, 5).map(|part| part.len()), Some(5));
    assert_eq!(granted_window::<i32>(None, 1, 3), None);
}

#[test]
fn granted_access_to_text_is_narrowed_to_the_window() {
    let mut text = String::from("añb€c");
    match granted_text_window(Some(text.as_mut_str()), 3, 4) {
        Some(part) => {
            assert_eq!(part, "b€");
            part.make_ascii_uppercase();
        }
        None => panic!("access that was given is lost"),
    }
    assert_eq!(text, "añB€c");
    assert_eq!(granted_text_window(Some(text.as_mut_str()), 8, 0).map(|part| part.len()), Some(0));
    assert_eq!(granted_text_window(None, 3, 4), None);
}

#[test]
fn try_slice_gives_what_slice_gives() {
    let buf = FigBuf::from_vec((0..6).collect::<Vec<u8>>());
    for start in 0..=7usize {
        for end in 0..=7usize {
            match buf.try_slice(start..end) {
                Ok(part) => {
                    assert!(start <= end && end <= 6);
                    assert_eq!(part.as_slice(), buf.slice(start..end).as_slice());
                    assert_eq!(part.as_slice().as_ptr(), buf.as_slice()[start..].as_ptr());
                }
                Err(SliceError::StartAfterEnd) => assert!(start > end),
                Err(SliceError::EndOutOfBounds) => assert!(start <= end && end > 6),
                Err(other) => panic!("a slice of elements was refused for {:?}", other),
            }
        }
    }
    let small: SmallFigBuf<8> = SmallFigBuf::from_slice(b"abcdef");
    assert_eq!(small.try_slice(1..4).ok(), Some(small.slice(1..4)));
    let bytes = Bytes::from_vec(b"abcdef".to_vec());
    assert_eq!(bytes.try_slice(1..4).ok(), Some(bytes.slice(1..4)));
    assert_eq!(bytes.try_slice(0..7).err(), Some(SliceError::EndOutOfBounds));
}

#[test]
fn the_sentinel_is_kept_for_immortal_backings() {
    assert_eq!(shared_count(1), 1);
    assert_eq!(shared_count(7), 7);
    assert_eq!(shared_count(usize::MAX - 1), usize::MAX - 1);
    assert_eq!(shared_count(usize::MAX), usize::MAX - 1);
    let shared = FigBuf::from_vec(vec![1u8]);
    assert!(shared.ref_count() < usize::MAX);
    let text = FigBuf::from_string(String::from("a"));
    assert!(text.ref_count() < usize::MAX);
    assert_eq!(text.clone().ref_count(), 2);
}

#[test]
fn writing_into_what_was_granted() {
    let mut room = [0u8; 3];
    assert_eq!(write_granted(Some(&mut room[..]), &[1, 2]), Ok(2));
    assert_eq!(room, [1, 2, 0]);
    assert_eq!(write_granted(Some(&mut room[..]), &[9, 8, 7, 6]), Ok(3));
    assert_eq!(room, [9, 8, 7]);
    assert_eq!(write_granted(Some(&mut room[..]), &[]), Ok(0));
    assert_eq!(room, [9, 8, 7]);
    assert_eq!(write_granted(None, &[1, 2]), Err(WriteError::PermissionDenied));
    assert_eq!(write_granted(None, &[]), Err(WriteError::PermissionDenied));
}
