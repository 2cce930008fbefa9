use agent_ui::offsets::{
    byte_len, convert, next_boundary, on_boundary, previous_boundary, slice, splice, Encoding,
};

const SAMPLE: &str = "aé😀b";

#[test]
fn widths_by_encoding() {
    assert_eq!(Encoding::Utf8.width_of('a'), 1);
    assert_eq!(Encoding::Utf8.width_of('\u{7f}'), 1);
    assert_eq!(Encoding::Utf8.width_of('\u{80}'), 2);
    assert_eq!(Encoding::Utf8.width_of('é'), 2);
    assert_eq!(Encoding::Utf8.width_of('\u{7ff}'), 2);
    assert_eq!(Encoding::Utf8.width_of('\u{800}'), 3);
    assert_eq!(Encoding::Utf8.width_of('你'), 3);
    assert_eq!(Encoding::Utf8.width_of('\u{ffff}'), 3);
    assert_eq!(Encoding::Utf8.width_of('\u{10000}'), 4);
    assert_eq!(Encoding::Utf8.width_of('😀'), 4);
    assert_eq!(Encoding::Utf16.width_of('a'), 1);
    assert_eq!(Encoding::Utf16.width_of('你'), 1);
    assert_eq!(Encoding::Utf16.width_of('\u{ffff}'), 1);
    assert_eq!(Encoding::Utf16.width_of('\u{10000}'), 2);
    assert_eq!(Encoding::Utf16.width_of('😀'), 2);
}

#[test]
fn widths_agree_with_the_standard_library_on_every_character() {
    let mut code: u32 = 0;
    while code <= 0x10FFFF {
        if let Some(c) = char::from_u32(code) {
            assert_eq!(Encoding::Utf8.width_of(c), c.len_utf8());
            assert_eq!(Encoding::Utf16.width_of(c), c.len_utf16());
        }
        code += 1;
    }
}

#[test]
fn byte_len_counts_bytes() {
    assert_eq!(byte_len(""), 0);
    assert_eq!(byte_len(SAMPLE), 8);
    assert_eq!(byte_len("你好"), 6);
}

#[test]
fn boundaries_of_the_sample() {
    let expected = [true, true, false, true, false, false, false, true, true, false];
    for (offset, on) in expected.iter().enumerate() {
        assert_eq!(on_boundary(SAMPLE, offset), *on, "offset {}", offset);
    }
    assert!(on_boundary("", 0));
    assert!(!on_boundary("", 1));
}

#[test]
fn previous_boundary_finds_the_last_start_below() {
    let expected = [0, 0, 1, 1, 3, 3, 3, 3, 7, 7, 7];
    for (offset, previous) in expected.iter().enumerate() {
        assert_eq!(previous_boundary(SAMPLE, offset), *previous, "offset {}", offset);
    }
    assert_eq!(previous_boundary(SAMPLE, usize::MAX), 7);
    assert_eq!(previous_boundary("", 0), 0);
    assert_eq!(previous_boundary("", 5), 0);
}

#[test]
fn next_boundary_finds_the_first_start_above() {
    let expected = [1, 3, 3, 7, 7, 7, 7, 8, 8, 8, 8];
    for (offset, next) in expected.iter().enumerate() {
        assert_eq!(next_boundary(SAMPLE, offset), *next, "offset {}", offset);
    }
    assert_eq!(next_boundary(SAMPLE, usize::MAX), 8);
    assert_eq!(next_boundary("", 0), 0);
}

#[test]
fn utf16_to_utf8() {
    let expected = [0, 1, 3, 7, 7, 8, 8, 8];
    for (offset, bytes) in expected.iter().enumerate() {
        assert_eq!(
            convert(SAMPLE, Encoding::Utf16, Encoding::Utf8, offset),
            *bytes,
            "offset {}",
            offset
        );
    }
    assert_eq!(convert(SAMPLE, Encoding::Utf16, Encoding::Utf8, usize::MAX), 8);
    assert_eq!(convert("", Encoding::Utf16, Encoding::Utf8, 3), 0);
}

#[test]
fn utf8_to_utf16() {
    let expected = [0, 1, 2, 2, 4, 4, 4, 4, 5, 5];
    for (offset, units) in expected.iter().enumerate() {
        assert_eq!(
            convert(SAMPLE, Encoding::Utf8, Encoding::Utf16, offset),
            *units,
            "offset {}",
            offset
        );
    }
    assert_eq!(convert(SAMPLE, Encoding::Utf8, Encoding::Utf16, usize::MAX), 5);
}

#[test]
fn converting_within_one_encoding_rounds_up_to_a_boundary() {
    let expected = [0, 1, 3, 3, 7, 7, 7, 7, 8, 8];
    for (offset, rounded) in expected.iter().enumerate() {
        assert_eq!(convert(SAMPLE, Encoding::Utf8, Encoding::Utf8, offset), *rounded);
    }
}

#[test]
fn conversions_round_trip_on_boundaries() {
    for offset in [0usize, 1, 3, 7, 8] {
        let units = convert(SAMPLE, Encoding::Utf8, Encoding::Utf16, offset);
        assert_eq!(convert(SAMPLE, Encoding::Utf16, Encoding::Utf8, units), offset);
    }
}

#[test]
fn slice_takes_the_part_between() {
    assert_eq!(slice(SAMPLE, 0, 8), SAMPLE);
    assert_eq!(slice(SAMPLE, 1, 7), "é😀");
    assert_eq!(slice(SAMPLE, 3, 3), "");
    assert_eq!(slice(SAMPLE, 7, 8), "b");
}

#[test]
fn splice_replaces_the_part_between() {
    assert_eq!(splice(SAMPLE, 1, 7, "-"), "a-b");
    assert_eq!(splice(SAMPLE, 3, 3, "你"), "aé你😀b");
    assert_eq!(splice(SAMPLE, 0, 8, ""), "");
    assert_eq!(splice(SAMPLE, 8, 8, "!"), "aé😀b!");
}

#[test]
fn splice_with_reversed_ends_repeats_the_overlap() {
    assert_eq!(splice("abc", 2, 1, "-"), "ab-bc");
}
