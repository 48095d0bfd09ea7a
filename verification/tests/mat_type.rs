use cv::CvType;
use cv::Error;
use cv::MatDepth;
use cv::MatType;

fn all_depths() -> [MatDepth; 8] {
    [
        MatDepth::Unsigned8,
        MatDepth::Signed8,
        MatDepth::Unsigned16,
        MatDepth::Signed16,
        MatDepth::Signed32,
        MatDepth::Float32,
        MatDepth::Float64,
        MatDepth::UserDefined,
    ]
}

#[test]
fn packing_round_trips_for_every_valid_type() {
    for depth in all_depths() {
        for channels in 0..511u16 {
            let ty = MatType::new(depth, channels).unwrap();
            let packed = ty.as_opencv_value();
            let back = MatType::from_opencv_value(packed).unwrap();
            assert_eq!(back.depth(), depth);
            assert_eq!(back.channels(), channels);
            assert_eq!(back, ty);
        }
    }
}

#[test]
fn packing_formula_is_channels_shifted_or_depth() {
    let ty = MatType::new(MatDepth::Unsigned8, 3).unwrap();
    assert_eq!(ty.as_opencv_value(), 3 << 3 | 0);
    let ty = MatType::new(MatDepth::Signed16, 2).unwrap();
    assert_eq!(ty.as_opencv_value(), 2 << 3 | 3);
    let ty = MatType::new(MatDepth::Float64, 510).unwrap();
    assert_eq!(ty.as_opencv_value(), 510 << 3 | 6);
}

#[test]
fn channel_count_511_and_above_is_rejected() {
    for channels in [511u16, 512, 600, u16::MAX] {
        let r = MatType::new(MatDepth::Unsigned8, channels);
        assert_eq!(
            r.unwrap_err(),
            Error::UnsupportedChannelCount { supplied: channels as u32, max: 511 }
        );
    }
}

#[test]
fn decoding_rejects_negative_and_overlarge_tags() {
    assert_eq!(
        MatType::from_opencv_value(-1).unwrap_err(),
        Error::InvalidTypeValue { value: -1 }
    );
    // channel part 511 is the first rejected count: tag 511 * 8
    assert_eq!(
        MatType::from_opencv_value(511 * 8).unwrap_err(),
        Error::UnsupportedChannelCount { supplied: 511, max: 511 }
    );
    assert_eq!(
        MatType::from_opencv_value(i32::MAX).unwrap_err(),
        Error::UnsupportedChannelCount { supplied: (i32::MAX / 8) as u32, max: 511 }
    );
}

#[test]
fn decoding_masks_depth_and_shifts_channels() {
    let ty = MatType::from_opencv_value(24).unwrap();
    assert_eq!(ty.depth(), MatDepth::Unsigned8);
    assert_eq!(ty.channels(), 3);
    let ty = MatType::from_opencv_value(2 << 3 | 5).unwrap();
    assert_eq!(ty.depth(), MatDepth::Float32);
    assert_eq!(ty.channels(), 2);
}

#[test]
fn getters_return_what_was_constructed() {
    let ty = MatType::new(MatDepth::Signed32, 7).unwrap();
    assert_eq!(ty.depth(), MatDepth::Signed32);
    assert_eq!(ty.channels(), 7);
}

#[test]
fn element_sizes_follow_depth_widths() {
    // three 16-bit channels occupy six bytes
    assert_eq!(MatType::new(MatDepth::Signed16, 3).unwrap().elem_size(), 6);
    assert_eq!(MatType::new(MatDepth::Unsigned8, 1).unwrap().elem_size(), 1);
    assert_eq!(MatType::new(MatDepth::Float64, 2).unwrap().elem_size(), 16);
    assert_eq!(MatType::new(MatDepth::Signed32, 0).unwrap().elem_size(), 0);
}

#[test]
fn largest_valid_tag_decodes() {
    // 510 channels of the user-defined depth: the largest packed tag
    let ty = MatType::from_opencv_value(510 << 3 | 7).unwrap();
    assert_eq!(ty.depth(), MatDepth::UserDefined);
    assert_eq!(ty.channels(), 510);
    assert_eq!(ty.as_opencv_value(), 4087);
    // the user-defined escape kind occupies a full eight-byte slot
    assert_eq!(MatType::new(MatDepth::UserDefined, 1).unwrap().elem_size(), 8);
}

#[test]
fn named_cv_type_tags() {
    assert_eq!(CvType::Cv8UC1.as_value(), 0);
    assert_eq!(CvType::Cv8UC2.as_value(), 8);
    assert_eq!(CvType::Cv8UC3.as_value(), 16);
}
