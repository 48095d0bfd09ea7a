use cv::Error;
use cv::FlipCode;
use cv::LineTypes;
use cv::Mat;
use cv::MatDepth;
use cv::MatType;
use cv::NormTypes;
use cv::Rect;
use cv::Scalar;
use cv::Size2i;

// Packed tag of a single-channel 8-bit element: channels 1, depth 0.
fn tag_8u_c1() -> i32 {
    1 << 3 | 0
}

#[test]
fn empty_mat_has_no_rows_no_cols_no_bytes() {
    let m = Mat::new();
    assert_eq!(m.rows(), 0);
    assert_eq!(m.cols(), 0);
    assert_eq!(m.total(), 0);
    assert!(!m.is_valid());
    assert!(m.data().is_empty());
    assert_eq!(m.mat_type().depth(), MatDepth::Unsigned8);
    assert_eq!(m.mat_type().channels(), 1);
}

#[test]
fn from_buffer_round_trips_dimensions_and_type() {
    let bytes: Vec<u8> = (0u8..24).collect();
    let tag = 3 << 3 | 0; // three 8-bit channels
    let m = Mat::from_buffer(2, 4, tag, &bytes).unwrap();
    assert_eq!(m.rows(), 2);
    assert_eq!(m.cols(), 4);
    assert_eq!(m.mat_type().depth(), MatDepth::Unsigned8);
    assert_eq!(m.mat_type().channels(), 3);
    assert_eq!(m.mat_type().as_opencv_value(), tag);
    assert_eq!(m.total(), 8);
    assert_eq!(m.elem_size(), 3);
    assert_eq!(*m.data(), bytes);
}

#[test]
fn from_buffer_copies_only_the_needed_prefix() {
    let bytes: Vec<u8> = vec![9, 8, 7, 6, 5];
    let m = Mat::from_buffer(2, 2, tag_8u_c1(), &bytes).unwrap();
    assert_eq!(*m.data(), vec![9, 8, 7, 6]);
}

#[test]
fn from_buffer_rejects_short_buffers() {
    let bytes: Vec<u8> = vec![0; 15];
    let e = Mat::from_buffer(4, 4, tag_8u_c1(), &bytes).unwrap_err();
    assert_eq!(e, Error::BufferTooSmall { required: 16, available: 15 });
}

#[test]
fn from_buffer_rejects_negative_dimensions() {
    let bytes: Vec<u8> = vec![0; 16];
    let e = Mat::from_buffer(-1, 4, tag_8u_c1(), &bytes).unwrap_err();
    assert_eq!(e, Error::InvalidDimensions { rows: -1, cols: 4 });
    let e = Mat::from_buffer(4, -2, tag_8u_c1(), &bytes).unwrap_err();
    assert_eq!(e, Error::InvalidDimensions { rows: 4, cols: -2 });
}

#[test]
fn from_buffer_rejects_bad_type_tags() {
    let bytes: Vec<u8> = vec![0; 16];
    let e = Mat::from_buffer(2, 2, -5, &bytes).unwrap_err();
    assert_eq!(e, Error::InvalidTypeValue { value: -5 });
    let e = Mat::from_buffer(2, 2, 600 << 3, &bytes).unwrap_err();
    assert_eq!(e, Error::UnsupportedChannelCount { supplied: 600, max: 511 });
}

#[test]
fn zeros_is_zero_filled_and_valid() {
    let m = Mat::zeros(4, 4, tag_8u_c1()).unwrap();
    assert_eq!(m.rows(), 4);
    assert_eq!(m.cols(), 4);
    assert_eq!(m.total(), 16);
    assert!(m.is_valid());
    assert_eq!(*m.data(), vec![0u8; 16]);
    assert_eq!(m.count_non_zero(), 0);
}

#[test]
fn with_size_takes_a_constructed_type() {
    let ty = MatType::new(MatDepth::Unsigned8, 2).unwrap();
    let m = Mat::with_size(3, 5, ty).unwrap();
    assert_eq!(m.rows(), 3);
    assert_eq!(m.cols(), 5);
    assert_eq!(m.elem_size(), 2);
    assert_eq!(m.data().len(), 30);
    let e = Mat::with_size(-3, 5, ty).unwrap_err();
    assert_eq!(e, Error::InvalidDimensions { rows: -3, cols: 5 });
}

#[test]
fn size_reports_width_and_height() {
    let m = Mat::zeros(2, 7, tag_8u_c1()).unwrap();
    assert_eq!(m.size(), Size2i::new(7, 2));
}

#[test]
fn roi_out_of_bounds_is_an_error() {
    let m = Mat::zeros(4, 4, tag_8u_c1()).unwrap();
    // extends past the right edge
    assert_eq!(m.roi(Rect::new(3, 0, 2, 2)).unwrap_err(), Error::RoiOutOfBounds);
    // extends past the bottom edge
    assert_eq!(m.roi(Rect::new(0, 3, 2, 2)).unwrap_err(), Error::RoiOutOfBounds);
    // negative origin
    assert_eq!(m.roi(Rect::new(-1, 0, 2, 2)).unwrap_err(), Error::RoiOutOfBounds);
    // negative extent
    assert_eq!(m.roi(Rect::new(0, 0, -2, 2)).unwrap_err(), Error::RoiOutOfBounds);
    // far outside, would overflow a naive 32-bit sum
    assert_eq!(
        m.roi(Rect::new(i32::MAX, 0, i32::MAX, 1)).unwrap_err(),
        Error::RoiOutOfBounds
    );
}

#[test]
fn roi_copies_the_selected_rectangle() {
    let bytes: Vec<u8> = (0u8..16).collect();
    let m = Mat::from_buffer(4, 4, tag_8u_c1(), &bytes).unwrap();
    let r = m.roi(Rect::new(1, 1, 2, 2)).unwrap();
    assert_eq!(r.rows(), 2);
    assert_eq!(r.cols(), 2);
    assert_eq!(r.mat_type(), m.mat_type());
    assert_eq!(*r.data(), vec![5, 6, 9, 10]);
    // the full-buffer rectangle is allowed and copies everything
    let full = m.roi(Rect::new(0, 0, 4, 4)).unwrap();
    assert_eq!(*full.data(), bytes);
}

#[test]
fn flip_vertical_reverses_row_order() {
    let bytes: Vec<u8> = vec![1, 2, 3, 4, 5, 6];
    let mut m = Mat::from_buffer(3, 2, tag_8u_c1(), &bytes).unwrap();
    m.flip(FlipCode::XAxis);
    assert_eq!(*m.data(), vec![5, 6, 3, 4, 1, 2]);
}

#[test]
fn flip_horizontal_reverses_each_row() {
    let bytes: Vec<u8> = vec![1, 2, 3, 4, 5, 6];
    let mut m = Mat::from_buffer(2, 3, tag_8u_c1(), &bytes).unwrap();
    m.flip(FlipCode::YAxis);
    assert_eq!(*m.data(), vec![3, 2, 1, 6, 5, 4]);
}

#[test]
fn flip_both_axes_reverses_rows_and_columns() {
    let bytes: Vec<u8> = vec![1, 2, 3, 4, 5, 6];
    let mut m = Mat::from_buffer(2, 3, tag_8u_c1(), &bytes).unwrap();
    m.flip(FlipCode::XYAxis);
    assert_eq!(*m.data(), vec![6, 5, 4, 3, 2, 1]);
}

#[test]
fn flip_keeps_elements_together() {
    // two 2-byte elements per row: flipping columns swaps elements, not bytes
    let bytes: Vec<u8> = vec![1, 2, 3, 4];
    let tag = 2 << 3 | 0;
    let mut m = Mat::from_buffer(1, 2, tag, &bytes).unwrap();
    m.flip(FlipCode::YAxis);
    assert_eq!(*m.data(), vec![3, 4, 1, 2]);
}

#[test]
fn flip_vertical_twice_restores_the_original() {
    let bytes: Vec<u8> = (0u8..35).collect();
    let mut m = Mat::from_buffer(5, 7, tag_8u_c1(), &bytes).unwrap();
    m.flip(FlipCode::XAxis);
    m.flip(FlipCode::XAxis);
    assert_eq!(*m.data(), bytes);
}

#[test]
fn flip_horizontal_then_vertical_equals_flip_both() {
    let bytes: Vec<u8> = (0u8..24).collect();
    let mut a = Mat::from_buffer(4, 6, tag_8u_c1(), &bytes).unwrap();
    a.flip(FlipCode::YAxis);
    a.flip(FlipCode::XAxis);
    let mut b = Mat::from_buffer(4, 6, tag_8u_c1(), &bytes).unwrap();
    b.flip(FlipCode::XYAxis);
    assert_eq!(*a.data(), *b.data());
}

#[test]
fn logic_and_applies_a_mask_in_place() {
    let bytes: Vec<u8> = vec![0b1100, 0b1010, 0xFF, 0x0F];
    let mask_bytes: Vec<u8> = vec![0b1010, 0b1010, 0x0F, 0xF0];
    let mut m = Mat::from_buffer(2, 2, tag_8u_c1(), &bytes).unwrap();
    let mask = Mat::from_buffer(2, 2, tag_8u_c1(), &mask_bytes).unwrap();
    m.logic_and(mask).unwrap();
    assert_eq!(*m.data(), vec![0b1000, 0b1010, 0x0F, 0x00]);
}

#[test]
fn logic_and_rejects_mismatched_shapes() {
    let mut m = Mat::zeros(2, 2, tag_8u_c1()).unwrap();
    let before = m.data().clone();
    let mask = Mat::zeros(2, 3, tag_8u_c1()).unwrap();
    assert_eq!(m.logic_and(mask).unwrap_err(), Error::SizeMismatch);
    assert_eq!(*m.data(), before);
    let other_type = Mat::zeros(2, 2, 2 << 3 | 0).unwrap();
    assert_eq!(m.logic_and(other_type).unwrap_err(), Error::SizeMismatch);
}

#[test]
fn bitwise_ops_return_fresh_results() {
    let a_bytes: Vec<u8> = vec![0b0011, 0b0101];
    let b_bytes: Vec<u8> = vec![0b0110, 0b0011];
    let a = Mat::from_buffer(1, 2, tag_8u_c1(), &a_bytes).unwrap();
    let b = Mat::from_buffer(1, 2, tag_8u_c1(), &b_bytes).unwrap();
    assert_eq!(*a.and(&b).unwrap().data(), vec![0b0010, 0b0001]);
    assert_eq!(*a.or(&b).unwrap().data(), vec![0b0111, 0b0111]);
    assert_eq!(*a.xor(&b).unwrap().data(), vec![0b0101, 0b0110]);
    assert_eq!(*a.not().data(), vec![0b11111100, 0b11111010]);
    // operands are untouched
    assert_eq!(*a.data(), a_bytes);
    assert_eq!(*b.data(), b_bytes);
}

#[test]
fn bitwise_ops_reject_mismatched_shapes() {
    let a = Mat::zeros(1, 2, tag_8u_c1()).unwrap();
    let b = Mat::zeros(2, 1, tag_8u_c1()).unwrap();
    assert_eq!(a.and(&b).unwrap_err(), Error::SizeMismatch);
    assert_eq!(a.or(&b).unwrap_err(), Error::SizeMismatch);
    assert_eq!(a.xor(&b).unwrap_err(), Error::SizeMismatch);
}

#[test]
fn count_non_zero_counts_elements_not_bytes() {
    let bytes: Vec<u8> = vec![0, 0, 1, 0, 0, 5, 0, 0];
    // four 2-byte elements: (0,0) (1,0) (0,5) (0,0)
    let tag = 2 << 3 | 0;
    let m = Mat::from_buffer(2, 2, tag, &bytes).unwrap();
    assert_eq!(m.count_non_zero(), 2);
}

#[test]
fn masked_roi_scenario_counts_four_non_zero() {
    // a 4x4 single-channel 8-bit buffer of zero bytes
    let zeros: Vec<u8> = vec![0u8; 16];
    let m = Mat::from_buffer(4, 4, tag_8u_c1(), &zeros).unwrap();
    // its 2x2 region of interest at (1, 1)
    let mut r = m.roi(Rect::new(1, 1, 2, 2)).unwrap();
    // AND with an all-ones mask of the same shape: no error, still zero
    let ones: Vec<u8> = vec![0xFF; 4];
    let mask = Mat::from_buffer(2, 2, tag_8u_c1(), &ones).unwrap();
    r.logic_and(mask).unwrap();
    assert_eq!(r.count_non_zero(), 0);
    // OR with a non-zero mask: every one of the four elements is non-zero
    let mask = Mat::from_buffer(2, 2, tag_8u_c1(), &ones).unwrap();
    let lit = r.or(&mask).unwrap();
    assert_eq!(lit.count_non_zero(), 4);
}

#[test]
fn zero_channel_types_give_empty_buffers() {
    // tag 0 packs zero channels of 8-bit depth: elements occupy no bytes
    let empty: Vec<u8> = Vec::new();
    let m = Mat::from_buffer(3, 3, 0, &empty).unwrap();
    assert_eq!(m.rows(), 3);
    assert_eq!(m.cols(), 3);
    assert_eq!(m.total(), 9);
    assert_eq!(m.elem_size(), 0);
    assert!(m.data().is_empty());
    assert!(!m.is_valid());
    assert_eq!(m.count_non_zero(), 0);
    let mut m = m;
    m.flip(FlipCode::XYAxis);
    assert!(m.data().is_empty());
}

#[test]
fn roi_with_empty_extent_is_allowed() {
    let m = Mat::zeros(4, 4, tag_8u_c1()).unwrap();
    let r = m.roi(Rect::new(2, 2, 0, 0)).unwrap();
    assert_eq!(r.rows(), 0);
    assert_eq!(r.cols(), 0);
    assert!(r.data().is_empty());
    // the edge position itself is inside: x + width == cols
    let r = m.roi(Rect::new(4, 0, 0, 4)).unwrap();
    assert_eq!(r.cols(), 0);
    assert_eq!(r.rows(), 4);
}

#[test]
fn scalar_and_geometry_constructors() {
    let _s = Scalar::new(0, 30, 10, 0);
    let r = Rect::new(1, 2, 3, 4);
    assert_eq!((r.x, r.y, r.width, r.height), (1, 2, 3, 4));
    assert_eq!(Rect::default(), Rect::new(0, 0, 0, 0));
    let sz = Size2i::new(6, 4);
    assert_eq!((sz.width, sz.height), (6, 4));
}

#[test]
fn native_tags_of_drawing_and_norm_kinds() {
    assert_eq!(LineTypes::Filled.as_value(), -1);
    assert_eq!(LineTypes::Line4.as_value(), 4);
    assert_eq!(LineTypes::Line8.as_value(), 8);
    assert_eq!(LineTypes::LineAA.as_value(), 16);
    assert_eq!(NormTypes::NormInf.as_value(), 1);
    assert_eq!(NormTypes::NormMinMax.as_value(), 32);
}
