use openvino::status::InferenceError;
use openvino::tags::{Layout, Precision, ResizeAlgorithm};
use openvino::tensor::{RawTensorDesc, TensorDesc, MAX_RANK};

const LAYOUTS: [(Layout, u32); 13] = [
    (Layout::Any, 0),
    (Layout::NCHW, 1),
    (Layout::NHWC, 2),
    (Layout::NCDHW, 3),
    (Layout::NDHWC, 4),
    (Layout::OIHW, 64),
    (Layout::Scalar, 95),
    (Layout::C, 96),
    (Layout::CHW, 128),
    (Layout::HW, 192),
    (Layout::NC, 193),
    (Layout::CN, 194),
    (Layout::Blocked, 200),
];

const PRECISIONS: [(Precision, u32, usize); 9] = [
    (Precision::FP32, 10, 4),
    (Precision::FP16, 11, 2),
    (Precision::Q78, 20, 2),
    (Precision::I16, 30, 2),
    (Precision::U8, 40, 1),
    (Precision::I8, 50, 1),
    (Precision::U16, 60, 2),
    (Precision::I32, 70, 4),
    (Precision::I64, 72, 8),
];

#[test]
fn layout_codes() {
    for (layout, code) in LAYOUTS {
        assert_eq!(layout.code(), code);
        assert_eq!(Layout::from_code(code), Some(layout));
    }
}

#[test]
fn unknown_layout_codes() {
    for code in 0..=1000u32 {
        let known = LAYOUTS.iter().any(|(_, c)| *c == code);
        assert_eq!(Layout::from_code(code).is_some(), known);
    }
    assert_eq!(Layout::from_code(u32::MAX), None);
}

#[test]
fn precision_codes_and_widths() {
    for (precision, code, width) in PRECISIONS {
        assert_eq!(precision.code(), code);
        assert_eq!(Precision::from_code(code), Some(precision));
        assert_eq!(precision.width(), width);
    }
}

#[test]
fn unknown_precision_codes() {
    for code in 0..=1000u32 {
        let known = PRECISIONS.iter().any(|(_, c, _)| *c == code);
        assert_eq!(Precision::from_code(code).is_some(), known);
    }
    // Precisions without a size in whole bytes are not read.
    assert_eq!(Precision::from_code(0), None);
    assert_eq!(Precision::from_code(71), None);
    assert_eq!(Precision::from_code(80), None);
    assert_eq!(Precision::from_code(255), None);
}

#[test]
fn resize_algorithm_codes() {
    assert_eq!(ResizeAlgorithm::NoResize.code(), 0);
    assert_eq!(ResizeAlgorithm::Bilinear.code(), 1);
    assert_eq!(ResizeAlgorithm::Area.code(), 2);
}

#[test]
fn descriptor_keeps_what_it_was_given() {
    let desc = TensorDesc::new(Layout::NHWC, &[1, 3, 224, 224], Precision::U8);
    assert_eq!(desc.layout(), Layout::NHWC);
    assert_eq!(desc.precision(), Precision::U8);
    assert_eq!(desc.rank(), 4);
    assert_eq!(desc.dimensions(), &[1, 3, 224, 224]);
}

#[test]
fn element_count_is_the_product_of_the_extents() {
    let desc = TensorDesc::new(Layout::NCHW, &[1, 3, 224, 224], Precision::U8);
    assert_eq!(desc.len(), 150528);
    assert_eq!(desc.checked_len(), Some(150528));
    let desc = TensorDesc::new(Layout::CHW, &[2, 3, 4], Precision::FP32);
    assert_eq!(desc.len(), 24);
    let desc = TensorDesc::new(Layout::C, &[7], Precision::I64);
    assert_eq!(desc.len(), 7);
}

#[test]
fn byte_count_is_element_count_times_width() {
    let dims = [1, 3, 224, 224];
    for (precision, _, width) in PRECISIONS {
        let desc = TensorDesc::new(Layout::NCHW, &dims, precision);
        assert_eq!(desc.byte_len(), desc.len() * width);
        assert_eq!(desc.byte_len(), 150528 * width);
        assert_eq!(desc.checked_byte_len(), Some(150528 * width));
    }
    let desc = TensorDesc::new(Layout::NCHW, &dims, Precision::FP32);
    assert_eq!(desc.byte_len(), 602112);
}

#[test]
fn element_count_does_not_depend_on_the_layout_or_the_order() {
    let a = TensorDesc::new(Layout::NCHW, &[1, 3, 300, 200], Precision::U8);
    let b = TensorDesc::new(Layout::NHWC, &[1, 3, 300, 200], Precision::U8);
    let c = TensorDesc::new(Layout::NHWC, &[1, 300, 200, 3], Precision::U8);
    assert_eq!(a.len(), 180000);
    assert_eq!(b.len(), 180000);
    assert_eq!(c.len(), 180000);
}

#[test]
fn no_extents_describe_one_element() {
    let desc = TensorDesc::new(Layout::Scalar, &[], Precision::FP32);
    assert_eq!(desc.rank(), 0);
    assert_eq!(desc.dimensions(), &[] as &[u64]);
    assert_eq!(desc.len(), 1);
    assert_eq!(desc.byte_len(), 4);
}

#[test]
fn eight_extents_are_accepted() {
    assert_eq!(MAX_RANK, 8);
    let dims = [2, 1, 2, 1, 2, 1, 2, 3];
    let desc = TensorDesc::new(Layout::Blocked, &dims, Precision::I16);
    assert_eq!(desc.rank(), 8);
    assert_eq!(desc.dimensions(), &dims);
    assert_eq!(desc.len(), 48);
    assert_eq!(desc.byte_len(), 96);
}

#[test]
fn an_extent_of_zero_describes_no_elements() {
    let desc = TensorDesc::new(Layout::NCHW, &[1, 0, 224, 224], Precision::FP32);
    assert_eq!(desc.len(), 0);
    assert_eq!(desc.byte_len(), 0);
    // Not even where the other extents alone would be too large to count.
    let desc = TensorDesc::new(Layout::CHW, &[u64::MAX, u64::MAX, 0], Precision::FP32);
    assert_eq!(desc.checked_len(), Some(0));
    assert_eq!(desc.checked_byte_len(), Some(0));
    assert_eq!(desc.len(), 0);
}

#[test]
fn counts_too_large_for_the_machine_are_not_given() {
    let desc = TensorDesc::new(Layout::HW, &[u64::MAX, 2], Precision::U8);
    assert_eq!(desc.checked_len(), None);
    assert_eq!(desc.checked_byte_len(), None);
    let desc = TensorDesc::new(Layout::HW, &[1 << 32, 1 << 32], Precision::U8);
    assert_eq!(desc.checked_len(), None);
    // The elements can be counted, their bytes cannot.
    let most = (usize::MAX / 2) as u64 + 1;
    let desc = TensorDesc::new(Layout::C, &[most], Precision::I16);
    assert_eq!(desc.checked_len(), Some(most as usize));
    assert_eq!(desc.checked_byte_len(), None);
    let desc = TensorDesc::new(Layout::C, &[most - 1], Precision::I16);
    assert_eq!(desc.checked_byte_len(), Some(usize::MAX - 1));
}

#[test]
fn raw_descriptor_is_padded_with_zeros() {
    let desc = TensorDesc::new(Layout::NHWC, &[1, 3, 224, 224], Precision::U8);
    let raw = desc.to_raw();
    assert_eq!(
        raw,
        RawTensorDesc { layout: 2, ranks: 4, dims: [1, 3, 224, 224, 0, 0, 0, 0], precision: 40 }
    );
}

#[test]
fn raw_descriptor_reads_back() {
    for (layout, _) in LAYOUTS {
        for (precision, _, _) in PRECISIONS {
            for rank in 0..=8usize {
                let dims: Vec<u64> = (0..rank as u64).map(|i| i * 7 + 2).collect();
                let desc = TensorDesc::new(layout, &dims, precision);
                assert_eq!(TensorDesc::from_raw(&desc.to_raw()), Ok(desc));
            }
        }
    }
}

#[test]
fn raw_descriptor_beyond_its_rank_is_ignored() {
    let raw = RawTensorDesc { layout: 1, ranks: 2, dims: [5, 6, 9, 9, 9, 9, 9, 9], precision: 10 };
    let desc = TensorDesc::from_raw(&raw).unwrap();
    assert_eq!(desc, TensorDesc::new(Layout::NCHW, &[5, 6], Precision::FP32));
    assert_eq!(desc.len(), 30);
    assert_eq!(desc.to_raw().dims, [5, 6, 0, 0, 0, 0, 0, 0]);
}

#[test]
fn raw_descriptor_with_too_many_extents() {
    let raw = RawTensorDesc { layout: 1, ranks: 9, dims: [1; 8], precision: 10 };
    assert_eq!(TensorDesc::from_raw(&raw), Err(InferenceError::OutOfBounds));
    let raw = RawTensorDesc { layout: 1, ranks: u64::MAX, dims: [1; 8], precision: 10 };
    assert_eq!(TensorDesc::from_raw(&raw), Err(InferenceError::OutOfBounds));
    let raw = RawTensorDesc { layout: 1, ranks: 8, dims: [1; 8], precision: 10 };
    assert!(TensorDesc::from_raw(&raw).is_ok());
}

#[test]
fn raw_descriptor_with_unknown_tags() {
    let raw = RawTensorDesc { layout: 5, ranks: 1, dims: [1; 8], precision: 10 };
    assert_eq!(TensorDesc::from_raw(&raw), Err(InferenceError::NotImplemented));
    let raw = RawTensorDesc { layout: 1, ranks: 1, dims: [1; 8], precision: 255 };
    assert_eq!(TensorDesc::from_raw(&raw), Err(InferenceError::NotImplemented));
    // The layout is looked at before the extents, the extents before the
    // precision.
    let raw = RawTensorDesc { layout: 5, ranks: 9, dims: [1; 8], precision: 255 };
    assert_eq!(TensorDesc::from_raw(&raw), Err(InferenceError::NotImplemented));
    let raw = RawTensorDesc { layout: 1, ranks: 9, dims: [1; 8], precision: 255 };
    assert_eq!(TensorDesc::from_raw(&raw), Err(InferenceError::OutOfBounds));
}
