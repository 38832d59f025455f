use openvino::blob::Blob;
use openvino::status::InferenceError;
use openvino::tags::{Layout, Precision};
use openvino::tensor::TensorDesc;

fn pixels(n: usize) -> Vec<u8> {
    (0..n).map(|i| (i * 31 + 7) as u8).collect()
}

#[test]
fn blob_holds_the_bytes_it_was_given() {
    let desc = TensorDesc::new(Layout::NHWC, &[1, 3, 4, 5], Precision::U8);
    let data = pixels(60);
    let blob = Blob::new(desc, &data).unwrap();
    assert_eq!(blob.buffer(), &data[..]);
    assert_eq!(blob.tensor_desc(), desc);
    assert_eq!(blob.len(), 60);
    assert_eq!(blob.byte_len(), 60);
}

#[test]
fn blob_of_wider_elements() {
    let desc = TensorDesc::new(Layout::NCHW, &[1, 3, 4, 5], Precision::FP32);
    let data = pixels(240);
    let blob = Blob::new(desc, &data).unwrap();
    assert_eq!(blob.len(), 60);
    assert_eq!(blob.byte_len(), 240);
    assert_eq!(blob.byte_len(), desc.byte_len());
    assert_eq!(blob.buffer(), &data[..]);
}

#[test]
fn blob_refuses_bytes_of_another_size() {
    let desc = TensorDesc::new(Layout::NHWC, &[1, 3, 4, 5], Precision::U8);
    for n in [0, 1, 59, 61, 120, 240] {
        let r = Blob::new(desc, &pixels(n));
        assert_eq!(r.err(), Some(InferenceError::ParameterMismatch));
    }
    let desc = TensorDesc::new(Layout::NHWC, &[1, 3, 4, 5], Precision::FP32);
    assert_eq!(Blob::new(desc, &pixels(60)).err(), Some(InferenceError::ParameterMismatch));
    assert!(Blob::new(desc, &pixels(240)).is_ok());
}

#[test]
fn blob_refuses_a_descriptor_too_large_for_any_bytes() {
    let desc = TensorDesc::new(Layout::HW, &[u64::MAX, u64::MAX], Precision::I64);
    assert_eq!(Blob::new(desc, &[]).err(), Some(InferenceError::ParameterMismatch));
    assert_eq!(Blob::from(desc, vec![1, 2]).err(), Some(InferenceError::ParameterMismatch));
}

#[test]
fn blob_of_no_elements() {
    let desc = TensorDesc::new(Layout::NCHW, &[1, 0, 4, 5], Precision::FP32);
    let blob = Blob::new(desc, &[]).unwrap();
    assert_eq!(blob.len(), 0);
    assert_eq!(blob.byte_len(), 0);
    assert_eq!(Blob::new(desc, &[0]).err(), Some(InferenceError::ParameterMismatch));
}

#[test]
fn blob_takes_over_a_vector() {
    let desc = TensorDesc::new(Layout::CHW, &[2, 2, 2], Precision::I16);
    let data = pixels(16);
    let blob = Blob::from(desc, data.clone()).unwrap();
    assert_eq!(blob.buffer(), &data[..]);
    assert_eq!(blob.len(), 8);
    assert_eq!(Blob::from(desc, pixels(15)).err(), Some(InferenceError::ParameterMismatch));
    assert_eq!(Blob::from(desc, pixels(17)).err(), Some(InferenceError::ParameterMismatch));
}

#[test]
fn allocated_blob_is_zero() {
    let desc = TensorDesc::new(Layout::NCHW, &[1, 3, 4, 5], Precision::FP32);
    let blob = Blob::allocate(desc).unwrap();
    assert_eq!(blob.byte_len(), 240);
    assert_eq!(blob.len(), 60);
    assert_eq!(blob.tensor_desc(), desc);
    assert!(blob.buffer().iter().all(|b| *b == 0));
    assert_eq!(blob.buffer().len(), 240);
}

#[test]
fn allocation_too_large_fails() {
    let desc = TensorDesc::new(Layout::C, &[u64::MAX], Precision::U8);
    assert_eq!(Blob::allocate(desc).err(), Some(InferenceError::NotAllocated));
    let desc = TensorDesc::new(Layout::C, &[isize::MAX as u64 + 1], Precision::U8);
    assert_eq!(Blob::allocate(desc).err(), Some(InferenceError::NotAllocated));
    let desc = TensorDesc::new(Layout::HW, &[1 << 40, 1 << 40], Precision::FP32);
    assert_eq!(Blob::allocate(desc).err(), Some(InferenceError::NotAllocated));
}

#[test]
fn written_bytes_are_read_back() {
    let desc = TensorDesc::new(Layout::HW, &[4, 4], Precision::U8);
    let mut blob = Blob::allocate(desc).unwrap();
    let data = pixels(16);
    assert_eq!(blob.write(0, &data), Ok(()));
    assert_eq!(blob.buffer(), &data[..]);
    assert_eq!(blob.byte_len(), 16);
    assert_eq!(blob.tensor_desc(), desc);
}

#[test]
fn write_changes_only_the_bytes_written() {
    let desc = TensorDesc::new(Layout::HW, &[2, 4], Precision::U8);
    let mut blob = Blob::new(desc, &[1, 2, 3, 4, 5, 6, 7, 8]).unwrap();
    assert_eq!(blob.write(2, &[30, 40, 50]), Ok(()));
    assert_eq!(blob.buffer(), &[1, 2, 30, 40, 50, 6, 7, 8]);
    assert_eq!(blob.write(7, &[80]), Ok(()));
    assert_eq!(blob.buffer(), &[1, 2, 30, 40, 50, 6, 7, 80]);
    assert_eq!(blob.write(8, &[]), Ok(()));
    assert_eq!(blob.write(0, &[]), Ok(()));
    assert_eq!(blob.buffer(), &[1, 2, 30, 40, 50, 6, 7, 80]);
}

#[test]
fn write_outside_the_buffer_fails_and_changes_nothing() {
    let desc = TensorDesc::new(Layout::HW, &[2, 4], Precision::U8);
    let mut blob = Blob::new(desc, &[1, 2, 3, 4, 5, 6, 7, 8]).unwrap();
    assert_eq!(blob.write(6, &[1, 1, 1]), Err(InferenceError::OutOfBounds));
    assert_eq!(blob.write(8, &[1]), Err(InferenceError::OutOfBounds));
    assert_eq!(blob.write(9, &[]), Err(InferenceError::OutOfBounds));
    assert_eq!(blob.write(usize::MAX, &[1, 2]), Err(InferenceError::OutOfBounds));
    assert_eq!(blob.write(0, &pixels(9)), Err(InferenceError::OutOfBounds));
    assert_eq!(blob.buffer(), &[1, 2, 3, 4, 5, 6, 7, 8]);
}

#[test]
fn floats_pass_through_a_blob_bit_for_bit() {
    let values: [f32; 4] = [59.0, 1.0, 0.9939936, -0.0];
    let mut bytes = Vec::new();
    for v in values {
        bytes.extend_from_slice(&v.to_le_bytes());
    }
    let desc = TensorDesc::new(Layout::C, &[4], Precision::FP32);
    let blob = Blob::new(desc, &bytes).unwrap();
    assert_eq!(blob.len(), 4);
    let read: Vec<f32> = blob
        .buffer()
        .chunks_exact(4)
        .map(|c| f32::from_le_bytes([c[0], c[1], c[2], c[3]]))
        .collect();
    assert_eq!(read.len(), 4);
    for (a, b) in read.iter().zip(values.iter()) {
        assert_eq!(a.to_bits(), b.to_bits());
    }
}
