use face_landmark_mp::face_detector::{FaceDetector, PairSlot};
use face_landmark_mp::face_landmark::{FaceLandmark, LandmarkSlot};
use face_landmark_mp::tflite::{
    tensor_type_id, TensorError, TensorKind, TensorRef, TensorRefMut, UnsupportedTensorType,
};

#[test]
fn type_codes_name_their_kinds() {
    assert_eq!(tensor_type_id(0), Ok(TensorKind::NoType));
    assert_eq!(tensor_type_id(1), Ok(TensorKind::Float32));
    assert_eq!(tensor_type_id(2), Ok(TensorKind::Int32));
    assert_eq!(tensor_type_id(3), Ok(TensorKind::UInt8));
    assert_eq!(tensor_type_id(4), Ok(TensorKind::Int64));
    assert_eq!(tensor_type_id(7), Ok(TensorKind::Int16));
    assert_eq!(tensor_type_id(9), Ok(TensorKind::Int8));
    assert_eq!(tensor_type_id(11), Ok(TensorKind::Float64));
}

#[test]
fn other_type_codes_are_unsupported() {
    for code in [5, 6, 8, 10, 12, 13, -1, i32::MAX, i32::MIN] {
        assert_eq!(tensor_type_id(code), Err(UnsupportedTensorType { code }));
    }
}

#[test]
fn element_sizes() {
    assert_eq!(TensorKind::NoType.element_size(), 0);
    assert_eq!(TensorKind::Float32.element_size(), 4);
    assert_eq!(TensorKind::Int32.element_size(), 4);
    assert_eq!(TensorKind::UInt8.element_size(), 1);
    assert_eq!(TensorKind::Int64.element_size(), 8);
    assert_eq!(TensorKind::Int16.element_size(), 2);
    assert_eq!(TensorKind::Int8.element_size(), 1);
    assert_eq!(TensorKind::Float64.element_size(), 8);
}

#[test]
fn buffer_is_read_as_its_own_kind_only() {
    let t = TensorRef { kind: TensorKind::Float32, dims: vec![1, 896, 16], n_bytes: 896 * 16 * 4 };
    assert_eq!(t.data(TensorKind::Float32), Ok(896 * 16));
    assert_eq!(
        t.data(TensorKind::Int32),
        Err(TensorError::TypeMismatch { expected: TensorKind::Int32, found: TensorKind::Float32 })
    );
    let odd = TensorRef { kind: TensorKind::Int64, dims: vec![3], n_bytes: 27 };
    assert_eq!(odd.data(TensorKind::Int64), Ok(3));
    let none = TensorRef { kind: TensorKind::NoType, dims: vec![], n_bytes: 8 };
    assert_eq!(none.data(TensorKind::NoType), Err(TensorError::Untyped));
}

#[test]
fn buffer_is_filled_as_its_own_kind_only() {
    let t =
        TensorRefMut { kind: TensorKind::Float32, dims: vec![1, 128, 128, 3], n_bytes: 196608 };
    assert_eq!(t.data_mut(TensorKind::Float32), Ok(128 * 128 * 3));
    assert_eq!(
        t.data_mut(TensorKind::UInt8),
        Err(TensorError::TypeMismatch { expected: TensorKind::UInt8, found: TensorKind::Float32 })
    );
    let none = TensorRefMut { kind: TensorKind::NoType, dims: vec![], n_bytes: 0 };
    assert_eq!(none.data_mut(TensorKind::NoType), Err(TensorError::Untyped));
}

#[test]
fn box_values_stand_column_first_in_the_tensor() {
    let detector = FaceDetector::new();
    let slots = detector.decode_output(896 * 16, 896).unwrap();
    assert_eq!(slots.len(), 896);
    assert_eq!(slots[0].center, PairSlot { row: 1, column: 0 });
    assert_eq!(slots[0].size, PairSlot { row: 3, column: 2 });
    assert_eq!(slots[0].key_points[0], PairSlot { row: 5, column: 4 });
    assert_eq!(slots[0].key_points[5], PairSlot { row: 15, column: 14 });
    assert_eq!(slots[0].score, 0);
    assert_eq!(slots[2].center, PairSlot { row: 33, column: 32 });
    assert_eq!(slots[2].key_points[1], PairSlot { row: 39, column: 38 });
    assert_eq!(slots[895].key_points[5], PairSlot { row: 14335, column: 14334 });
    assert_eq!(slots[895].score, 895);
}

#[test]
fn short_detector_tensors_are_refused() {
    let detector = FaceDetector::new();
    assert!(detector.decode_output(896 * 16 - 1, 896).is_none());
    assert!(detector.decode_output(896 * 16, 895).is_none());
    assert!(detector.decode_output(896 * 16 + 5, 900).is_some());
}

#[test]
fn landmark_values_stand_three_to_a_landmark() {
    let landmark = FaceLandmark::new();
    assert_eq!(landmark.size(), 192);
    let slots = landmark.landmark_slots(468 * 3, 1).unwrap();
    assert_eq!(slots.len(), 468);
    assert_eq!(slots[0], LandmarkSlot { x: 0, y: 1, z: 2 });
    assert_eq!(slots[467], LandmarkSlot { x: 1401, y: 1402, z: 1403 });
    assert_eq!(landmark.landmark_slots(0, 1).unwrap().len(), 0);
}

#[test]
fn ragged_landmark_tensor_or_missing_likelihood_is_refused() {
    let landmark = FaceLandmark::new();
    assert!(landmark.landmark_slots(10, 1).is_none());
    assert!(landmark.landmark_slots(9, 0).is_none());
    assert!(landmark.landmark_slots(9, 3).is_some());
}
