use tensorflux::{
    Buffer, Code, Definition, EngineStatus, Error, Float32, Float64, Graph, Memory, Status,
    Tensor, Type,
};

#[test]
fn tensor_new_exact_fit() {
    let t = Tensor::new(vec![1i32, 2, 3], &[3]).unwrap();
    assert_eq!(t.data().as_slice(), &[1, 2, 3]);
    assert_eq!(t.dimensions(), vec![3]);
    assert_eq!(t.count(), 3);
    assert!(t.release().is_none());
}

#[test]
fn tensor_new_with_slack() {
    // more data than the dimensions declare is kept, not refused
    let t = Tensor::new(vec![1u8, 2, 3, 4, 5], &[2, 2]).unwrap();
    assert_eq!(t.count(), 4);
    assert_eq!(t.data().len(), 5);
    assert_eq!(t.dimensions(), vec![2, 2]);
}

#[test]
fn tensor_new_insufficient_data() {
    let r = Tensor::new(vec![1i64, 2, 3], &[2, 2]);
    assert_eq!(r.unwrap_err(), Error::InsufficientData { needed: 4, given: 3 });
}

#[test]
fn tensor_new_scalar_needs_one_element() {
    // an empty dimension list declares one element at construction time
    let r = Tensor::new(Vec::<i32>::new(), &[]);
    assert_eq!(r.unwrap_err(), Error::InsufficientData { needed: 1, given: 0 });
    let t = Tensor::new(vec![7i32], &[]).unwrap();
    assert_eq!(t.count(), 1);
}

#[test]
fn tensor_new_zero_dimension() {
    // a zero anywhere makes the declared product zero, so no data is needed
    let t = Tensor::new(Vec::<i16>::new(), &[3, 0, 5]).unwrap();
    assert_eq!(t.count(), 0);
    assert_eq!(t.dimensions(), vec![3, 0, 5]);
}

#[test]
fn tensor_new_product_overflow_is_refused() {
    // the declared product exceeds the address range, so no data can satisfy it
    let r = Tensor::new(vec![0u8; 8], &[usize::MAX / 2, 4]);
    assert_eq!(r.unwrap_err(), Error::InsufficientData { needed: usize::MAX, given: 8 });
}

#[test]
fn tensor_into_data() {
    let t = Tensor::new(vec![10u16, 20], &[2]).unwrap();
    let (data, handle) = t.into_data();
    assert_eq!(data, vec![10, 20]);
    assert!(handle.is_none());
}

#[test]
fn tensor_copy_raw_truncates_to_declared_count() {
    let t = Tensor::new(vec![1i32, 2, 3, 4], &[3]).unwrap();
    let c = t.copy_raw();
    assert_eq!(c.dimensions, vec![3i64]);
    assert_eq!(c.elements, tensorflux::Elements::Int32(vec![1, 2, 3]));
    // the tensor itself is untouched
    assert_eq!(t.data().len(), 4);
}

#[test]
fn memory_owned_round_trip() {
    let mut m = Memory::new(vec![1u8, 2, 3]);
    assert!(m.is_owned());
    assert_eq!(m.len(), 3);
    assert_eq!(*m.get(1), 2);
    m.set(1, 9);
    assert_eq!(m.as_vec().as_slice(), &[1, 9, 3]);
    let taken = m.empty();
    assert_eq!(taken, vec![1, 9, 3]);
    assert_eq!(m.len(), 0);
    assert!(m.is_owned());
}

#[test]
fn memory_foreign_extraction_copies_and_flips() {
    let mut m = Memory::adopt(vec![5i64, 6]);
    assert!(!m.is_owned());
    let taken = m.empty();
    assert_eq!(taken, vec![5, 6]);
    assert!(m.is_owned());
    assert_eq!(m.len(), 0);
}

#[test]
fn buffer_ownership() {
    let mut b = Buffer::new(vec![1, 2, 3]);
    assert_eq!(b.len(), 3);
    b.reset(vec![9, 9]);
    assert_eq!(b.as_bytes().as_slice(), &[9, 9]);
    let bytes = b.empty();
    assert_eq!(bytes, vec![9, 9]);
    assert_eq!(b.len(), 0);
    let f = Buffer::from_foreign(vec![4, 5]);
    assert_eq!(f.as_bytes().as_slice(), &[4, 5]);
}

#[test]
fn definition_and_graph_carry_bytes() {
    let d = Definition::new(vec![0, 1, 2]);
    assert_eq!(d.as_bytes().as_slice(), &[0, 1, 2]);
    assert_eq!(d.into_bytes(), vec![0, 1, 2]);
    let g = Graph::new(vec![7]);
    assert_eq!(g.as_bytes().as_slice(), &[7]);
    assert_eq!(g.into_bytes(), vec![7]);
}

#[test]
fn code_from_raw_taxonomy() {
    assert_eq!(Code::from_raw(0), Code::OK);
    assert_eq!(Code::from_raw(1), Code::Cancelled);
    assert_eq!(Code::from_raw(2), Code::Unknown);
    assert_eq!(Code::from_raw(3), Code::InvalidArgument);
    assert_eq!(Code::from_raw(4), Code::DeadlineExceeded);
    assert_eq!(Code::from_raw(5), Code::NotFound);
    assert_eq!(Code::from_raw(6), Code::AlreadyExists);
    assert_eq!(Code::from_raw(7), Code::PermissionDenied);
    assert_eq!(Code::from_raw(8), Code::ResourceExhausted);
    assert_eq!(Code::from_raw(9), Code::FailedPrecondition);
    assert_eq!(Code::from_raw(10), Code::Aborted);
    assert_eq!(Code::from_raw(11), Code::OutOfRange);
    assert_eq!(Code::from_raw(12), Code::Unimplemented);
    assert_eq!(Code::from_raw(13), Code::Internal);
    assert_eq!(Code::from_raw(14), Code::Unavailable);
    assert_eq!(Code::from_raw(15), Code::DataLoss);
    assert_eq!(Code::from_raw(16), Code::Unauthenticated);
    assert_eq!(Code::from_raw(999), Code::Unknown);
}

#[test]
fn type_codes_round_trip() {
    let all = [
        Type::Bool,
        Type::Half,
        Type::Float,
        Type::Double,
        Type::Complex64,
        Type::Complex128,
        Type::Int8,
        Type::Int16,
        Type::Int32,
        Type::Int64,
        Type::QInt8,
        Type::QInt16,
        Type::QInt32,
        Type::QUInt8,
        Type::QUInt16,
        Type::UInt8,
        Type::UInt16,
        Type::Text,
        Type::BFloat16,
    ];
    for t in all {
        assert_eq!(Type::from_code(t.code()), Some(t));
    }
    assert_eq!(Type::from_code(0), None);
    assert_eq!(Type::from_code(42), None);
    assert_eq!(Type::Float.code(), 1);
    assert_eq!(Type::Double.code(), 2);
    assert_eq!(Type::Text.code(), 7);
}

#[test]
fn status_channel_translation() {
    let mut st = Status::new();
    assert_eq!(st.code, Code::OK);
    assert!(Error::current(&st).is_none());
    st.record(EngineStatus { code: 5, message: String::from("no such node") });
    assert_eq!(st.code, Code::NotFound);
    let err = Error::current(&st).unwrap();
    assert_eq!(
        err,
        Error::EngineFailure { code: Code::NotFound, message: String::from("no such node") }
    );
    // the channel is a single slot: the next call overwrites it
    st.record(EngineStatus::ok());
    assert!(Error::current(&st).is_none());
}

#[test]
fn error_labels() {
    assert_eq!(Error::NotReady.label(), "not ready");
    assert_eq!(Error::AllocationFailure.label(), "allocation failure");
    assert_eq!(
        Error::TypeMismatch { expected: Type::Float, actual: Type::Double }.label(),
        "type mismatch"
    );
}

#[test]
fn float_carriers_preserve_bits() {
    let x = Float32 { bits: 1.5f32.to_bits() };
    assert_eq!(f32::from_bits(x.bits), 1.5);
    let y = Float64 { bits: (-0.25f64).to_bits() };
    assert_eq!(f64::from_bits(y.bits), -0.25);
}

#[test]
fn name_bytes_terminates() {
    assert_eq!(tensorflux::name_bytes("ab"), vec![97, 98, 0]);
    assert_eq!(tensorflux::name_bytes(""), vec![0]);
    assert_eq!(tensorflux::name_bytes("c:0"), vec![99, 58, 48, 0]);
}
