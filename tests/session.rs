use onnxruntime::{
    check_dimensions_count, check_element_type, check_io_count, check_output_type, check_status, decode_dimensions,
    output_shape, status_to_result, validate_input_shapes, AllocatorType, ApiCall, BuilderSettings,
    Input, MemType, NonMatchingDimensionsError, OrtApiError, OrtError,
    Output, TensorElementDataType,
};

fn input(dimensions: Vec<Option<u32>>) -> Input {
    Input {
        name: "x".to_owned(),
        input_type: TensorElementDataType::Float,
        dimensions,
    }
}

#[test]
fn input_dimensions_widen_each_entry() {
    let i = input(vec![None, Some(3), Some(224), Some(u32::MAX)]);
    assert_eq!(
        i.dimensions(),
        vec![None, Some(3usize), Some(224usize), Some(u32::MAX as usize)]
    );
}

#[test]
fn output_dimensions_widen_each_entry() {
    let o = Output {
        name: "y".to_owned(),
        output_type: TensorElementDataType::Int64,
        dimensions: vec![Some(1), None, Some(1000)],
    };
    assert_eq!(o.dimensions(), vec![Some(1usize), None, Some(1000usize)]);
    let empty = Output {
        name: "z".to_owned(),
        output_type: TensorElementDataType::Float,
        dimensions: vec![],
    };
    assert!(empty.dimensions().is_empty());
}

#[test]
fn validate_accepts_fitting_shapes() {
    let inputs = vec![input(vec![None, Some(3)]), input(vec![Some(2)])];
    let shapes = vec![vec![7, 3], vec![2]];
    assert!(validate_input_shapes(&shapes, &inputs).is_ok());
}

#[test]
fn validate_accepts_no_inputs() {
    assert!(validate_input_shapes(&vec![], &vec![]).is_ok());
}

#[test]
fn validate_reports_count_mismatch() {
    let inputs = vec![input(vec![Some(1), Some(3)])];
    let shapes = vec![vec![1, 3], vec![4]];
    match validate_input_shapes(&shapes, &inputs) {
        Err(OrtError::NonMatchingDimensions(NonMatchingDimensionsError::InputsCount {
            inference_input_count,
            model_input_count,
            inference_input,
            model_input,
        })) => {
            assert_eq!(inference_input_count, 2);
            assert_eq!(model_input_count, 1);
            assert_eq!(inference_input, shapes);
            assert_eq!(model_input, vec![vec![Some(1), Some(3)]]);
        }
        other => panic!("unexpected result: {:?}", other),
    }
}

#[test]
fn validate_reports_rank_mismatch() {
    let inputs = vec![input(vec![None, Some(3)])];
    let shapes = vec![vec![1, 3, 1]];
    match validate_input_shapes(&shapes, &inputs) {
        Err(OrtError::NonMatchingDimensions(NonMatchingDimensionsError::InputsLength {
            inference_input,
            model_input,
        })) => {
            assert_eq!(inference_input, shapes);
            assert_eq!(model_input, vec![vec![None, Some(3)]]);
        }
        other => panic!("unexpected result: {:?}", other),
    }
}

#[test]
fn validate_reports_fixed_dimension_mismatch() {
    let inputs = vec![input(vec![None, Some(3)]), input(vec![Some(5)])];
    let shapes = vec![vec![9, 3], vec![4]];
    match validate_input_shapes(&shapes, &inputs) {
        Err(OrtError::NonMatchingDimensions(NonMatchingDimensionsError::InputsLength {
            inference_input,
            model_input,
        })) => {
            assert_eq!(inference_input, shapes);
            assert_eq!(model_input, vec![vec![None, Some(3)], vec![Some(5)]]);
        }
        other => panic!("unexpected result: {:?}", other),
    }
}

#[test]
fn status_translation() {
    assert!(status_to_result(None).is_ok());
    match status_to_result(Some("bad model".to_owned())) {
        Err(OrtApiError::Msg(m)) => assert_eq!(m, "bad model"),
        other => panic!("unexpected result: {:?}", other),
    }
    assert!(check_status(ApiCall::Run, None).is_ok());
    match check_status(ApiCall::Run, Some("run failed".to_owned())) {
        Err(OrtError::Api(ApiCall::Run, OrtApiError::Msg(m))) => assert_eq!(m, "run failed"),
        other => panic!("unexpected result: {:?}", other),
    }
}

#[test]
fn io_count_decisions() {
    assert_eq!(check_io_count(None, 3).unwrap(), 3);
    match check_io_count(None, 0) {
        Err(OrtError::Api(ApiCall::InOutCount, OrtApiError::Msg(m))) => {
            assert_eq!(m, "No nodes in model")
        }
        other => panic!("unexpected result: {:?}", other),
    }
    match check_io_count(Some("oops".to_owned()), 3) {
        Err(OrtError::Api(ApiCall::InOutCount, OrtApiError::Msg(m))) => assert_eq!(m, "oops"),
        other => panic!("unexpected result: {:?}", other),
    }
}

#[test]
fn dimensions_count_decisions() {
    assert_eq!(check_dimensions_count(None, 4).unwrap(), 4);
    assert!(matches!(
        check_dimensions_count(None, 0),
        Err(OrtError::InvalidDimensions)
    ));
    match check_dimensions_count(Some("no shape".to_owned()), 4) {
        Err(OrtError::Api(ApiCall::GetDimensionsCount, OrtApiError::Msg(m))) => {
            assert_eq!(m, "no shape")
        }
        other => panic!("unexpected result: {:?}", other),
    }
}

#[test]
fn element_type_decisions() {
    assert_eq!(check_element_type(None, 1).unwrap(), TensorElementDataType::Float);
    assert_eq!(check_element_type(None, 8).unwrap(), TensorElementDataType::String);
    assert_eq!(check_element_type(None, 13).unwrap(), TensorElementDataType::Uint64);
    assert!(matches!(
        check_element_type(None, 0),
        Err(OrtError::UndefinedTensorElementType)
    ));
    assert!(matches!(
        check_element_type(None, 9),
        Err(OrtError::UnsupportedTensorElementType(9))
    ));
    assert!(matches!(
        check_element_type(Some("x".to_owned()), 1),
        Err(OrtError::Api(ApiCall::TensorElementType, OrtApiError::Msg(_)))
    ));
}

#[test]
fn element_type_codes_round_trip() {
    let all = [
        TensorElementDataType::Float,
        TensorElementDataType::Uint8,
        TensorElementDataType::Int8,
        TensorElementDataType::Uint16,
        TensorElementDataType::Int16,
        TensorElementDataType::Int32,
        TensorElementDataType::Int64,
        TensorElementDataType::String,
        TensorElementDataType::Double,
        TensorElementDataType::Uint32,
        TensorElementDataType::Uint64,
    ];
    for t in all {
        assert_eq!(TensorElementDataType::from_code(t.code()), Some(t));
    }
    assert_eq!(TensorElementDataType::Double.code(), 11);
    assert_eq!(TensorElementDataType::from_code(0), None);
    assert_eq!(TensorElementDataType::from_code(16), None);
}

#[test]
fn raw_dimensions_decode() {
    assert_eq!(
        decode_dimensions(&vec![-1, 1, 3, 224]),
        vec![None, Some(1), Some(3), Some(224)]
    );
    assert!(decode_dimensions(&vec![]).is_empty());
    assert_eq!(output_shape(&vec![1, 1000]), vec![1usize, 1000usize]);
}

#[test]
fn builder_settings() {
    let s = BuilderSettings::new();
    assert_eq!(s.allocator, AllocatorType::Arena);
    assert_eq!(s.memory_type, MemType::Default);
    let s = s.with_allocator(AllocatorType::Device);
    assert_eq!(s.allocator, AllocatorType::Device);
    assert_eq!(s.memory_type, MemType::Default);
    let s = s.with_memory_type(MemType::CPUInput);
    assert_eq!(s.allocator, AllocatorType::Device);
    assert_eq!(s.memory_type, MemType::CPUInput);
}

#[test]
fn output_type_check() {
    assert!(check_output_type(TensorElementDataType::Float, TensorElementDataType::Float).is_ok());
    match check_output_type(TensorElementDataType::Int64, TensorElementDataType::Float) {
        Err(OrtError::NonMatchingElementType { produced, requested }) => {
            assert_eq!(produced, TensorElementDataType::Int64);
            assert_eq!(requested, TensorElementDataType::Float);
        }
        other => panic!("unexpected result: {:?}", other),
    }
}
