use printnanny_nats::decimal::IntErrorKind;
use printnanny_nats::tensor::{
    parse_tensor_names, parse_tensor_shape, parse_tensor_shapes, parse_tensor_type,
    parse_tensor_types, TensorError, TensorType,
};

#[test]
fn test_parse_tensor_shapes() {
    let shapes = "4:40:1:1,40:1:1:1,40:1:1:1,1:1:1:1";

    let result = parse_tensor_shapes(shapes).unwrap();
    assert_eq!(
        result,
        (
            4,
            vec![
                vec![4, 40, 1, 1],
                vec![40, 1, 1, 1],
                vec![40, 1, 1, 1],
                vec![1, 1, 1, 1]
            ]
        )
    )
}

#[test]
fn test_parse_tensor_types() {
    let types = "float32,float64,int32,int64";

    let result = parse_tensor_types(types).unwrap();
    assert_eq!(
        result,
        vec![
            TensorType::Float32,
            TensorType::Float64,
            TensorType::Int32,
            TensorType::Int64
        ]
    )
}

#[test]
fn parse_tensor_type_reads_boolean() {
    assert_eq!(parse_tensor_type("boolean"), TensorType::Boolean);
}

#[test]
fn parse_tensor_shape_single_dimension() {
    assert_eq!(parse_tensor_shape("40").unwrap(), vec![40]);
    assert_eq!(parse_tensor_shape("+7:0").unwrap(), vec![7, 0]);
}

#[test]
fn parse_tensor_shape_empty_dimension_is_empty_error() {
    let e = parse_tensor_shape("4::1").unwrap_err();
    assert_eq!(e.kind(), IntErrorKind::Empty);
    let e = parse_tensor_shape("").unwrap_err();
    assert_eq!(e.kind, IntErrorKind::Empty);
}

#[test]
fn parse_tensor_shape_reports_first_error_from_left() {
    let e = parse_tensor_shape("4:x:99999999999").unwrap_err();
    assert_eq!(e.kind, IntErrorKind::InvalidDigit);
    let e = parse_tensor_shape("4:99999999999:x").unwrap_err();
    assert_eq!(e.kind, IntErrorKind::PosOverflow);
    let e = parse_tensor_shape("-1").unwrap_err();
    assert_eq!(e.kind, IntErrorKind::InvalidDigit);
    assert_eq!(parse_tensor_shape("4294967295").unwrap(), vec![4294967295]);
    assert_eq!(
        parse_tensor_shape("4294967296").unwrap_err().kind,
        IntErrorKind::PosOverflow
    );
}

#[test]
fn parse_tensor_shapes_wraps_int_error() {
    match parse_tensor_shapes("4:40,4:a") {
        Err(TensorError::ParseIntError { source }) => {
            assert_eq!(source.kind, IntErrorKind::InvalidDigit)
        }
        _ => panic!("expected a ParseIntError"),
    }
}

#[test]
fn parse_tensor_shapes_of_empty_text_fails_on_empty_dimension() {
    match parse_tensor_shapes("") {
        Err(TensorError::ParseIntError { source }) => {
            assert_eq!(source.kind, IntErrorKind::Empty)
        }
        _ => panic!("expected a ParseIntError"),
    }
}

#[test]
fn parse_tensor_names_splits_on_commas() {
    assert_eq!(
        parse_tensor_names("boxes,classes,,scores"),
        vec![
            "boxes".to_string(),
            "classes".to_string(),
            "".to_string(),
            "scores".to_string()
        ]
    );
    assert_eq!(parse_tensor_names(""), vec!["".to_string()]);
}

#[test]
fn tensor_error_messages() {
    let e = TensorError::InvalidType {
        tensor_types: "x".to_string(),
    };
    assert_eq!(e.message(), "Failed to parse tensor types: x");
    let e = TensorError::TensorLength {
        tensor_shapes: "a".to_string(),
        tensor_types: "b".to_string(),
        tensor_names: "c".to_string(),
    };
    assert_eq!(
        e.message(),
        "Expected tensor_shapes=a, tensor_types=b, tensor_names=c to be the same length."
    );
}

#[test]
fn parse_tensor_shapes_reads_each_piece_as_a_shape() {
    let (n, shapes) = parse_tensor_shapes("4:40:1:1,7,0:+3").unwrap();
    assert_eq!(n, 3);
    for (i, piece) in "4:40:1:1,7,0:+3".split(',').enumerate() {
        assert_eq!(Ok(shapes[i].clone()), parse_tensor_shape(piece));
    }
    assert!(parse_tensor_shapes("").is_err());
    match parse_tensor_shapes("4:40:1:1,4:x") {
        Err(TensorError::ParseIntError { source }) => {
            assert_eq!(source.kind, IntErrorKind::InvalidDigit)
        }
        _ => panic!("expected a ParseIntError"),
    }
}

#[test]
fn decimal_shape_reads_back() {
    for dims in [vec![4u32, 40, 1, 1], vec![0], vec![4294967295, 10, 100]] {
        let text = dims.iter().map(|d| d.to_string()).collect::<Vec<_>>().join(":");
        assert_eq!(parse_tensor_shape(&text).unwrap(), dims);
    }
    assert!(parse_tensor_shape("40::4").is_err());
}

#[test]
fn tensor_names_join_back() {
    for s in ["a,b,c", "", ",x,", "single"] {
        let names = parse_tensor_names(s);
        assert!(!names.is_empty());
        assert_eq!(names.len(), s.split(',').count());
        assert_eq!(names.join(","), s);
        assert!(names.iter().all(|n| !n.contains(',')));
    }
}
