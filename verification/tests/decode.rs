use ffi_decode::decode::decode_step;
use ffi_decode::decode::expose_bytes;
use ffi_decode::decode::finish_byte_array;
use ffi_decode::decode::finish_cstring;
use ffi_decode::decode::finish_double_array;
use ffi_decode::decode::finish_external_array;
use ffi_decode::decode::finish_i32_array;
use ffi_decode::decode::finish_string_array;
use ffi_decode::decode::finish_struct;
use ffi_decode::decode::DecodeStep;
use ffi_decode::decode::ReadRequest;
use ffi_decode::decoded::Decoded;
use ffi_decode::decoded::FatalError;
use ffi_decode::decoded::Handle;
use ffi_decode::shape::CompositeShape;
use ffi_decode::shape::Shape;
use ffi_decode::tags::element_kind_of_tag;
use ffi_decode::tags::scalar_kind_of_tag;
use ffi_decode::tags::ElementKind;
use ffi_decode::tags::ScalarKind;
use ffi_decode::tags::TAG_BOOLEAN;
use ffi_decode::tags::TAG_DOUBLE;
use ffi_decode::tags::TAG_DOUBLE_ARRAY;
use ffi_decode::tags::TAG_EXTERNAL;
use ffi_decode::tags::TAG_EXTERNAL_ARRAY;
use ffi_decode::tags::TAG_I32;
use ffi_decode::tags::TAG_I32_ARRAY;
use ffi_decode::tags::TAG_I64;
use ffi_decode::tags::TAG_STRING;
use ffi_decode::tags::TAG_STRING_ARRAY;
use ffi_decode::tags::TAG_U8;
use ffi_decode::tags::TAG_U8_ARRAY;
use ffi_decode::tags::TAG_U64;
use ffi_decode::tags::TAG_VOID;

fn array_shape(len: i32, element_tag: i32) -> Shape {
    Shape::Composite(CompositeShape {
        array_len: Some(len),
        element_tag: Some(element_tag),
        fields: Vec::new(),
    })
}

#[test]
fn scalar_tags_resolve() {
    assert_eq!(scalar_kind_of_tag(TAG_U8), Some(ScalarKind::U8));
    assert_eq!(scalar_kind_of_tag(TAG_I32), Some(ScalarKind::I32));
    assert_eq!(scalar_kind_of_tag(TAG_I64), Some(ScalarKind::I64));
    assert_eq!(scalar_kind_of_tag(TAG_U64), Some(ScalarKind::U64));
    assert_eq!(scalar_kind_of_tag(TAG_BOOLEAN), Some(ScalarKind::Boolean));
    assert_eq!(scalar_kind_of_tag(TAG_STRING), Some(ScalarKind::Str));
    assert_eq!(scalar_kind_of_tag(TAG_EXTERNAL), Some(ScalarKind::External));
    assert_eq!(scalar_kind_of_tag(TAG_VOID), Some(ScalarKind::Void));
    assert_eq!(scalar_kind_of_tag(TAG_DOUBLE), Some(ScalarKind::Double));
    assert_eq!(scalar_kind_of_tag(-1), None);
    assert_eq!(scalar_kind_of_tag(999), None);
}

#[test]
fn element_tags_resolve() {
    assert_eq!(
        element_kind_of_tag(TAG_STRING_ARRAY),
        Some(ElementKind::StringArray)
    );
    assert_eq!(
        element_kind_of_tag(TAG_I32_ARRAY),
        Some(ElementKind::I32Array)
    );
    assert_eq!(element_kind_of_tag(TAG_U8_ARRAY), Some(ElementKind::U8Array));
    assert_eq!(
        element_kind_of_tag(TAG_DOUBLE_ARRAY),
        Some(ElementKind::DoubleArray)
    );
    assert_eq!(
        element_kind_of_tag(TAG_EXTERNAL_ARRAY),
        Some(ElementKind::ExternalArray)
    );
    assert_eq!(element_kind_of_tag(TAG_U8), None);
    assert_eq!(element_kind_of_tag(-1), None);
}

#[test]
fn scalar_u8_truncates_word() {
    let r = decode_step(Shape::Scalar(TAG_U8), 0x0123, false);
    assert_eq!(r, Ok(DecodeStep::Done(Decoded::U8(0x23))));
    let r = decode_step(Shape::Scalar(TAG_U8), 0xff, false);
    assert_eq!(r, Ok(DecodeStep::Done(Decoded::U8(0xff))));
}

#[test]
fn scalar_i32_truncates_word() {
    let r = decode_step(Shape::Scalar(TAG_I32), 0xffff_ffff, false);
    assert_eq!(r, Ok(DecodeStep::Done(Decoded::I32(-1))));
    let r = decode_step(Shape::Scalar(TAG_I32), 1000, false);
    assert_eq!(r, Ok(DecodeStep::Done(Decoded::I32(1000))));
}

#[test]
fn scalar_i64_reinterprets_word() {
    let r = decode_step(Shape::Scalar(TAG_I64), u64::MAX, false);
    assert_eq!(r, Ok(DecodeStep::Done(Decoded::I64(-1))));
    let r = decode_step(Shape::Scalar(TAG_I64), 7, false);
    assert_eq!(r, Ok(DecodeStep::Done(Decoded::I64(7))));
}

#[test]
fn scalar_u64_is_word() {
    let r = decode_step(Shape::Scalar(TAG_U64), u64::MAX, false);
    assert_eq!(r, Ok(DecodeStep::Done(Decoded::U64(u64::MAX))));
}

#[test]
fn scalar_boolean_truthiness() {
    let r = decode_step(Shape::Scalar(TAG_BOOLEAN), 0, false);
    assert_eq!(r, Ok(DecodeStep::Done(Decoded::Boolean(false))));
    let r = decode_step(Shape::Scalar(TAG_BOOLEAN), 1, false);
    assert_eq!(r, Ok(DecodeStep::Done(Decoded::Boolean(true))));
    let r = decode_step(Shape::Scalar(TAG_BOOLEAN), 42, false);
    assert_eq!(r, Ok(DecodeStep::Done(Decoded::Boolean(true))));
}

#[test]
fn scalar_void_is_unit() {
    let r = decode_step(Shape::Scalar(TAG_VOID), 123, false);
    assert_eq!(r, Ok(DecodeStep::Done(Decoded::Void)));
}

#[test]
fn scalar_external_wraps_address() {
    let r = decode_step(Shape::Scalar(TAG_EXTERNAL), 0xdead_beef, false);
    assert_eq!(
        r,
        Ok(DecodeStep::Done(Decoded::External(Handle {
            addr: 0xdead_beef
        })))
    );
}

#[test]
fn scalar_string_requests_cstring_read() {
    let r = decode_step(Shape::Scalar(TAG_STRING), 0x1000, false);
    assert_eq!(r, Ok(DecodeStep::Read(ReadRequest::CString { addr: 0x1000 })));
}

#[test]
fn scalar_double_fails_fatally() {
    for raw in [0u64, 1, 42, u64::MAX] {
        let r = decode_step(Shape::Scalar(TAG_DOUBLE), raw, false);
        assert_eq!(r, Err(FatalError::UnsupportedDouble));
        let e = r.unwrap_err();
        assert!(e.is_unsupported());
    }
}

#[test]
fn unknown_scalar_tag_aborts() {
    let r = decode_step(Shape::Scalar(999), 0, false);
    assert_eq!(r, Err(FatalError::UnrecognizedScalarTag(999)));
    assert!(!r.unwrap_err().is_unsupported());
    let r = decode_step(Shape::Scalar(-7), 5, true);
    assert_eq!(r, Err(FatalError::UnrecognizedScalarTag(-7)));
}

#[test]
fn unknown_element_tag_aborts() {
    let r = decode_step(array_shape(4, 999), 0x2000, false);
    assert_eq!(r, Err(FatalError::UnrecognizedElementTag(999)));
}

#[test]
fn missing_element_tag_aborts() {
    let shape = Shape::Composite(CompositeShape {
        array_len: Some(4),
        element_tag: None,
        fields: Vec::new(),
    });
    let r = decode_step(shape, 0x2000, false);
    assert_eq!(r, Err(FatalError::MissingElementTag));
}

#[test]
fn i32_array_end_to_end() {
    let r = decode_step(array_shape(3, TAG_I32_ARRAY), 0x3000, false);
    assert_eq!(
        r,
        Ok(DecodeStep::Read(ReadRequest::I32Array {
            base: 0x3000,
            len: 3
        }))
    );
    let v = finish_i32_array(vec![7, -1, 1000]);
    assert_eq!(v, Decoded::I32Array(vec![7, -1, 1000]));
}

#[test]
fn string_array_end_to_end() {
    let r = decode_step(array_shape(2, TAG_STRING_ARRAY), 0x4000, false);
    assert_eq!(
        r,
        Ok(DecodeStep::Read(ReadRequest::StringArray {
            base: 0x4000,
            len: 2
        }))
    );
    let v = finish_string_array(vec![b"ab".to_vec(), b"".to_vec()]);
    assert_eq!(
        v,
        Decoded::StringArray(vec![String::from("ab"), String::from("")])
    );
}

#[test]
fn array_lengths_zero_one_many() {
    for (len, base) in [(0i32, 0x10u64), (1, 0x20), (100, 0x30)] {
        let r = decode_step(array_shape(len, TAG_I32_ARRAY), base, false);
        assert_eq!(
            r,
            Ok(DecodeStep::Read(ReadRequest::I32Array {
                base,
                len: len as usize
            }))
        );
    }
    assert_eq!(finish_i32_array(Vec::new()), Decoded::I32Array(Vec::new()));
    assert_eq!(finish_string_array(Vec::new()), Decoded::StringArray(Vec::new()));
}

#[test]
fn byte_array_carries_thread_safety_flag() {
    let r = decode_step(array_shape(5, TAG_U8_ARRAY), 0x5000, true);
    assert_eq!(
        r,
        Ok(DecodeStep::Read(ReadRequest::ByteArray {
            base: 0x5000,
            len: 5,
            need_thread_safe: true
        }))
    );
    let r = decode_step(array_shape(5, TAG_U8_ARRAY), 0x5000, false);
    assert_eq!(
        r,
        Ok(DecodeStep::Read(ReadRequest::ByteArray {
            base: 0x5000,
            len: 5,
            need_thread_safe: false
        }))
    );
}

#[test]
fn thread_safe_bytes_are_copied() {
    let v = finish_byte_array(vec![1, 2, 3], true);
    assert_eq!(v, Decoded::BufferCopied(vec![1, 2, 3]));
    let v = expose_bytes(vec![9], true);
    assert_eq!(v, Decoded::BufferCopied(vec![9]));
}

#[test]
fn unsafe_thread_bytes_may_be_viewed() {
    let v = finish_byte_array(vec![1, 2, 3], false);
    assert_eq!(v, Decoded::BufferView(vec![1, 2, 3]));
    let v = expose_bytes(Vec::new(), false);
    assert_eq!(v, Decoded::BufferView(Vec::new()));
}

#[test]
fn double_array_keeps_bit_patterns() {
    let r = decode_step(array_shape(2, TAG_DOUBLE_ARRAY), 0x6000, false);
    assert_eq!(
        r,
        Ok(DecodeStep::Read(ReadRequest::DoubleArray {
            base: 0x6000,
            len: 2
        }))
    );
    let bits = vec![1.5f64.to_bits(), (-0.25f64).to_bits()];
    let v = finish_double_array(bits.clone());
    assert_eq!(v, Decoded::DoubleArray(bits.clone()));
    match v {
        Decoded::DoubleArray(b) => {
            assert_eq!(f64::from_bits(b[0]), 1.5);
            assert_eq!(f64::from_bits(b[1]), -0.25);
        }
        _ => panic!("wrong variant"),
    }
}

#[test]
fn external_array_wraps_each_address() {
    let r = decode_step(array_shape(2, TAG_EXTERNAL_ARRAY), 0x7000, false);
    assert_eq!(
        r,
        Ok(DecodeStep::Read(ReadRequest::ExternalArray {
            base: 0x7000,
            len: 2
        }))
    );
    let v = finish_external_array(vec![0x11, 0x22]);
    assert_eq!(
        v,
        Decoded::ExternalArray(vec![Handle { addr: 0x11 }, Handle { addr: 0x22 }])
    );
}

#[test]
fn cstring_decodes_utf8() {
    let v = finish_cstring(b"hello".to_vec());
    assert_eq!(v, Decoded::Str(String::from("hello")));
    let v = finish_cstring(Vec::new());
    assert_eq!(v, Decoded::Str(String::new()));
}

#[test]
fn cstring_substitutes_bad_bytes() {
    let v = finish_cstring(vec![0x61, 0xff, 0x62]);
    assert_eq!(v, Decoded::Str(String::from("a\u{fffd}b")));
}

#[test]
fn composite_without_metadata_hands_off_to_struct() {
    let fields = vec![
        (String::from("x"), Shape::Scalar(TAG_I32)),
        (String::from("s"), Shape::Scalar(TAG_STRING)),
    ];
    let shape = Shape::Composite(CompositeShape {
        array_len: None,
        element_tag: Some(TAG_I32_ARRAY),
        fields,
    });
    let r = decode_step(shape, 0x8000, true);
    match r {
        Ok(DecodeStep::Read(ReadRequest::Struct {
            base,
            fields,
            need_thread_safe,
        })) => {
            assert_eq!(base, 0x8000);
            assert!(need_thread_safe);
            assert_eq!(fields.len(), 2);
            assert_eq!(fields[0].0, "x");
            assert_eq!(fields[0].1, Shape::Scalar(TAG_I32));
            assert_eq!(fields[1].0, "s");
            assert_eq!(fields[1].1, Shape::Scalar(TAG_STRING));
        }
        other => panic!("expected struct handoff, got {:?}", other),
    }
}

#[test]
fn struct_handoff_propagates_flag_unchanged() {
    for flag in [false, true] {
        let shape = Shape::Composite(CompositeShape {
            array_len: None,
            element_tag: None,
            fields: Vec::new(),
        });
        let r = decode_step(shape, 0x9000, flag);
        match r {
            Ok(DecodeStep::Read(ReadRequest::Struct {
                need_thread_safe, ..
            })) => assert_eq!(need_thread_safe, flag),
            other => panic!("expected struct handoff, got {:?}", other),
        }
    }
}

#[test]
fn finish_struct_wraps_fields() {
    let fields = vec![
        (String::from("n"), Decoded::I32(7)),
        (String::from("b"), Decoded::Boolean(true)),
    ];
    let v = finish_struct(fields);
    match v {
        Decoded::Object(fs) => {
            assert_eq!(fs.len(), 2);
            assert_eq!(fs[0], (String::from("n"), Decoded::I32(7)));
            assert_eq!(fs[1], (String::from("b"), Decoded::Boolean(true)));
        }
        _ => panic!("wrong variant"),
    }
}
