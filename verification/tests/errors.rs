use enum_from_variant::error::GenerationError;

#[test]
fn message_of_malformed_declaration() {
    assert_eq!(
        GenerationError::MalformedDeclaration.message(),
        "conversions can only be generated for an enum"
    );
}

#[test]
fn message_of_missing_annotation_names_the_variant() {
    let e = GenerationError::MissingAnnotation { variant: "Unreachable".to_string() };
    assert_eq!(e.message(), "variant `Unreachable` has no conversion annotation");
}

#[test]
fn message_of_malformed_annotation_names_the_variant() {
    let e = GenerationError::MalformedAnnotation { variant: "Flag".to_string() };
    assert_eq!(
        e.message(),
        "variant `Flag` has an annotation that is not a list of string literals"
    );
}

#[test]
fn message_of_empty_source_name_names_the_variant() {
    let e = GenerationError::EmptySourceName { variant: "Blank".to_string(), position: 3 };
    assert_eq!(e.message(), "variant `Blank` declares an empty source type name");
}

#[test]
fn message_of_unsupported_shape_names_the_variant() {
    let e = GenerationError::UnsupportedPayloadShape { variant: "Record".to_string() };
    assert_eq!(e.message(), "variant `Record` has named fields or more than one field");
}

#[test]
fn message_with_an_empty_variant_name() {
    let e = GenerationError::MissingAnnotation { variant: String::new() };
    assert_eq!(e.message(), "variant `` has no conversion annotation");
}

#[test]
fn error_clone_is_equal() {
    let errors = vec![
        GenerationError::MalformedDeclaration,
        GenerationError::MissingAnnotation { variant: "A".to_string() },
        GenerationError::MalformedAnnotation { variant: "B".to_string() },
        GenerationError::EmptySourceName { variant: "C".to_string(), position: 0 },
        GenerationError::UnsupportedPayloadShape { variant: "D".to_string() },
    ];
    for e in &errors {
        assert_eq!(&e.clone(), e);
    }
    assert_ne!(errors[1], errors[2]);
    assert_ne!(
        GenerationError::MissingAnnotation { variant: "A".to_string() },
        GenerationError::MissingAnnotation { variant: "B".to_string() }
    );
    assert_ne!(
        GenerationError::EmptySourceName { variant: "A".to_string(), position: 0 },
        GenerationError::EmptySourceName { variant: "A".to_string(), position: 1 }
    );
}
