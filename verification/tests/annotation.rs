use enum_from_variant::annotation::{
    declared_names, first_empty_name, get_attributes, is_text_list, AnnotationBinding,
};
use enum_from_variant::error::GenerationError;
use enum_from_variant::metadata::{MetaBlock, MetaItem};
use enum_from_variant::schema::{PayloadShape, VariantSpec};

fn text(value: &str) -> MetaItem {
    MetaItem::Text(value.to_string())
}

fn variant(name: &str, payload: PayloadShape, annotation: Option<MetaBlock>) -> VariantSpec {
    VariantSpec { name: name.to_string(), payload, annotation }
}

#[test]
fn binding_carries_names_in_declared_order() {
    let v = variant(
        "Io",
        PayloadShape::SinglePositionalField("String".to_string()),
        Some(MetaBlock::List(vec![text("DiskFault"), text("NetFault"), text("AuthFault")])),
    );
    assert_eq!(
        get_attributes(&v),
        Ok(AnnotationBinding {
            variant: "Io".to_string(),
            sources: vec![
                "DiskFault".to_string(),
                "NetFault".to_string(),
                "AuthFault".to_string()
            ],
            payload_type: Some("String".to_string()),
        })
    );
}

#[test]
fn binding_of_variant_without_payload_has_no_payload_type() {
    let v = variant("Gone", PayloadShape::NoPayload, Some(MetaBlock::List(vec![text("Lost")])));
    assert_eq!(
        get_attributes(&v),
        Ok(AnnotationBinding {
            variant: "Gone".to_string(),
            sources: vec!["Lost".to_string()],
            payload_type: None,
        })
    );
}

#[test]
fn repeated_names_are_kept() {
    let v = variant(
        "Twice",
        PayloadShape::NoPayload,
        Some(MetaBlock::List(vec![text("Fault"), text("Fault")])),
    );
    let binding = get_attributes(&v).unwrap();
    assert_eq!(binding.sources, vec!["Fault".to_string(), "Fault".to_string()]);
}

#[test]
fn empty_list_gives_a_binding_without_names() {
    let v = variant("Quiet", PayloadShape::NoPayload, Some(MetaBlock::List(vec![])));
    assert_eq!(
        get_attributes(&v),
        Ok(AnnotationBinding {
            variant: "Quiet".to_string(),
            sources: vec![],
            payload_type: None,
        })
    );
}

#[test]
fn list_with_empty_literal_is_an_empty_source_name() {
    let v = variant("Blank", PayloadShape::NoPayload, Some(MetaBlock::List(vec![text("")])));
    assert_eq!(
        get_attributes(&v),
        Err(GenerationError::EmptySourceName { variant: "Blank".to_string(), position: 0 })
    );
}

#[test]
fn empty_literal_among_names_is_an_empty_source_name() {
    let v = variant(
        "Mixed",
        PayloadShape::NoPayload,
        Some(MetaBlock::List(vec![text("Fault"), text(""), text("Other")])),
    );
    assert_eq!(
        get_attributes(&v),
        Err(GenerationError::EmptySourceName { variant: "Mixed".to_string(), position: 1 })
    );
}

#[test]
fn missing_block_is_a_missing_annotation() {
    let v = variant("Bare", PayloadShape::SinglePositionalField("String".to_string()), None);
    assert_eq!(
        get_attributes(&v),
        Err(GenerationError::MissingAnnotation { variant: "Bare".to_string() })
    );
}

#[test]
fn bare_name_block_is_a_malformed_annotation() {
    let v = variant("Flag", PayloadShape::NoPayload, Some(MetaBlock::Path));
    assert_eq!(
        get_attributes(&v),
        Err(GenerationError::MalformedAnnotation { variant: "Flag".to_string() })
    );
}

#[test]
fn name_value_block_is_a_malformed_annotation() {
    let v = variant("Doc", PayloadShape::NoPayload, Some(MetaBlock::NameValue));
    assert_eq!(
        get_attributes(&v),
        Err(GenerationError::MalformedAnnotation { variant: "Doc".to_string() })
    );
}

#[test]
fn list_with_a_non_literal_is_a_malformed_annotation() {
    let v = variant(
        "Odd",
        PayloadShape::NoPayload,
        Some(MetaBlock::List(vec![text("Fault"), MetaItem::Other])),
    );
    assert_eq!(
        get_attributes(&v),
        Err(GenerationError::MalformedAnnotation { variant: "Odd".to_string() })
    );
}

#[test]
fn malformed_list_comes_before_empty_source_name() {
    let v = variant(
        "Both",
        PayloadShape::NoPayload,
        Some(MetaBlock::List(vec![text(""), MetaItem::Other])),
    );
    assert_eq!(
        get_attributes(&v),
        Err(GenerationError::MalformedAnnotation { variant: "Both".to_string() })
    );
}

#[test]
fn text_list_check_sees_every_item() {
    assert!(is_text_list(&vec![]));
    assert!(is_text_list(&vec![text("A"), text("")]));
    assert!(!is_text_list(&vec![text("A"), MetaItem::Other]));
    assert!(!is_text_list(&vec![MetaItem::Other, text("A")]));
}

#[test]
fn first_empty_name_is_found_at_its_position() {
    assert_eq!(first_empty_name(&vec![]), None);
    assert_eq!(first_empty_name(&vec![text("A"), MetaItem::Other]), None);
    assert_eq!(first_empty_name(&vec![text("A"), text("")]), Some(1));
    assert_eq!(first_empty_name(&vec![text(""), text("A")]), Some(0));
    assert_eq!(first_empty_name(&vec![text("A"), text(""), text("B"), text("")]), Some(1));
    assert_eq!(first_empty_name(&vec![MetaItem::Other, MetaItem::Other, text("")]), Some(2));
}

#[test]
fn later_empty_literals_do_not_change_the_position() {
    let v = variant(
        "Many",
        PayloadShape::NoPayload,
        Some(MetaBlock::List(vec![text("A"), text("B"), text(""), text(""), text("C")])),
    );
    assert_eq!(
        get_attributes(&v),
        Err(GenerationError::EmptySourceName { variant: "Many".to_string(), position: 2 })
    );
}

#[test]
fn declared_names_are_the_texts_in_order() {
    assert_eq!(declared_names(&vec![]), Vec::<String>::new());
    assert_eq!(
        declared_names(&vec![text("A"), text("B")]),
        vec!["A".to_string(), "B".to_string()]
    );
    assert_eq!(
        declared_names(&vec![text("A"), MetaItem::Other]),
        vec!["A".to_string(), String::new()]
    );
}

#[test]
fn payload_type_identifier_of_each_shape() {
    assert_eq!(PayloadShape::NoPayload.type_identifier(), None);
    assert_eq!(
        PayloadShape::SinglePositionalField("StoreFault".to_string()).type_identifier(),
        Some("StoreFault".to_string())
    );
}
