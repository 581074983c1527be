use enum_from_variant::classify::PayloadClassification;
use enum_from_variant::declaration::{AttributeDecl, Declaration, FieldsDecl, TypeDecl, VariantDecl};
use enum_from_variant::emit::ConversionSpec;
use enum_from_variant::error::GenerationError;
use enum_from_variant::metadata::{MetaBlock, MetaItem};
use enum_from_variant::reader::read_declaration;
use enum_from_variant::schema::PayloadShape;

fn item_of(item: &syn::NestedMeta) -> MetaItem {
    match item {
        syn::NestedMeta::Lit(syn::Lit::Str(literal)) => MetaItem::Text(literal.value()),
        _ => MetaItem::Other,
    }
}

fn attribute_of(attribute: &syn::Attribute) -> AttributeDecl {
    match attribute.parse_meta() {
        Ok(syn::Meta::Path(_)) => AttributeDecl::Meta(MetaBlock::Path),
        Ok(syn::Meta::NameValue(_)) => AttributeDecl::Meta(MetaBlock::NameValue),
        Ok(syn::Meta::List(list)) => {
            AttributeDecl::Meta(MetaBlock::List(list.nested.iter().map(item_of).collect()))
        }
        Err(_) => AttributeDecl::Unparsed,
    }
}

fn kind_of(ty: &syn::Type) -> TypeDecl {
    match ty {
        syn::Type::Path(path) => TypeDecl::Path(
            path.path.segments.iter().map(|segment| segment.ident.to_string()).collect(),
        ),
        _ => TypeDecl::Other,
    }
}

fn fields_of(fields: &syn::Fields) -> FieldsDecl {
    match fields {
        syn::Fields::Unit => FieldsDecl::Unit,
        syn::Fields::Unnamed(fields) => {
            FieldsDecl::Unnamed(fields.unnamed.iter().map(|field| kind_of(&field.ty)).collect())
        }
        syn::Fields::Named(_) => FieldsDecl::Named,
    }
}

fn variant_of(variant: &syn::Variant) -> VariantDecl {
    VariantDecl {
        name: variant.ident.to_string(),
        fields: fields_of(&variant.fields),
        attributes: variant.attrs.iter().map(attribute_of).collect(),
    }
}

fn declaration_of(source: &str) -> Declaration {
    let ast: syn::DeriveInput = syn::parse_str(source).expect("the source is a declaration");
    let name = ast.ident.to_string();
    match &ast.data {
        syn::Data::Enum(data) => Declaration::Enum {
            name,
            variants: data.variants.iter().map(variant_of).collect(),
        },
        syn::Data::Struct(_) => Declaration::Struct { name },
        syn::Data::Union(_) => Declaration::Union { name },
    }
}

fn conversions_of(source: &str) -> Result<Vec<ConversionSpec>, GenerationError> {
    enum_from_variant::pipeline::derive(&declaration_of(source))
}

fn spec(source: &str, variant: &str, classification: PayloadClassification) -> ConversionSpec {
    ConversionSpec { source: source.to_string(), variant: variant.to_string(), classification }
}

#[test]
fn aggregated_error_from_its_source() {
    let source = r#"
        pub enum MainError {
            #[enum_from_variant("NetworkError")]
            Network(String),
            #[enum_from_variant("DatabaseError")]
            Database(DatabaseError),
        }
    "#;
    assert_eq!(
        conversions_of(source),
        Ok(vec![
            spec("NetworkError", "Network", PayloadClassification::PlainText),
            spec("DatabaseError", "Database", PayloadClassification::NamedType),
        ])
    );
}

#[test]
fn several_names_on_one_variant_from_source() {
    let source = r#"
        enum Failure {
            #[absorbs("DiskFault", "NetFault", "AuthFault")]
            Io(String),
        }
    "#;
    assert_eq!(
        conversions_of(source),
        Ok(vec![
            spec("DiskFault", "Io", PayloadClassification::PlainText),
            spec("NetFault", "Io", PayloadClassification::PlainText),
            spec("AuthFault", "Io", PayloadClassification::PlainText),
        ])
    );
}

#[test]
fn unit_variant_from_source_is_absent() {
    let source = r#"enum Failure { #[absorbs("Lost")] Gone }"#;
    assert_eq!(
        conversions_of(source),
        Ok(vec![spec("Lost", "Gone", PayloadClassification::Absent)])
    );
}

#[test]
fn leading_segment_of_a_qualified_type_from_source() {
    let source = r#"enum Failure { #[absorbs("Fault")] Io(std::string::String) }"#;
    let schema = read_declaration(&declaration_of(source)).unwrap();
    assert_eq!(schema.variants[0].payload, PayloadShape::SinglePositionalField("std".to_string()));
    assert_eq!(
        conversions_of(source),
        Ok(vec![spec("Fault", "Io", PayloadClassification::NamedType)])
    );
}

#[test]
fn generic_payload_type_from_source_is_named_by_its_head() {
    let source = r#"enum Failure { #[absorbs("Fault")] Many(Vec<String>) }"#;
    let schema = read_declaration(&declaration_of(source)).unwrap();
    assert_eq!(schema.variants[0].payload, PayloadShape::SinglePositionalField("Vec".to_string()));
}

#[test]
fn alias_of_the_text_type_from_source_is_a_named_type() {
    let source = r#"enum Failure { #[absorbs("Fault")] Io(Text) }"#;
    assert_eq!(
        conversions_of(source),
        Ok(vec![spec("Fault", "Io", PayloadClassification::NamedType)])
    );
}

#[test]
fn payload_that_is_no_path_from_source_is_absent() {
    for payload in ["&'static str", "(String)", "(u8, u8)", "[u8; 4]"] {
        let source = format!("enum Failure {{ #[absorbs(\"Fault\")] Io({payload}) }}");
        assert_eq!(
            conversions_of(&source),
            Ok(vec![spec("Fault", "Io", PayloadClassification::Absent)]),
            "{payload}"
        );
    }
}

#[test]
fn empty_list_from_source_declares_nothing() {
    let source = r#"enum Failure { #[absorbs()] Quiet(String) }"#;
    assert_eq!(conversions_of(source), Ok(vec![]));
}

#[test]
fn empty_literal_from_source_is_an_empty_source_name() {
    let source = r#"enum Failure { #[absorbs("")] Blank(String) }"#;
    assert_eq!(
        conversions_of(source),
        Err(GenerationError::EmptySourceName { variant: "Blank".to_string(), position: 0 })
    );
}

#[test]
fn raw_empty_literal_from_source_is_an_empty_source_name() {
    let source = "enum Failure { #[absorbs(\"A\", r\"\")] Blank(String) }";
    assert_eq!(
        conversions_of(source),
        Err(GenerationError::EmptySourceName { variant: "Blank".to_string(), position: 1 })
    );
}

#[test]
fn escaped_literal_from_source_denotes_its_value() {
    let source = r#"enum Failure { #[absorbs("Net\x46ault")] Io(String) }"#;
    assert_eq!(
        conversions_of(source),
        Ok(vec![spec("NetFault", "Io", PayloadClassification::PlainText)])
    );
}

#[test]
fn unannotated_variant_from_source_fails_the_run() {
    let source = r#"
        enum Outcome {
            #[absorbs("NetworkFault")]
            FromNetwork(String),
            Unreachable,
        }
    "#;
    assert_eq!(
        conversions_of(source),
        Err(GenerationError::MissingAnnotation { variant: "Unreachable".to_string() })
    );
}

#[test]
fn bare_and_valued_attributes_from_source_are_malformed() {
    let bare = r#"enum Failure { #[absorbs] Io(String) }"#;
    assert_eq!(
        conversions_of(bare),
        Err(GenerationError::MalformedAnnotation { variant: "Io".to_string() })
    );
    let valued = r#"enum Failure { #[absorbs = "Fault"] Io(String) }"#;
    assert_eq!(
        conversions_of(valued),
        Err(GenerationError::MalformedAnnotation { variant: "Io".to_string() })
    );
}

#[test]
fn list_of_other_items_from_source_is_malformed() {
    for list in ["Fault", "\"Fault\", Other", "1", "b\"Fault\"", "name = \"Fault\"", "'f'"] {
        let source = format!("enum Failure {{ #[absorbs({list})] Io(String) }}");
        assert_eq!(
            conversions_of(&source),
            Err(GenerationError::MalformedAnnotation { variant: "Io".to_string() }),
            "{list}"
        );
    }
}

#[test]
fn documentation_before_the_annotation_from_source_is_taken_for_it() {
    let source = r#"
        enum Failure {
            /// Input and output.
            #[absorbs("Fault")]
            Io(String),
        }
    "#;
    assert_eq!(
        conversions_of(source),
        Err(GenerationError::MalformedAnnotation { variant: "Io".to_string() })
    );
}

#[test]
fn attribute_that_does_not_read_as_metadata_from_source_is_passed_over() {
    let source = r#"
        enum Failure {
            #[layout(1 + 2)]
            #[absorbs("Fault")]
            Io(String),
        }
    "#;
    let declaration = declaration_of(source);
    match &declaration {
        Declaration::Enum { variants, .. } => {
            assert_eq!(variants[0].attributes[0], AttributeDecl::Unparsed);
        }
        _ => panic!("the source declares an enum"),
    }
    assert_eq!(
        conversions_of(source),
        Ok(vec![spec("Fault", "Io", PayloadClassification::PlainText)])
    );
}

#[test]
fn structure_and_union_from_source_are_malformed_declarations() {
    assert_eq!(
        conversions_of("struct Point { x: u8, y: u8 }"),
        Err(GenerationError::MalformedDeclaration)
    );
    assert_eq!(
        conversions_of("union Bits { a: u8, b: i8 }"),
        Err(GenerationError::MalformedDeclaration)
    );
}

#[test]
fn unsupported_shapes_from_source() {
    let named = r#"enum Failure { #[absorbs("Fault")] Io { code: u8 } }"#;
    assert_eq!(
        conversions_of(named),
        Err(GenerationError::UnsupportedPayloadShape { variant: "Io".to_string() })
    );
    let pair = r#"enum Failure { #[absorbs("Fault")] Io(String, u8) }"#;
    assert_eq!(
        conversions_of(pair),
        Err(GenerationError::UnsupportedPayloadShape { variant: "Io".to_string() })
    );
}

#[test]
fn empty_parentheses_from_source_are_no_payload() {
    let source = r#"enum Failure { #[absorbs("Fault")] Io() }"#;
    assert_eq!(
        conversions_of(source),
        Ok(vec![spec("Fault", "Io", PayloadClassification::Absent)])
    );
}
