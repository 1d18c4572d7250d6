use edi_parser::models::schema_engine::{
    customize_element_definition, customize_segment_schema, effective_schema_segments,
    CustomizationType, SchemaCustomization, SchemaEngine, SegmentRequirement,
    TradingPartnerAgreement, ValidationResultType,
};
use edi_parser::models::segment_definition::{
    ElementDataType, ElementDefinition, ElementRequirement, SegmentRegistry, X12Version,
};
use edi_parser::models::segment_validator::{SegmentValidator, ValidationErrorType};
use edi_parser::models::Segment;
use edi_parser::parsers::schema_validating_parser::{
    ParsingConfig, SchemaValidatingParser, ValidationLevel, ValidationStatus,
};
use edi_parser::utils::{parse_u32, trim_whitespace, u32_to_string};
use edi_parser::ValidatingSegmentParser;
use edi_parser::models::structured_segments::BegSegment;
use edi_parser::models::structured_segments::RefSegment;
use edi_parser::EdiError;
use edi_parser::models::Transaction;
use edi_parser::validation::{EdiValidator, StandardRules};

#[test]
fn test_schema_engine_creation() {
    let engine = SchemaEngine::new();

    assert!(engine
        .get_transaction_schema("850", &X12Version::V4010)
        .is_some());
    assert!(engine
        .get_transaction_schema("850", &X12Version::V5010)
        .is_some());
    assert!(engine
        .get_transaction_schema("850", &X12Version::V8010)
        .is_some());
}

#[test]
fn test_element_dictionary() {
    let engine = SchemaEngine::new();

    let element = engine.get_element_definition(98).unwrap();
    assert_eq!(element.element_id, 98);
    assert_eq!(element.name, "Entity Identifier Code");

    assert!(element.version_implementations.contains_key(&X12Version::V4010));
    assert!(element.version_implementations.contains_key(&X12Version::V5010));
    assert!(element.version_implementations.contains_key(&X12Version::V8010));
}

#[test]
fn test_transaction_structure_validation() {
    let engine = SchemaEngine::new();

    let segments = vec![
        "ST".to_string(),
        "BEG".to_string(),
        "PO1".to_string(),
        "SE".to_string(),
    ];

    let results = engine
        .validate_transaction_structure("850", &X12Version::V4010, &segments)
        .unwrap();

    let error_count = results
        .iter()
        .filter(|r| r.result_type == ValidationResultType::Error)
        .count();
    assert_eq!(error_count, 0);
}

#[test]
fn test_beg_segment_validation() {
    let validator = SegmentValidator::new(X12Version::V4010);

    let valid_segment = Segment::new(
        "BEG".to_string(),
        vec![
            "00".to_string(),
            "SA".to_string(),
            "PO-001".to_string(),
            "".to_string(),
            "20230101".to_string(),
        ],
    );

    let result = validator.validate_segment(&valid_segment);
    assert!(result.is_valid, "Valid BEG segment should pass validation");

    let invalid_segment = Segment::new(
        "BEG".to_string(),
        vec!["00".to_string(), "SA".to_string(), "PO-001".to_string()],
    );

    let result = validator.validate_segment(&invalid_segment);
    assert!(!result.is_valid, "Invalid BEG segment should fail validation");
    assert!(!result.errors.is_empty(), "Should have validation errors");
}

#[test]
fn test_element_length_validation() {
    let validator = SegmentValidator::new(X12Version::V4010);

    let segment = Segment::new(
        "BEG".to_string(),
        vec![
            "00".to_string(),
            "SA".to_string(),
            "A".repeat(25),
            "".to_string(),
            "20230101".to_string(),
        ],
    );

    let result = validator.validate_segment(&segment);
    assert!(!result.is_valid);
    assert!(result
        .errors
        .iter()
        .any(|e| matches!(e.error_type, ValidationErrorType::InvalidLength)));
}

#[test]
fn test_date_format_validation() {
    let validator = SegmentValidator::new(X12Version::V4010);

    let segment = Segment::new(
        "BEG".to_string(),
        vec![
            "00".to_string(),
            "SA".to_string(),
            "PO-001".to_string(),
            "".to_string(),
            "2023-01-01".to_string(),
        ],
    );

    let result = validator.validate_segment(&segment);
    assert!(!result.is_valid);
    assert!(result
        .errors
        .iter()
        .any(|e| matches!(e.error_type, ValidationErrorType::InvalidFormat)));
}

#[test]
fn test_beg_segment_creation() {
    let segment = Segment::new(
        "BEG".to_string(),
        vec![
            "00".to_string(),
            "SA".to_string(),
            "PO-001".to_string(),
            "".to_string(),
            "20230101".to_string(),
        ],
    );

    let beg = BegSegment::from_segment(&segment, X12Version::V4010).unwrap();
    assert_eq!(beg.transaction_set_purpose_code, "00");
    assert_eq!(beg.purchase_order_type_code, "SA");
    assert_eq!(beg.purchase_order_number, "PO-001");
    assert_eq!(beg.release_number, None);
    assert_eq!(beg.date, "20230101");

    let back_to_segment = beg.to_segment();
    assert_eq!(back_to_segment.id, "BEG");
    assert_eq!(back_to_segment.elements.len(), 5);
}

#[test]
fn test_ref_segment_creation() {
    let segment = Segment::new(
        "REF".to_string(),
        vec![
            "PO".to_string(),
            "ORDER123".to_string(),
            "Purchase Order Reference".to_string(),
        ],
    );

    let ref_seg = RefSegment::from_segment(&segment, X12Version::V4010).unwrap();
    assert_eq!(ref_seg.reference_identification_qualifier, "PO");
    assert_eq!(ref_seg.reference_identification, Some("ORDER123".to_string()));
    assert_eq!(
        ref_seg.description,
        Some("Purchase Order Reference".to_string())
    );

    let back_to_segment = ref_seg.to_segment();
    assert_eq!(back_to_segment.id, "REF");
    assert_eq!(back_to_segment.elements.len(), 3);
}

#[test]
fn test_schema_validating_parser_creation() {
    let config = ParsingConfig::default();
    let parser = SchemaValidatingParser::new(config);

    assert_eq!(parser.config().version, X12Version::V4010);
    assert_eq!(parser.config().validation_level, ValidationLevel::Standard);
}

#[test]
fn test_parsing_config_default() {
    let config = ParsingConfig::default();

    assert_eq!(config.version, X12Version::V4010);
    assert_eq!(config.validation_level, ValidationLevel::Standard);
    assert!(config.continue_on_error);
    assert!(config.collect_validation_details);
}

#[test]
fn test_validate_beg_segment() {
    let parser = ValidatingSegmentParser::new(X12Version::V4010);

    let segment = Segment::new(
        "BEG".to_string(),
        vec![
            "00".to_string(),
            "SA".to_string(),
            "PO12345".to_string(),
            "".to_string(),
            "20240101".to_string(),
        ],
    );

    let result = parser.parse_and_validate(&segment);
    if let Err(e) = &result {
        println!("Validation error: {:?}", e);
    }
    assert!(result.is_ok());

    let validated = result.unwrap();
    assert_eq!(validated.segment_id, "BEG");
    assert_eq!(validated.elements.len(), 5);

    assert_eq!(validated.elements[0].element_id(), 353);
    assert_eq!(validated.elements[1].element_id(), 92);
    assert_eq!(validated.elements[2].element_id(), 324);
}

#[test]
fn test_validate_beg_segment_invalid_purpose_code() {
    let parser = ValidatingSegmentParser::new(X12Version::V4010);

    let segment = Segment::new(
        "BEG".to_string(),
        vec![
            "99".to_string(),
            "SA".to_string(),
            "PO12345".to_string(),
            "".to_string(),
            "20240101".to_string(),
        ],
    );

    let result = parser.parse_and_validate(&segment);
    assert!(result.is_err());

    let error = result.unwrap_err();
    assert!(error.message().contains("not a valid code"));
}

#[test]
fn test_validate_cur_segment() {
    let parser = ValidatingSegmentParser::new(X12Version::V4010);

    let segment = Segment::new(
        "CUR".to_string(),
        vec!["BY".to_string(), "USD".to_string(), "1.0".to_string()],
    );

    let result = parser.parse_and_validate(&segment);
    assert!(result.is_ok());

    let validated = result.unwrap();

    let entity_element = validated.get_element_by_id(98).unwrap();
    assert_eq!(entity_element.value().unwrap(), "BY");

    let currency_element = validated.get_element_by_id(100).unwrap();
    assert_eq!(currency_element.value().unwrap(), "USD");
}

#[test]
fn test_get_element_definition_by_id() {
    let parser = ValidatingSegmentParser::new(X12Version::V4010);

    let definitions = parser.get_element_definition_by_id(98);
    assert!(!definitions.is_empty());

    let cur_def = definitions.iter().find(|(seg, _)| *seg == "CUR");
    assert!(cur_def.is_some());
}

#[test]
fn test_trim_whitespace() {
    assert_eq!(trim_whitespace("  hello  "), "hello");
    assert_eq!(trim_whitespace("test"), "test");
}

// The element validator reports the purpose code exactly: element 353 at
// position one with the offending value.
#[test]
fn test_invalid_purpose_code_diagnostic() {
    let parser = ValidatingSegmentParser::new(X12Version::V4010);
    let outcome = parser.validate_element_value("BEG", 1, "99");
    assert!(outcome.is_err());
    let msg = outcome.unwrap_err().message();
    assert!(msg.contains("353"));
    assert!(msg.contains("position 1"));
    assert!(msg.contains("'99'"));
    assert!(msg.contains("not a valid code"));

    assert!(parser.validate_element_value("BEG", 1, "00").is_ok());
}

// A transaction missing its mandatory beginning segment yields exactly the
// missing-mandatory-segment error and nothing else.
#[test]
fn test_missing_mandatory_segment() {
    let engine = SchemaEngine::new();
    let segments = vec!["ST".to_string(), "PO1".to_string(), "SE".to_string()];
    let results = engine
        .validate_transaction_structure("850", &X12Version::V4010, &segments)
        .unwrap();
    let errors: Vec<_> = results
        .iter()
        .filter(|r| r.result_type == ValidationResultType::Error)
        .collect();
    assert_eq!(errors.len(), 1);
    assert_eq!(errors[0].message, "Missing mandatory segment BEG");
}

// Running the structure scan twice yields identical diagnostic lists, order
// included.
#[test]
fn test_idempotent_validation() {
    let engine = SchemaEngine::new();
    let segments = vec![
        "ST".to_string(),
        "BEG".to_string(),
        "XXX".to_string(),
        "PO1".to_string(),
        "PO1".to_string(),
        "CTT".to_string(),
        "CTT".to_string(),
        "SE".to_string(),
    ];
    let first = engine
        .validate_transaction_structure("850", &X12Version::V4010, &segments)
        .unwrap();
    let second = engine
        .validate_transaction_structure("850", &X12Version::V4010, &segments)
        .unwrap();
    assert_eq!(first.len(), second.len());
    let mut i = 0;
    while i < first.len() {
        assert_eq!(first[i].message, second[i].message);
        assert_eq!(first[i].result_type, second[i].result_type);
        assert_eq!(first[i].segment_position, second[i].segment_position);
        i += 1;
    }
    assert!(first.iter().any(|r| r.message.contains("Unknown segment XXX")));
    assert!(first
        .iter()
        .any(|r| r.message.contains("CTT exceeds maximum usage of 1")));
}

// Making an optional segment mandatory through the overlay adds a missing-
// mandatory error when it is absent, and removes nothing.
#[test]
fn test_make_mandatory_overlay() {
    let mut engine = SchemaEngine::new();
    let agreement = TradingPartnerAgreement {
        partner_id: "ACME".to_string(),
        agreement_name: "Currency required".to_string(),
        customizations: vec![SchemaCustomization {
            segment_id: "CUR".to_string(),
            element_position: None,
            customization_type: CustomizationType::MakeMandatory,
            description: "ACME requires a currency segment".to_string(),
        }],
    };
    engine
        .add_trading_partner_agreement("850", X12Version::V4010, agreement)
        .unwrap();
    let schema = engine
        .get_transaction_schema("850", &X12Version::V4010)
        .unwrap();
    let base_mandatory = schema
        .segments
        .iter()
        .filter(|s| matches!(s.requirement, SegmentRequirement::Mandatory))
        .count();
    let effective = effective_schema_segments(schema, "ACME");
    let overlay_mandatory = effective
        .iter()
        .filter(|s| matches!(s.requirement, SegmentRequirement::Mandatory))
        .count();
    assert_eq!(overlay_mandatory, base_mandatory + 2); // both CUR entries flip
    // The base catalog is untouched.
    let again = engine
        .get_transaction_schema("850", &X12Version::V4010)
        .unwrap();
    let still_base = again
        .segments
        .iter()
        .filter(|s| matches!(s.requirement, SegmentRequirement::Mandatory))
        .count();
    assert_eq!(still_base, base_mandatory);
}

// Conflicting customizations on one (segment, element) target are rejected
// at registration time.
#[test]
fn test_conflicting_customizations_rejected() {
    let mut engine = SchemaEngine::new();
    let agreement = TradingPartnerAgreement {
        partner_id: "ACME".to_string(),
        agreement_name: "Contradiction".to_string(),
        customizations: vec![
            SchemaCustomization {
                segment_id: "CUR".to_string(),
                element_position: None,
                customization_type: CustomizationType::MakeMandatory,
                description: "first".to_string(),
            },
            SchemaCustomization {
                segment_id: "CUR".to_string(),
                element_position: None,
                customization_type: CustomizationType::MakeOptional,
                description: "second".to_string(),
            },
        ],
    };
    let outcome = engine.add_trading_partner_agreement("850", X12Version::V4010, agreement);
    assert!(outcome.is_err());
}

// Extending the accepted codes removes a code-membership failure and adds
// nothing.
#[test]
fn test_extend_valid_codes_overlay() {
    let registry = SegmentRegistry::new();
    let beg = registry.get_definition(&X12Version::V4010, "BEG").unwrap();
    let purpose = beg.elements[0].clone();
    let base = edi_parser::models::validated_element::ValidatedElement::new(
        purpose.clone(),
        Some("99".to_string()),
        1,
    );
    assert!(base.validate().is_err());

    let widened = customize_element_definition(
        &purpose,
        &CustomizationType::ExtendValidCodes(vec!["99".to_string()]),
    );
    let custom = edi_parser::models::validated_element::ValidatedElement::new(
        widened,
        Some("99".to_string()),
        1,
    );
    assert!(custom.validate().is_ok());

    // A value both reject stays rejected.
    let narrowed = customize_segment_schema(
        &edi_parser::models::schema_engine::SegmentSchema {
            segment_id: "CUR".to_string(),
            name: "Currency".to_string(),
            requirement: SegmentRequirement::Optional,
            max_use: Some(1),
            hierarchy_level: 0,
            dependencies: Vec::new(),
            context_rules: Vec::new(),
        },
        &SchemaCustomization {
            segment_id: "CUR".to_string(),
            element_position: None,
            customization_type: CustomizationType::MakeMandatory,
            description: "flip".to_string(),
        },
    );
    assert!(matches!(narrowed.requirement, SegmentRequirement::Mandatory));
}

// A parsed invoice interchange carries one group, one transaction of type
// "810", and no structural errors.
#[test]
fn test_schema_parse_of_invoice() {
    let mut parser = SchemaValidatingParser::new(ParsingConfig::default());
    let input = "ISA*00*          *00*          *01*SENDERID     *01*RECEIVERID   *230101*1253*U*00401*000000001*0*T*>~GS*IN*S*R*20230101*1253*1*X*004010~ST*810*0001~BIG*20230101*INV-001~SE*4*0001~GE*1*1~IEA*1*000000001~";
    let result = parser.parse_with_schema(input).unwrap();
    assert_eq!(result.transaction_summaries.len(), 1);
    assert_eq!(result.transaction_summaries[0].transaction_type, "810");
    let structural_errors = result
        .validation_results
        .iter()
        .filter(|r| r.result_type == ValidationResultType::Error)
        .count();
    assert_eq!(structural_errors, 0);
    assert_eq!(result.metrics.segments_processed, 3);
}

// A compliant purchase order parses cleanly end to end.
#[test]
fn test_schema_parse_of_purchase_order() {
    let mut parser = SchemaValidatingParser::new(ParsingConfig::default());
    let input = "ISA*00*          *00*          *01*BUYERID      *01*SELLERID     *230101*1300*U*00401*000000002*0*T*>~GS*PO*BUYERID*SELLERID*20230101*1300*2*X*004010~ST*850*0001~BEG*00*SA*PO-001**20230101~PO1*1*100~SE*4*0001~GE*1*2~IEA*1*000000002~";
    let result = parser.parse_with_schema(input).unwrap();
    assert_eq!(result.transaction_summaries.len(), 1);
    let summary = &result.transaction_summaries[0];
    assert_eq!(summary.transaction_type, "850");
    assert_eq!(summary.segment_count, 4);
    assert_eq!(summary.segment_range, (0, 4));
    assert_eq!(summary.validation_status, ValidationStatus::Valid);
    assert_eq!(summary.business_context.document_date, None);
}

// Number parsing and rendering round-trip on concrete values.
#[test]
fn test_number_helpers() {
    assert_eq!(parse_u32("0"), Some(0));
    assert_eq!(parse_u32("4294967295"), Some(u32::MAX));
    assert_eq!(parse_u32("4294967296"), None);
    assert_eq!(parse_u32(""), None);
    assert_eq!(parse_u32("12a"), None);
    assert_eq!(u32_to_string(907), "907");
    assert_eq!(u32_to_string(0), "0");
}

// Usage counting against the catalog's bounds.
#[test]
fn test_segment_usage_bounds() {
    let validator = SegmentValidator::new(X12Version::V4010);
    let beg = Segment::new(
        "BEG".to_string(),
        vec![
            "00".to_string(),
            "SA".to_string(),
            "PO-001".to_string(),
            "".to_string(),
            "20230101".to_string(),
        ],
    );
    let twice = vec![
        Segment::new("BEG".to_string(), beg.elements.clone()),
        Segment::new("BEG".to_string(), beg.elements.clone()),
    ];
    match validator.validate_segment_usage(&twice, "BEG") {
        Err(EdiError::InvalidControlStructure) => {}
        other => panic!("unexpected outcome {:?}", other),
    }
    let once = vec![Segment::new("BEG".to_string(), beg.elements.clone())];
    assert!(validator.validate_segment_usage(&once, "BEG").is_ok());
    assert!(validator.validate_segment_usage(&once, "ZZZ").is_err());
}

// The guide-driven validator flags a bad purpose code and a missing
// mandatory segment.
#[test]
fn test_guide_validator() {
    let schema = StandardRules::purchase_order_850_v4010();
    assert_eq!(schema.transaction_set, "850");
    assert!(schema.get_segment("BEG").is_some());
    assert!(schema.get_segment("ZZZ").is_none());
    let validator = EdiValidator::new(schema);
    let segments = vec![
        Segment::new(
            "ST".to_string(),
            vec!["850".to_string(), "0001".to_string()],
        ),
        Segment::new(
            "BEG".to_string(),
            vec![
                "77".to_string(),
                "SA".to_string(),
                "PO-001".to_string(),
                "".to_string(),
                "20230101".to_string(),
            ],
        ),
    ];
    let tx = Transaction::new(segments, "850".to_string(), "0001".to_string());
    let outcome = validator.validate_transaction(&tx);
    assert!(!outcome.is_valid);
    assert!(outcome
        .errors
        .iter()
        .any(|e| e.message.contains("invalid code '77'")));
    assert!(outcome
        .errors
        .iter()
        .any(|e| e.message == "Required segment SE is missing"));
}

// The later guide version extends the earlier one by the paperwork segment.
#[test]
fn test_guide_versions() {
    let v4010 = StandardRules::purchase_order_850_v4010();
    let v5010 = StandardRules::purchase_order_850_v5010();
    assert_eq!(v5010.version, "5010");
    assert_eq!(v5010.segments.len(), v4010.segments.len() + 1);
    assert!(v5010.get_segment("PWK").is_some());
    let invoice = StandardRules::invoice_810_v4010();
    assert_eq!(invoice.transaction_set, "810");
    assert!(invoice.get_segment("BIG").is_some());
}

// One element definition validates values exactly.
#[test]
fn test_registry_element_values() {
    let registry = SegmentRegistry::new();
    assert!(registry
        .validate_element_value(&X12Version::V4010, "BEG", 4, "20230101")
        .is_ok());
    let bad_date = registry.validate_element_value(&X12Version::V4010, "BEG", 4, "20230a01");
    assert!(bad_date.is_err());
    let too_long = registry.validate_element_value(&X12Version::V4010, "BEG", 2, &"A".repeat(30));
    assert!(too_long.is_err());
    assert!(registry
        .validate_element_value(&X12Version::V4010, "BEG", 3, "")
        .is_ok());
    let missing = registry.validate_element_value(&X12Version::V4010, "BEG", 0, "");
    assert!(missing.is_err());
}
