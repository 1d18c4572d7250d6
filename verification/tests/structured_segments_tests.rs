use edi_parser::models::segment_definition::{SegmentRegistry, X12Version};
use edi_parser::models::segment_validator::SegmentValidator;
use edi_parser::models::structured_segments::{BegSegment, EdiSegment};
use edi_parser::models::Segment;
use edi_parser::transactions::purchase_order_850::PurchaseOrder850 as PurchaseOrderDocument;
use edi_parser::{EdiError, EdiParser, PurchaseOrder850, X12Parser};

#[test]
fn test_structured_segment_validation() {
    let version = X12Version::V4010;

    let valid_beg_segment = Segment::new(
        "BEG".to_string(),
        vec![
            "00".to_string(),
            "SA".to_string(),
            "PO-001".to_string(),
            "".to_string(),
            "20230101".to_string(),
        ],
    );

    let beg = BegSegment::from_segment(&valid_beg_segment, version).unwrap();
    assert_eq!(beg.transaction_set_purpose_code, "00");
    assert_eq!(beg.purchase_order_type_code, "SA");
    assert_eq!(beg.purchase_order_number, "PO-001");
    assert_eq!(beg.release_number, None);
    assert_eq!(beg.date, "20230101");

    let validation_result = beg.validate(version);
    assert!(validation_result.is_valid, "BEG segment should be valid");

    let converted_segment = beg.to_segment();
    assert_eq!(converted_segment.id, "BEG");
    assert_eq!(converted_segment.elements.len(), 5);
}

#[test]
fn test_segment_registry() {
    let registry = SegmentRegistry::new();

    let beg_def = registry.get_definition(&X12Version::V4010, "BEG").unwrap();
    assert_eq!(beg_def.id, "BEG");
    assert_eq!(beg_def.name, "Beginning Segment for Purchase Order");
    assert_eq!(beg_def.min_usage, 1);
    assert_eq!(beg_def.max_usage, Some(1));
    assert_eq!(beg_def.elements.len(), 5);

    let available_segments = registry.get_registered_segments_for_version(&X12Version::V4010);
    println!("Available segments: {:?}", available_segments);

    assert!(available_segments.contains(&"BEG".to_string()));
    assert!(available_segments.contains(&"CUR".to_string()));

    let cur_def = registry.get_definition(&X12Version::V4010, "CUR").unwrap();
    assert_eq!(cur_def.id, "CUR");
    assert_eq!(cur_def.name, "Currency");
    assert_eq!(cur_def.elements.len(), 2);
}

#[test]
fn test_validation_errors() {
    let version = X12Version::V4010;

    let invalid_beg_segment = Segment::new(
        "BEG".to_string(),
        vec![
            "00".to_string(),
            "SA".to_string(),
            "PO-001".to_string(),
            "".to_string(),
            "2023-01-01".to_string(),
        ],
    );

    let validator = SegmentValidator::new(version);
    let validation_result = validator.validate_segment(&invalid_beg_segment);
    assert!(!validation_result.is_valid);
    assert!(!validation_result.errors.is_empty());

    let result = BegSegment::from_segment(&invalid_beg_segment, version);
    assert!(result.is_err());
}

#[test]
fn test_programmatic_segment_creation() {
    let beg = BegSegment {
        transaction_set_purpose_code: "00".to_string(),
        purchase_order_type_code: "NE".to_string(),
        purchase_order_number: "PO-PROGRAMMATIC".to_string(),
        release_number: Some("REL-001".to_string()),
        date: "20250825".to_string(),
    };

    let validation_result = beg.validate(X12Version::V4010);
    assert!(
        validation_result.is_valid,
        "Programmatically created BEG should be valid"
    );

    let segment = beg.to_segment();
    assert_eq!(segment.id, "BEG");
    assert_eq!(segment.elements[0], "00");
    assert_eq!(segment.elements[1], "NE");
    assert_eq!(segment.elements[2], "PO-PROGRAMMATIC");
    assert_eq!(segment.elements[3], "REL-001");
    assert_eq!(segment.elements[4], "20250825");
}

// The loop reconstructor groups parties and line items greedily and keeps
// unrecognized segments out of the loops without losing the summary.
#[test]
fn test_loop_reconstruction() {
    let parser = X12Parser::default();
    let input = "ISA*00*          *00*          *01*BUYERID      *01*SELLERID     *230101*1300*U*00401*000000002*0*T*>~GS*PO*BUYERID*SELLERID*20230101*1300*2*X*004010~ST*850*0001~BEG*00*SA*PO-001**20230101~N1*ST*Supplier Inc*92*SUP123~N4*CITY~PO1*1*100*EA*10.50**BP*ITEM-001~PID*F****Widget~PO1*2*50*EA*4.00**BP*ITEM-002~CTT*2~SE*9*0001~GE*1*2~IEA*1*000000002~";
    let interchange = parser.parse(input).unwrap();
    let tx = &interchange.functional_groups[0].transactions[0];
    let po = PurchaseOrder850::parse_from_transaction(tx).unwrap();
    assert_eq!(po.get_total_line_items(), 2);
    assert_eq!(po.party_loops.len(), 1);
    assert!(po.party_loops[0].n4_segment.is_some());
    assert_eq!(po.line_item_loops[0].pid_segments.len(), 1);
    assert_eq!(po.header_segments.len(), 2); // ST and BEG
    assert_eq!(po.summary_segments.len(), 2); // CTT and SE
    let ship_to = po.get_parties_by_type("ST");
    assert_eq!(ship_to.len(), 1);
}

// A non-purchase-order transaction is rejected by the reconstructor.
#[test]
fn test_loop_reconstruction_rejects_other_types() {
    let parser = X12Parser::default();
    let input = "ISA*00*          *00*          *01*SENDERID     *01*RECEIVERID   *230101*1253*U*00401*000000001*0*T*>~GS*IN*S*R*20230101*1253*1*X*004010~ST*810*0001~BIG*20230101*INV-001~SE*4*0001~GE*1*1~IEA*1*000000001~";
    let interchange = parser.parse(input).unwrap();
    let tx = &interchange.functional_groups[0].transactions[0];
    let outcome = PurchaseOrder850::parse_from_transaction(tx);
    assert!(outcome.is_err());
    assert_eq!(outcome.unwrap_err(), "Not a valid 850 transaction");
}

// The document form of a purchase order reports a line-count mismatch: one
// line item against a declared count of two.
#[test]
fn test_ctt_line_count_mismatch() {
    let parser = X12Parser::default();
    let input = "ISA*00*          *00*          *01*BUYERID      *01*SELLERID     *230101*1300*U*00401*000000002*0*T*>~GS*PO*BUYERID*SELLERID*20230101*1300*2*X*004010~ST*850*0001~BEG*00*SA*PO-001**20230101~PO1*1*100*EA*10.50**BP*ITEM-001~CTT*2~SE*6*0001~GE*1*2~IEA*1*000000002~";
    let interchange = parser.parse(input).unwrap();
    let tx = &interchange.functional_groups[0].transactions[0];
    let po = PurchaseOrderDocument::parse_transaction(tx).unwrap();
    assert_eq!(po.line_items.len(), 1);
    match po.validate() {
        Err(EdiError::ValidationError(msg)) => {
            assert_eq!(msg, "Expected 2 line items, found 1");
        }
        other => panic!("unexpected outcome {:?}", other),
    }
    assert_eq!(po.purchase_order_number(), "PO-001");
}

// With the declared count equal to the number of line items the document
// passes its business rules.
#[test]
fn test_ctt_line_count_match() {
    let parser = X12Parser::default();
    let input = "ISA*00*          *00*          *01*BUYERID      *01*SELLERID     *230101*1300*U*00401*000000002*0*T*>~GS*PO*BUYERID*SELLERID*20230101*1300*2*X*004010~ST*850*0001~BEG*00*SA*PO-001**20230101~N1*BY*Buyer Corp~PO1*1*100*EA*10.50**BP*ITEM-001~CTT*1~SE*7*0001~GE*1*2~IEA*1*000000002~";
    let interchange = parser.parse(input).unwrap();
    let tx = &interchange.functional_groups[0].transactions[0];
    let po = PurchaseOrderDocument::parse_transaction(tx).unwrap();
    assert!(po.validate().is_ok());
    assert!(po.buyer().is_some());
    assert!(po.vendor().is_none());
}
