use edi_parser::parsers::x12::{serialize_segments, tokenize_document};
use edi_parser::{EdiError, EdiParser, Segment, X12Parser, X12ParserBuilder};

#[test]
fn test_basic_x12_parsing() {
    let parser = X12Parser::default();
    let input = "ISA*00*          *00*          *01*SENDERID     *01*RECEIVERID   *230101*1253*U*00401*000000001*0*T*>~GS*IN*SENDERID*RECEIVERID*20230101*1253*1*X*004010~ST*810*0001~BIG*20230101*INV-001~SE*4*0001~GE*1*1~IEA*1*000000001~";

    let result = parser.parse(input);
    assert!(result.is_ok());

    let interchange = result.unwrap();
    assert_eq!(interchange.isa_segment.id, "ISA");
    assert_eq!(interchange.functional_groups.len(), 1);
    assert_eq!(interchange.functional_groups[0].transactions.len(), 1);
}

#[test]
fn test_invalid_input() {
    let parser = X12Parser::default();
    let result = parser.parse("Invalid*Data*Here");

    assert!(result.is_err());
}

#[test]
fn test_validation() {
    let parser = X12Parser::default();
    let input = "ISA*00*          *00*          *01*SENDERID     *01*RECEIVERID   *230101*1253*U*00401*000000001*0*T*>~GS*IN*SENDERID*RECEIVERID*20230101*1253*1*X*004010~ST*810*0001~BIG*20230101*INV-001~SE*4*0001~GE*1*1~IEA*1*000000001~";

    let interchange = parser.parse(input).unwrap();
    let validation_result = parser.validate(&interchange);

    assert!(validation_result.is_ok());
}

// An interchange with both header and trailer present validates exactly when
// the two control numbers agree.
#[test]
fn test_control_number_symmetry() {
    let parser = X12Parser::default();
    let matching = "ISA*00*          *00*          *01*SENDERID     *01*RECEIVERID   *230101*1253*U*00401*000000001*0*T*>~GS*IN*S*R*20230101*1253*1*X*004010~ST*810*0001~BIG*20230101*INV-001~SE*4*0001~GE*1*1~IEA*1*000000001~";
    let interchange = parser.parse(matching).unwrap();
    assert!(parser.validate(&interchange).is_ok());

    let mismatched = "ISA*00*          *00*          *01*SENDERID     *01*RECEIVERID   *230101*1253*U*00401*000000001*0*T*>~GS*IN*S*R*20230101*1253*1*X*004010~ST*810*0001~BIG*20230101*INV-001~SE*4*0001~GE*1*1~IEA*1*000000009~";
    let interchange = parser.parse(mismatched).unwrap();
    let outcome = parser.validate(&interchange);
    assert!(outcome.is_err());
    match outcome.unwrap_err() {
        EdiError::ValidationError(msg) => {
            assert!(msg.contains("IEA control number doesn't match ISA"))
        }
        other => panic!("unexpected error {:?}", other),
    }
}

// Group-level control numbers are checked the same way.
#[test]
fn test_group_control_number_mismatch() {
    let parser = X12Parser::default();
    let input = "ISA*00*          *00*          *01*SENDERID     *01*RECEIVERID   *230101*1253*U*00401*000000001*0*T*>~GS*IN*S*R*20230101*1253*7*X*004010~ST*810*0001~BIG*20230101*INV-001~SE*4*0001~GE*1*8~IEA*1*000000001~";
    let interchange = parser.parse(input).unwrap();
    let outcome = parser.validate(&interchange);
    assert!(outcome.is_err());
    match outcome.unwrap_err() {
        EdiError::ValidationError(msg) => {
            assert!(msg.contains("GE control number doesn't match GS"))
        }
        other => panic!("unexpected error {:?}", other),
    }
}

// Delimiter round trip: serializing tokenized segments and tokenizing again
// yields the identical segment list.
#[test]
fn test_delimiter_round_trip() {
    let doc = "BEG*00*SA*PO-001**20230101~PO1*1*100*EA~CTT*1";
    let segments = tokenize_document(doc, '*', '~', true);
    assert_eq!(segments.len(), 3);
    let text = serialize_segments(&segments, '*', '~');
    assert_eq!(text, doc);
    let again = tokenize_document(text.as_str(), '*', '~', true);
    assert_eq!(segments, again);
}

// Hierarchy conservation on a concrete document: every record lands in the
// tree or is the interchange trailer.
#[test]
fn test_hierarchy_conservation() {
    let parser = X12Parser::default();
    let input = "ISA*00*          *00*          *01*SENDERID     *01*RECEIVERID   *230101*1253*U*00401*000000001*0*T*>~GS*IN*S*R*20230101*1253*1*X*004010~ST*810*0001~BIG*20230101*INV-001~SE*4*0001~ST*810*0002~BIG*20230102*INV-002~SE*4*0002~GE*2*1~IEA*1*000000001~";
    let interchange = parser.parse(input).unwrap();
    let records = 10; // ISA, GS, 2 x (ST BIG SE), GE, IEA
    let tx_segments: usize = interchange
        .functional_groups
        .iter()
        .flat_map(|fg| fg.transactions.iter())
        .map(|t| t.segments.len())
        .sum();
    let gs_count = interchange.functional_groups.len();
    let ge_count = interchange
        .functional_groups
        .iter()
        .filter(|fg| fg.ge_segment.is_some())
        .count();
    // One record (the interchange trailer) is outside the group hierarchy,
    // and the interchange header is record zero.
    assert_eq!(tx_segments + gs_count + ge_count + 2, records);
    assert_eq!(tx_segments, 6);
}

// The separators must be pairwise distinct.
#[test]
fn test_builder_rejects_equal_separators() {
    let result = X12ParserBuilder::new()
        .element_separator('*')
        .segment_separator('*')
        .build();
    assert!(result.is_err());

    let parser = X12ParserBuilder::new()
        .element_separator('|')
        .segment_separator('\n')
        .sub_element_separator('^')
        .trim_whitespace(true)
        .build();
    assert!(parser.is_ok());
}

// Separators declared by the header record are discovered, and the remaining
// records keep parsing on the standard element separator.
#[test]
fn test_delimiter_discovery() {
    let parser = X12Parser::default();
    let input = "ISA*00*          *00*          *01*SENDERID     *01*RECEIVERID   *230101*1253*U*00401*000000001*0*T*>~GS*PO*S*R*20230101*1253*1*X*004010~ST*850*0001~BEG*00*SA*PO-1**20230101~SE*3*0001~GE*1*1~IEA*1*000000001~";
    let interchange = parser.parse(input).unwrap();
    assert_eq!(interchange.isa_segment.elements.len(), 16);
    assert_eq!(interchange.version.as_str(), "00401");
    let tx = &interchange.functional_groups[0].transactions[0];
    assert_eq!(tx.transaction_set_id, "850");
    assert_eq!(tx.control_number, "0001");
}

// Empty input is a hard parse failure.
#[test]
fn test_empty_input() {
    let parser = X12Parser::default();
    match parser.parse("   ") {
        Err(EdiError::InvalidSegmentFormat(msg)) => assert_eq!(msg, "Empty input"),
        other => panic!("unexpected outcome {:?}", other),
    }
}

// A transaction header without its control number aborts parsing.
#[test]
fn test_bad_transaction_header() {
    let parser = X12Parser::default();
    let input = "ISA*00*          *00*          *01*SENDERID     *01*RECEIVERID   *230101*1253*U*00401*000000001*0*T*>~GS*IN*S*R*20230101*1253*1*X*004010~ST*810~SE*2*0001~GE*1*1~IEA*1*000000001~";
    match parser.parse(input) {
        Err(EdiError::InvalidSegmentFormat(msg)) => assert!(msg.contains("ST*810")),
        other => panic!("unexpected outcome {:?}", other),
    }
}

// A missing trailer does not lose the data already parsed.
#[test]
fn test_missing_trailers_keep_data() {
    let parser = X12Parser::default();
    let input = "ISA*00*          *00*          *01*SENDERID     *01*RECEIVERID   *230101*1253*U*00401*000000001*0*T*>~GS*IN*S*R*20230101*1253*1*X*004010~ST*810*0001~BIG*20230101*INV-001~";
    let interchange = parser.parse(input).unwrap();
    assert_eq!(interchange.functional_groups.len(), 1);
    assert_eq!(interchange.functional_groups[0].transactions.len(), 1);
    assert!(interchange.iea_segment.is_none());
    assert!(interchange.functional_groups[0].ge_segment.is_none());
    let seg = Segment::new("BIG".to_string(), vec!["20230101".to_string()]);
    assert_eq!(seg.id, "BIG");
}
