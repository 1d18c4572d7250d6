use crate::validation::schema::{
    DataType, EdiSchema, ElementUsage, GuideElementView, GuideSegmentView, SegmentUsage,
};
use crate::validation::validator::{ElementBuilder, SchemaBuilder, SegmentBuilder};
use vstd::prelude::*;

verus! {

/// Pre-defined guide schemas for the standard transaction sets.
pub struct StandardRules;

pub open spec fn gelem(
    position: u32,
    element_reference: Seq<char>,
    name: Seq<char>,
    usage: ElementUsage,
    data_type: DataType,
    min_length: Option<u32>,
    max_length: Option<u32>,
    valid_codes: Option<Seq<Seq<char>>>,
    format: Option<Seq<char>>,
) -> GuideElementView {
    GuideElementView {
        position,
        element_reference,
        name,
        usage,
        data_type,
        min_length,
        max_length,
        valid_codes,
        format,
    }
}

pub open spec fn gseg(
    id: Seq<char>,
    name: Seq<char>,
    usage: SegmentUsage,
    max_repetitions: Option<u32>,
    elements: Seq<GuideElementView>,
    position: u32,
    sequence: Option<u32>,
) -> GuideSegmentView {
    GuideSegmentView { id, name, usage, max_repetitions, elements, position, sequence }
}

/// The purchase-order guide: header, beginning segment, names, baseline
/// items, totals and trailer, each with its element rules.
pub open spec fn rules_850_v4010_segments() -> Seq<GuideSegmentView> {
    seq![
        gseg(
            "ST"@,
            "Transaction Set Header"@,
            SegmentUsage::Required,
            Some(1u32),
            seq![
                gelem(
                    1,
                    "143"@,
                    "Transaction Set Identifier Code"@,
                    ElementUsage::Required,
                    DataType::ID,
                    Some(3u32),
                    Some(3u32),
                    Some(seq!["850"@]),
                    None,
                ),
                gelem(
                    2,
                    "329"@,
                    "Transaction Set Control Number"@,
                    ElementUsage::Required,
                    DataType::AN,
                    Some(4u32),
                    Some(9u32),
                    None,
                    None,
                ),
                gelem(
                    3,
                    "1705"@,
                    "Implementation Convention Reference"@,
                    ElementUsage::Optional,
                    DataType::AN,
                    Some(1u32),
                    Some(35u32),
                    None,
                    None,
                ),
            ],
            1,
            Some(10u32),
        ),
        gseg(
            "BEG"@,
            "Beginning Segment for Purchase Order"@,
            SegmentUsage::Required,
            Some(1u32),
            seq![
                gelem(
                    1,
                    "353"@,
                    "Transaction Set Purpose Code"@,
                    ElementUsage::Required,
                    DataType::ID,
                    Some(2u32),
                    Some(2u32),
                    Some(seq!["00"@, "01"@, "04"@, "05"@]),
                    None,
                ),
                gelem(
                    2,
                    "92"@,
                    "Purchase Order Type Code"@,
                    ElementUsage::Required,
                    DataType::ID,
                    Some(2u32),
                    Some(2u32),
                    Some(seq!["SA"@, "KA"@, "NE"@, "RL"@]),
                    None,
                ),
                gelem(
                    3,
                    "324"@,
                    "Purchase Order Number"@,
                    ElementUsage::Required,
                    DataType::AN,
                    Some(1u32),
                    Some(22u32),
                    None,
                    None,
                ),
                gelem(
                    4,
                    "328"@,
                    "Release Number"@,
                    ElementUsage::Optional,
                    DataType::AN,
                    Some(1u32),
                    Some(30u32),
                    None,
                    None,
                ),
                gelem(
                    5,
                    "373"@,
                    "Date"@,
                    ElementUsage::Required,
                    DataType::DT,
                    Some(8u32),
                    Some(8u32),
                    None,
                    Some("CCYYMMDD"@),
                ),
            ],
            2,
            Some(20u32),
        ),
        gseg(
            "N1"@,
            "Name"@,
            SegmentUsage::Optional,
            Some(200u32),
            seq![
                gelem(
                    1,
                    "98"@,
                    "Entity Identifier Code"@,
                    ElementUsage::Required,
                    DataType::ID,
                    Some(2u32),
                    Some(3u32),
                    Some(seq!["BY"@, "ST"@, "VN"@, "SU"@, "BT"@, "RI"@]),
                    None,
                ),
                gelem(
                    2,
                    "93"@,
                    "Name"@,
                    ElementUsage::Optional,
                    DataType::AN,
                    Some(1u32),
                    Some(60u32),
                    None,
                    None,
                ),
                gelem(
                    3,
                    "66"@,
                    "Identification Code Qualifier"@,
                    ElementUsage::Optional,
                    DataType::ID,
                    Some(1u32),
                    Some(2u32),
                    Some(seq!["1"@, "9"@, "92"@]),
                    None,
                ),
                gelem(
                    4,
                    "67"@,
                    "Identification Code"@,
                    ElementUsage::Optional,
                    DataType::AN,
                    Some(2u32),
                    Some(80u32),
                    None,
                    None,
                ),
            ],
            3,
            Some(30u32),
        ),
        gseg(
            "PO1"@,
            "Baseline Item Data"@,
            SegmentUsage::Optional,
            Some(100000u32),
            seq![
                gelem(
                    1,
                    "350"@,
                    "Assigned Identification"@,
                    ElementUsage::Optional,
                    DataType::AN,
                    Some(1u32),
                    Some(20u32),
                    None,
                    None,
                ),
                gelem(
                    2,
                    "330"@,
                    "Quantity Ordered"@,
                    ElementUsage::Optional,
                    DataType::R,
                    Some(1u32),
                    Some(15u32),
                    None,
                    None,
                ),
                gelem(
                    3,
                    "355"@,
                    "Unit or Basis for Measurement Code"@,
                    ElementUsage::Optional,
                    DataType::ID,
                    Some(2u32),
                    Some(2u32),
                    Some(seq!["EA"@, "CA"@, "LB"@, "KG"@, "PC"@, "BX"@]),
                    None,
                ),
                gelem(
                    4,
                    "212"@,
                    "Unit Price"@,
                    ElementUsage::Optional,
                    DataType::R,
                    Some(1u32),
                    Some(17u32),
                    None,
                    None,
                ),
                gelem(
                    5,
                    "639"@,
                    "Basis of Unit Price Code"@,
                    ElementUsage::Optional,
                    DataType::ID,
                    Some(2u32),
                    Some(2u32),
                    Some(seq!["PE"@, "PP"@, "PK"@]),
                    None,
                ),
            ],
            4,
            Some(100u32),
        ),
        gseg(
            "CTT"@,
            "Transaction Totals"@,
            SegmentUsage::Optional,
            Some(1u32),
            seq![
                gelem(
                    1,
                    "354"@,
                    "Number of Line Items"@,
                    ElementUsage::Required,
                    DataType::N,
                    Some(1u32),
                    Some(6u32),
                    None,
                    None,
                ),
                gelem(
                    2,
                    "347"@,
                    "Hash Total"@,
                    ElementUsage::Optional,
                    DataType::R,
                    Some(1u32),
                    Some(10u32),
                    None,
                    None,
                ),
            ],
            5,
            Some(200u32),
        ),
        gseg(
            "SE"@,
            "Transaction Set Trailer"@,
            SegmentUsage::Required,
            Some(1u32),
            seq![
                gelem(
                    1,
                    "96"@,
                    "Number of Included Segments"@,
                    ElementUsage::Required,
                    DataType::N,
                    Some(1u32),
                    Some(10u32),
                    None,
                    None,
                ),
                gelem(
                    2,
                    "329"@,
                    "Transaction Set Control Number"@,
                    ElementUsage::Required,
                    DataType::AN,
                    Some(4u32),
                    Some(9u32),
                    None,
                    None,
                ),
            ],
            6,
            Some(210u32),
        ),
    ]
}

/// The paperwork segment the later version adds.
pub open spec fn rules_850_pwk_segment() -> GuideSegmentView {
    gseg(
        "PWK"@,
        "Paperwork"@,
        SegmentUsage::Optional,
        Some(25u32),
        seq![
            gelem(
                1,
                "755"@,
                "Report Type Code"@,
                ElementUsage::Required,
                DataType::ID,
                Some(2u32),
                Some(2u32),
                Some(seq!["10"@, "25"@, "35"@]),
                None,
            ),
            gelem(
                2,
                "756"@,
                "Report Transmission Code"@,
                ElementUsage::Optional,
                DataType::ID,
                Some(1u32),
                Some(2u32),
                Some(seq!["BY"@, "CF"@, "EL"@]),
                None,
            ),
            gelem(
                3,
                "757"@,
                "Report Copies Needed"@,
                ElementUsage::Optional,
                DataType::N,
                Some(1u32),
                Some(2u32),
                None,
                None,
            ),
        ],
        7,
        Some(35u32),
    )
}

/// The invoice guide: header, beginning segment and trailer.
pub open spec fn rules_810_v4010_segments() -> Seq<GuideSegmentView> {
    seq![
        gseg(
            "ST"@,
            "Transaction Set Header"@,
            SegmentUsage::Required,
            Some(1u32),
            seq![
                gelem(
                    1,
                    "143"@,
                    "Transaction Set Identifier Code"@,
                    ElementUsage::Required,
                    DataType::ID,
                    Some(3u32),
                    Some(3u32),
                    Some(seq!["810"@]),
                    None,
                ),
                gelem(
                    2,
                    "329"@,
                    "Transaction Set Control Number"@,
                    ElementUsage::Required,
                    DataType::AN,
                    Some(4u32),
                    Some(9u32),
                    None,
                    None,
                ),
            ],
            1,
            Some(10u32),
        ),
        gseg(
            "BIG"@,
            "Beginning Segment for Invoice"@,
            SegmentUsage::Required,
            Some(1u32),
            seq![
                gelem(
                    1,
                    "373"@,
                    "Date"@,
                    ElementUsage::Required,
                    DataType::DT,
                    Some(8u32),
                    Some(8u32),
                    None,
                    Some("CCYYMMDD"@),
                ),
                gelem(
                    2,
                    "76"@,
                    "Invoice Number"@,
                    ElementUsage::Required,
                    DataType::AN,
                    Some(1u32),
                    Some(22u32),
                    None,
                    None,
                ),
                gelem(
                    3,
                    "373"@,
                    "Date"@,
                    ElementUsage::Optional,
                    DataType::DT,
                    Some(8u32),
                    Some(8u32),
                    None,
                    Some("CCYYMMDD"@),
                ),
                gelem(
                    4,
                    "324"@,
                    "Purchase Order Number"@,
                    ElementUsage::Optional,
                    DataType::AN,
                    Some(1u32),
                    Some(22u32),
                    None,
                    None,
                ),
            ],
            2,
            Some(20u32),
        ),
        gseg(
            "SE"@,
            "Transaction Set Trailer"@,
            SegmentUsage::Required,
            Some(1u32),
            seq![
                gelem(
                    1,
                    "96"@,
                    "Number of Included Segments"@,
                    ElementUsage::Required,
                    DataType::N,
                    Some(1u32),
                    Some(10u32),
                    None,
                    None,
                ),
                gelem(
                    2,
                    "329"@,
                    "Transaction Set Control Number"@,
                    ElementUsage::Required,
                    DataType::AN,
                    Some(4u32),
                    Some(9u32),
                    None,
                    None,
                ),
            ],
            3,
            Some(200u32),
        ),
    ]
}

impl StandardRules {
    /// The purchase-order guide for the 4010 version.
    pub fn purchase_order_850_v4010() -> (r: EdiSchema)
        ensures
            r.version@ == "4010"@,
            r.transaction_set@ == "850"@,
            r.segments.deep_view() == rules_850_v4010_segments(),
    {
        let schema = SchemaBuilder::new("4010", "850", "Purchase Order").add_segment(
            SegmentBuilder::new("ST", "Transaction Set Header", SegmentUsage::Required, 1).sequence(
                10,
            ).max_repetitions(1).add_element(
                ElementBuilder::new(
                    1,
                    "143",
                    "Transaction Set Identifier Code",
                    ElementUsage::Required,
                    DataType::ID,
                ).length(3, 3).valid_codes(one_code("850")).build(),
            ).add_element(
                ElementBuilder::new(
                    2,
                    "329",
                    "Transaction Set Control Number",
                    ElementUsage::Required,
                    DataType::AN,
                ).length(4, 9).build(),
            ).add_element(
                ElementBuilder::new(
                    3,
                    "1705",
                    "Implementation Convention Reference",
                    ElementUsage::Optional,
                    DataType::AN,
                ).length(1, 35).build(),
            ).build(),
        ).add_segment(
            SegmentBuilder::new(
                "BEG",
                "Beginning Segment for Purchase Order",
                SegmentUsage::Required,
                2,
            ).sequence(20).max_repetitions(1).add_element(
                ElementBuilder::new(
                    1,
                    "353",
                    "Transaction Set Purpose Code",
                    ElementUsage::Required,
                    DataType::ID,
                ).length(2, 2).valid_codes(four_codes("00", "01", "04", "05")).build(),
            ).add_element(
                ElementBuilder::new(
                    2,
                    "92",
                    "Purchase Order Type Code",
                    ElementUsage::Required,
                    DataType::ID,
                ).length(2, 2).valid_codes(four_codes("SA", "KA", "NE", "RL")).build(),
            ).add_element(
                ElementBuilder::new(
                    3,
                    "324",
                    "Purchase Order Number",
                    ElementUsage::Required,
                    DataType::AN,
                ).length(1, 22).build(),
            ).add_element(
                ElementBuilder::new(4, "328", "Release Number", ElementUsage::Optional, DataType::AN)
                    .length(1, 30).build(),
            ).add_element(
                ElementBuilder::new(5, "373", "Date", ElementUsage::Required, DataType::DT).length(
                    8,
                    8,
                ).format("CCYYMMDD").build(),
            ).build(),
        ).add_segment(
            SegmentBuilder::new("N1", "Name", SegmentUsage::Optional, 3).sequence(30).max_repetitions(
                200,
            ).add_element(
                ElementBuilder::new(
                    1,
                    "98",
                    "Entity Identifier Code",
                    ElementUsage::Required,
                    DataType::ID,
                ).length(2, 3).valid_codes(six_codes("BY", "ST", "VN", "SU", "BT", "RI")).build(),
            ).add_element(
                ElementBuilder::new(2, "93", "Name", ElementUsage::Optional, DataType::AN).length(
                    1,
                    60,
                ).build(),
            ).add_element(
                ElementBuilder::new(
                    3,
                    "66",
                    "Identification Code Qualifier",
                    ElementUsage::Optional,
                    DataType::ID,
                ).length(1, 2).valid_codes(three_codes("1", "9", "92")).build(),
            ).add_element(
                ElementBuilder::new(
                    4,
                    "67",
                    "Identification Code",
                    ElementUsage::Optional,
                    DataType::AN,
                ).length(2, 80).build(),
            ).build(),
        ).add_segment(
            SegmentBuilder::new("PO1", "Baseline Item Data", SegmentUsage::Optional, 4).sequence(
                100,
            ).max_repetitions(100000).add_element(
                ElementBuilder::new(
                    1,
                    "350",
                    "Assigned Identification",
                    ElementUsage::Optional,
                    DataType::AN,
                ).length(1, 20).build(),
            ).add_element(
                ElementBuilder::new(2, "330", "Quantity Ordered", ElementUsage::Optional, DataType::R)
                    .length(1, 15).build(),
            ).add_element(
                ElementBuilder::new(
                    3,
                    "355",
                    "Unit or Basis for Measurement Code",
                    ElementUsage::Optional,
                    DataType::ID,
                ).length(2, 2).valid_codes(six_codes("EA", "CA", "LB", "KG", "PC", "BX")).build(),
            ).add_element(
                ElementBuilder::new(4, "212", "Unit Price", ElementUsage::Optional, DataType::R)
                    .length(1, 17).build(),
            ).add_element(
                ElementBuilder::new(
                    5,
                    "639",
                    "Basis of Unit Price Code",
                    ElementUsage::Optional,
                    DataType::ID,
                ).length(2, 2).valid_codes(three_codes("PE", "PP", "PK")).build(),
            ).build(),
        ).add_segment(
            SegmentBuilder::new("CTT", "Transaction Totals", SegmentUsage::Optional, 5).sequence(
                200,
            ).max_repetitions(1).add_element(
                ElementBuilder::new(
                    1,
                    "354",
                    "Number of Line Items",
                    ElementUsage::Required,
                    DataType::N,
                ).length(1, 6).build(),
            ).add_element(
                ElementBuilder::new(2, "347", "Hash Total", ElementUsage::Optional, DataType::R)
                    .length(1, 10).build(),
            ).build(),
        ).add_segment(
            SegmentBuilder::new("SE", "Transaction Set Trailer", SegmentUsage::Required, 6).sequence(
                210,
            ).max_repetitions(1).add_element(
                ElementBuilder::new(
                    1,
                    "96",
                    "Number of Included Segments",
                    ElementUsage::Required,
                    DataType::N,
                ).length(1, 10).build(),
            ).add_element(
                ElementBuilder::new(
                    2,
                    "329",
                    "Transaction Set Control Number",
                    ElementUsage::Required,
                    DataType::AN,
                ).length(4, 9).build(),
            ).build(),
        ).build();
        proof {
            assert(schema.segments.deep_view() =~~= rules_850_v4010_segments());
        }
        schema
    }

    /// The purchase-order guide for the 5010 version: the 4010 layout with
    /// the paperwork segment added.
    pub fn purchase_order_850_v5010() -> (r: EdiSchema)
        ensures
            r.version@ == "5010"@,
            r.transaction_set@ == "850"@,
            r.segments.deep_view() == rules_850_v4010_segments().push(rules_850_pwk_segment()),
    {
        let mut schema = Self::purchase_order_850_v4010();
        schema.version = String::from_str("5010");
        let ghost prev = schema.segments.deep_view();
        let pwk = SegmentBuilder::new("PWK", "Paperwork", SegmentUsage::Optional, 7).sequence(
            35,
        ).max_repetitions(25).add_element(
            ElementBuilder::new(1, "755", "Report Type Code", ElementUsage::Required, DataType::ID)
                .length(2, 2).valid_codes(three_codes("10", "25", "35")).build(),
        ).add_element(
            ElementBuilder::new(
                2,
                "756",
                "Report Transmission Code",
                ElementUsage::Optional,
                DataType::ID,
            ).length(1, 2).valid_codes(three_codes("BY", "CF", "EL")).build(),
        ).add_element(
            ElementBuilder::new(
                3,
                "757",
                "Report Copies Needed",
                ElementUsage::Optional,
                DataType::N,
            ).length(1, 2).build(),
        ).build();
        proof {
            assert(pwk@ =~~= rules_850_pwk_segment());
        }
        let ghost pwkv = pwk@;
        schema.segments.push(pwk);
        proof {
            assert(schema.segments.deep_view() =~= prev.push(pwkv));
        }
        schema
    }

    /// The invoice guide for the 4010 version.
    pub fn invoice_810_v4010() -> (r: EdiSchema)
        ensures
            r.version@ == "4010"@,
            r.transaction_set@ == "810"@,
            r.segments.deep_view() == rules_810_v4010_segments(),
    {
        let schema = SchemaBuilder::new("4010", "810", "Invoice").add_segment(
            SegmentBuilder::new("ST", "Transaction Set Header", SegmentUsage::Required, 1).sequence(
                10,
            ).max_repetitions(1).add_element(
                ElementBuilder::new(
                    1,
                    "143",
                    "Transaction Set Identifier Code",
                    ElementUsage::Required,
                    DataType::ID,
                ).length(3, 3).valid_codes(one_code("810")).build(),
            ).add_element(
                ElementBuilder::new(
                    2,
                    "329",
                    "Transaction Set Control Number",
                    ElementUsage::Required,
                    DataType::AN,
                ).length(4, 9).build(),
            ).build(),
        ).add_segment(
            SegmentBuilder::new(
                "BIG",
                "Beginning Segment for Invoice",
                SegmentUsage::Required,
                2,
            ).sequence(20).max_repetitions(1).add_element(
                ElementBuilder::new(1, "373", "Date", ElementUsage::Required, DataType::DT).length(
                    8,
                    8,
                ).format("CCYYMMDD").build(),
            ).add_element(
                ElementBuilder::new(2, "76", "Invoice Number", ElementUsage::Required, DataType::AN)
                    .length(1, 22).build(),
            ).add_element(
                ElementBuilder::new(3, "373", "Date", ElementUsage::Optional, DataType::DT).length(
                    8,
                    8,
                ).format("CCYYMMDD").build(),
            ).add_element(
                ElementBuilder::new(
                    4,
                    "324",
                    "Purchase Order Number",
                    ElementUsage::Optional,
                    DataType::AN,
                ).length(1, 22).build(),
            ).build(),
        ).add_segment(
            SegmentBuilder::new("SE", "Transaction Set Trailer", SegmentUsage::Required, 3).sequence(
                200,
            ).max_repetitions(1).add_element(
                ElementBuilder::new(
                    1,
                    "96",
                    "Number of Included Segments",
                    ElementUsage::Required,
                    DataType::N,
                ).length(1, 10).build(),
            ).add_element(
                ElementBuilder::new(
                    2,
                    "329",
                    "Transaction Set Control Number",
                    ElementUsage::Required,
                    DataType::AN,
                ).length(4, 9).build(),
            ).build(),
        ).build();
        proof {
            assert(schema.segments.deep_view() =~~= rules_810_v4010_segments());
        }
        schema
    }
}

fn one_code(a: &str) -> (r: Vec<String>)
    ensures
        r.deep_view() =~= seq![a@],
{
    let mut r: Vec<String> = Vec::new();
    r.push(String::from_str(a));
    proof {
        assert(r.deep_view() =~= seq![a@]);
    }
    r
}

fn three_codes(a: &str, b: &str, c: &str) -> (r: Vec<String>)
    ensures
        r.deep_view() =~= seq![a@, b@, c@],
{
    let mut r: Vec<String> = Vec::new();
    r.push(String::from_str(a));
    r.push(String::from_str(b));
    r.push(String::from_str(c));
    proof {
        assert(r.deep_view() =~= seq![a@, b@, c@]);
    }
    r
}

fn four_codes(a: &str, b: &str, c: &str, d: &str) -> (r: Vec<String>)
    ensures
        r.deep_view() =~= seq![a@, b@, c@, d@],
{
    let mut r: Vec<String> = Vec::new();
    r.push(String::from_str(a));
    r.push(String::from_str(b));
    r.push(String::from_str(c));
    r.push(String::from_str(d));
    proof {
        assert(r.deep_view() =~= seq![a@, b@, c@, d@]);
    }
    r
}

fn six_codes(a: &str, b: &str, c: &str, d: &str, e: &str, f: &str) -> (r: Vec<String>)
    ensures
        r.deep_view() =~= seq![a@, b@, c@, d@, e@, f@],
{
    let mut r: Vec<String> = Vec::new();
    r.push(String::from_str(a));
    r.push(String::from_str(b));
    r.push(String::from_str(c));
    r.push(String::from_str(d));
    r.push(String::from_str(e));
    r.push(String::from_str(f));
    proof {
        assert(r.deep_view() =~= seq![a@, b@, c@, d@, e@, f@]);
    }
    r
}

} // verus!
