use crate::models::segment::{Segment, SegmentView};
use crate::models::transaction::{Transaction, TransactionView};
use crate::models::version::{X12Version, X12VersionView};
use vstd::prelude::*;

verus! {

/// The root of the control hierarchy: the interchange header, the optional
/// interchange trailer, the functional groups between them, and the protocol
/// version read from the header.
#[derive(Debug, PartialEq)]
pub struct InterchangeControl {
    pub isa_segment: Segment,
    pub iea_segment: Option<Segment>,
    pub functional_groups: Vec<FunctionalGroup>,
    pub version: X12Version,
}

/// A batch of transactions bounded by a group header and an optional group
/// trailer.
#[derive(Debug, PartialEq)]
pub struct FunctionalGroup {
    pub gs_segment: Segment,
    pub ge_segment: Option<Segment>,
    pub transactions: Vec<Transaction>,
}

/// The mathematical content of a `FunctionalGroup`.
#[verifier::ext_equal]
pub struct FunctionalGroupView {
    pub gs_segment: SegmentView,
    pub ge_segment: Option<SegmentView>,
    pub transactions: Seq<TransactionView>,
}

impl View for FunctionalGroup {
    type V = FunctionalGroupView;

    open spec fn view(&self) -> FunctionalGroupView {
        FunctionalGroupView {
            gs_segment: self.gs_segment@,
            ge_segment: self.ge_segment.deep_view(),
            transactions: self.transactions.deep_view(),
        }
    }
}

impl DeepView for FunctionalGroup {
    type V = FunctionalGroupView;

    open spec fn deep_view(&self) -> FunctionalGroupView {
        self.view()
    }
}

/// The mathematical content of an `InterchangeControl`.
#[verifier::ext_equal]
pub struct InterchangeControlView {
    pub isa_segment: SegmentView,
    pub iea_segment: Option<SegmentView>,
    pub functional_groups: Seq<FunctionalGroupView>,
    pub version: X12VersionView,
}

impl View for InterchangeControl {
    type V = InterchangeControlView;

    open spec fn view(&self) -> InterchangeControlView {
        InterchangeControlView {
            isa_segment: self.isa_segment@,
            iea_segment: self.iea_segment.deep_view(),
            functional_groups: self.functional_groups.deep_view(),
            version: self.version@,
        }
    }
}

} // verus!
