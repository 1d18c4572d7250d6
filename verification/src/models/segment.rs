use vstd::prelude::*;

verus! {

/// One delimited record: a segment identifier (e.g. "BEG") plus its ordered
/// element values.  An empty string is an absent-but-placeheld element.
#[derive(Debug, PartialEq)]
pub struct Segment {
    pub id: String,
    pub elements: Vec<String>,
}

/// The mathematical content of a `Segment`.
#[verifier::ext_equal]
pub struct SegmentView {
    pub id: Seq<char>,
    pub elements: Seq<Seq<char>>,
}

impl View for Segment {
    type V = SegmentView;

    open spec fn view(&self) -> SegmentView {
        SegmentView { id: self.id@, elements: self.elements.deep_view() }
    }
}

impl DeepView for Segment {
    type V = SegmentView;

    open spec fn deep_view(&self) -> SegmentView {
        self.view()
    }
}

impl Clone for Segment {
    fn clone(&self) -> (r: Self)
        ensures
            r@ == self@,
    {
        Segment { id: self.id.clone(), elements: crate::utils::clone_string_vec(&self.elements) }
    }
}

impl Segment {
    pub fn new(id: String, elements: Vec<String>) -> (r: Self)
        ensures
            r@.id == id@,
            r@.elements == elements.deep_view(),
    {
        Segment { id, elements }
    }
}

} // verus!
