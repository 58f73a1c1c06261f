use vstd::prelude::*;

verus! {

/// A named grouping of operations in the loaded document.
pub struct Tag {
    pub name: String,
}

/// The part of the loaded OpenAPI document that the panes read: its tags,
/// in document order.
pub struct Specification {
    pub tags: Vec<Tag>,
}

impl Specification {
    /// The tag names, in order.
    pub open spec fn tag_names(&self) -> Seq<Seq<char>> {
        self.tags@.map_values(|t: Tag| t.name@)
    }
}

/// The single source of truth shared by all panes: the document and the
/// current selection.
pub struct State {
    pub openapi_spec: Specification,
    pub active_tag_name: Option<String>,
    pub active_operation_index: usize,
}

/// The view of an optional name.
pub open spec fn name_view(o: Option<String>) -> Option<Seq<char>> {
    match o {
        Some(s) => Some(s@),
        None => None,
    }
}

impl State {
    /// The selection is "all tags" or names a tag of the document.
    pub open spec fn wf(&self) -> bool {
        match self.active_tag_name {
            None => true,
            Some(s) => self.openapi_spec.tag_names().contains(s@),
        }
    }

    /// The state right after a document is loaded: all tags, first operation.
    pub fn new(openapi_spec: Specification) -> (r: State)
        ensures
            r.openapi_spec == openapi_spec,
            r.active_tag_name is None,
            r.active_operation_index == 0,
            r.wf(),
    {
        State { openapi_spec, active_tag_name: None, active_operation_index: 0 }
    }
}

} // verus!
