//! Metadata attached to a single edge.

use vstd::prelude::*;
use vstd::string::*;
use crate::schema;

verus! {

/// Edge-level annotation; `struct_tag` overrides the struct tag of the
/// generated `Edges` field.
#[derive(Debug)]
pub struct Annotation {
    pub struct_tag: String,
}

impl Clone for Annotation {
    fn clone(&self) -> (r: Annotation)
        ensures
            r == *self,
    {
        Annotation { struct_tag: self.struct_tag.clone() }
    }
}

impl schema::Annotation for Annotation {
    open spec fn spec_name(&self) -> Seq<char> {
        "Edges"@
    }

    fn name(&self) -> (r: String) {
        String::from_str("Edges")
    }
}

impl schema::Merger for Annotation {
    open spec fn spec_merge(&self, other: Self) -> Self {
        Annotation { struct_tag: other.struct_tag }
    }

    fn merge(&self, other: Self) -> (r: Self) {
        Annotation { struct_tag: other.struct_tag }
    }
}

} // verus!
