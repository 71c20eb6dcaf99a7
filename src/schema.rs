//! Capability contracts for metadata attached to schema objects.

use vstd::prelude::*;
use vstd::string::*;

verus! {

/// A piece of metadata that the code generator looks up by a stable name.
pub trait Annotation: Sized {
    /// The name under which the generator retrieves this annotation.
    spec fn spec_name(&self) -> Seq<char>;

    fn name(&self) -> (r: String)
        ensures
            r@ == self.spec_name(),
    ;
}

/// Folds two annotations of the same kind into one; the argument wins
/// on every field it sets.
pub trait Merger: Sized {
    spec fn spec_merge(&self, other: Self) -> Self;

    fn merge(&self, other: Self) -> (r: Self)
        ensures
            r == self.spec_merge(other),
    ;
}

/// Built-in schema annotation that carries the schema's doc comment.
#[derive(Debug)]
pub struct CommentAnnotation {
    pub text: String,
}

impl Clone for CommentAnnotation {
    fn clone(&self) -> (r: CommentAnnotation)
        ensures
            r == *self,
    {
        CommentAnnotation { text: self.text.clone() }
    }
}

impl Annotation for CommentAnnotation {
    open spec fn spec_name(&self) -> Seq<char> {
        "Comment"@
    }

    fn name(&self) -> (r: String) {
        String::from_str("Comment")
    }
}

impl CommentAnnotation {
    pub fn new(text: String) -> (r: CommentAnnotation)
        ensures
            r.text == text,
    {
        CommentAnnotation { text }
    }
}

} // verus!
