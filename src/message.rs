use vstd::prelude::*;

verus! {

/// A value that renders itself as text, as an error does for diagnostics.
pub trait ErrorMessage {
    /// Whether `text` is a rendering of this value.
    spec fn renders_as(&self, text: Seq<char>) -> bool;

    /// Renders this value as text.
    fn message(&self) -> (r: String)
        ensures
            self.renders_as(r@),
    ;
}

/// The backend error type of a backend that has no errors of its own.
/// It has no values.
pub type Never = std::convert::Infallible;

// `Never` has no values, so nothing is ever said of one.
impl ErrorMessage for Never {
    open spec fn renders_as(&self, text: Seq<char>) -> bool {
        true
    }

    fn message(&self) -> (r: String) {
        String::new()
    }
}

/// What follows `label` in `text`.
pub open spec fn after(label: Seq<char>, text: Seq<char>) -> Seq<char> {
    text.subrange(label.len() as int, text.len() as int)
}

/// A text begins with `label` and goes on with `rest` exactly when it is
/// `label` followed by `rest`.
pub proof fn lemma_label_then(label: Seq<char>, text: Seq<char>, rest: Seq<char>)
    ensures
        (label.is_prefix_of(text) && after(label, text) == rest) <==> text == label + rest,
        label.is_prefix_of(label + rest),
        after(label, label + rest) == rest,
{
    assert((label + rest).subrange(0, label.len() as int) =~= label);
    assert(after(label, label + rest) =~= rest);
    if label.is_prefix_of(text) && after(label, text) == rest {
        assert(text =~= label + rest);
    }
}

/// `label` followed by `cause`.
pub fn join(label: &str, cause: &str) -> (r: String)
    ensures
        r@ == label@ + cause@,
        label@.is_prefix_of(r@),
        after(label@, r@) == cause@,
{
    let r = String::from_str(label).concat(cause);
    assert(r@.subrange(0, label@.len() as int) =~= label@);
    assert(after(label@, r@) =~= cause@);
    r
}

} // verus!
