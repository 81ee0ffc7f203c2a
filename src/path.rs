use vstd::prelude::*;
use crate::message::ErrorMessage;

verus! {

/// A failure reported by the request path parser, with its own message.
#[derive(Debug)]
pub struct ParseS3PathError {
    pub message: String,
}

impl ParseS3PathError {
    /// A path failure that renders as `message`.
    pub fn new(message: String) -> (r: Self)
        ensures
            r.message@ == message@,
    {
        ParseS3PathError { message }
    }
}

impl ErrorMessage for ParseS3PathError {
    open spec fn renders_as(&self, text: Seq<char>) -> bool {
        text == self.message@
    }

    fn message(&self) -> (r: String) {
        self.message.clone()
    }
}

} // verus!
