use vstd::prelude::*;
use crate::message::ErrorMessage;

verus! {

/// A storage failure of no particular kind, kept as what can be asked of any
/// error: how it renders, and the failure that caused it.
#[derive(Debug)]
pub struct StorageError {
    pub message: String,
    pub source: Option<Box<StorageError>>,
}

impl StorageError {
    /// A failure that renders as `message` and has no cause.
    pub fn new(message: String) -> (r: Self)
        ensures
            r.message@ == message@,
            r.source is None,
    {
        StorageError { message, source: None }
    }

    /// A failure that renders as `message` and was caused by `source`.
    pub fn with_source(message: String, source: StorageError) -> (r: Self)
        ensures
            r.message@ == message@,
            r.source == Some(Box::new(source)),
    {
        StorageError { message, source: Some(Box::new(source)) }
    }

    /// The failure that caused this one, if any.
    pub fn source(&self) -> (r: Option<&StorageError>)
        ensures
            match self.source {
                Some(s) => r == Some(&*s),
                None => r is None,
            },
    {
        match &self.source {
            Some(s) => Some(&**s),
            None => None,
        }
    }
}

impl ErrorMessage for StorageError {
    open spec fn renders_as(&self, text: Seq<char>) -> bool {
        text == self.message@
    }

    fn message(&self) -> (r: String) {
        self.message.clone()
    }
}

} // verus!
