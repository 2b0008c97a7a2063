//! Failures: a message, and what caused it.
use vstd::prelude::*;
use vstd::string::*;

verus! {

/// A failure: its own message, and the messages of its causes as one text.
#[derive(Debug, PartialEq, Eq)]
pub struct BridgeError {
    pub message: String,
    pub cause: Option<String>,
}

/// The model of [`BridgeError`].
#[verifier::ext_equal]
pub struct BridgeErrorV {
    pub message: Seq<char>,
    pub cause: Option<Seq<char>>,
}

impl View for BridgeError {
    type V = BridgeErrorV;

    open spec fn view(&self) -> BridgeErrorV {
        BridgeErrorV { message: self.message@, cause: self.cause.deep_view() }
    }
}

impl DeepView for BridgeError {
    type V = BridgeErrorV;

    open spec fn deep_view(&self) -> BridgeErrorV {
        self@
    }
}

/// A failure without a further cause.
pub open spec fn failure(message: Seq<char>) -> BridgeErrorV {
    BridgeErrorV { message, cause: None }
}

/// The whole text of a failure: its message, then its causes.
pub open spec fn full_text(e: BridgeErrorV) -> Seq<char> {
    match e.cause {
        Some(cause) => e.message + ": "@ + cause,
        None => e.message,
    }
}

/// A failure put into a context.
pub open spec fn in_context(context: Seq<char>, e: BridgeErrorV) -> BridgeErrorV {
    BridgeErrorV { message: context, cause: Some(full_text(e)) }
}

impl BridgeError {
    /// A failure without a further cause.
    pub fn new(message: &str) -> (r: BridgeError)
        ensures
            r@ == failure(message@),
    {
        BridgeError { message: message.to_owned(), cause: None }
    }

    /// The whole text of the failure: its message, then its causes.
    pub fn full(&self) -> (r: String)
        ensures
            r@ == full_text(self@),
    {
        let mut text: String = self.message.clone();
        match &self.cause {
            Some(cause) => {
                text.append(": ");
                text.append(cause.as_str());
            },
            None => {},
        }
        text
    }

    /// The failure put into a context.
    pub fn context(self, context: &str) -> (r: BridgeError)
        ensures
            r@ == in_context(context@, self@),
    {
        BridgeError { message: context.to_owned(), cause: Some(self.full()) }
    }
}

/// What a call gave, as a model: the model of its value, or of its failure.
pub open spec fn outcome<T: DeepView>(r: Result<T, BridgeError>) -> Result<T::V, BridgeErrorV> {
    match r {
        Ok(v) => Ok(v.deep_view()),
        Err(e) => Err(e@),
    }
}

} // verus!
