//! URL validation for interactively collected connection arguments: a
//! configurable invalid-input message around a URL well-formedness
//! check.

use vstd::prelude::*;

verus! {

/// Whether a string parses as a URL: a function of the input alone.
pub uninterp spec fn url_parse_ok(s: Seq<char>) -> bool;

/// Relies on `url::Url::parse`: whether the input is a well-formed URL
/// is decided by the input alone.
#[verifier::external_body]
fn parse_url_ok(input: &str) -> (r: bool)
    ensures
        r == url_parse_ok(input@),
{
    url::Url::parse(input).is_ok()
}

/// What the validator says of one input.
#[derive(Debug)]
pub enum Validation {
    /// The input is a well-formed URL.
    Valid,
    /// The input is not: shown with the validator's message.
    Invalid { message: String },
}

/// Validator that accepts exactly the well-formed URLs, with a
/// configurable rejection message.
#[derive(Debug, Clone)]
pub struct UrlValidator {
    pub message: String,
}

impl UrlValidator {
    /// A validator with the given rejection message.
    pub fn new(message: String) -> (r: UrlValidator)
        ensures
            r.message@ == message@,
    {
        UrlValidator { message }
    }

    /// Accepts exactly the inputs that parse as a URL; any other input
    /// is rejected with this validator's message.
    pub fn validate(&self, input: &str) -> (r: Validation)
        ensures
            url_parse_ok(input@) ==> r is Valid,
            !url_parse_ok(input@) ==> (r matches Validation::Invalid { message } && message@
                == self.message@),
    {
        if parse_url_ok(input) {
            Validation::Valid
        } else {
            Validation::Invalid { message: self.message.clone() }
        }
    }
}

impl Default for UrlValidator {
    /// A validator with the stock rejection message.
    fn default() -> (r: UrlValidator)
        ensures
            r.message@ == "Invalid URL format"@,
    {
        UrlValidator { message: String::from_str("Invalid URL format") }
    }
}

} // verus!
