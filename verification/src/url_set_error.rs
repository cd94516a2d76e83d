//! The rules that a URL set can break.

use vstd::prelude::*;
use crate::text::{decimal_digits, decimal_string};

verus! {

/// The reason why a URL set was refused.
#[derive(Debug, Clone, Copy, PartialEq, Eq, Structural)]
pub enum UrlSetError {
    /// The set holds more than 50,000 entries; holds their number.
    TooManyUrls(usize),
    /// An entry carries news and the set holds more than 1,000 entries;
    /// holds their number.
    TooMuchNews(usize),
}

impl UrlSetError {
    /// The message for a reader: the rule, then the offending value.
    pub open spec fn message_text(self) -> Seq<char> {
        match self {
            UrlSetError::TooManyUrls(count) => {
                "must not contain more than 50,000 URLs: "@ + decimal_digits(count as nat)
            },
            UrlSetError::TooMuchNews(count) => {
                "must not contains more than 1,000 news URLs: "@ + decimal_digits(count as nat)
            },
        }
    }

    /// Writes the message.
    pub fn message(&self) -> (res: String)
        ensures
            res@ == self.message_text(),
    {
        match self {
            UrlSetError::TooManyUrls(count) => {
                String::from_str("must not contain more than 50,000 URLs: ").concat(
                    decimal_string(*count as u128).as_str(),
                )
            },
            UrlSetError::TooMuchNews(count) => {
                String::from_str("must not contains more than 1,000 news URLs: ").concat(
                    decimal_string(*count as u128).as_str(),
                )
            },
        }
    }
}

} // verus!
