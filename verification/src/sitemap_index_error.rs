//! The rules that a sitemap index can break.

use vstd::prelude::*;
use crate::text::{decimal_digits, decimal_string};

verus! {

/// The reason why a sitemap index was refused.
#[derive(Debug, Clone, Copy, PartialEq, Eq, Structural)]
pub enum SitemapIndexError {
    /// The index holds more than 50,000 sitemaps; holds their number.
    TooManySitemaps(usize),
}

impl SitemapIndexError {
    /// The message for a reader: the rule, then the offending value.
    pub open spec fn message_text(self) -> Seq<char> {
        match self {
            SitemapIndexError::TooManySitemaps(count) => {
                "must not contain more than 50,000 sitemaps: "@ + decimal_digits(count as nat)
            },
        }
    }

    /// Writes the message.
    pub fn message(&self) -> (res: String)
        ensures
            res@ == self.message_text(),
    {
        match self {
            SitemapIndexError::TooManySitemaps(count) => {
                String::from_str("must not contain more than 50,000 sitemaps: ").concat(
                    decimal_string(*count as u128).as_str(),
                )
            },
        }
    }
}

} // verus!
