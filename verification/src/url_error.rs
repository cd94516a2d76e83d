//! The rules that a URL entry can break.

use vstd::prelude::*;
use crate::decimal::Decimal;
use crate::text::{decimal_digits, decimal_string};

verus! {

/// The reason why a URL entry was refused.
#[derive(Debug)]
pub enum UrlError {
    /// The location is 2,048 bytes long or longer; holds the location.
    /// No rule of this library gives this reason: it is there for callers
    /// that check locations themselves.
    LocationTooLong(String),
    /// The priority is below 0; holds the priority.
    PriorityTooLow(Decimal),
    /// The priority is above 1; holds the priority.
    PriorityTooHigh(Decimal),
    /// There are more than 1,000 images; holds their number.
    TooManyImages(usize),
    /// Two alternate links name the same language; holds the language and
    /// the address of the later of the two.
    DuplicateAlternateHreflangs(String, String),
}

/// What a [`UrlError`] holds.
pub enum UrlErrorView {
    LocationTooLong(Seq<char>),
    PriorityTooLow(Decimal),
    PriorityTooHigh(Decimal),
    TooManyImages(usize),
    DuplicateAlternateHreflangs(Seq<char>, Seq<char>),
}

impl View for UrlError {
    type V = UrlErrorView;

    open spec fn view(&self) -> UrlErrorView {
        match self {
            UrlError::LocationTooLong(location) => UrlErrorView::LocationTooLong(location@),
            UrlError::PriorityTooLow(priority) => UrlErrorView::PriorityTooLow(*priority),
            UrlError::PriorityTooHigh(priority) => UrlErrorView::PriorityTooHigh(*priority),
            UrlError::TooManyImages(count) => UrlErrorView::TooManyImages(*count),
            UrlError::DuplicateAlternateHreflangs(hreflang, href) => {
                UrlErrorView::DuplicateAlternateHreflangs(hreflang@, href@)
            },
        }
    }
}

impl UrlErrorView {
    /// The message for a reader: the rule, then the offending value.
    pub open spec fn message_text(self) -> Seq<char> {
        match self {
            UrlErrorView::LocationTooLong(location) => {
                "location must be less than 2,048 characters: "@ + location
            },
            UrlErrorView::PriorityTooLow(priority) => {
                "priority must not be below 0.0: "@ + priority.text()
            },
            UrlErrorView::PriorityTooHigh(priority) => {
                "priority must not be above 1.0: "@ + priority.text()
            },
            UrlErrorView::TooManyImages(count) => {
                "must not contain more tha 1,000 images: "@ + decimal_digits(count as nat)
            },
            UrlErrorView::DuplicateAlternateHreflangs(hreflang, href) => {
                "alternate hreflangs must be unique: "@ + hreflang + " "@ + href
            },
        }
    }
}

impl UrlError {
    /// Writes the message.
    pub fn message(&self) -> (res: String)
        ensures
            res@ == self@.message_text(),
    {
        match self {
            UrlError::LocationTooLong(location) => {
                String::from_str("location must be less than 2,048 characters: ").concat(
                    location.as_str(),
                )
            },
            UrlError::PriorityTooLow(priority) => {
                String::from_str("priority must not be below 0.0: ").concat(
                    priority.to_text().as_str(),
                )
            },
            UrlError::PriorityTooHigh(priority) => {
                String::from_str("priority must not be above 1.0: ").concat(
                    priority.to_text().as_str(),
                )
            },
            UrlError::TooManyImages(count) => {
                String::from_str("must not contain more tha 1,000 images: ").concat(
                    decimal_string(*count as u128).as_str(),
                )
            },
            UrlError::DuplicateAlternateHreflangs(hreflang, href) => {
                String::from_str("alternate hreflangs must be unique: ").concat(
                    hreflang.as_str(),
                ).concat(" ").concat(href.as_str())
            },
        }
    }
}

} // verus!
