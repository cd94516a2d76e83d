//! The rules that a video can break.

use vstd::prelude::*;
use crate::decimal::Decimal;
use crate::text::{decimal_digits, decimal_string};

verus! {

/// The reason why a video was refused.
#[derive(Debug, Clone, Copy, PartialEq, Eq, Structural)]
pub enum VideoError {
    /// The description is longer than 2048 bytes; holds its length.
    DescriptionTooLong(usize),
    /// The duration is below 1 second; holds the duration.
    DurationTooShort(u16),
    /// The duration is above 28,800 seconds (8 hours); holds the duration.
    DurationTooLong(u16),
    /// The rating is below 0; holds the rating.
    RatingTooLow(Decimal),
    /// The rating is above 5; holds the rating.
    RatingTooHigh(Decimal),
    /// The uploader's name is longer than 255 bytes; holds its length.
    UploaderNameTooLong(usize),
    /// There are more than 32 tags; holds their number.
    TooManyTags(usize),
}

impl VideoError {
    /// The message for a reader: the rule, then the offending value.
    pub open spec fn message_text(self) -> Seq<char> {
        match self {
            VideoError::DescriptionTooLong(count) => {
                "description cannot be longer than 2048 characters: "@ + decimal_digits(
                    count as nat,
                )
            },
            VideoError::DurationTooShort(duration) => {
                "duration is below 1 (second): "@ + decimal_digits(duration as nat)
            },
            VideoError::DurationTooLong(duration) => {
                "duration is above 28,800 (seconds): "@ + decimal_digits(duration as nat)
            },
            VideoError::RatingTooLow(rating) => "rating is below 0.0: "@ + rating.text(),
            VideoError::RatingTooHigh(rating) => "rating is above 5.0: "@ + rating.text(),
            VideoError::UploaderNameTooLong(count) => {
                "uploader name is longer than 255 characters: "@ + decimal_digits(count as nat)
            },
            VideoError::TooManyTags(count) => {
                "must not have more than 32 tags: "@ + decimal_digits(count as nat)
            },
        }
    }

    /// Writes the message.
    pub fn message(&self) -> (res: String)
        ensures
            res@ == self.message_text(),
    {
        match self {
            VideoError::DescriptionTooLong(count) => {
                String::from_str("description cannot be longer than 2048 characters: ").concat(
                    decimal_string(*count as u128).as_str(),
                )
            },
            VideoError::DurationTooShort(duration) => {
                String::from_str("duration is below 1 (second): ").concat(
                    decimal_string(*duration as u128).as_str(),
                )
            },
            VideoError::DurationTooLong(duration) => {
                String::from_str("duration is above 28,800 (seconds): ").concat(
                    decimal_string(*duration as u128).as_str(),
                )
            },
            VideoError::RatingTooLow(rating) => {
                String::from_str("rating is below 0.0: ").concat(rating.to_text().as_str())
            },
            VideoError::RatingTooHigh(rating) => {
                String::from_str("rating is above 5.0: ").concat(rating.to_text().as_str())
            },
            VideoError::UploaderNameTooLong(count) => {
                String::from_str("uploader name is longer than 255 characters: ").concat(
                    decimal_string(*count as u128).as_str(),
                )
            },
            VideoError::TooManyTags(count) => {
                String::from_str("must not have more than 32 tags: ").concat(
                    decimal_string(*count as u128).as_str(),
                )
            },
        }
    }
}

} // verus!
