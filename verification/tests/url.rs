use chrono::{DateTime, FixedOffset, Utc};
use sitemap_rs::image::Image;
use sitemap_rs::url::{default_priority, ChangeFrequency, Url, UrlLink};
use sitemap_rs::url_error::UrlError;
use sitemap_rs::timestamp::Timestamp;
use sitemap_rs::decimal::Decimal;

fn timestamp(moment: DateTime<FixedOffset>) -> Timestamp {
    Timestamp::new(
        moment.timestamp(),
        moment.timestamp_subsec_nanos(),
        moment.offset().local_minus_utc(),
    )
    .unwrap()
}

fn decimal(number: f32) -> Decimal {
    Decimal::parse(&number.to_string()).unwrap()
}

fn float(number: Decimal) -> f32 {
    number.to_text().parse().unwrap()
}

#[test]
fn url_test_constructor_only_required_fields() {
    let url_result: Result<Url, UrlError> = Url::new(
        String::from("https://www.toddgriffin.me/"),
        vec![],
        None,
        None,
        None,
        None,
        None,
        None,
    );
    assert!(url_result.is_ok());
}

#[test]
fn url_test_constructor_all_normal_fields() {
    let url_result: Result<Url, UrlError> = Url::new(
        String::from("https://www.toddgriffin.me/"),
        vec![],
        Some(timestamp(DateTime::from(Utc::now()))),
        Some(ChangeFrequency::Weekly),
        Some(default_priority()),
        None,
        None,
        None,
    );
    assert!(url_result.is_ok());
}

#[test]
fn url_test_constructor_priority_too_low() {
    let url_result: Result<Url, UrlError> = Url::new(
        String::from("https://www.toddgriffin.me/"),
        vec![],
        Some(timestamp(DateTime::from(Utc::now()))),
        Some(ChangeFrequency::Weekly),
        Some(decimal(-1.0)),
        None,
        None,
        None,
    );
    match url_result {
        Ok(_) => panic!("Returned a URL!"),
        Err(e) => match e {
            UrlError::LocationTooLong(_) => panic!("Returned LocationTooLong!"),
            UrlError::PriorityTooLow(priority) => {
                let expected_priority: f32 = -1.0;
                assert!((float(priority) - expected_priority).abs() < f32::EPSILON);
            }
            UrlError::PriorityTooHigh(_) => panic!("Returned PriorityTooHigh!"),
            UrlError::TooManyImages(_) => panic!("Returned TooManyImages!"),
            UrlError::DuplicateAlternateHreflangs(..) => {
                panic!("Returned DuplicateAlternateHreflangs!");
            }
        },
    }
}

#[test]
fn url_test_constructor_priority_too_high() {
    let url_result: Result<Url, UrlError> = Url::new(
        String::from("https://www.toddgriffin.me/"),
        vec![],
        Some(timestamp(DateTime::from(Utc::now()))),
        Some(ChangeFrequency::Weekly),
        Some(decimal(4.69)),
        None,
        None,
        None,
    );
    match url_result {
        Ok(_) => panic!("Returned a URL!"),
        Err(e) => match e {
            UrlError::LocationTooLong(_) => panic!("Returned LocationTooLong!"),
            UrlError::PriorityTooLow(_) => panic!("Returned PriorityTooLow!"),
            UrlError::PriorityTooHigh(priority) => {
                let expected_priority: f32 = 4.69;
                assert!((float(priority) - expected_priority).abs() < f32::EPSILON);
            }
            UrlError::TooManyImages(_) => panic!("Returned TooManyImages!"),
            UrlError::DuplicateAlternateHreflangs(..) => {
                panic!("Returned DuplicateAlternateHreflangs!");
            }
        },
    }
}

#[test]
fn url_test_constructor_too_many_images() {
    // generate over 1,000 images
    let mut images: Vec<Image> = vec![];
    for _ in 0..1001 {
        let image: Image = Image::new(String::from(
            "https://www.toddgriffin.me/static/image/social/profile-picture.webp",
        ));
        images.push(image);
    }

    let url_result: Result<Url, UrlError> = Url::new(
        String::from("https://www.toddgriffin.me/"),
        vec![],
        Some(timestamp(DateTime::from(Utc::now()))),
        Some(ChangeFrequency::Weekly),
        Some(default_priority()),
        Some(images),
        None,
        None,
    );
    match url_result {
        Ok(_) => panic!("Returned a URL!"),
        Err(e) => match e {
            UrlError::LocationTooLong(_) => panic!("Returned LocationTooLong!"),
            UrlError::PriorityTooLow(_) => panic!("Returned PriorityTooLow!"),
            UrlError::PriorityTooHigh(_) => panic!("Returned PriorityTooHigh!"),
            UrlError::TooManyImages(count) => assert_eq!(1001, count),
            UrlError::DuplicateAlternateHreflangs(..) => {
                panic!("Returned DuplicateAlternateHreflangs!");
            }
        },
    }
}

#[test]
fn test_constructor_duplicate_alternate_hreflangs() {
    let alternates: Vec<UrlLink> = vec![
        UrlLink {
            hreflang: String::from("en-US"),
            href: String::from("https://www.example.com/"),
        },
        UrlLink {
            hreflang: String::from("en-US"),
            href: String::from("https://www.example.com/"),
        },
    ];

    let url_result: Result<Url, UrlError> = Url::new(
        String::from("https://www.example.com/"),
        alternates,
        None,
        None,
        None,
        None,
        None,
        None,
    );
    match url_result {
        Ok(_) => panic!("Returned a URL!"),
        Err(e) => match e {
            UrlError::LocationTooLong(_) => panic!("Returned LocationTooLong!"),
            UrlError::PriorityTooLow(_) => panic!("Returned PriorityTooLow!"),
            UrlError::PriorityTooHigh(_) => panic!("Returned PriorityTooHigh!"),
            UrlError::TooManyImages(_) => panic!("Returned TooManyImages!"),
            UrlError::DuplicateAlternateHreflangs(hreflang, href) => {
                assert_eq!(String::from("en-US"), hreflang);
                assert_eq!(String::from("https://www.example.com/"), href);
            }
        },
    }
}
