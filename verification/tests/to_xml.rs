use chrono::{DateTime, FixedOffset};
use sitemap_rs::news::{News, Publication};
use sitemap_rs::sitemap::Sitemap;
use sitemap_rs::video::{Platform, PlatformType, Relationship, Restriction, Uploader, Video};
use std::collections::HashSet;
use xml_builder::XMLElement;
use sitemap_rs::timestamp::Timestamp;
use sitemap_rs::decimal::Decimal;

fn timestamp(moment: DateTime<FixedOffset>) -> Timestamp {
    Timestamp::new(
        moment.timestamp(),
        moment.timestamp_subsec_nanos(),
        moment.offset().local_minus_utc(),
    )
    .unwrap()
}

fn decimal(number: f32) -> Decimal {
    Decimal::parse(&number.to_string()).unwrap()
}

#[test]
fn test_news_to_xml() {
    let news: News = News::new(
        Publication::new(String::from("News Site"), String::from("en")),
        timestamp(DateTime::parse_from_rfc3339("2023-01-01T13:37:00+00:00").unwrap()),
        String::from("Awesome Title of News Article"),
    );
    let xml: XMLElement = news.to_xml().unwrap();
    let mut buf = Vec::<u8>::new();
    xml.render(&mut buf, true, true, true, false).unwrap();
    let result = String::from_utf8(buf).unwrap();
    assert_eq!(
        "\
        <news:news>\n\
            \t<news:publication>\n\
                \t\t<news:name>News Site</news:name>\n\
                \t\t<news:language>en</news:language>\n\
            \t</news:publication>\n\
            \t<news:publication_date>2023-01-01T13:37:00+00:00</news:publication_date>\n\
            \t<news:title>Awesome Title of News Article</news:title>\n\
        </news:news>\n",
        result
    );
}

#[test]
fn test_publication_to_xml() {
    let publication: Publication =
        Publication::new(String::from("News Site"), String::from("en"));
    let xml: XMLElement = publication.to_xml().unwrap();
    let mut buf = Vec::<u8>::new();
    xml.render(&mut buf, true, true, true, false).unwrap();
    let result = String::from_utf8(buf).unwrap();
    assert_eq!(
        "\
        <news:publication>\n\
            \t<news:name>News Site</news:name>\n\
            \t<news:language>en</news:language>\n\
        </news:publication>\n",
        result
    );
}

#[test]
fn test_to_xml() {
    let sitemap: Sitemap = Sitemap::new(
        String::from("https://www.example.com/sitemap1.xml.gz"),
        Some(timestamp(DateTime::parse_from_rfc3339("2023-01-01T13:37:00+00:00").unwrap())),
    );

    let xml: XMLElement = sitemap.to_xml().unwrap();
    let mut buf = Vec::<u8>::new();
    xml.render(&mut buf, true, true, true, false).unwrap();
    let result = String::from_utf8(buf).unwrap();
    assert_eq!(
        "\
        <sitemap>\n\
            \t<loc>https://www.example.com/sitemap1.xml.gz</loc>\n\
            \t<lastmod>2023-01-01T13:37:00+00:00</lastmod>\n\
        </sitemap>\n",
        result
    );
}

#[test]
fn test_uploader_to_xml() {
    let uploader: Uploader = Uploader::new(
        String::from("UserName"),
        Some(String::from("https://www.example.com/users/UserName")),
    );

    let xml: XMLElement = uploader.to_xml().unwrap();
    let mut buf = Vec::<u8>::new();
    xml.render(&mut buf, true, true, true, false).unwrap();
    let result = String::from_utf8(buf).unwrap();
    assert_eq!(
        "\
        <video:uploader info=\"https://www.example.com/users/UserName\">\
            UserName\
        </video:uploader>\n",
        result
    );
}

#[test]
fn test_platform_to_xml() {
    let platform: Platform = Platform::new(
        HashSet::from([PlatformType::Web, PlatformType::Tv]).into_iter().collect(),
        Relationship::Allow,
    );

    let xml: XMLElement = platform.to_xml().unwrap();
    let mut buf = Vec::<u8>::new();
    xml.render(&mut buf, true, true, true, false).unwrap();
    let result = String::from_utf8(buf).unwrap();
    assert!(result.contains("<video:platform relationship=\"allow\">"));
    assert!(result.contains("web tv") || result.contains("tv web"));
    assert!(result.contains("</video:platform>"));
}

#[test]
fn test_restriction_to_xml() {
    let restriction: Restriction = Restriction::new(
        HashSet::from([String::from("IE"), String::from("GB")]).into_iter().collect(),
        Relationship::Allow,
    );

    let xml: XMLElement = restriction.to_xml().unwrap();
    let mut buf = Vec::<u8>::new();
    xml.render(&mut buf, true, true, true, false).unwrap();
    let result = String::from_utf8(buf).unwrap();
    assert!(result.contains("<video:restriction relationship=\"allow\">"));
    assert!(result.contains("IE GB") || result.contains("GB IE"));
    assert!(result.contains("</video:restriction>"));
}

#[test]
fn test_video_to_xml() {
    let video: Video = Video::builder(
        String::from("https://www.example.com/thumbnail.jpg"),
        String::from("Video Title"),
        String::from("Video description"),
        String::from("https://www.example.com/content_location.mp4"),
        String::from("https://www.example.com/player_location.php"),
    )
    .duration(600)
    .expiration_date(timestamp(DateTime::parse_from_rfc3339("2025-01-01T13:37:00+00:00").unwrap()))
    .rating(decimal(4.2))
    .view_count(12345)
    .publication_date(timestamp(DateTime::parse_from_rfc3339("2009-01-01T13:37:00+00:00").unwrap()))
    .family_friendly(true)
    .requires_subscription(true)
    .uploader(Uploader::new(
        String::from("UserName"),
        Some(String::from("https://www.example.com/users/UserName")),
    ))
    .live(false)
    .tags(vec![
        String::from("video tag 1"),
        String::from("video tag 2"),
    ])
    .build()
    .expect("failed a <video:video> validation");

    let xml: XMLElement = video.to_xml().unwrap();
    let mut buf = Vec::<u8>::new();
    xml.render(&mut buf, true, true, true, false).unwrap();
    let result = String::from_utf8(buf).unwrap();
    assert_eq!(
        "\
        <video:video>\n\
            \t<video:thumbnail_loc>https://www.example.com/thumbnail.jpg</video:thumbnail_loc>\n\
            \t<video:title>Video Title</video:title>\n\
            \t<video:description>Video description</video:description>\n\
            \t<video:content_loc>https://www.example.com/content_location.mp4</video:content_loc>\n\
            \t<video:player_loc>https://www.example.com/player_location.php</video:player_loc>\n\
            \t<video:duration>600</video:duration>\n\
            \t<video:expiration_date>2025-01-01T13:37:00+00:00</video:expiration_date>\n\
            \t<video:rating>4.2</video:rating>\n\
            \t<video:view_count>12345</video:view_count>\n\
            \t<video:publication_date>2009-01-01T13:37:00+00:00</video:publication_date>\n\
            \t<video:family_friendly>yes</video:family_friendly>\n\
            \t<video:requires_subscription>yes</video:requires_subscription>\n\
            \t<video:uploader info=\"https://www.example.com/users/UserName\">UserName</video:uploader>\n\
            \t<video:live>no</video:live>\n\
            \t<video:tag>video tag 1</video:tag>\n\
            \t<video:tag>video tag 2</video:tag>\n\
        </video:video>\n",
        result
    );
}
