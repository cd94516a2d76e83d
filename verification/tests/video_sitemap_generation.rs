use chrono::{DateTime, FixedOffset};
use sitemap_rs::url::Url;
use sitemap_rs::url_set::UrlSet;
use sitemap_rs::video::{Uploader, Video};
use sitemap_rs::timestamp::Timestamp;
use sitemap_rs::decimal::Decimal;

fn timestamp(moment: DateTime<FixedOffset>) -> Timestamp {
    Timestamp::new(
        moment.timestamp(),
        moment.timestamp_subsec_nanos(),
        moment.offset().local_minus_utc(),
    )
    .unwrap()
}

fn decimal(number: f32) -> Decimal {
    Decimal::parse(&number.to_string()).unwrap()
}

#[test]
fn test_video_sitemap_generation() {
    let video: Video = Video::builder(
        String::from("https://www.example.com/thumbnail.jpg"),
        String::from("Video Title"),
        String::from("Video description"),
        String::from("https://www.example.com/content_location.mp4"),
        String::from("https://www.example.com/player_location.php"),
    )
    .duration(600)
    .expiration_date(timestamp(DateTime::parse_from_rfc3339("2025-01-01T13:37:00+00:00").unwrap()))
    .rating(decimal(4.2))
    .view_count(12345)
    .publication_date(timestamp(DateTime::parse_from_rfc3339("2009-01-01T13:37:00+00:00").unwrap()))
    .family_friendly(true)
    .requires_subscription(true)
    .uploader(Uploader::new(
        String::from("UserName"),
        Some(String::from("https://www.example.com/users/UserName")),
    ))
    .live(false)
    .tags(vec![
        String::from("video tag 1"),
        String::from("video tag 2"),
    ])
    .build()
    .expect("failed a <video:video> validation");

    let urls: Vec<Url> = vec![Url::builder(String::from(
        "https://www.example.com/videos/some_video_landing_page.html",
    ))
    .videos(vec![video])
    .build()
    .expect("failed a <url> validation")];

    let url_set: UrlSet = UrlSet::new(urls).expect("failed a <urlset> validation");
    let mut buf = Vec::<u8>::new();
    url_set.write(&mut buf).unwrap();
    let result = String::from_utf8(buf).unwrap();
    assert_eq!(
        "\
        <?xml version=\"1.0\" encoding=\"UTF-8\"?>\
        <urlset xmlns=\"http://www.sitemaps.org/schemas/sitemap/0.9\" xmlns:video=\"http://www.google.com/schemas/sitemap-video/1.1\">\
            <url>\
                <loc>https://www.example.com/videos/some_video_landing_page.html</loc>\
                <video:video>\
                    <video:thumbnail_loc>https://www.example.com/thumbnail.jpg</video:thumbnail_loc>\
                    <video:title>Video Title</video:title>\
                    <video:description>Video description</video:description>\
                    <video:content_loc>https://www.example.com/content_location.mp4</video:content_loc>\
                    <video:player_loc>https://www.example.com/player_location.php</video:player_loc>\
                    <video:duration>600</video:duration>\
                    <video:expiration_date>2025-01-01T13:37:00+00:00</video:expiration_date>\
                    <video:rating>4.2</video:rating>\
                    <video:view_count>12345</video:view_count>\
                    <video:publication_date>2009-01-01T13:37:00+00:00</video:publication_date>\
                    <video:family_friendly>yes</video:family_friendly>\
                    <video:requires_subscription>yes</video:requires_subscription>\
                    <video:uploader info=\"https://www.example.com/users/UserName\">UserName</video:uploader>\
                    <video:live>no</video:live>\
                    <video:tag>video tag 1</video:tag>\
                    <video:tag>video tag 2</video:tag>\
                </video:video>\
            </url>\
        </urlset>",
        result
    );
}
