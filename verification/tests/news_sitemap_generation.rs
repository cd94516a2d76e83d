use chrono::{DateTime, FixedOffset};
use sitemap_rs::news::{News, Publication};
use sitemap_rs::url::Url;
use sitemap_rs::url_set::UrlSet;
use sitemap_rs::timestamp::Timestamp;

fn timestamp(moment: DateTime<FixedOffset>) -> Timestamp {
    Timestamp::new(
        moment.timestamp(),
        moment.timestamp_subsec_nanos(),
        moment.offset().local_minus_utc(),
    )
    .unwrap()
}

#[test]
fn test_news_sitemap_generation() {
    let urls: Vec<Url> = vec![Url::builder(String::from("https://www.example.com/"))
        .news(News::new(
            Publication::new(String::from("News Site"), String::from("en")),
            timestamp(DateTime::parse_from_rfc3339("2023-01-01T13:37:00+00:00").unwrap()),
            String::from("Awesome Title of News Article"),
        ))
        .build()
        .expect("failed a <url> validation")];

    let url_set: UrlSet = UrlSet::new(urls).expect("failed a <urlset> validation");
    let mut buf = Vec::<u8>::new();
    url_set.write(&mut buf).unwrap();
    let result = String::from_utf8(buf).unwrap();
    assert_eq!(
        "\
        <?xml version=\"1.0\" encoding=\"UTF-8\"?>\
        <urlset xmlns=\"http://www.sitemaps.org/schemas/sitemap/0.9\" xmlns:news=\"http://www.google.com/schemas/sitemap-news/0.9\">\
            <url>\
                <loc>https://www.example.com/</loc>\
                <news:news>\
                    <news:publication>\
                        <news:name>News Site</news:name>\
                        <news:language>en</news:language>\
                    </news:publication>\
                    <news:publication_date>2023-01-01T13:37:00+00:00</news:publication_date>\
                    <news:title>Awesome Title of News Article</news:title>\
                </news:news>\
            </url>\
        </urlset>",
        result
    );
}
