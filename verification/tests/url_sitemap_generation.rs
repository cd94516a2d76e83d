use chrono::{DateTime, FixedOffset};
use sitemap_rs::url::{default_priority, ChangeFrequency, Url, UrlLink};
use sitemap_rs::url_set::UrlSet;
use sitemap_rs::timestamp::Timestamp;

fn timestamp(moment: DateTime<FixedOffset>) -> Timestamp {
    Timestamp::new(
        moment.timestamp(),
        moment.timestamp_subsec_nanos(),
        moment.offset().local_minus_utc(),
    )
    .unwrap()
}

#[test]
fn test_sitemap_generation_location() {
    let urls: Vec<Url> = vec![Url::builder(String::from("https://www.example.com/"))
        .build()
        .expect("failed a <url> validation")];

    let url_set: UrlSet = UrlSet::new(urls).expect("failed a <urlset> validation");
    let mut buf = Vec::<u8>::new();
    url_set.write(&mut buf).unwrap();
    let result = String::from_utf8(buf).unwrap();
    assert_eq!(
        "\
        <?xml version=\"1.0\" encoding=\"UTF-8\"?>\
        <urlset xmlns=\"http://www.sitemaps.org/schemas/sitemap/0.9\">\
            <url>\
                <loc>https://www.example.com/</loc>\
            </url>\
        </urlset>",
        result
    );
}

#[test]
fn test_sitemap_generation_last_modified() {
    let urls: Vec<Url> = vec![Url::builder(String::from("https://www.example.com/"))
        .last_modified(timestamp(DateTime::parse_from_rfc3339("2023-01-01T13:37:00+00:00").unwrap()))
        .build()
        .expect("failed a <url> validation")];

    let url_set: UrlSet = UrlSet::new(urls).expect("failed a <urlset> validation");
    let mut buf = Vec::<u8>::new();
    url_set.write(&mut buf).unwrap();
    let result = String::from_utf8(buf).unwrap();
    assert_eq!(
        "\
        <?xml version=\"1.0\" encoding=\"UTF-8\"?>\
        <urlset xmlns=\"http://www.sitemaps.org/schemas/sitemap/0.9\">\
            <url>\
                <loc>https://www.example.com/</loc>\
                <lastmod>2023-01-01T13:37:00+00:00</lastmod>\
            </url>\
        </urlset>",
        result
    );
}

#[test]
fn test_sitemap_generation_change_frequency() {
    let urls: Vec<Url> = vec![Url::builder(String::from("https://www.example.com/"))
        .change_frequency(ChangeFrequency::Weekly)
        .build()
        .expect("failed a <url> validation")];

    let url_set: UrlSet = UrlSet::new(urls).expect("failed a <urlset> validation");
    let mut buf = Vec::<u8>::new();
    url_set.write(&mut buf).unwrap();
    let result = String::from_utf8(buf).unwrap();
    assert_eq!(
        "\
        <?xml version=\"1.0\" encoding=\"UTF-8\"?>\
        <urlset xmlns=\"http://www.sitemaps.org/schemas/sitemap/0.9\">\
            <url>\
                <loc>https://www.example.com/</loc>\
                <changefreq>weekly</changefreq>\
            </url>\
        </urlset>",
        result
    );
}

#[test]
fn test_sitemap_generation_priority() {
    let urls: Vec<Url> = vec![Url::builder(String::from("https://www.example.com/"))
        .priority(default_priority())
        .build()
        .expect("failed a <url> validation")];

    let url_set: UrlSet = UrlSet::new(urls).expect("failed a <urlset> validation");
    let mut buf = Vec::<u8>::new();
    url_set.write(&mut buf).unwrap();
    let result = String::from_utf8(buf).unwrap();
    assert_eq!(
        "\
        <?xml version=\"1.0\" encoding=\"UTF-8\"?>\
        <urlset xmlns=\"http://www.sitemaps.org/schemas/sitemap/0.9\">\
            <url>\
                <loc>https://www.example.com/</loc>\
                <priority>0.5</priority>\
            </url>\
        </urlset>",
        result
    );
}

#[test]
fn test_sitemap_generation_alternates() {
    let urls: Vec<Url> = vec![Url::builder(String::from("https://www.example.com/"))
        .links(vec![
            UrlLink {
                hreflang: String::from("en-US"),
                href: String::from("https://www.example.com/"),
            },
            UrlLink {
                hreflang: String::from("de-DE"),
                href: String::from("https://de.example.com/"),
            },
            UrlLink::new(
                String::from("x-default"),
                String::from("https://www.example.com/country-selector"),
            ),
            UrlLink::new(String::from("it"), String::from("https://it.example.com/")),
        ])
        .build()
        .expect("failed a <url> validation")];

    let url_set: UrlSet = UrlSet::new(urls).expect("failed a <urlset> validation");
    let mut buf = Vec::<u8>::new();
    url_set.write(&mut buf).unwrap();
    let result = String::from_utf8(buf).unwrap();
    assert_eq!(
        "\
        <?xml version=\"1.0\" encoding=\"UTF-8\"?>\
        <urlset xmlns=\"http://www.sitemaps.org/schemas/sitemap/0.9\" xmlns:xhtml=\"http://www.w3.org/1999/xhtml\">\
            <url>\
                <loc>https://www.example.com/</loc>\
                <xhtml:link rel=\"alternate\" hreflang=\"en-US\" href=\"https://www.example.com/\" />\
                <xhtml:link rel=\"alternate\" hreflang=\"de-DE\" href=\"https://de.example.com/\" />\
                <xhtml:link rel=\"alternate\" hreflang=\"x-default\" href=\"https://www.example.com/country-selector\" />\
                <xhtml:link rel=\"alternate\" hreflang=\"it\" href=\"https://it.example.com/\" />\
            </url>\
        </urlset>",
        result
    );
}

#[test]
fn test_sitemap_generation_all() {
    let urls: Vec<Url> = vec![Url::builder(String::from("https://www.example.com/"))
        .last_modified(timestamp(DateTime::parse_from_rfc3339("2023-01-01T13:37:00+00:00").unwrap()))
        .change_frequency(ChangeFrequency::Weekly)
        .priority(default_priority())
        .links(vec![
            UrlLink {
                hreflang: String::from("en-US"),
                href: String::from("https://www.example.com/"),
            },
            UrlLink {
                hreflang: String::from("de-DE"),
                href: String::from("https://de.example.com/"),
            },
            UrlLink::new(
                String::from("x-default"),
                String::from("https://www.example.com/country-selector"),
            ),
            UrlLink::new(String::from("it"), String::from("https://it.example.com/")),
        ])
        .build()
        .expect("failed a <url> validation")];

    let url_set: UrlSet = UrlSet::new(urls).expect("failed a <urlset> validation");
    let mut buf = Vec::<u8>::new();
    url_set.write(&mut buf).unwrap();
    let result = String::from_utf8(buf).unwrap();
    assert_eq!(
        "\
        <?xml version=\"1.0\" encoding=\"UTF-8\"?>\
        <urlset xmlns=\"http://www.sitemaps.org/schemas/sitemap/0.9\" xmlns:xhtml=\"http://www.w3.org/1999/xhtml\">\
            <url>\
                <loc>https://www.example.com/</loc>\
                <xhtml:link rel=\"alternate\" hreflang=\"en-US\" href=\"https://www.example.com/\" />\
                <xhtml:link rel=\"alternate\" hreflang=\"de-DE\" href=\"https://de.example.com/\" />\
                <xhtml:link rel=\"alternate\" hreflang=\"x-default\" href=\"https://www.example.com/country-selector\" />\
                <xhtml:link rel=\"alternate\" hreflang=\"it\" href=\"https://it.example.com/\" />\
                <lastmod>2023-01-01T13:37:00+00:00</lastmod>\
                <changefreq>weekly</changefreq>\
                <priority>0.5</priority>\
            </url>\
        </urlset>",
        result
    );
}
