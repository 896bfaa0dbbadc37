use upnpav::http::{date_header, date_header_from, CacheControl, ContentType};

#[test]
fn content_types() {
    assert_eq!(ContentType::XmlUtf8.as_str(), "text/xml; charset=\"utf-8\"");
    assert_eq!(ContentType::JsonUtf8.as_str(), "application/json; charset=\"utf-8\"");
    assert_eq!(ContentType::PlainUtf8.as_str(), "text/plain; charset=utf-8");
    assert_eq!(ContentType::ImagePng.as_str(), "image/png");
    assert_eq!(ContentType::ImageJpeg.as_str(), "image/jpeg");
    assert_eq!(ContentType::ImageSvg.as_str(), "image/svg+xml");
    assert_eq!(ContentType::Custom("image/gif".to_string()).as_str(), "image/gif");
}

#[test]
fn cache_headers() {
    assert_eq!(CacheControl::MaxAge(1800).as_header(), Some("max-age=1800".to_string()));
    assert_eq!(CacheControl::NoCache.as_header(), Some("no-cache".to_string()));
    assert_eq!(CacheControl::NoStore.as_header(), Some("no-store".to_string()));
    assert_eq!(CacheControl::Public.as_header(), Some("public".to_string()));
    assert_eq!(CacheControl::Private.as_header(), Some("private".to_string()));
    assert_eq!(CacheControl::Unset.as_header(), None);
}

#[test]
fn date_values() {
    assert_eq!(date_header_from(None), "Thu, 01 Jan 1970 00:00:00 GMT");
    assert_eq!(date_header_from(Some(0)), "Thu, 01 Jan 1970 00:00:00 GMT");
    assert_eq!(date_header_from(Some(784_111_777)), "Sun, 06 Nov 1994 08:49:37 GMT");
    assert_eq!(date_header_from(Some(2 * 86400 + 3661)), "Sat, 03 Jan 1970 01:01:01 GMT");
    assert_eq!(date_header_from(Some(19_723 * 86400 + 23 * 3600 + 59 * 60 + 59)), "Mon, 01 Jan 2024 23:59:59 GMT");
    assert_eq!(date_header_from(Some(19_782 * 86400)), "Thu, 29 Feb 2024 00:00:00 GMT");
    assert_eq!(date_header_from(Some(11_016 * 86400)), "Tue, 29 Feb 2000 00:00:00 GMT");
    let d = date_header();
    assert!(d.ends_with(" GMT"));
    assert_eq!(d.len(), "Thu, 01 Jan 1970 00:00:00 GMT".len());
}
