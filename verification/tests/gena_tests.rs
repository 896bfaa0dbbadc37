use upnpav::gena::{EventPublisher};
use upnpav::types::upnp::Error;

#[test]
fn subscribe_grants_minimum_timeout() {
    let mut p = EventPublisher::new("/upnp/event/AVTransport", false);
    assert_eq!(p.service_url(), "/upnp/event/AVTransport");
    assert!(!p.multicast_enabled());
    let (sid, t) = p.subscribe_at("http://cp/cb", 300, "uuid:1".to_string(), 0);
    assert_eq!(sid, "uuid:1");
    assert_eq!(t, 1800);
    let (_, t2) = p.subscribe_at("http://cp/cb", 3600, "uuid:2".to_string(), 0);
    assert_eq!(t2, 3600);
}

#[test]
fn subscribe_then_unsubscribe() {
    let mut p = EventPublisher::new("/e", false);
    p.subscribe_at("http://cp/cb", 1800, "uuid:a".to_string(), 0);
    assert!(p.unsubscribe("uuid:a").is_ok());
    assert!(matches!(p.unsubscribe("uuid:a"), Err(Error::InvalidAction)));
}

#[test]
fn random_sids_are_uuids() {
    let mut p = EventPublisher::new("/e", true);
    let (sid, _) = p.subscribe("http://cp/cb", 0);
    assert!(sid.starts_with("uuid:"));
    assert_eq!(sid.len(), 5 + 36);
    assert!(p.unsubscribe(&sid).is_ok());
}

#[test]
fn renew_known_and_unknown() {
    let mut p = EventPublisher::new("/e", false);
    p.subscribe_at("http://cp/cb", 1800, "uuid:a".to_string(), 0);
    assert!(p.renew_at("uuid:a", Some(3600), 1000).is_ok());
    assert!(matches!(p.renew_at("uuid:zz", None, 1000), Err(Error::InvalidAction)));
    // expired after 3600 s from t=1000 ms
    assert!(p.renew_at("uuid:a", None, 1000 + 3_600_000).is_err());
}

#[test]
fn notify_counts_live_subscribers() {
    let mut p = EventPublisher::new("/e", false);
    p.subscribe_at("http://a", 1800, "uuid:a".to_string(), 0);
    p.subscribe_at("http://b", 1800, "uuid:b".to_string(), 0);
    let props = vec![("Volume".to_string(), "5".to_string())];
    assert_eq!(p.notify_at(&props, 10).len(), 2);
    assert_eq!(p.notify_at(&props, 1_800_000).len(), 0);
}

#[test]
fn cleanup_removes_expired() {
    let mut p = EventPublisher::new("/e", false);
    p.subscribe_at("http://a", 1800, "uuid:a".to_string(), 0);
    p.subscribe_at("http://b", 3600, "uuid:b".to_string(), 0);
    let gone = p.cleanup_expired_at(1_800_000);
    assert_eq!(gone, vec!["uuid:a".to_string()]);
    assert!(p.unsubscribe("uuid:b").is_ok());
}

#[test]
fn event_body_and_headers() {
    let body = EventPublisher::build_event_body(&[("Volume".to_string(), "5".to_string())]);
    assert_eq!(
        body,
        "<?xml version=\"1.0\"?>\n<e:propertyset xmlns:e=\"urn:schemas-upnp-org:event-1-0\"><e:property><Volume>5</Volume></e:property></e:propertyset>"
    );
    let h = EventPublisher::build_notify_headers("uuid:x", 7);
    assert_eq!(
        h,
        "NT: upnp:event\r\nNTS: upnp:propchange\r\nSID: uuid:x\r\nSEQ: 7\r\nCONTENT-TYPE: text/xml; charset=\"utf-8\"\r\n"
    );
}

#[test]
fn subscription_ids_are_version_4_uuids() {
    let mut p = EventPublisher::new("/upnp/event/AVTransport", false);
    let (sid, _) = p.subscribe("http://h/cb", 1800);
    assert!(sid.starts_with("uuid:"));
    let id = &sid["uuid:".len()..];
    assert_eq!(id.len(), 36);
    let parts: Vec<&str> = id.split('-').collect();
    assert_eq!(parts.iter().map(|p| p.len()).collect::<Vec<_>>(), vec![8, 4, 4, 4, 12]);
    assert!(id.chars().all(|c| c == '-' || c.is_ascii_digit() || ('a'..='f').contains(&c)));
    assert!(parts[2].starts_with('4'));
    assert!(matches!(parts[3].chars().next(), Some('8' | '9' | 'a' | 'b')));
}
