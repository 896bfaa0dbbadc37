use upnpav::config::{udn_for_mac, DeviceConfig, SsdpDevice, UpnpDevice, DESCRIPTION_PATH};
use upnpav::ssdp::{
    next_announce_step, AnnounceStep,
    announce_interval_secs, build_alive_notifications, build_byebye_notification, build_byebye_notifications,
    build_rootdevice_alive, build_search_responses, build_search_responses_at, build_update_notifications,
    get_header, initial_delay_ms, msearch_target, parse_msearch_request, parse_msearch_text, response_delay_ms,
    search_usn_list, spread_delay_ms, usn,
};
use upnpav::types::upnp::{Device, ServiceVersion, Services};

fn device(port: Option<u16>) -> SsdpDevice {
    SsdpDevice::new(
        "192.168.1.10".to_string(),
        49152,
        "Linux/1 UPnP/2.0 upnpav/0.1.0".to_string(),
        Device::MediaRenderer,
        vec![Services::AVTransport(ServiceVersion::V3), Services::RenderingControl(ServiceVersion::V3)],
        None,
        Some(7),
        port,
        None,
        Some(100),
        None,
    )
}

#[test]
fn upnp_device_defaults() {
    let d = UpnpDevice::new(None, None, None, None, None, None, None, None, None, None);
    assert_eq!(d.friendly_name, "upnpav");
    assert_eq!(d.manufacturer, "Interweave Consumer Group");
    assert_eq!(d.model_number, "0.1.0");
    assert_eq!(d.server_header, "upnpav / 0.1.0 UPnP/2.0");
    assert_eq!(d.ip_addr, "0.0.0.0");
    let c = DeviceConfig::new(d);
    assert_eq!(c.device.model_name, "upnpav");
}

#[test]
fn udn_is_the_v5_uuid_of_the_mac() {
    assert_eq!(udn_for_mac("00:00:00:00:00:00"), "dfba10cf-e1ea-543e-ab3e-0c45c0f69483");
    assert_eq!(udn_for_mac("aa:bb:cc:dd:ee:ff"), "98a849f5-5047-50e1-bba1-b43f2da1809b");
    assert_eq!(udn_for_mac("aa:bb:cc:dd:ee:ff"), udn_for_mac("aa:bb:cc:dd:ee:ff"));
}

#[test]
fn ssdp_device_settings() {
    let d = device(None);
    assert_eq!(d.udn, "dfba10cf-e1ea-543e-ab3e-0c45c0f69483");
    assert_eq!(d.ssdp_port, 1900);
    assert_eq!(d.ssdp_multicast_addr, "239.255.255.250");
    assert_eq!(d.max_age, 1800);
    assert_eq!(d.boot_id, 1);
    assert_eq!(d.config_id, 7);
    assert_eq!(d.max_version, 3);
    assert_eq!(d.device_type, "urn:schemas-upnp-org:device:MediaRenderer:1");
    assert_eq!(d.description_url, "http://192.168.1.10:49152/upnp/description.xml");
    assert_eq!(d.description_path, DESCRIPTION_PATH);
}

#[test]
fn notifications() {
    let d = device(None);
    let alive = build_rootdevice_alive(&d);
    assert_eq!(
        alive,
        format!(
            "NOTIFY * HTTP/1.1\r\nHOST: 239.255.255.250:1900\r\nCACHE-CONTROL: max-age=1800\r\nLOCATION: http://192.168.1.10:49152/upnp/description.xml\r\nNT: upnp:rootdevice\r\nNTS: ssdp:alive\r\nSERVER: Linux/1 UPnP/2.0 upnpav/0.1.0\r\nUSN: uuid:{}::upnp:rootdevice\r\nBOOTID.UPNP.ORG: 1\r\nCONFIGID.UPNP.ORG: 7\r\n\r\n",
            d.udn
        )
    );
    assert_eq!(usn(&d, "upnp:rootdevice"), format!("uuid:{}::upnp:rootdevice", d.udn));
    let bye = build_byebye_notification(&d, "upnp:rootdevice", &usn(&d, "upnp:rootdevice"));
    assert!(bye.contains("NTS: ssdp:byebye\r\n"));
    assert!(bye.ends_with("\r\n\r\n"));
    assert_eq!(build_alive_notifications(&d).len(), 4);
    assert_eq!(build_byebye_notifications(&d).len(), 4);
    let upd = build_update_notifications(&d, 2);
    assert_eq!(upd.len(), 4);
    assert!(upd[0].contains("NEXTBOOTID.UPNP.ORG: 2\r\n"));
}

#[test]
fn searchport_only_off_1900() {
    let d = device(Some(1901));
    assert!(build_rootdevice_alive(&d).contains("SEARCHPORT.UPNP.ORG: 1901\r\n"));
    assert!(!build_rootdevice_alive(&device(None)).contains("SEARCHPORT"));
}

#[test]
fn msearch_parsing() {
    let req = b"M-SEARCH * HTTP/1.1\r\nHOST: 239.255.255.250:1900\r\nMAN: \"ssdp:discover\"\r\nMX: 2\r\nST: ssdp:all\r\n\r\n";
    let h = parse_msearch_request(req).unwrap();
    assert_eq!(get_header(&h, "st"), Some("ssdp:all"));
    assert_eq!(get_header(&h, "Man"), Some("\"ssdp:discover\""));
    assert_eq!(msearch_target(&h), Some(("ssdp:all".to_string(), 2)));
    assert!(parse_msearch_text("NOTIFY * HTTP/1.1\r\n\r\n").is_none());
    assert!(parse_msearch_request(&[0xff, 0xfe]).is_none());
}

#[test]
fn msearch_target_checks() {
    let h = vec![("MAN".to_string(), "ssdp:discover".to_string())];
    assert_eq!(msearch_target(&h), None);
    let h = vec![("MAN".to_string(), "\"ssdp:discover\"".to_string()), ("MX".to_string(), "9".to_string())];
    assert_eq!(msearch_target(&h), None);
    let h = vec![("MAN".to_string(), "\"ssdp:discover\"".to_string())];
    assert_eq!(msearch_target(&h), Some((String::new(), 0)));
}

#[test]
fn search_answers() {
    let d = device(None);
    assert_eq!(search_usn_list(&d, "ssdp:all").len(), 4);
    assert_eq!(search_usn_list(&d, "upnp:rootdevice"), vec![format!("uuid:{}::upnp:rootdevice", d.udn)]);
    assert_eq!(
        search_usn_list(&d, "urn:schemas-upnp-org:service:RenderingControl:3"),
        vec![format!("uuid:{}::urn:schemas-upnp-org:service:RenderingControl:3", d.udn)]
    );
    assert!(search_usn_list(&d, "urn:other").is_empty());
    let rs = build_search_responses_at(&d, "upnp:rootdevice", "Mon, 01 Jan 2024 00:00:00 GMT");
    assert_eq!(rs.len(), 1);
    assert!(rs[0].starts_with("HTTP/1.1 200 OK\r\nCACHE-CONTROL: max-age=1800\r\nDATE: Mon, 01 Jan 2024 00:00:00 GMT\r\nEXT:\r\n"));
    assert!(rs[0].contains("ST: upnp:rootdevice\r\n"));
    assert_eq!(build_search_responses(&d, "ssdp:all").len(), 4);
}

#[test]
fn delays() {
    assert_eq!(response_delay_ms(0), 0);
    for _ in 0..20 {
        assert!(response_delay_ms(3) < 4000);
        assert!(initial_delay_ms() <= 100);
        let a = announce_interval_secs(1800);
        assert!((810..=990).contains(&a));
    }
    assert_eq!(spread_delay_ms(0), 100);
    assert_eq!(spread_delay_ms(2), 300);
}

#[test]
fn announcement_schedule() {
    assert!(matches!(next_announce_step(0), AnnounceStep::Initial { spread_ms: 100 }));
    assert!(matches!(next_announce_step(1), AnnounceStep::Initial { spread_ms: 200 }));
    assert!(matches!(next_announce_step(2), AnnounceStep::Initial { spread_ms: 0 }));
    assert!(matches!(next_announce_step(3), AnnounceStep::Repeat));
    assert!(matches!(next_announce_step(u64::MAX), AnnounceStep::Repeat));
}
