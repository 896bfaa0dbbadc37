use upnpav::services::avtransport::actions::{get_transport_info_reply, play_request, seek_request, set_state_variables_request};
use upnpav::services::avtransport::statics::{TransportState, TransportStatus};
use upnpav::services::avtransport::traits::GetTransportInfoOutput;
use upnpav::services::connectionmanager::actions::{connection_complete_request, prepare_for_connection_request};
use upnpav::services::connectionmanager::statics::Direction;
use upnpav::services::renderingcontrol::actions::{get_volume_reply, get_volume_db_range_reply, set_volume_request};
use upnpav::services::renderingcontrol::statics::Channel;
use upnpav::services::renderingcontrol::traits::{GetVolumeDBRangeOutput, GetVolumeOutput};
use upnpav::types::upnp::{ActionArgs, Error};

fn args(p: &[(&str, &str)]) -> ActionArgs {
    ActionArgs::from_pairs(p.iter().map(|(k, v)| (k.to_string(), v.to_string())).collect())
}

#[test]
fn play_request_defaults() {
    let i = play_request(&args(&[])).unwrap();
    assert_eq!(i.instance_id, 0);
    assert_eq!(i.speed, "1");
    let i = play_request(&args(&[("InstanceID", "3"), ("Speed", "2")])).unwrap();
    assert_eq!(i.instance_id, 3);
    assert_eq!(i.speed, "2");
    let i = play_request(&args(&[("InstanceID", "x")])).unwrap();
    assert_eq!(i.instance_id, 0);
}

#[test]
fn seek_request_needs_unit_and_target() {
    assert!(matches!(seek_request(&args(&[("Target", "0:01:00")])), Err(Error::ArgumentValueInvalid)));
    assert!(matches!(seek_request(&args(&[("Unit", "REL_TIME")])), Err(Error::ArgumentValueInvalid)));
    let i = seek_request(&args(&[("Unit", "REL_TIME"), ("Target", "0:01:00")])).unwrap();
    assert_eq!(i.unit, "REL_TIME");
    assert_eq!(i.target, "0:01:00");
}

#[test]
fn set_volume_request_checks() {
    assert!(matches!(set_volume_request(&args(&[])), Err(Error::ArgumentValueInvalid)));
    assert!(matches!(set_volume_request(&args(&[("DesiredVolume", "70000")])), Err(Error::ArgumentValueOutOfRange)));
    let i = set_volume_request(&args(&[("DesiredVolume", "30"), ("Channel", "LF")])).unwrap();
    assert_eq!(i.desired_volume, 30);
    assert_eq!(i.channel, Channel::LF);
    let i = set_volume_request(&args(&[("DesiredVolume", "30"), ("Channel", "nope")])).unwrap();
    assert_eq!(i.channel, Channel::Master);
}

#[test]
fn set_state_variables_request_pairs() {
    assert!(matches!(set_state_variables_request(&args(&[])), Err(Error::ArgumentValueInvalid)));
    let i = set_state_variables_request(&args(&[("StateVariableValuePairs", "<x/>")])).unwrap();
    assert_eq!(i.pairs, vec![("<x/>".to_string(), "AVTransport:3".to_string())]);
}

#[test]
fn connection_requests() {
    assert!(matches!(prepare_for_connection_request(&args(&[("RemoteProtocolInfo", "p")])), Err(Error::ArgumentValueInvalid)));
    assert!(matches!(
        prepare_for_connection_request(&args(&[("RemoteProtocolInfo", "p"), ("Direction", "Sideways")])),
        Err(Error::ArgumentValueInvalid)
    ));
    let i = prepare_for_connection_request(&args(&[("RemoteProtocolInfo", "p"), ("Direction", "Input")])).unwrap();
    assert_eq!(i.direction, Direction::Input);
    assert_eq!(i.peer_connection_id, -1);
    assert_eq!(i.peer_connection_manager, "-1");
    assert!(matches!(connection_complete_request(&args(&[("ConnectionID", "abc")])), Err(Error::ArgumentValueInvalid)));
    assert_eq!(connection_complete_request(&args(&[("ConnectionID", "-4")])).unwrap().connection_id, -4);
}

#[test]
fn replies() {
    let r = get_transport_info_reply(GetTransportInfoOutput {
        transport_state: TransportState::Playing,
        transport_status: TransportStatus::OK,
        play_speed: "1".to_string(),
    });
    assert_eq!(
        r.into_pairs(),
        vec![
            ("CurrentTransportState".to_string(), "PLAYING".to_string()),
            ("CurrentTransportStatus".to_string(), "OK".to_string()),
            ("CurrentSpeed".to_string(), "1".to_string()),
        ]
    );
    assert_eq!(get_volume_reply(GetVolumeOutput { current_volume: 42 }).into_pairs(), vec![("CurrentVolume".to_string(), "42".to_string())]);
    let r = get_volume_db_range_reply(GetVolumeDBRangeOutput {
        minimum_value: -100,
        maximum_value: 0,
        qualified_min_value: 0,
        qualified_max_value: 0,
    });
    assert_eq!(r.get("MinValue"), Some("-100"));
    assert_eq!(r.get("MaxValue"), Some("0"));
}
