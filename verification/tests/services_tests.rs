use upnpav::services::avtransport::statics::ActionName as AvtAction;
use upnpav::services::renderingcontrol::statics::ActionName as RcsAction;
use upnpav::services::avtransport::statics::Error as AvtError;
use upnpav::services::args::{arg_bool, arg_or, arg_required, drop_empty, split_csv, state_pairs_xml};
use upnpav::services::avtransport::statics::{StateVariableName as Avt, TransportState};
use upnpav::services::avtransport::AvTransportService;
use upnpav::services::connectionmanager::statics::{Direction, Error as CmError};
use upnpav::services::connectionmanager::{ConnectionInfo, ConnectionManagerService, ConnectionTable};
use upnpav::services::lastchange::build_last_change;
use upnpav::services::renderingcontrol::statics::Channel;
use upnpav::services::renderingcontrol::RenderingControlService;
use upnpav::gena::EventPublisher;
use upnpav::types::upnp::{ActionArgs, DataType, Error};

#[test]
fn last_change_documents() {
    let empty = build_last_change("urn:schemas-upnp-org:metadata-1-0/AVT/", &[]);
    assert_eq!(
        empty,
        "<?xml version=\"1.0\"?>\n<e:propertyset xmlns:e=\"urn:schemas-upnp-org:event-1-0\">\n  <e:property>\n    <LastChange>\n      <Event xmlns=\"urn:schemas-upnp-org:metadata-1-0/AVT/\">\n      </Event>\n    </LastChange>\n  </e:property>\n</e:propertyset>"
    );
    let one = build_last_change("urn:x", &[("TransportState".to_string(), "PLAYING".to_string())]);
    assert_eq!(
        one,
        "<?xml version=\"1.0\"?>\n<e:propertyset xmlns:e=\"urn:schemas-upnp-org:event-1-0\">\n  <e:property>\n    <LastChange>\n      <Event xmlns=\"urn:x\">\n        <PropertyChange><TransportState>PLAYING</TransportState></PropertyChange>\n      </Event>\n    </LastChange>\n  </e:property>\n</e:propertyset>"
    );
    let esc = build_last_change("urn:x", &[("AVTransportURI".to_string(), "http://a?b=1&c=2".to_string())]);
    assert!(esc.contains("<AVTransportURI>http://a?b=1&amp;c=2</AVTransportURI>"));
}

#[test]
fn argument_helpers() {
    let a = ActionArgs::from_pairs(vec![
        ("InstanceID".to_string(), "0".to_string()),
        ("DesiredMute".to_string(), "1".to_string()),
        ("Bad".to_string(), "yes".to_string()),
    ]);
    assert_eq!(arg_or(&a, "InstanceID", "9"), "0");
    assert_eq!(arg_or(&a, "Missing", "9"), "9");
    assert_eq!(arg_required(&a, "InstanceID", Error::InvalidArgs).unwrap(), "0");
    assert!(matches!(arg_required(&a, "Missing", Error::InvalidArgs), Err(Error::InvalidArgs)));
    assert_eq!(arg_bool(&a, "DesiredMute"), Some(true));
    assert_eq!(arg_bool(&a, "Missing"), None);
}

#[test]
fn csv_lists() {
    assert_eq!(split_csv(" a, b ,c"), vec!["a".to_string(), "b".to_string(), "c".to_string()]);
    assert_eq!(split_csv(""), vec![String::new()]);
    assert_eq!(drop_empty(split_csv("a,,b,")), vec!["a".to_string(), "b".to_string()]);
}

#[test]
fn state_pairs_document() {
    let x = state_pairs_xml(&vec![("Volume".to_string(), "5".to_string())]);
    assert_eq!(
        x,
        "<stateVariableValuePairs xmlns=\"urn:schemas-upnp-org:av:avs\"><stateVariable variableName=\"Volume\">5</stateVariable></stateVariableValuePairs>"
    );
}

fn info(id: i32) -> ConnectionInfo {
    ConnectionInfo {
        protocol_info: "http-get:*:audio/mpeg:*".to_string(),
        direction: Direction::Input,
        peer_connection_manager: "peer".to_string(),
        peer_connection_id: id,
    }
}

#[test]
fn connection_table_insert_find_remove() {
    let mut t = ConnectionTable::with_default_connection();
    assert!(t.contains(0));
    assert_eq!(t.len(), 1);
    assert_eq!(t.get(0).unwrap().peer_connection_id, -1);
    assert!(matches!(t.register(5, info(1)), Err(CmError::ConnectionTableOverflow)));
    t.insert(5, info(1));
    assert_eq!(t.ids_csv(), "0,5");
    assert_eq!(t.get(5).unwrap().peer_connection_id, 1);
    t.insert(5, info(2));
    assert_eq!(t.len(), 2);
    assert_eq!(t.get(5).unwrap().peer_connection_id, 2);
    assert!(t.remove(5).is_ok());
    assert!(!t.contains(5));
    assert!(matches!(t.remove(5), Err(CmError::InvalidConnectionReference)));
    assert!(matches!(t.get(5), Err(CmError::InvalidConnectionReference)));
    assert_eq!(CmError::InvalidConnectionReference.code(), 706);
    assert_eq!(CmError::ConnectionTableOverflow.code(), 708);
}

#[test]
fn avtransport_state() {
    let s = AvTransportService::new();
    let st = s.get_state_var(Avt::TransportState).unwrap();
    assert_eq!(st.as_value_str(), "STOPPED");
    s.set_state_var(0, Avt::TransportState, DataType::String("PLAYING".to_string()));
    assert_eq!(s.get_state_var(Avt::TransportState).unwrap().as_value_str(), "PLAYING");
    assert!(s.state_var_names().contains(&"CurrentTransportActions".to_string()));
}

#[test]
fn enum_wire_names() {
    assert_eq!(Channel::Master.as_str(), "Master");
    assert_eq!(Channel::from_str("LF"), Some(Channel::LF));
    assert_eq!(Channel::from_str("nope"), None);
    assert_eq!(TransportState::Playing.as_str(), "PLAYING");
    assert_eq!(TransportState::from_str("STOPPED"), Some(TransportState::Stopped));
}

#[test]
fn services_keep_their_publisher_and_registry() {
    let avt = AvTransportService::with_event_publisher(EventPublisher::new("/custom/avt", false));
    let p = avt.event_publisher();
    let h = p.acquire_read();
    assert_eq!(h.borrow().service_url(), "/custom/avt");
    h.release_read();
    let a = avt.actions();
    let h = a.acquire_read();
    assert_eq!(h.borrow().service_name(), "AVTransport");
    h.release_read();

    let rcs = RenderingControlService::with_event_publisher(EventPublisher::new("/custom/rcs", true));
    let p = rcs.event_publisher();
    let h = p.acquire_read();
    assert_eq!(h.borrow().service_url(), "/custom/rcs");
    assert!(h.borrow().multicast_enabled());
    h.release_read();
    let a = rcs.actions();
    let h = a.acquire_read();
    assert_eq!(h.borrow().service_name(), "RenderingControl");
    h.release_read();

    let cms = ConnectionManagerService::with_event_publisher(EventPublisher::new("/custom/cms", false));
    let p = cms.event_publisher();
    let h = p.acquire_read();
    assert_eq!(h.borrow().service_url(), "/custom/cms");
    h.release_read();
    let a = cms.actions();
    let h = a.acquire_read();
    assert_eq!(h.borrow().service_name(), "ConnectionManager");
    h.release_read();
    assert_eq!(cms.get_current_connection_ids(), "0");
}

#[test]
fn seek_target_error_code() {
    assert_eq!(AvtError::IllegalSeekTarget.code(), 706);
    assert_eq!(AvtError::from_code(706), Some(AvtError::IllegalSeekTarget));
    assert_eq!(AvtError::from_code(711), None);
}

#[test]
fn argument_wire_names() {
    use_argument_names();
}

fn use_argument_names() {
    assert_eq!(upnpav::services::avtransport::statics::ArgumentName::InstanceID.as_str(), "InstanceID");
    assert_eq!(upnpav::services::avtransport::statics::ArgumentName::PlaylistMIMEType.as_str(), "PlaylistMIMEType");
    assert_eq!(upnpav::services::avtransport::statics::ArgumentName::DRMState.as_str(), "DRMState");
}

fn class_counts<T, R, O, C>(all: &[T], required: R, optional: O, conditional: C) -> (usize, usize, usize)
where
    R: Fn(&T) -> bool,
    O: Fn(&T) -> bool,
    C: Fn(&T) -> bool,
{
    let mut n = (0, 0, 0);
    for x in all {
        let k = [required(x), optional(x), conditional(x)];
        assert_eq!(k.iter().filter(|b| **b).count(), 1);
        if k[0] {
            n.0 += 1;
        }
        if k[1] {
            n.1 += 1;
        }
        if k[2] {
            n.2 += 1;
        }
    }
    n
}

#[test]
fn action_classes() {
    let avt = [AvtAction::SetAVTransportURI, AvtAction::GetMediaInfo, AvtAction::GetTransportInfo, AvtAction::GetPositionInfo, AvtAction::GetDeviceCapabilities, AvtAction::GetTransportSettings, AvtAction::Stop, AvtAction::Play, AvtAction::Seek, AvtAction::Next, AvtAction::Previous, AvtAction::SetNextAVTransportURI, AvtAction::GetMediaInfoExt, AvtAction::Pause, AvtAction::Record, AvtAction::SetPlayMode, AvtAction::SetRecordQualityMode, AvtAction::GetCurrentTransportActions, AvtAction::GetDRMState, AvtAction::GetStateVariables, AvtAction::SetStateVariables, AvtAction::GetSyncOffset, AvtAction::AdjustSyncOffset, AvtAction::SetSyncOffset, AvtAction::SyncPlay, AvtAction::SyncStop, AvtAction::SyncPause, AvtAction::SetStaticPlaylist, AvtAction::SetStreamingPlaylist, AvtAction::GetPlaylistInfo];
    assert_eq!(class_counts(&avt, |a| a.is_required(), |a| a.is_optional(), |a| a.is_conditionally_required()), (18, 6, 6));
    let rcs = [RcsAction::ListPresets, RcsAction::SelectPreset, RcsAction::GetBrightness, RcsAction::SetBrightness, RcsAction::GetContrast, RcsAction::SetContrast, RcsAction::GetSharpness, RcsAction::SetSharpness, RcsAction::GetRedVideoGain, RcsAction::SetRedVideoGain, RcsAction::GetGreenVideoGain, RcsAction::SetGreenVideoGain, RcsAction::GetBlueVideoGain, RcsAction::SetBlueVideoGain, RcsAction::GetRedVideoBlackLevel, RcsAction::SetRedVideoBlackLevel, RcsAction::GetGreenVideoBlackLevel, RcsAction::SetGreenVideoBlackLevel, RcsAction::GetBlueVideoBlackLevel, RcsAction::SetBlueVideoBlackLevel, RcsAction::GetColorTemperature, RcsAction::SetColorTemperature, RcsAction::GetHorizontalKeystone, RcsAction::SetHorizontalKeystone, RcsAction::GetVerticalKeystone, RcsAction::SetVerticalKeystone, RcsAction::GetMute, RcsAction::SetMute, RcsAction::GetVolume, RcsAction::SetVolume, RcsAction::GetVolumeDB, RcsAction::SetVolumeDB, RcsAction::GetLoudness, RcsAction::SetLoudness, RcsAction::GetStateVariables, RcsAction::SetStateVariables, RcsAction::GetVolumeDBRange, RcsAction::GetAllowedTransforms, RcsAction::GetTransforms, RcsAction::SetTransforms, RcsAction::GetAllowedDefaultTransforms, RcsAction::GetDefaultTransforms, RcsAction::SetDefaultTransforms, RcsAction::GetAllAvailableTransforms];
    assert_eq!(class_counts(&rcs, |a| a.is_required(), |a| a.is_optional(), |a| a.is_conditionally_required()), (2, 28, 14));
}
