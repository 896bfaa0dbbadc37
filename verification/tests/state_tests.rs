use upnpav::services::avtransport::statics::StateVariableName as Avt;
use upnpav::state::{state_def, StateSchema, StateStore, StateVariable, StateVariableName};
use upnpav::types::upnp::{DataType, Error};

fn store() -> StateStore<Avt> {
    let mut s = StateStore::new();
    s.register(state_def(Avt::TransportState, DataType::String("STOPPED".to_string())));
    s.register(state_def(Avt::CurrentTrack, DataType::Ui4(0)));
    s.register(state_def(Avt::LastChange, DataType::String(String::new())));
    s
}

fn text(v: &DataType) -> String {
    v.as_value_str()
}

#[test]
fn state_variable_change_tracking() {
    let mut v = StateVariable::new(DataType::Ui4(1));
    assert!(!v.has_changes);
    v.set(DataType::Ui4(1));
    assert!(!v.has_changes);
    v.set(DataType::Ui4(2));
    assert!(v.has_changes);
    assert_eq!(v.current_value.as_value_str(), "2");
    v.clear_changes();
    assert!(!v.has_changes);
}

#[test]
fn write_then_read() {
    let mut s = store();
    assert_eq!(text(s.get(Avt::TransportState).unwrap()), "STOPPED");
    s.set(Avt::TransportState, DataType::String("PLAYING".to_string()));
    assert_eq!(text(s.get(Avt::TransportState).unwrap()), "PLAYING");
    assert_eq!(text(&s.get_owned(Avt::CurrentTrack).unwrap()), "0");
}

#[test]
fn unregistered_name_is_refused() {
    let mut s = store();
    assert!(matches!(s.get(Avt::DRMState), Err(Error::ArgumentValueInvalid)));
    s.set(Avt::DRMState, DataType::String("OK".to_string()));
    assert!(matches!(s.get(Avt::DRMState), Err(Error::ArgumentValueInvalid)));
    assert!(s.schema("DRMState").is_none());
    assert!(s.schema("TransportState").is_some());
}

#[test]
fn same_value_does_not_mark_change() {
    let mut s = store();
    s.set(Avt::TransportState, DataType::String("STOPPED".to_string()));
    assert!(s.collect_changed_evented().is_empty());
    s.set(Avt::TransportState, DataType::String("PLAYING".to_string()));
    assert_eq!(s.collect_changed_evented(), vec![("TransportState".to_string(), "PLAYING".to_string())]);
    s.clear_all_changes();
    assert!(s.collect_changed_evented().is_empty());
}

#[test]
fn evented_collection_in_definition_order() {
    let s = store();
    let all = s.collect_evented();
    assert_eq!(
        all,
        vec![
            ("TransportState".to_string(), "STOPPED".to_string()),
            ("CurrentTrack".to_string(), "0".to_string()),
            ("LastChange".to_string(), String::new()),
        ]
    );
    assert_eq!(s.names(), vec!["TransportState".to_string(), "CurrentTrack".to_string(), "LastChange".to_string()]);
}

#[test]
fn instance_isolation() {
    let mut s = store();
    s.set_instance(Avt::CurrentTrack, 1, DataType::Ui4(5));
    s.set_instance(Avt::CurrentTrack, 2, DataType::Ui4(9));
    assert_eq!(text(s.get_instance(Avt::CurrentTrack, 1).unwrap()), "5");
    assert_eq!(text(s.get_instance(Avt::CurrentTrack, 2).unwrap()), "9");
    assert_eq!(text(s.get(Avt::CurrentTrack).unwrap()), "0");
    assert_eq!(text(s.get_instance(Avt::CurrentTrack, 3).unwrap()), "0");
    assert_eq!(s.instance_ids(), vec![1, 2]);
    assert!(s.has_instance(2));
    s.remove_instance(1);
    assert!(!s.has_instance(1));
    assert_eq!(s.instance_count(), 1);
}

#[test]
fn scoped_writes() {
    let mut s = store();
    s.set_scoped(Avt::TransportState, 4, DataType::String("PAUSED_PLAYBACK".to_string()));
    assert_eq!(text(s.get(Avt::TransportState).unwrap()), "PAUSED_PLAYBACK");
    s.set_scoped(Avt::CurrentTrack, 4, DataType::Ui4(2));
    assert_eq!(text(s.get(Avt::CurrentTrack).unwrap()), "0");
    assert_eq!(text(s.get_instance(Avt::CurrentTrack, 4).unwrap()), "2");
}

#[test]
fn batches_apply_in_order() {
    let mut s = store();
    s.set_batch(vec![
        (Avt::CurrentTrack, DataType::Ui4(1)),
        (Avt::CurrentTrack, DataType::Ui4(3)),
    ]);
    assert_eq!(text(s.get(Avt::CurrentTrack).unwrap()), "3");
    let mut t: StateStore<Avt> = StateStore::new();
    t.register_batch(vec![state_def(Avt::DRMState, DataType::String("OK".to_string()))]);
    assert_eq!(t.names(), vec!["DRMState".to_string()]);
}

#[test]
fn schema_defaults() {
    let d: StateSchema<Avt> = StateSchema::default();
    assert!(d.allowed_values.is_none());
    assert!(!d.argument_type);
    assert_eq!(Avt::TransportState.as_str(), "TransportState");
    assert!(Avt::LastChange.is_evented());
    assert!(Avt::TransportState.via_lastchange());
    assert!(Avt::CurrentTrack.is_instance_scoped());
    assert_eq!(Avt::CurrentTrack.data_type_name(), "ui4");
}

#[test]
fn update_in_place() {
    let mut s = store();
    match s.get_mut(Avt::CurrentTrack) {
        Some(v) => v.set(DataType::Ui4(4)),
        None => panic!("CurrentTrack is registered"),
    }
    assert_eq!(text(s.get(Avt::CurrentTrack).unwrap()), "4");
    assert_eq!(s.collect_changed_evented(), vec![("CurrentTrack".to_string(), "4".to_string())]);
    assert!(s.get_mut(Avt::DRMState).is_none());
}

#[test]
fn schema_update_in_place() {
    let mut s = store();
    match s.schema_mut("CurrentTrack") {
        Some(d) => d.allowed_value_range = Some(("0".to_string(), "9".to_string(), "1".to_string())),
        None => panic!("CurrentTrack is registered"),
    }
    assert!(s.schema("CurrentTrack").unwrap().allowed_value_range.is_some());
    assert!(s.schema_mut("Nothing").is_none());
}

#[test]
fn instance_update_in_place() {
    let mut s = store();
    match s.get_instance_mut(Avt::CurrentTrack, 6) {
        Some(v) => v.set(DataType::Ui4(8)),
        None => panic!("CurrentTrack is instance-scoped"),
    }
    assert!(s.has_instance(6));
    assert_eq!(text(s.get_instance(Avt::CurrentTrack, 6).unwrap()), "8");
    assert_eq!(text(s.get(Avt::CurrentTrack).unwrap()), "0");
    // TransportState is global: instances hold no copy of it.
    assert!(s.get_instance_mut(Avt::TransportState, 6).is_none());
}

#[test]
fn writes_of_another_type_are_refused() {
    let mut s = store();
    s.set(Avt::TransportState, DataType::Boolean(true));
    assert_eq!(text(s.get(Avt::TransportState).unwrap()), "STOPPED");
    assert!(s.collect_changed_evented().is_empty());
    s.set(Avt::CurrentTrack, DataType::String("7".to_string()));
    assert_eq!(text(s.get(Avt::CurrentTrack).unwrap()), "0");
    s.set(Avt::CurrentTrack, DataType::Ui4(7));
    assert_eq!(text(s.get(Avt::CurrentTrack).unwrap()), "7");
    s.replace_value(Avt::LastChange, DataType::Ui4(1));
    assert_eq!(text(s.get(Avt::LastChange).unwrap()), "");
}

#[test]
fn writes_are_checked_against_the_definition() {
    let mut s = store();
    match s.get_mut(Avt::CurrentTrack) {
        Some(v) => v.current_value = DataType::String("odd".to_string()),
        None => panic!("CurrentTrack is registered"),
    }
    s.set(Avt::CurrentTrack, DataType::String("other".to_string()));
    assert_eq!(text(s.get(Avt::CurrentTrack).unwrap()), "odd");
    s.set(Avt::CurrentTrack, DataType::Ui4(3));
    assert_eq!(text(s.get(Avt::CurrentTrack).unwrap()), "3");
}

#[test]
fn instance_zero_is_global() {
    let mut s = store();
    s.set_scoped(Avt::CurrentTrack, 0, DataType::Ui4(5));
    assert_eq!(text(s.get(Avt::CurrentTrack).unwrap()), "5");
    assert!(!s.has_instance(0));
    s.set_scoped(Avt::CurrentTrack, 2, DataType::Ui4(6));
    assert_eq!(text(s.get(Avt::CurrentTrack).unwrap()), "5");
    assert_eq!(text(s.get_instance(Avt::CurrentTrack, 2).unwrap()), "6");
}
