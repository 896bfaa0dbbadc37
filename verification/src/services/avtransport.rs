//! AVTransport service: the action registry, the state variables and their
//! eventing through LastChange.
pub mod statics;
pub mod traits;
pub mod actions;


use vstd::prelude::*;
use vstd::rwlock::RwLock;

use std::sync::Arc;

use crate::gena::{EventPublisher, PublisherLock};
use crate::services::lastchange::{build_last_change, last_change_text};
use crate::state::{
    register_all, schema_view, schema_views, SchemaView, StateSchema, StateStore, StateVariable,
    StateVariableName as StateVariableNameTrait, StoreLock, VarView,
};
use crate::services::shared::share;
use crate::text::to_owned_string;
use crate::types::upnp::{
    event_url_spec,
    Action, ActionMap, ActionMapLock, DataType, DataValue, Error, ServiceVersion, Services,
};
use statics::StateVariableName;

verus! {

/// Whether the service registers a definition under `n`.
pub open spec fn registered_name(n: StateVariableName) -> bool {
    exists|i: int| 0 <= i < state_schema_list().len() && #[trigger] state_schema_list()[i].name == n
}

/// Every state variable of the service has a definition: the service
/// registers all of its names.
pub proof fn lemma_every_name_registered(n: StateVariableName)
    ensures
        registered_name(n),
{
    match n {
        StateVariableName::TransportState => {
            assert(state_schema_list()[0].name == n);
        },
        StateVariableName::TransportStatus => {
            assert(state_schema_list()[1].name == n);
        },
        StateVariableName::CurrentMediaCategory => {
            assert(state_schema_list()[2].name == n);
        },
        StateVariableName::AVTransportURI => {
            assert(state_schema_list()[3].name == n);
        },
        StateVariableName::AVTransportURIMetaData => {
            assert(state_schema_list()[4].name == n);
        },
        StateVariableName::NextAVTransportURI => {
            assert(state_schema_list()[5].name == n);
        },
        StateVariableName::NextAVTransportURIMetaData => {
            assert(state_schema_list()[6].name == n);
        },
        StateVariableName::CurrentTrackURI => {
            assert(state_schema_list()[7].name == n);
        },
        StateVariableName::CurrentTrackMetaData => {
            assert(state_schema_list()[8].name == n);
        },
        StateVariableName::CurrentTrack => {
            assert(state_schema_list()[9].name == n);
        },
        StateVariableName::NumberOfTracks => {
            assert(state_schema_list()[10].name == n);
        },
        StateVariableName::CurrentTrackDuration => {
            assert(state_schema_list()[11].name == n);
        },
        StateVariableName::CurrentMediaDuration => {
            assert(state_schema_list()[12].name == n);
        },
        StateVariableName::RelativeTimePosition => {
            assert(state_schema_list()[13].name == n);
        },
        StateVariableName::AbsoluteTimePosition => {
            assert(state_schema_list()[14].name == n);
        },
        StateVariableName::RelativeCounterPosition => {
            assert(state_schema_list()[15].name == n);
        },
        StateVariableName::AbsoluteCounterPosition => {
            assert(state_schema_list()[16].name == n);
        },
        StateVariableName::PlaybackStorageMedium => {
            assert(state_schema_list()[17].name == n);
        },
        StateVariableName::RecordStorageMedium => {
            assert(state_schema_list()[18].name == n);
        },
        StateVariableName::PossiblePlaybackStorageMedia => {
            assert(state_schema_list()[19].name == n);
        },
        StateVariableName::PossibleRecordStorageMedia => {
            assert(state_schema_list()[20].name == n);
        },
        StateVariableName::CurrentPlayMode => {
            assert(state_schema_list()[21].name == n);
        },
        StateVariableName::TransportPlaySpeed => {
            assert(state_schema_list()[22].name == n);
        },
        StateVariableName::RecordMediumWriteStatus => {
            assert(state_schema_list()[23].name == n);
        },
        StateVariableName::CurrentRecordQualityMode => {
            assert(state_schema_list()[24].name == n);
        },
        StateVariableName::PossibleRecordQualityModes => {
            assert(state_schema_list()[25].name == n);
        },
        StateVariableName::DRMState => {
            assert(state_schema_list()[26].name == n);
        },
        StateVariableName::LastChange => {
            assert(state_schema_list()[27].name == n);
        },
        StateVariableName::CurrentTransportActions => {
            assert(state_schema_list()[28].name == n);
        },
        StateVariableName::A_ARG_TYPE_InstanceID => {
            assert(state_schema_list()[29].name == n);
        },
        StateVariableName::A_ARG_TYPE_SeekMode => {
            assert(state_schema_list()[30].name == n);
        },
        StateVariableName::A_ARG_TYPE_SeekTarget => {
            assert(state_schema_list()[31].name == n);
        },
        StateVariableName::A_ARG_TYPE_RecordMedium => {
            assert(state_schema_list()[32].name == n);
        },
        StateVariableName::A_ARG_TYPE_StreamFormat => {
            assert(state_schema_list()[33].name == n);
        },
    }
}


/// The AVTransport state variable definitions, in registration order.
pub open spec fn state_schema_list() -> Seq<SchemaView<StateVariableName>> {
    seq![
        SchemaView { name: StateVariableName::TransportState, default: DataValue::String("STOPPED"@), allowed_values: None, allowed_value_range: None, argument_type: false },
        SchemaView { name: StateVariableName::TransportStatus, default: DataValue::String("OK"@), allowed_values: None, allowed_value_range: None, argument_type: false },
        SchemaView { name: StateVariableName::CurrentMediaCategory, default: DataValue::String("NO_MEDIA"@), allowed_values: None, allowed_value_range: None, argument_type: false },
        SchemaView { name: StateVariableName::AVTransportURI, default: DataValue::String(Seq::empty()), allowed_values: None, allowed_value_range: None, argument_type: false },
        SchemaView { name: StateVariableName::AVTransportURIMetaData, default: DataValue::String("NOT_IMPLEMENTED"@), allowed_values: None, allowed_value_range: None, argument_type: false },
        SchemaView { name: StateVariableName::NextAVTransportURI, default: DataValue::String("NOT_IMPLEMENTED"@), allowed_values: None, allowed_value_range: None, argument_type: false },
        SchemaView { name: StateVariableName::NextAVTransportURIMetaData, default: DataValue::String("NOT_IMPLEMENTED"@), allowed_values: None, allowed_value_range: None, argument_type: false },
        SchemaView { name: StateVariableName::CurrentTrackURI, default: DataValue::String(Seq::empty()), allowed_values: None, allowed_value_range: None, argument_type: false },
        SchemaView { name: StateVariableName::CurrentTrackMetaData, default: DataValue::String("NOT_IMPLEMENTED"@), allowed_values: None, allowed_value_range: None, argument_type: false },
        SchemaView { name: StateVariableName::CurrentTrack, default: DataValue::Ui4(0u32), allowed_values: None, allowed_value_range: None, argument_type: false },
        SchemaView { name: StateVariableName::NumberOfTracks, default: DataValue::Ui4(0u32), allowed_values: None, allowed_value_range: None, argument_type: false },
        SchemaView { name: StateVariableName::CurrentTrackDuration, default: DataValue::String("00:00:00"@), allowed_values: None, allowed_value_range: None, argument_type: false },
        SchemaView { name: StateVariableName::CurrentMediaDuration, default: DataValue::String("00:00:00"@), allowed_values: None, allowed_value_range: None, argument_type: false },
        SchemaView { name: StateVariableName::RelativeTimePosition, default: DataValue::String("NOT_IMPLEMENTED"@), allowed_values: None, allowed_value_range: None, argument_type: false },
        SchemaView { name: StateVariableName::AbsoluteTimePosition, default: DataValue::String("NOT_IMPLEMENTED"@), allowed_values: None, allowed_value_range: None, argument_type: false },
        SchemaView { name: StateVariableName::RelativeCounterPosition, default: DataValue::I4(i32::MAX), allowed_values: None, allowed_value_range: None, argument_type: false },
        SchemaView { name: StateVariableName::AbsoluteCounterPosition, default: DataValue::Ui4(0u32), allowed_values: None, allowed_value_range: None, argument_type: false },
        SchemaView { name: StateVariableName::PlaybackStorageMedium, default: DataValue::String("NONE"@), allowed_values: None, allowed_value_range: None, argument_type: false },
        SchemaView { name: StateVariableName::RecordStorageMedium, default: DataValue::String("NOT_IMPLEMENTED"@), allowed_values: None, allowed_value_range: None, argument_type: false },
        SchemaView { name: StateVariableName::PossiblePlaybackStorageMedia, default: DataValue::String("NONE"@), allowed_values: None, allowed_value_range: None, argument_type: false },
        SchemaView { name: StateVariableName::PossibleRecordStorageMedia, default: DataValue::String("NOT_IMPLEMENTED"@), allowed_values: None, allowed_value_range: None, argument_type: false },
        SchemaView { name: StateVariableName::CurrentPlayMode, default: DataValue::String("NORMAL"@), allowed_values: None, allowed_value_range: None, argument_type: false },
        SchemaView { name: StateVariableName::TransportPlaySpeed, default: DataValue::String("1"@), allowed_values: None, allowed_value_range: None, argument_type: false },
        SchemaView { name: StateVariableName::RecordMediumWriteStatus, default: DataValue::String("NOT_IMPLEMENTED"@), allowed_values: None, allowed_value_range: None, argument_type: false },
        SchemaView { name: StateVariableName::CurrentRecordQualityMode, default: DataValue::String("NOT_IMPLEMENTED"@), allowed_values: None, allowed_value_range: None, argument_type: false },
        SchemaView { name: StateVariableName::PossibleRecordQualityModes, default: DataValue::String("NOT_IMPLEMENTED"@), allowed_values: None, allowed_value_range: None, argument_type: false },
        SchemaView { name: StateVariableName::DRMState, default: DataValue::String("UNKNOWN"@), allowed_values: None, allowed_value_range: None, argument_type: false },
        SchemaView { name: StateVariableName::LastChange, default: DataValue::String(Seq::empty()), allowed_values: None, allowed_value_range: None, argument_type: false },
        SchemaView { name: StateVariableName::CurrentTransportActions, default: DataValue::String("PLAY,STOP,PAUSE,SEEK,NEXT,PREVIOUS"@), allowed_values: None, allowed_value_range: None, argument_type: false },
        SchemaView { name: StateVariableName::A_ARG_TYPE_InstanceID, default: DataValue::Ui4(0u32), allowed_values: None, allowed_value_range: None, argument_type: true },
        SchemaView { name: StateVariableName::A_ARG_TYPE_SeekMode, default: DataValue::String(Seq::empty()), allowed_values: Some(seq!["REL_TIME"@, "ABS_TIME"@, "TRACK_NR"@, "TIME_OFFSET"@, "TRACK_OFFSET"@, "ABSOLUTE_TIME"@, "ABSOLUTE_TIME_PRES"@, "ABSOLUTE_TIME_COUNTER"@, "ABSOLUTE_TIME_COUNTER_PRES"@]), allowed_value_range: None, argument_type: true },
        SchemaView { name: StateVariableName::A_ARG_TYPE_SeekTarget, default: DataValue::String(Seq::empty()), allowed_values: None, allowed_value_range: None, argument_type: true },
        SchemaView { name: StateVariableName::A_ARG_TYPE_RecordMedium, default: DataValue::String(Seq::empty()), allowed_values: None, allowed_value_range: None, argument_type: true },
        SchemaView { name: StateVariableName::A_ARG_TYPE_StreamFormat, default: DataValue::String(Seq::empty()), allowed_values: None, allowed_value_range: None, argument_type: true },
    ]
}

/// The AVTransport state variable definitions, in registration order.
pub fn state_definitions() -> (r: Vec<StateSchema<StateVariableName>>)
    ensures
        schema_views(r@) == state_schema_list(),
{
    let mut defs: Vec<StateSchema<StateVariableName>> = Vec::new();
    defs.push(StateSchema { name: StateVariableName::TransportState, default: DataType::String(to_owned_string("STOPPED")), allowed_values: None, allowed_value_range: None, argument_type: false });
    defs.push(StateSchema { name: StateVariableName::TransportStatus, default: DataType::String(to_owned_string("OK")), allowed_values: None, allowed_value_range: None, argument_type: false });
    defs.push(StateSchema { name: StateVariableName::CurrentMediaCategory, default: DataType::String(to_owned_string("NO_MEDIA")), allowed_values: None, allowed_value_range: None, argument_type: false });
    defs.push(StateSchema { name: StateVariableName::AVTransportURI, default: DataType::String(String::new()), allowed_values: None, allowed_value_range: None, argument_type: false });
    defs.push(StateSchema { name: StateVariableName::AVTransportURIMetaData, default: DataType::String(to_owned_string("NOT_IMPLEMENTED")), allowed_values: None, allowed_value_range: None, argument_type: false });
    defs.push(StateSchema { name: StateVariableName::NextAVTransportURI, default: DataType::String(to_owned_string("NOT_IMPLEMENTED")), allowed_values: None, allowed_value_range: None, argument_type: false });
    defs.push(StateSchema { name: StateVariableName::NextAVTransportURIMetaData, default: DataType::String(to_owned_string("NOT_IMPLEMENTED")), allowed_values: None, allowed_value_range: None, argument_type: false });
    defs.push(StateSchema { name: StateVariableName::CurrentTrackURI, default: DataType::String(String::new()), allowed_values: None, allowed_value_range: None, argument_type: false });
    defs.push(StateSchema { name: StateVariableName::CurrentTrackMetaData, default: DataType::String(to_owned_string("NOT_IMPLEMENTED")), allowed_values: None, allowed_value_range: None, argument_type: false });
    defs.push(StateSchema { name: StateVariableName::CurrentTrack, default: DataType::Ui4(0u32), allowed_values: None, allowed_value_range: None, argument_type: false });
    defs.push(StateSchema { name: StateVariableName::NumberOfTracks, default: DataType::Ui4(0u32), allowed_values: None, allowed_value_range: None, argument_type: false });
    defs.push(StateSchema { name: StateVariableName::CurrentTrackDuration, default: DataType::String(to_owned_string("00:00:00")), allowed_values: None, allowed_value_range: None, argument_type: false });
    defs.push(StateSchema { name: StateVariableName::CurrentMediaDuration, default: DataType::String(to_owned_string("00:00:00")), allowed_values: None, allowed_value_range: None, argument_type: false });
    defs.push(StateSchema { name: StateVariableName::RelativeTimePosition, default: DataType::String(to_owned_string("NOT_IMPLEMENTED")), allowed_values: None, allowed_value_range: None, argument_type: false });
    defs.push(StateSchema { name: StateVariableName::AbsoluteTimePosition, default: DataType::String(to_owned_string("NOT_IMPLEMENTED")), allowed_values: None, allowed_value_range: None, argument_type: false });
    defs.push(StateSchema { name: StateVariableName::RelativeCounterPosition, default: DataType::I4(i32::MAX), allowed_values: None, allowed_value_range: None, argument_type: false });
    defs.push(StateSchema { name: StateVariableName::AbsoluteCounterPosition, default: DataType::Ui4(0u32), allowed_values: None, allowed_value_range: None, argument_type: false });
    defs.push(StateSchema { name: StateVariableName::PlaybackStorageMedium, default: DataType::String(to_owned_string("NONE")), allowed_values: None, allowed_value_range: None, argument_type: false });
    defs.push(StateSchema { name: StateVariableName::RecordStorageMedium, default: DataType::String(to_owned_string("NOT_IMPLEMENTED")), allowed_values: None, allowed_value_range: None, argument_type: false });
    defs.push(StateSchema { name: StateVariableName::PossiblePlaybackStorageMedia, default: DataType::String(to_owned_string("NONE")), allowed_values: None, allowed_value_range: None, argument_type: false });
    defs.push(StateSchema { name: StateVariableName::PossibleRecordStorageMedia, default: DataType::String(to_owned_string("NOT_IMPLEMENTED")), allowed_values: None, allowed_value_range: None, argument_type: false });
    defs.push(StateSchema { name: StateVariableName::CurrentPlayMode, default: DataType::String(to_owned_string("NORMAL")), allowed_values: None, allowed_value_range: None, argument_type: false });
    defs.push(StateSchema { name: StateVariableName::TransportPlaySpeed, default: DataType::String(to_owned_string("1")), allowed_values: None, allowed_value_range: None, argument_type: false });
    defs.push(StateSchema { name: StateVariableName::RecordMediumWriteStatus, default: DataType::String(to_owned_string("NOT_IMPLEMENTED")), allowed_values: None, allowed_value_range: None, argument_type: false });
    defs.push(StateSchema { name: StateVariableName::CurrentRecordQualityMode, default: DataType::String(to_owned_string("NOT_IMPLEMENTED")), allowed_values: None, allowed_value_range: None, argument_type: false });
    defs.push(StateSchema { name: StateVariableName::PossibleRecordQualityModes, default: DataType::String(to_owned_string("NOT_IMPLEMENTED")), allowed_values: None, allowed_value_range: None, argument_type: false });
    defs.push(StateSchema { name: StateVariableName::DRMState, default: DataType::String(to_owned_string("UNKNOWN")), allowed_values: None, allowed_value_range: None, argument_type: false });
    defs.push(StateSchema { name: StateVariableName::LastChange, default: DataType::String(String::new()), allowed_values: None, allowed_value_range: None, argument_type: false });
    defs.push(StateSchema { name: StateVariableName::CurrentTransportActions, default: DataType::String(to_owned_string("PLAY,STOP,PAUSE,SEEK,NEXT,PREVIOUS")), allowed_values: None, allowed_value_range: None, argument_type: false });
    defs.push(StateSchema { name: StateVariableName::A_ARG_TYPE_InstanceID, default: DataType::Ui4(0u32), allowed_values: None, allowed_value_range: None, argument_type: true });
    let mut allowed: Vec<String> = Vec::new();
    allowed.push(to_owned_string("REL_TIME"));
    allowed.push(to_owned_string("ABS_TIME"));
    allowed.push(to_owned_string("TRACK_NR"));
    allowed.push(to_owned_string("TIME_OFFSET"));
    allowed.push(to_owned_string("TRACK_OFFSET"));
    allowed.push(to_owned_string("ABSOLUTE_TIME"));
    allowed.push(to_owned_string("ABSOLUTE_TIME_PRES"));
    allowed.push(to_owned_string("ABSOLUTE_TIME_COUNTER"));
    allowed.push(to_owned_string("ABSOLUTE_TIME_COUNTER_PRES"));
    defs.push(StateSchema { name: StateVariableName::A_ARG_TYPE_SeekMode, default: DataType::String(String::new()), allowed_values: Some(allowed), allowed_value_range: None, argument_type: true });
    assert(schema_view(defs@.last()).allowed_values == Some(seq!["REL_TIME"@, "ABS_TIME"@, "TRACK_NR"@, "TIME_OFFSET"@, "TRACK_OFFSET"@, "ABSOLUTE_TIME"@, "ABSOLUTE_TIME_PRES"@, "ABSOLUTE_TIME_COUNTER"@, "ABSOLUTE_TIME_COUNTER_PRES"@]));
    defs.push(StateSchema { name: StateVariableName::A_ARG_TYPE_SeekTarget, default: DataType::String(String::new()), allowed_values: None, allowed_value_range: None, argument_type: true });
    defs.push(StateSchema { name: StateVariableName::A_ARG_TYPE_RecordMedium, default: DataType::String(String::new()), allowed_values: None, allowed_value_range: None, argument_type: true });
    defs.push(StateSchema { name: StateVariableName::A_ARG_TYPE_StreamFormat, default: DataType::String(String::new()), allowed_values: None, allowed_value_range: None, argument_type: true });
    assert(schema_views(defs@) =~= state_schema_list());
    defs
}

/// The metadata namespace of the AVTransport LastChange document.
pub open spec fn event_namespace() -> Seq<char> {
    "urn:schemas-upnp-org:metadata-1-0/AVT/"@
}

/// Shared event publisher type alias for convenience.
pub type AvTransportEventPublisher = Arc<RwLock<EventPublisher, PublisherLock>>;

/// AVTransport service — owns action registry, state variables, and eventing.
///
/// The application registers trait implementations (Play, Stop, ...) via
/// `register_action()`; the SOAP handler dispatches incoming requests to them.
/// When state changes through `set_state_var()`, the service writes the
/// value, rebuilds the LastChange document of the instance, stores it in the
/// LastChange variable and notifies all GENA subscribers.
#[derive(Clone)]
pub struct AvTransportService {
    actions: Arc<RwLock<ActionMap, ActionMapLock>>,
    state_store: Arc<RwLock<StateStore<StateVariableName>, StoreLock<StateVariableName>>>,
    event_publisher: Arc<RwLock<EventPublisher, PublisherLock>>,
}

impl AvTransportService {
    /// The lock holding the action registry.
    pub closed spec fn action_lock(&self) -> RwLock<ActionMap, ActionMapLock> {
        *self.actions
    }

    /// The lock holding the state variables.
    pub closed spec fn store_lock(&self) -> RwLock<StateStore<StateVariableName>, StoreLock<StateVariableName>> {
        *self.state_store
    }

    /// The lock holding the event publisher.
    pub closed spec fn publisher_lock(&self) -> RwLock<EventPublisher, PublisherLock> {
        *self.event_publisher
    }

    /// Create a new empty AVTransport service with all state variables initialized.
    pub fn new() -> (r: Self)
        ensures
            r.action_lock().pred().service == Services::AVTransport(ServiceVersion::V3),
            r.publisher_lock().pred().url@ == event_url_spec(Services::AVTransport(ServiceVersion::V3)),
            exists|defs: Seq<StateSchema<StateVariableName>>|
                #[trigger] schema_views(defs) == state_schema_list() && r.store_lock().pred().schema@
                    == register_all((Seq::empty(), Seq::empty()), defs).0,
    {
        Self::with_event_publisher(EventPublisher::new(Services::AVTransport(ServiceVersion::V3).event_url(), false))
    }

    /// Create a new AVTransport service with a custom event publisher.
    pub fn with_event_publisher(publisher: EventPublisher) -> (r: Self)
        ensures
            r.action_lock().pred().service == Services::AVTransport(ServiceVersion::V3),
            r.publisher_lock().pred().url@ == publisher.url(),
            exists|defs: Seq<StateSchema<StateVariableName>>|
                #[trigger] schema_views(defs) == state_schema_list() && r.store_lock().pred().schema@
                    == register_all((Seq::empty(), Seq::empty()), defs).0,
    {
        let ghost url = publisher.url();
        let mut state_store = StateStore::new();
        Self::init_state_vars(&mut state_store);
        let ghost schema = state_store.schema_seq();
        AvTransportService {
            actions: Arc::new(RwLock::new(ActionMap::new(Services::AVTransport(ServiceVersion::V3)), Ghost(ActionMapLock { service: Services::AVTransport(ServiceVersion::V3) }))),
            state_store: Arc::new(RwLock::new(state_store, Ghost(StoreLock { schema: Ghost(schema) }))),
            event_publisher: Arc::new(RwLock::new(publisher, Ghost(PublisherLock { url: Ghost(url) }))),
        }
    }

    /// Get a clone of the shared event publisher.
    pub fn event_publisher(&self) -> (r: AvTransportEventPublisher)
        ensures
            *r == self.publisher_lock(),
    {
        share(&self.event_publisher)
    }

    /// Get the shared state store, for action construction.
    pub fn state_store(&self) -> (r: Arc<RwLock<StateStore<StateVariableName>, StoreLock<StateVariableName>>>)
        ensures
            *r == self.store_lock(),
    {
        share(&self.state_store)
    }

    /// Initialize all AVTransport state variables: registers `state_definitions()`,
    /// in order.
    fn init_state_vars(state_store: &mut StateStore<StateVariableName>)
        requires
            old(state_store).wf(),
        ensures
            final(state_store).wf(),
            final(state_store).instances() == old(state_store).instances(),
            exists|defs: Seq<StateSchema<StateVariableName>>|
                #[trigger] schema_views(defs) == state_schema_list() && (
                    final(state_store).schema_seq(),
                    final(state_store).vars(),
                ) == register_all((old(state_store).schema_seq(), old(state_store).vars()), defs),
            crate::state::holds_registered::<StateVariableName>(final(state_store).vars()),
    {
        let defs = state_definitions();
        let ghost d = defs@;
        let ghost start = (state_store.schema_seq(), state_store.vars());
        state_store.register_batch(defs);
        assert(schema_views(d) == state_schema_list());
        proof {
            assert forall|n: StateVariableName| #[trigger] n.registered() implies crate::state::key_pos(
                state_store.vars(),
                n.wire_name(),
            ) is Some by {
                let i = choose|i: int| 0 <= i < state_schema_list().len() && #[trigger] state_schema_list()[i].name == n;
                assert(schema_views(d)[i].name == d[i].name);
                assert(d[i].name.wire_name() == n.wire_name());
                crate::state::lemma_register_all_names(start, d, n.wire_name());
            }
        }
    }

    /// Register a trait implementation for the given action name.
    pub fn register_action(&mut self, action: Box<dyn Action>)
        ensures
            *final(self) == *old(self),
    {
        let (mut map, handle) = self.actions.acquire_write();
        map.register(action);
        handle.release_write(map);
    }

    /// Get the action map for SOAP dispatch.
    pub fn actions(&self) -> (r: Arc<RwLock<ActionMap, ActionMapLock>>)
        ensures
            *r == self.action_lock(),
    {
        share(&self.actions)
    }

    /// Get a state variable by name.
    pub fn get_state_var(&self, name: StateVariableName) -> (r: Result<DataType, Error>)
        ensures
            r is Ok,
            exists|st: StateStore<StateVariableName>|
                #[trigger] st.wf() && st.schema_seq() == self.store_lock().pred().schema@ && match crate::state::key_pos(st.vars(), name.wire_name()) {
                    Some(i) => r matches Ok(v) && v@ == st.vars()[i].1.value,
                    None => r == Err::<DataType, Error>(Error::ArgumentValueInvalid),
                },
    {
        let h = self.state_store.acquire_read();
        let r = h.borrow().get_owned(name);
        proof {
            assert(h.view().wf());
            lemma_every_name_registered(name);
            assert(name.registered());
            assert(crate::state::key_pos(h.view().vars(), name.wire_name()) is Some);
        }
        h.release_read();
        r
    }

    /// Set any state variable at a specific InstanceID.
    ///
    /// This is the single gatekeeper method for all state mutations. It:
    /// 1. Sets the value in StateStore (in the instance's own copy when the
    ///    variable is instance-scoped)
    /// 2. Triggers GENA events via LastChange NOTIFY
    ///
    /// Writing the same value does NOT set has_changes (per UPnP spec).
    ///
    /// Returns, as ghost values, the store as the write found it and as the
    /// write left it when it handed it back to the lock.
    pub fn set_state_var(&self, instance_id: u32, name: StateVariableName, value: DataType) -> (r: Ghost<
        (StateStore<StateVariableName>, StateStore<StateVariableName>),
    >)
        ensures
            r@.0.wf(),
            r@.1.wf(),
            r@.0.schema_seq() == self.store_lock().pred().schema@,
            crate::state::scoped_write(r@.0, r@.1, name, instance_id, value@),
    {
        let (mut store, handle) = self.state_store.acquire_write();
        let ghost before = store;
        store.set_scoped(name, instance_id, value);
        proof {
            crate::state::lemma_same_schema_holds_registered(before, store);
        }
        let ghost after = store;
        handle.release_write(store);
        self.trigger_events_for_instance(instance_id);
        Ghost((before, after))
    }

    /// Build the LastChange XML propertyset from all evented state variables
    /// for an instance.
    fn build_last_change(&self, instance_id: u32) -> (r: String)
        ensures
            exists|st: StateStore<StateVariableName>|
                #[trigger] st.wf() && st.schema_seq() == self.store_lock().pred().schema@ && r@ == last_change_text(
                    event_namespace(),
                    crate::state::evented_pairs_for(st.schema_seq(), st.vars(), st.instance(instance_id), false),
                ),
    {
        let h = self.state_store.acquire_read();
        let evented = h.borrow().collect_evented_for_instance(instance_id);
        proof {
            assert(h.view().wf());
        }
        h.release_read();
        build_last_change("urn:schemas-upnp-org:metadata-1-0/AVT/", evented.as_slice())
    }

    /// Trigger GENA events for all evented state variables at a specific
    /// InstanceID: builds the LastChange document, stores it in the LastChange
    /// variable and notifies every subscriber with it.
    fn trigger_events_for_instance(&self, instance_id: u32) {
        let last_change_xml = self.build_last_change(instance_id);
        let (mut store, handle) = self.state_store.acquire_write();
        let ghost before = store;
        store.replace_value(StateVariableName::LastChange, DataType::String(last_change_xml.clone()));
        proof {
            crate::state::lemma_same_schema_holds_registered(before, store);
        }
        handle.release_write(store);
        let mut properties: Vec<(String, String)> = Vec::new();
        properties.push((to_owned_string("LastChange"), last_change_xml));
        let (mut publisher, publisher_handle) = self.event_publisher.acquire_write();
        let _results = publisher.notify(properties.as_slice());
        publisher_handle.release_write(publisher);
    }

    /// Get all state variable names (for SCPD generation).
    pub fn state_var_names(&self) -> (r: Vec<String>)
        ensures
            r@.map_values(|s: String| s@) == crate::state::schema_names(self.store_lock().pred().schema@),
    {
        let h = self.state_store.acquire_read();
        let r = h.borrow().names();
        proof {
            assert(h.view().wf());
        }
        h.release_read();
        r
    }
}

} // verus!
