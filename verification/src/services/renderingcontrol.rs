//! RenderingControl service: the action registry, the state variables and their
//! eventing through LastChange.
pub mod statics;
pub mod traits;
pub mod actions;


use vstd::prelude::*;
use vstd::rwlock::RwLock;

use std::sync::Arc;

use crate::gena::{EventPublisher, PublisherLock};
use crate::services::lastchange::{build_last_change, last_change_text};
use crate::state::{
    register_all, schema_view, schema_views, SchemaView, StateSchema, StateStore, StateVariable,
    StateVariableName as StateVariableNameTrait, StoreLock, VarView,
};
use crate::services::shared::share;
use crate::text::to_owned_string;
use crate::types::upnp::{
    event_url_spec,
    Action, ActionMap, ActionMapLock, DataType, DataValue, Error, ServiceVersion, Services,
};
use statics::StateVariableName;

verus! {

/// Whether the service registers a definition under `n`.
pub open spec fn registered_name(n: StateVariableName) -> bool {
    exists|i: int| 0 <= i < state_schema_list().len() && #[trigger] state_schema_list()[i].name == n
}

/// Every state variable of the service has a definition: the service
/// registers all of its names.
pub proof fn lemma_every_name_registered(n: StateVariableName)
    ensures
        registered_name(n),
{
    match n {
        StateVariableName::LastChange => {
            assert(state_schema_list()[0].name == n);
        },
        StateVariableName::PresetNameList => {
            assert(state_schema_list()[1].name == n);
        },
        StateVariableName::Brightness => {
            assert(state_schema_list()[2].name == n);
        },
        StateVariableName::Contrast => {
            assert(state_schema_list()[3].name == n);
        },
        StateVariableName::Sharpness => {
            assert(state_schema_list()[4].name == n);
        },
        StateVariableName::RedVideoGain => {
            assert(state_schema_list()[5].name == n);
        },
        StateVariableName::GreenVideoGain => {
            assert(state_schema_list()[6].name == n);
        },
        StateVariableName::BlueVideoGain => {
            assert(state_schema_list()[7].name == n);
        },
        StateVariableName::RedVideoBlackLevel => {
            assert(state_schema_list()[8].name == n);
        },
        StateVariableName::GreenVideoBlackLevel => {
            assert(state_schema_list()[9].name == n);
        },
        StateVariableName::BlueVideoBlackLevel => {
            assert(state_schema_list()[10].name == n);
        },
        StateVariableName::ColorTemperature => {
            assert(state_schema_list()[11].name == n);
        },
        StateVariableName::HorizontalKeystone => {
            assert(state_schema_list()[12].name == n);
        },
        StateVariableName::VerticalKeystone => {
            assert(state_schema_list()[13].name == n);
        },
        StateVariableName::Mute => {
            assert(state_schema_list()[14].name == n);
        },
        StateVariableName::Volume => {
            assert(state_schema_list()[15].name == n);
        },
        StateVariableName::VolumeDB => {
            assert(state_schema_list()[16].name == n);
        },
        StateVariableName::Loudness => {
            assert(state_schema_list()[17].name == n);
        },
        StateVariableName::AllowedTransformSettings => {
            assert(state_schema_list()[18].name == n);
        },
        StateVariableName::TransformSettings => {
            assert(state_schema_list()[19].name == n);
        },
        StateVariableName::AllowedDefaultTransformSettings => {
            assert(state_schema_list()[20].name == n);
        },
        StateVariableName::DefaultTransformSettings => {
            assert(state_schema_list()[21].name == n);
        },
        StateVariableName::A_ARG_TYPE_InstanceID => {
            assert(state_schema_list()[22].name == n);
        },
        StateVariableName::A_ARG_TYPE_Channel => {
            assert(state_schema_list()[23].name == n);
        },
        StateVariableName::A_ARG_TYPE_PresetName => {
            assert(state_schema_list()[24].name == n);
        },
        StateVariableName::A_ARG_TYPE_DeviceUDN => {
            assert(state_schema_list()[25].name == n);
        },
        StateVariableName::A_ARG_TYPE_ServiceType => {
            assert(state_schema_list()[26].name == n);
        },
        StateVariableName::A_ARG_TYPE_ServiceID => {
            assert(state_schema_list()[27].name == n);
        },
        StateVariableName::A_ARG_TYPE_StateVariableValuePairs => {
            assert(state_schema_list()[28].name == n);
        },
        StateVariableName::A_ARG_TYPE_StateVariableList => {
            assert(state_schema_list()[29].name == n);
        },
    }
}


/// The RenderingControl state variable definitions, in registration order.
pub open spec fn state_schema_list() -> Seq<SchemaView<StateVariableName>> {
    seq![
        SchemaView { name: StateVariableName::LastChange, default: DataValue::String(Seq::empty()), allowed_values: None, allowed_value_range: None, argument_type: false },
        SchemaView { name: StateVariableName::PresetNameList, default: DataValue::String("FactoryDefaults"@), allowed_values: None, allowed_value_range: None, argument_type: false },
        SchemaView { name: StateVariableName::Brightness, default: DataValue::Ui2(128u16), allowed_values: None, allowed_value_range: Some(("0"@, "255"@, "1"@)), argument_type: false },
        SchemaView { name: StateVariableName::Contrast, default: DataValue::Ui2(128u16), allowed_values: None, allowed_value_range: Some(("0"@, "255"@, "1"@)), argument_type: false },
        SchemaView { name: StateVariableName::Sharpness, default: DataValue::Ui2(128u16), allowed_values: None, allowed_value_range: Some(("0"@, "255"@, "1"@)), argument_type: false },
        SchemaView { name: StateVariableName::RedVideoGain, default: DataValue::Ui2(0u16), allowed_values: None, allowed_value_range: Some(("0"@, "65535"@, "1"@)), argument_type: false },
        SchemaView { name: StateVariableName::GreenVideoGain, default: DataValue::Ui2(0u16), allowed_values: None, allowed_value_range: Some(("0"@, "65535"@, "1"@)), argument_type: false },
        SchemaView { name: StateVariableName::BlueVideoGain, default: DataValue::Ui2(0u16), allowed_values: None, allowed_value_range: Some(("0"@, "65535"@, "1"@)), argument_type: false },
        SchemaView { name: StateVariableName::RedVideoBlackLevel, default: DataValue::Ui2(0u16), allowed_values: None, allowed_value_range: Some(("0"@, "65535"@, "1"@)), argument_type: false },
        SchemaView { name: StateVariableName::GreenVideoBlackLevel, default: DataValue::Ui2(0u16), allowed_values: None, allowed_value_range: Some(("0"@, "65535"@, "1"@)), argument_type: false },
        SchemaView { name: StateVariableName::BlueVideoBlackLevel, default: DataValue::Ui2(0u16), allowed_values: None, allowed_value_range: Some(("0"@, "65535"@, "1"@)), argument_type: false },
        SchemaView { name: StateVariableName::ColorTemperature, default: DataValue::Ui2(0u16), allowed_values: None, allowed_value_range: Some(("0"@, "65535"@, "1"@)), argument_type: false },
        SchemaView { name: StateVariableName::HorizontalKeystone, default: DataValue::I2(0i16), allowed_values: None, allowed_value_range: Some(("-32768"@, "32767"@, "1"@)), argument_type: false },
        SchemaView { name: StateVariableName::VerticalKeystone, default: DataValue::I2(0i16), allowed_values: None, allowed_value_range: Some(("-32768"@, "32767"@, "1"@)), argument_type: false },
        SchemaView { name: StateVariableName::Mute, default: DataValue::Boolean(false), allowed_values: None, allowed_value_range: None, argument_type: false },
        SchemaView { name: StateVariableName::Volume, default: DataValue::Ui2(50u16), allowed_values: None, allowed_value_range: Some(("0"@, "65535"@, "1"@)), argument_type: false },
        SchemaView { name: StateVariableName::VolumeDB, default: DataValue::I2(0i16), allowed_values: None, allowed_value_range: Some(("-32767"@, "32767"@, "1"@)), argument_type: false },
        SchemaView { name: StateVariableName::Loudness, default: DataValue::Boolean(false), allowed_values: None, allowed_value_range: None, argument_type: false },
        SchemaView { name: StateVariableName::AllowedTransformSettings, default: DataValue::String("NOT_IMPLEMENTED"@), allowed_values: None, allowed_value_range: None, argument_type: false },
        SchemaView { name: StateVariableName::TransformSettings, default: DataValue::String("NOT_IMPLEMENTED"@), allowed_values: None, allowed_value_range: None, argument_type: false },
        SchemaView { name: StateVariableName::AllowedDefaultTransformSettings, default: DataValue::String("NOT_IMPLEMENTED"@), allowed_values: None, allowed_value_range: None, argument_type: false },
        SchemaView { name: StateVariableName::DefaultTransformSettings, default: DataValue::String("NOT_IMPLEMENTED"@), allowed_values: None, allowed_value_range: None, argument_type: false },
        SchemaView { name: StateVariableName::A_ARG_TYPE_InstanceID, default: DataValue::Ui4(0u32), allowed_values: None, allowed_value_range: None, argument_type: true },
        SchemaView { name: StateVariableName::A_ARG_TYPE_Channel, default: DataValue::String(Seq::empty()), allowed_values: Some(seq!["Master"@, "LF"@, "RF"@, "CF"@, "LFE"@, "LS"@, "RS"@, "LFC"@, "RFC"@, "SD"@, "SL"@, "SR"@, "T"@, "B"@, "BC"@, "BL"@, "BR"@]), allowed_value_range: None, argument_type: true },
        SchemaView { name: StateVariableName::A_ARG_TYPE_PresetName, default: DataValue::String(Seq::empty()), allowed_values: Some(seq!["FactoryDefaults"@, "InstallationDefaults"@]), allowed_value_range: None, argument_type: true },
        SchemaView { name: StateVariableName::A_ARG_TYPE_DeviceUDN, default: DataValue::String(Seq::empty()), allowed_values: None, allowed_value_range: None, argument_type: true },
        SchemaView { name: StateVariableName::A_ARG_TYPE_ServiceType, default: DataValue::String(Seq::empty()), allowed_values: None, allowed_value_range: None, argument_type: true },
        SchemaView { name: StateVariableName::A_ARG_TYPE_ServiceID, default: DataValue::String(Seq::empty()), allowed_values: None, allowed_value_range: None, argument_type: true },
        SchemaView { name: StateVariableName::A_ARG_TYPE_StateVariableValuePairs, default: DataValue::String(Seq::empty()), allowed_values: None, allowed_value_range: None, argument_type: true },
        SchemaView { name: StateVariableName::A_ARG_TYPE_StateVariableList, default: DataValue::String(Seq::empty()), allowed_values: None, allowed_value_range: None, argument_type: true },
    ]
}

/// The RenderingControl state variable definitions, in registration order.
pub fn state_definitions() -> (r: Vec<StateSchema<StateVariableName>>)
    ensures
        schema_views(r@) == state_schema_list(),
{
    let mut defs: Vec<StateSchema<StateVariableName>> = Vec::new();
    defs.push(StateSchema { name: StateVariableName::LastChange, default: DataType::String(String::new()), allowed_values: None, allowed_value_range: None, argument_type: false });
    defs.push(StateSchema { name: StateVariableName::PresetNameList, default: DataType::String(to_owned_string("FactoryDefaults")), allowed_values: None, allowed_value_range: None, argument_type: false });
    defs.push(StateSchema { name: StateVariableName::Brightness, default: DataType::Ui2(128u16), allowed_values: None, allowed_value_range: Some((to_owned_string("0"), to_owned_string("255"), to_owned_string("1"))), argument_type: false });
    defs.push(StateSchema { name: StateVariableName::Contrast, default: DataType::Ui2(128u16), allowed_values: None, allowed_value_range: Some((to_owned_string("0"), to_owned_string("255"), to_owned_string("1"))), argument_type: false });
    defs.push(StateSchema { name: StateVariableName::Sharpness, default: DataType::Ui2(128u16), allowed_values: None, allowed_value_range: Some((to_owned_string("0"), to_owned_string("255"), to_owned_string("1"))), argument_type: false });
    defs.push(StateSchema { name: StateVariableName::RedVideoGain, default: DataType::Ui2(0u16), allowed_values: None, allowed_value_range: Some((to_owned_string("0"), to_owned_string("65535"), to_owned_string("1"))), argument_type: false });
    defs.push(StateSchema { name: StateVariableName::GreenVideoGain, default: DataType::Ui2(0u16), allowed_values: None, allowed_value_range: Some((to_owned_string("0"), to_owned_string("65535"), to_owned_string("1"))), argument_type: false });
    defs.push(StateSchema { name: StateVariableName::BlueVideoGain, default: DataType::Ui2(0u16), allowed_values: None, allowed_value_range: Some((to_owned_string("0"), to_owned_string("65535"), to_owned_string("1"))), argument_type: false });
    defs.push(StateSchema { name: StateVariableName::RedVideoBlackLevel, default: DataType::Ui2(0u16), allowed_values: None, allowed_value_range: Some((to_owned_string("0"), to_owned_string("65535"), to_owned_string("1"))), argument_type: false });
    defs.push(StateSchema { name: StateVariableName::GreenVideoBlackLevel, default: DataType::Ui2(0u16), allowed_values: None, allowed_value_range: Some((to_owned_string("0"), to_owned_string("65535"), to_owned_string("1"))), argument_type: false });
    defs.push(StateSchema { name: StateVariableName::BlueVideoBlackLevel, default: DataType::Ui2(0u16), allowed_values: None, allowed_value_range: Some((to_owned_string("0"), to_owned_string("65535"), to_owned_string("1"))), argument_type: false });
    defs.push(StateSchema { name: StateVariableName::ColorTemperature, default: DataType::Ui2(0u16), allowed_values: None, allowed_value_range: Some((to_owned_string("0"), to_owned_string("65535"), to_owned_string("1"))), argument_type: false });
    defs.push(StateSchema { name: StateVariableName::HorizontalKeystone, default: DataType::I2(0i16), allowed_values: None, allowed_value_range: Some((to_owned_string("-32768"), to_owned_string("32767"), to_owned_string("1"))), argument_type: false });
    defs.push(StateSchema { name: StateVariableName::VerticalKeystone, default: DataType::I2(0i16), allowed_values: None, allowed_value_range: Some((to_owned_string("-32768"), to_owned_string("32767"), to_owned_string("1"))), argument_type: false });
    defs.push(StateSchema { name: StateVariableName::Mute, default: DataType::Boolean(false), allowed_values: None, allowed_value_range: None, argument_type: false });
    defs.push(StateSchema { name: StateVariableName::Volume, default: DataType::Ui2(50u16), allowed_values: None, allowed_value_range: Some((to_owned_string("0"), to_owned_string("65535"), to_owned_string("1"))), argument_type: false });
    defs.push(StateSchema { name: StateVariableName::VolumeDB, default: DataType::I2(0i16), allowed_values: None, allowed_value_range: Some((to_owned_string("-32767"), to_owned_string("32767"), to_owned_string("1"))), argument_type: false });
    defs.push(StateSchema { name: StateVariableName::Loudness, default: DataType::Boolean(false), allowed_values: None, allowed_value_range: None, argument_type: false });
    defs.push(StateSchema { name: StateVariableName::AllowedTransformSettings, default: DataType::String(to_owned_string("NOT_IMPLEMENTED")), allowed_values: None, allowed_value_range: None, argument_type: false });
    defs.push(StateSchema { name: StateVariableName::TransformSettings, default: DataType::String(to_owned_string("NOT_IMPLEMENTED")), allowed_values: None, allowed_value_range: None, argument_type: false });
    defs.push(StateSchema { name: StateVariableName::AllowedDefaultTransformSettings, default: DataType::String(to_owned_string("NOT_IMPLEMENTED")), allowed_values: None, allowed_value_range: None, argument_type: false });
    defs.push(StateSchema { name: StateVariableName::DefaultTransformSettings, default: DataType::String(to_owned_string("NOT_IMPLEMENTED")), allowed_values: None, allowed_value_range: None, argument_type: false });
    defs.push(StateSchema { name: StateVariableName::A_ARG_TYPE_InstanceID, default: DataType::Ui4(0u32), allowed_values: None, allowed_value_range: None, argument_type: true });
    let mut allowed: Vec<String> = Vec::new();
    allowed.push(to_owned_string("Master"));
    allowed.push(to_owned_string("LF"));
    allowed.push(to_owned_string("RF"));
    allowed.push(to_owned_string("CF"));
    allowed.push(to_owned_string("LFE"));
    allowed.push(to_owned_string("LS"));
    allowed.push(to_owned_string("RS"));
    allowed.push(to_owned_string("LFC"));
    allowed.push(to_owned_string("RFC"));
    allowed.push(to_owned_string("SD"));
    allowed.push(to_owned_string("SL"));
    allowed.push(to_owned_string("SR"));
    allowed.push(to_owned_string("T"));
    allowed.push(to_owned_string("B"));
    allowed.push(to_owned_string("BC"));
    allowed.push(to_owned_string("BL"));
    allowed.push(to_owned_string("BR"));
    defs.push(StateSchema { name: StateVariableName::A_ARG_TYPE_Channel, default: DataType::String(String::new()), allowed_values: Some(allowed), allowed_value_range: None, argument_type: true });
    assert(schema_view(defs@.last()).allowed_values == Some(seq!["Master"@, "LF"@, "RF"@, "CF"@, "LFE"@, "LS"@, "RS"@, "LFC"@, "RFC"@, "SD"@, "SL"@, "SR"@, "T"@, "B"@, "BC"@, "BL"@, "BR"@]));
    let mut allowed: Vec<String> = Vec::new();
    allowed.push(to_owned_string("FactoryDefaults"));
    allowed.push(to_owned_string("InstallationDefaults"));
    defs.push(StateSchema { name: StateVariableName::A_ARG_TYPE_PresetName, default: DataType::String(String::new()), allowed_values: Some(allowed), allowed_value_range: None, argument_type: true });
    assert(schema_view(defs@.last()).allowed_values == Some(seq!["FactoryDefaults"@, "InstallationDefaults"@]));
    defs.push(StateSchema { name: StateVariableName::A_ARG_TYPE_DeviceUDN, default: DataType::String(String::new()), allowed_values: None, allowed_value_range: None, argument_type: true });
    defs.push(StateSchema { name: StateVariableName::A_ARG_TYPE_ServiceType, default: DataType::String(String::new()), allowed_values: None, allowed_value_range: None, argument_type: true });
    defs.push(StateSchema { name: StateVariableName::A_ARG_TYPE_ServiceID, default: DataType::String(String::new()), allowed_values: None, allowed_value_range: None, argument_type: true });
    defs.push(StateSchema { name: StateVariableName::A_ARG_TYPE_StateVariableValuePairs, default: DataType::String(String::new()), allowed_values: None, allowed_value_range: None, argument_type: true });
    defs.push(StateSchema { name: StateVariableName::A_ARG_TYPE_StateVariableList, default: DataType::String(String::new()), allowed_values: None, allowed_value_range: None, argument_type: true });
    assert(schema_views(defs@) =~= state_schema_list());
    defs
}

/// The metadata namespace of the RenderingControl LastChange document.
pub open spec fn event_namespace() -> Seq<char> {
    "urn:schemas-upnp-org:metadata-1-0/RC/"@
}

/// Shared event publisher type alias for convenience.
pub type RenderingControlEventPublisher = Arc<RwLock<EventPublisher, PublisherLock>>;

/// RenderingControl service — owns action registry, state variables, and eventing.
///
/// The application registers trait implementations (GetVolume, SetMute, ...)
/// via `register_action()`; the SOAP handler dispatches incoming requests to
/// them. When state changes through `set_state_var()`, the service writes the
/// value, rebuilds the LastChange document of the instance, stores it in the
/// LastChange variable and notifies all GENA subscribers.
#[derive(Clone)]
pub struct RenderingControlService {
    actions: Arc<RwLock<ActionMap, ActionMapLock>>,
    state_store: Arc<RwLock<StateStore<StateVariableName>, StoreLock<StateVariableName>>>,
    event_publisher: Arc<RwLock<EventPublisher, PublisherLock>>,
}

impl RenderingControlService {
    /// The lock holding the action registry.
    pub closed spec fn action_lock(&self) -> RwLock<ActionMap, ActionMapLock> {
        *self.actions
    }

    /// The lock holding the state variables.
    pub closed spec fn store_lock(&self) -> RwLock<StateStore<StateVariableName>, StoreLock<StateVariableName>> {
        *self.state_store
    }

    /// The lock holding the event publisher.
    pub closed spec fn publisher_lock(&self) -> RwLock<EventPublisher, PublisherLock> {
        *self.event_publisher
    }

    /// Create a new empty RenderingControl service with all state variables initialized.
    pub fn new() -> (r: Self)
        ensures
            r.action_lock().pred().service == Services::RenderingControl(ServiceVersion::V3),
            r.publisher_lock().pred().url@ == event_url_spec(Services::RenderingControl(ServiceVersion::V3)),
            exists|defs: Seq<StateSchema<StateVariableName>>|
                #[trigger] schema_views(defs) == state_schema_list() && r.store_lock().pred().schema@
                    == register_all((Seq::empty(), Seq::empty()), defs).0,
    {
        Self::with_event_publisher(EventPublisher::new(Services::RenderingControl(ServiceVersion::V3).event_url(), false))
    }

    /// Create a new RenderingControl service with a custom event publisher.
    pub fn with_event_publisher(publisher: EventPublisher) -> (r: Self)
        ensures
            r.action_lock().pred().service == Services::RenderingControl(ServiceVersion::V3),
            r.publisher_lock().pred().url@ == publisher.url(),
            exists|defs: Seq<StateSchema<StateVariableName>>|
                #[trigger] schema_views(defs) == state_schema_list() && r.store_lock().pred().schema@
                    == register_all((Seq::empty(), Seq::empty()), defs).0,
    {
        let ghost url = publisher.url();
        let mut state_store = StateStore::new();
        Self::init_state_vars(&mut state_store);
        let ghost schema = state_store.schema_seq();
        RenderingControlService {
            actions: Arc::new(RwLock::new(ActionMap::new(Services::RenderingControl(ServiceVersion::V3)), Ghost(ActionMapLock { service: Services::RenderingControl(ServiceVersion::V3) }))),
            state_store: Arc::new(RwLock::new(state_store, Ghost(StoreLock { schema: Ghost(schema) }))),
            event_publisher: Arc::new(RwLock::new(publisher, Ghost(PublisherLock { url: Ghost(url) }))),
        }
    }

    /// Get a clone of the shared event publisher.
    pub fn event_publisher(&self) -> (r: RenderingControlEventPublisher)
        ensures
            *r == self.publisher_lock(),
    {
        share(&self.event_publisher)
    }

    /// Get the shared state store, for action construction.
    pub fn state_store(&self) -> (r: Arc<RwLock<StateStore<StateVariableName>, StoreLock<StateVariableName>>>)
        ensures
            *r == self.store_lock(),
    {
        share(&self.state_store)
    }

    /// Initialize all RenderingControl state variables: registers `state_definitions()`,
    /// in order.
    fn init_state_vars(state_store: &mut StateStore<StateVariableName>)
        requires
            old(state_store).wf(),
        ensures
            final(state_store).wf(),
            final(state_store).instances() == old(state_store).instances(),
            exists|defs: Seq<StateSchema<StateVariableName>>|
                #[trigger] schema_views(defs) == state_schema_list() && (
                    final(state_store).schema_seq(),
                    final(state_store).vars(),
                ) == register_all((old(state_store).schema_seq(), old(state_store).vars()), defs),
            crate::state::holds_registered::<StateVariableName>(final(state_store).vars()),
    {
        let defs = state_definitions();
        let ghost d = defs@;
        let ghost start = (state_store.schema_seq(), state_store.vars());
        state_store.register_batch(defs);
        assert(schema_views(d) == state_schema_list());
        proof {
            assert forall|n: StateVariableName| #[trigger] n.registered() implies crate::state::key_pos(
                state_store.vars(),
                n.wire_name(),
            ) is Some by {
                let i = choose|i: int| 0 <= i < state_schema_list().len() && #[trigger] state_schema_list()[i].name == n;
                assert(schema_views(d)[i].name == d[i].name);
                assert(d[i].name.wire_name() == n.wire_name());
                crate::state::lemma_register_all_names(start, d, n.wire_name());
            }
        }
    }

    /// Register a trait implementation for the given action name.
    pub fn register_action(&mut self, action: Box<dyn Action>)
        ensures
            *final(self) == *old(self),
    {
        let (mut map, handle) = self.actions.acquire_write();
        map.register(action);
        handle.release_write(map);
    }

    /// Get the action map for SOAP dispatch.
    pub fn actions(&self) -> (r: Arc<RwLock<ActionMap, ActionMapLock>>)
        ensures
            *r == self.action_lock(),
    {
        share(&self.actions)
    }

    /// Get a state variable by name.
    pub fn get_state_var(&self, name: StateVariableName) -> (r: Result<DataType, Error>)
        ensures
            r is Ok,
            exists|st: StateStore<StateVariableName>|
                #[trigger] st.wf() && st.schema_seq() == self.store_lock().pred().schema@ && match crate::state::key_pos(st.vars(), name.wire_name()) {
                    Some(i) => r matches Ok(v) && v@ == st.vars()[i].1.value,
                    None => r == Err::<DataType, Error>(Error::ArgumentValueInvalid),
                },
    {
        let h = self.state_store.acquire_read();
        let r = h.borrow().get_owned(name);
        proof {
            assert(h.view().wf());
            lemma_every_name_registered(name);
            assert(name.registered());
            assert(crate::state::key_pos(h.view().vars(), name.wire_name()) is Some);
        }
        h.release_read();
        r
    }

    /// Get a clone of a state variable by name.
    pub fn get_state_var_mut(&mut self, name: StateVariableName) -> (r: Option<StateVariable>)
        ensures
            r is Some,
            *final(self) == *old(self),
            exists|st: StateStore<StateVariableName>|
                #[trigger] st.wf() && st.schema_seq() == old(self).store_lock().pred().schema@ && match crate::state::key_pos(st.vars(), name.wire_name()) {
                    Some(i) => r matches Some(v) && v@ == st.vars()[i].1,
                    None => r is None,
                },
    {
        let h = self.state_store.acquire_read();
        let r = h.borrow().get_mut_owned(name);
        proof {
            assert(h.view().wf());
            lemma_every_name_registered(name);
            assert(name.registered());
            assert(crate::state::key_pos(h.view().vars(), name.wire_name()) is Some);
        }
        h.release_read();
        r
    }

    /// Set any state variable at a specific InstanceID.
    ///
    /// This is the single gatekeeper method for all state mutations. It:
    /// 1. Sets the value in StateStore (in the instance's own copy when the
    ///    variable is instance-scoped)
    /// 2. Triggers GENA events via LastChange NOTIFY
    ///
    /// Writing the same value does NOT set has_changes (per UPnP spec).
    ///
    /// Returns, as ghost values, the store as the write found it and as the
    /// write left it when it handed it back to the lock.
    pub fn set_state_var(&self, instance_id: u32, name: StateVariableName, value: DataType) -> (r: Ghost<
        (StateStore<StateVariableName>, StateStore<StateVariableName>),
    >)
        ensures
            r@.0.wf(),
            r@.1.wf(),
            r@.0.schema_seq() == self.store_lock().pred().schema@,
            crate::state::scoped_write(r@.0, r@.1, name, instance_id, value@),
    {
        let (mut store, handle) = self.state_store.acquire_write();
        let ghost before = store;
        store.set_scoped(name, instance_id, value);
        proof {
            crate::state::lemma_same_schema_holds_registered(before, store);
        }
        let ghost after = store;
        handle.release_write(store);
        self.trigger_events_for_instance(instance_id);
        Ghost((before, after))
    }

    /// Build the LastChange XML propertyset from all evented state variables
    /// for an instance.
    fn build_last_change(&self, instance_id: u32) -> (r: String)
        ensures
            exists|st: StateStore<StateVariableName>|
                #[trigger] st.wf() && st.schema_seq() == self.store_lock().pred().schema@ && r@ == last_change_text(
                    event_namespace(),
                    crate::state::evented_pairs_for(st.schema_seq(), st.vars(), st.instance(instance_id), false),
                ),
    {
        let h = self.state_store.acquire_read();
        let evented = h.borrow().collect_evented_for_instance(instance_id);
        proof {
            assert(h.view().wf());
        }
        h.release_read();
        build_last_change("urn:schemas-upnp-org:metadata-1-0/RC/", evented.as_slice())
    }

    /// Trigger GENA events for all evented state variables at a specific
    /// InstanceID: builds the LastChange document, stores it in the LastChange
    /// variable and notifies every subscriber with it.
    fn trigger_events_for_instance(&self, instance_id: u32) {
        let last_change_xml = self.build_last_change(instance_id);
        let (mut store, handle) = self.state_store.acquire_write();
        let ghost before = store;
        store.replace_value(StateVariableName::LastChange, DataType::String(last_change_xml.clone()));
        proof {
            crate::state::lemma_same_schema_holds_registered(before, store);
        }
        handle.release_write(store);
        let mut properties: Vec<(String, String)> = Vec::new();
        properties.push((to_owned_string("LastChange"), last_change_xml));
        let (mut publisher, publisher_handle) = self.event_publisher.acquire_write();
        let _results = publisher.notify(properties.as_slice());
        publisher_handle.release_write(publisher);
    }

    /// Get all state variable names (for SCPD generation).
    pub fn state_var_names(&self) -> (r: Vec<String>)
        ensures
            r@.map_values(|s: String| s@) == crate::state::schema_names(self.store_lock().pred().schema@),
    {
        let h = self.state_store.acquire_read();
        let r = h.borrow().names();
        proof {
            assert(h.view().wf());
        }
        h.release_read();
        r
    }
}

} // verus!
