//! ConnectionManager service: the action registry, the state variables, their
//! eventing, and the connection table.
pub mod statics;
pub mod traits;
pub mod actions;


use vstd::prelude::*;
use vstd::rwlock::RwLock;

use std::sync::Arc;

use crate::gena::{EventPublisher, PublisherLock};
use crate::state::{
    register_all, schema_view, schema_views, SchemaView, StateSchema, StateStore, StateVariable,
    StateVariableName as StateVariableNameTrait, StoreLock, VarView,
};
use crate::services::shared::share;
use crate::text::{int_to_decimal, to_owned_string};
use crate::types::upnp::{
    event_url_spec,
    Action, ActionMap, ActionMapLock, DataType, DataValue, Error, ServiceVersion, Services,
};
use statics::StateVariableName;

verus! {

/// Whether the service registers a definition under `n`.
pub open spec fn registered_name(n: StateVariableName) -> bool {
    exists|i: int| 0 <= i < state_schema_list().len() && #[trigger] state_schema_list()[i].name == n
}

/// Every state variable of the service has a definition: the service
/// registers all of its names.
pub proof fn lemma_every_name_registered(n: StateVariableName)
    ensures
        registered_name(n),
{
    match n {
        StateVariableName::SourceProtocolInfo => {
            assert(state_schema_list()[0].name == n);
        },
        StateVariableName::SinkProtocolInfo => {
            assert(state_schema_list()[1].name == n);
        },
        StateVariableName::CurrentConnectionIDs => {
            assert(state_schema_list()[2].name == n);
        },
        StateVariableName::FeatureList => {
            assert(state_schema_list()[3].name == n);
        },
        StateVariableName::ClockUpdateID => {
            assert(state_schema_list()[4].name == n);
        },
        StateVariableName::DeviceClockInfoUpdates => {
            assert(state_schema_list()[5].name == n);
        },
        StateVariableName::A_ARG_TYPE_ConnectionStatus => {
            assert(state_schema_list()[6].name == n);
        },
        StateVariableName::A_ARG_TYPE_ConnectionManager => {
            assert(state_schema_list()[7].name == n);
        },
        StateVariableName::A_ARG_TYPE_Direction => {
            assert(state_schema_list()[8].name == n);
        },
        StateVariableName::A_ARG_TYPE_ProtocolInfo => {
            assert(state_schema_list()[9].name == n);
        },
        StateVariableName::A_ARG_TYPE_ConnectionID => {
            assert(state_schema_list()[10].name == n);
        },
        StateVariableName::A_ARG_TYPE_AVTransportID => {
            assert(state_schema_list()[11].name == n);
        },
        StateVariableName::A_ARG_TYPE_RcsID => {
            assert(state_schema_list()[12].name == n);
        },
        StateVariableName::A_ARG_TYPE_ItemInfoFilter => {
            assert(state_schema_list()[13].name == n);
        },
        StateVariableName::A_ARG_TYPE_Result => {
            assert(state_schema_list()[14].name == n);
        },
        StateVariableName::A_ARG_TYPE_RenderingInfoList => {
            assert(state_schema_list()[15].name == n);
        },
    }
}


/// The ConnectionManager state variable definitions, in registration order.
pub open spec fn state_schema_list() -> Seq<SchemaView<StateVariableName>> {
    seq![
        SchemaView { name: StateVariableName::SourceProtocolInfo, default: DataValue::String(Seq::empty()), allowed_values: None, allowed_value_range: None, argument_type: false },
        SchemaView { name: StateVariableName::SinkProtocolInfo, default: DataValue::String(Seq::empty()), allowed_values: None, allowed_value_range: None, argument_type: false },
        SchemaView { name: StateVariableName::CurrentConnectionIDs, default: DataValue::String("0"@), allowed_values: None, allowed_value_range: None, argument_type: false },
        SchemaView { name: StateVariableName::FeatureList, default: DataValue::String(Seq::empty()), allowed_values: None, allowed_value_range: None, argument_type: false },
        SchemaView { name: StateVariableName::ClockUpdateID, default: DataValue::Ui4(0u32), allowed_values: None, allowed_value_range: None, argument_type: false },
        SchemaView { name: StateVariableName::DeviceClockInfoUpdates, default: DataValue::String(Seq::empty()), allowed_values: None, allowed_value_range: None, argument_type: false },
        SchemaView { name: StateVariableName::A_ARG_TYPE_ConnectionStatus, default: DataValue::String(Seq::empty()), allowed_values: Some(seq!["OK"@, "ContentFormatMismatch"@, "InsufficientBandwidth"@, "UnreliableChannel"@, "Unknown"@]), allowed_value_range: None, argument_type: true },
        SchemaView { name: StateVariableName::A_ARG_TYPE_ConnectionManager, default: DataValue::String(Seq::empty()), allowed_values: None, allowed_value_range: None, argument_type: true },
        SchemaView { name: StateVariableName::A_ARG_TYPE_Direction, default: DataValue::String(Seq::empty()), allowed_values: Some(seq!["Input"@, "Output"@]), allowed_value_range: None, argument_type: true },
        SchemaView { name: StateVariableName::A_ARG_TYPE_ProtocolInfo, default: DataValue::String(Seq::empty()), allowed_values: None, allowed_value_range: None, argument_type: true },
        SchemaView { name: StateVariableName::A_ARG_TYPE_ConnectionID, default: DataValue::I4(-1i32), allowed_values: None, allowed_value_range: None, argument_type: true },
        SchemaView { name: StateVariableName::A_ARG_TYPE_AVTransportID, default: DataValue::I4(-1i32), allowed_values: None, allowed_value_range: None, argument_type: true },
        SchemaView { name: StateVariableName::A_ARG_TYPE_RcsID, default: DataValue::I4(-1i32), allowed_values: None, allowed_value_range: None, argument_type: true },
        SchemaView { name: StateVariableName::A_ARG_TYPE_ItemInfoFilter, default: DataValue::String(Seq::empty()), allowed_values: None, allowed_value_range: None, argument_type: true },
        SchemaView { name: StateVariableName::A_ARG_TYPE_Result, default: DataValue::String(Seq::empty()), allowed_values: None, allowed_value_range: None, argument_type: true },
        SchemaView { name: StateVariableName::A_ARG_TYPE_RenderingInfoList, default: DataValue::String(Seq::empty()), allowed_values: None, allowed_value_range: None, argument_type: true },
    ]
}

/// The ConnectionManager state variable definitions, in registration order.
pub fn state_definitions() -> (r: Vec<StateSchema<StateVariableName>>)
    ensures
        schema_views(r@) == state_schema_list(),
{
    let mut defs: Vec<StateSchema<StateVariableName>> = Vec::new();
    defs.push(StateSchema { name: StateVariableName::SourceProtocolInfo, default: DataType::String(String::new()), allowed_values: None, allowed_value_range: None, argument_type: false });
    defs.push(StateSchema { name: StateVariableName::SinkProtocolInfo, default: DataType::String(String::new()), allowed_values: None, allowed_value_range: None, argument_type: false });
    defs.push(StateSchema { name: StateVariableName::CurrentConnectionIDs, default: DataType::String(to_owned_string("0")), allowed_values: None, allowed_value_range: None, argument_type: false });
    defs.push(StateSchema { name: StateVariableName::FeatureList, default: DataType::String(String::new()), allowed_values: None, allowed_value_range: None, argument_type: false });
    defs.push(StateSchema { name: StateVariableName::ClockUpdateID, default: DataType::Ui4(0u32), allowed_values: None, allowed_value_range: None, argument_type: false });
    defs.push(StateSchema { name: StateVariableName::DeviceClockInfoUpdates, default: DataType::String(String::new()), allowed_values: None, allowed_value_range: None, argument_type: false });
    let mut allowed: Vec<String> = Vec::new();
    allowed.push(to_owned_string("OK"));
    allowed.push(to_owned_string("ContentFormatMismatch"));
    allowed.push(to_owned_string("InsufficientBandwidth"));
    allowed.push(to_owned_string("UnreliableChannel"));
    allowed.push(to_owned_string("Unknown"));
    defs.push(StateSchema { name: StateVariableName::A_ARG_TYPE_ConnectionStatus, default: DataType::String(String::new()), allowed_values: Some(allowed), allowed_value_range: None, argument_type: true });
    assert(schema_view(defs@.last()).allowed_values == Some(seq!["OK"@, "ContentFormatMismatch"@, "InsufficientBandwidth"@, "UnreliableChannel"@, "Unknown"@]));
    defs.push(StateSchema { name: StateVariableName::A_ARG_TYPE_ConnectionManager, default: DataType::String(String::new()), allowed_values: None, allowed_value_range: None, argument_type: true });
    let mut allowed: Vec<String> = Vec::new();
    allowed.push(to_owned_string("Input"));
    allowed.push(to_owned_string("Output"));
    defs.push(StateSchema { name: StateVariableName::A_ARG_TYPE_Direction, default: DataType::String(String::new()), allowed_values: Some(allowed), allowed_value_range: None, argument_type: true });
    assert(schema_view(defs@.last()).allowed_values == Some(seq!["Input"@, "Output"@]));
    defs.push(StateSchema { name: StateVariableName::A_ARG_TYPE_ProtocolInfo, default: DataType::String(String::new()), allowed_values: None, allowed_value_range: None, argument_type: true });
    defs.push(StateSchema { name: StateVariableName::A_ARG_TYPE_ConnectionID, default: DataType::I4(-1i32), allowed_values: None, allowed_value_range: None, argument_type: true });
    defs.push(StateSchema { name: StateVariableName::A_ARG_TYPE_AVTransportID, default: DataType::I4(-1i32), allowed_values: None, allowed_value_range: None, argument_type: true });
    defs.push(StateSchema { name: StateVariableName::A_ARG_TYPE_RcsID, default: DataType::I4(-1i32), allowed_values: None, allowed_value_range: None, argument_type: true });
    defs.push(StateSchema { name: StateVariableName::A_ARG_TYPE_ItemInfoFilter, default: DataType::String(String::new()), allowed_values: None, allowed_value_range: None, argument_type: true });
    defs.push(StateSchema { name: StateVariableName::A_ARG_TYPE_Result, default: DataType::String(String::new()), allowed_values: None, allowed_value_range: None, argument_type: true });
    defs.push(StateSchema { name: StateVariableName::A_ARG_TYPE_RenderingInfoList, default: DataType::String(String::new()), allowed_values: None, allowed_value_range: None, argument_type: true });
    assert(schema_views(defs@) =~= state_schema_list());
    defs
}

/// Connection table entry — tracks AVTransportID/RcsID bindings per spec §4.2.
#[derive(Debug, Clone)]
pub struct ConnectionInfo {
    /// Protocol info for the stream (from RemoteProtocolInfo input).
    pub protocol_info: String,
    /// Direction: Input or Output.
    pub direction: statics::Direction,
    /// Peer ConnectionManager reference (UDN/serviceId).
    pub peer_connection_manager: String,
    /// Peer's ConnectionID (-1 if unknown).
    pub peer_connection_id: i32,
}

/// The view of a connection table entry.
pub struct ConnectionView {
    pub protocol_info: Seq<char>,
    pub direction: statics::Direction,
    pub peer_connection_manager: Seq<char>,
    pub peer_connection_id: i32,
}

impl View for ConnectionInfo {
    type V = ConnectionView;

    open spec fn view(&self) -> ConnectionView {
        ConnectionView {
            protocol_info: self.protocol_info@,
            direction: self.direction,
            peer_connection_manager: self.peer_connection_manager@,
            peer_connection_id: self.peer_connection_id,
        }
    }
}

fn copy_connection(c: &ConnectionInfo) -> (r: ConnectionInfo)
    ensures
        r@ == c@,
{
    ConnectionInfo {
        protocol_info: to_owned_string(c.protocol_info.as_str()),
        direction: c.direction,
        peer_connection_manager: to_owned_string(c.peer_connection_manager.as_str()),
        peer_connection_id: c.peer_connection_id,
    }
}

/// The connection IDs as comma-separated decimals, in table order.
pub open spec fn join_ids(ids: Seq<i32>) -> Seq<char>
    decreases ids.len(),
{
    if ids.len() == 0 {
        Seq::empty()
    } else if ids.len() == 1 {
        int_to_decimal(ids[0] as int)
    } else {
        join_ids(ids.drop_last()) + ","@ + int_to_decimal(ids.last() as int)
    }
}

/// The position of connection `id` in a table view, if present.
pub open spec fn conn_pos(es: Seq<(i32, ConnectionView)>, id: i32) -> Option<int> {
    if exists|i: int| 0 <= i < es.len() && #[trigger] es[i].0 == id {
        Some(choose|i: int| 0 <= i < es.len() && #[trigger] es[i].0 == id)
    } else {
        None
    }
}

/// The entry the device starts with: the implicit connection 0, with no
/// protocol info, direction Output, no peer and peer ConnectionID -1.
pub open spec fn default_connection() -> ConnectionView {
    ConnectionView {
        protocol_info: Seq::empty(),
        direction: statics::Direction::Output,
        peer_connection_manager: Seq::empty(),
        peer_connection_id: -1i32,
    }
}

/// No connection ID occurs twice.
pub open spec fn unique_conn_ids(es: Seq<(i32, ConnectionView)>) -> bool {
    forall|i: int, j: int| 0 <= i < es.len() && 0 <= j < es.len() && i != j ==> #[trigger] es[i].0 != #[trigger] es[j].0
}

/// The entries after putting connection `id` in: its details replaced when it
/// is there, else added at the end.
pub open spec fn inserted(es: Seq<(i32, ConnectionView)>, id: i32, c: ConnectionView) -> Seq<(i32, ConnectionView)> {
    match conn_pos(es, id) {
        Some(i) => es.update(i, (id, c)),
        None => es.push((id, c)),
    }
}

/// Read after insert: once connection `id` is put in, looking it up finds the
/// details just put in, the IDs stay unique, and every other connection is
/// found where it was with the details it had.
pub proof fn lemma_insert_then_find(es: Seq<(i32, ConnectionView)>, id: i32, c: ConnectionView, other: i32)
    requires
        unique_conn_ids(es),
        other != id,
    ensures
        unique_conn_ids(inserted(es, id, c)),
        conn_pos(inserted(es, id, c), id) matches Some(j) && inserted(es, id, c)[j].1 == c,
        conn_pos(inserted(es, id, c), other) == conn_pos(es, other),
{
    let after = inserted(es, id, c);
    let j = match conn_pos(es, id) {
        Some(i) => i,
        None => es.len() as int,
    };
    if let Some(i) = conn_pos(es, id) {
        assert(es[i].0 == id);
    }
    assert(after[j].0 == id);
    assert forall|a: int, b: int| 0 <= a < after.len() && 0 <= b < after.len() && a != b implies #[trigger] after[a].0
        != #[trigger] after[b].0 by {
        if a != j && b != j {
            assert(after[a].0 == es[a].0 && after[b].0 == es[b].0);
        } else if a == j {
            if conn_pos(es, id) is None {
                assert(after[b].0 == es[b].0);
                assert(!(es[b].0 == id));
            } else {
                assert(after[b].0 == es[b].0);
                assert(es[a].0 == id);
            }
        } else {
            if conn_pos(es, id) is None {
                assert(after[a].0 == es[a].0);
                assert(!(es[a].0 == id));
            } else {
                assert(after[a].0 == es[a].0);
                assert(es[b].0 == id);
            }
        }
    }
    lemma_conn_pos(after, id, j);
    match conn_pos(es, other) {
        Some(q) => {
            assert(es[q].0 == other);
            assert(q != j);
            assert(after[q].0 == other);
            lemma_conn_pos(after, other, q);
        },
        None => {
            assert forall|k: int| 0 <= k < after.len() implies #[trigger] after[k].0 != other by {
                if k != j {
                    assert(after[k].0 == es[k].0);
                    assert(!(es[k].0 == other));
                }
            }
        },
    }
}

/// Remove after insert: once a connection is removed, no connection is found
/// under its ID.
pub proof fn lemma_remove_then_absent(es: Seq<(i32, ConnectionView)>, id: i32)
    requires
        unique_conn_ids(es),
        conn_pos(es, id) is Some,
    ensures
        conn_pos(es.remove(conn_pos(es, id)->0), id) is None,
        unique_conn_ids(es.remove(conn_pos(es, id)->0)),
{
    let i = conn_pos(es, id)->0;
    assert(es[i].0 == id);
    let after = es.remove(i);
    assert forall|k: int| 0 <= k < after.len() implies #[trigger] after[k].0 != id by {
        if k < i {
            assert(after[k] == es[k]);
        } else {
            assert(after[k] == es[k + 1]);
        }
    }
    assert forall|a: int, b: int| 0 <= a < after.len() && 0 <= b < after.len() && a != b implies #[trigger] after[a].0
        != #[trigger] after[b].0 by {
        let a2 = if a < i { a } else { a + 1 };
        let b2 = if b < i { b } else { b + 1 };
        assert(after[a] == es[a2]);
        assert(after[b] == es[b2]);
    }
}

proof fn lemma_conn_pos(es: Seq<(i32, ConnectionView)>, id: i32, i: int)
    requires
        unique_conn_ids(es),
        0 <= i < es.len(),
        es[i].0 == id,
    ensures
        conn_pos(es, id) == Some(i),
{
    let j = choose|j: int| 0 <= j < es.len() && #[trigger] es[j].0 == id;
    if j != i {
        assert(es[i].0 != es[j].0);
    }
}

/// The connection table: ConnectionID → connection details, each ID once.
pub struct ConnectionTable {
    entries: Vec<(i32, ConnectionInfo)>,
}

impl ConnectionTable {
    /// The entries (id, details), in table order.
    pub closed spec fn view_entries(&self) -> Seq<(i32, ConnectionView)> {
        self.entries@.map_values(|e: (i32, ConnectionInfo)| (e.0, e.1@))
    }

    /// The connection IDs, in table order.
    pub open spec fn ids(&self) -> Seq<i32> {
        self.view_entries().map_values(|e: (i32, ConnectionView)| e.0)
    }

    #[verifier::type_invariant]
    closed spec fn unique(&self) -> bool {
        forall|i: int, j: int|
            0 <= i < self.entries@.len() && 0 <= j < self.entries@.len() && i != j ==> #[trigger] self.entries@[i].0
                != #[trigger] self.entries@[j].0
    }

    proof fn lemma_view_unique(&self)
        requires
            self.unique(),
        ensures
            unique_conn_ids(self.view_entries()),
    {
        let v = self.view_entries();
        assert forall|a: int, b: int| 0 <= a < v.len() && 0 <= b < v.len() && a != b implies #[trigger] v[a].0
            != #[trigger] v[b].0 by {
            assert(v[a].0 == self.entries@[a].0);
            assert(v[b].0 == self.entries@[b].0);
        }
    }

    /// The table holding only the default implicit connection 0.
    pub fn with_default_connection() -> (r: Self)
        ensures
            r.view_entries() == seq![(0i32, default_connection())],
    {
        let mut entries: Vec<(i32, ConnectionInfo)> = Vec::new();
        entries.push(
            (
                0,
                ConnectionInfo {
                    protocol_info: String::new(),
                    direction: statics::Direction::Output,
                    peer_connection_manager: String::new(),
                    peer_connection_id: -1,
                },
            ),
        );
        let r = ConnectionTable { entries };
        assert(r.view_entries() =~= seq![(0i32, default_connection())]);
        r
    }

    fn find(&self, id: i32) -> (r: Option<usize>)
        ensures
            match r {
                Some(i) => conn_pos(self.view_entries(), id) == Some(i as int),
                None => conn_pos(self.view_entries(), id) is None,
            },
    {
        proof {
            use_type_invariant(self);
        }
        let ghost es = self.view_entries();
        let mut i: usize = 0;
        while i < self.entries.len()
            invariant
                es == self.view_entries(),
                i <= es.len(),
                forall|j: int| 0 <= j < i ==> #[trigger] es[j].0 != id,
            decreases self.entries.len() - i,
        {
            if self.entries[i].0 == id {
                proof {
                    use_type_invariant(self);
                    assert(es[i as int].0 == id);
                    let k = choose|k: int| 0 <= k < es.len() && #[trigger] es[k].0 == id;
                    if k != i {
                        assert(self.entries@[k].0 != self.entries@[i as int].0);
                    }
                }
                return Some(i);
            }
            i = i + 1;
        }
        None
    }

    /// Whether the table holds `id`.
    pub fn contains(&self, id: i32) -> (r: bool)
        ensures
            r == conn_pos(self.view_entries(), id) is Some,
    {
        self.find(id).is_some()
    }

    /// The number of connections.
    pub fn len(&self) -> (r: usize)
        ensures
            r == self.view_entries().len(),
    {
        self.entries.len()
    }

    /// The details of connection `id`; error 706 when absent.
    pub fn get(&self, id: i32) -> (r: Result<ConnectionInfo, statics::Error>)
        ensures
            match conn_pos(self.view_entries(), id) {
                Some(i) => r matches Ok(c) && c@ == self.view_entries()[i].1,
                None => r == Err::<ConnectionInfo, statics::Error>(statics::Error::InvalidConnectionReference),
            },
    {
        match self.find(id) {
            Some(i) => Ok(copy_connection(&self.entries[i].1)),
            None => Err(statics::Error::InvalidConnectionReference),
        }
    }

    /// Add connection `id`; a single-connection device refuses (error 708)
    /// while any connection is in the table.
    pub fn register(&mut self, id: i32, info: ConnectionInfo) -> (r: Result<(), statics::Error>)
        ensures
            old(self).view_entries().len() > 0 ==> r == Err::<(), statics::Error>(
                statics::Error::ConnectionTableOverflow,
            ) && final(self).view_entries() == old(self).view_entries(),
            old(self).view_entries().len() == 0 ==> r is Ok && final(self).view_entries() == seq![(id, info@)],
    {
        if self.entries.len() > 0 {
            return Err(statics::Error::ConnectionTableOverflow);
        }
        let mut entries: Vec<(i32, ConnectionInfo)> = Vec::new();
        let ghost iv = info@;
        entries.push((id, info));
        *self = ConnectionTable { entries };
        assert(self.view_entries() =~= seq![(id, iv)]);
        Ok(())
    }

    /// Put connection `id` in the table: its details are replaced when it is
    /// there, else it is added at the end.
    pub fn insert(&mut self, id: i32, info: ConnectionInfo)
        ensures
            unique_conn_ids(final(self).view_entries()),
            match conn_pos(old(self).view_entries(), id) {
                Some(i) => final(self).view_entries() == old(self).view_entries().update(i, (id, info@)),
                None => final(self).view_entries() == old(self).view_entries().push((id, info@)),
            },
    {
        let ghost old_es = self.view_entries();
        let ghost iv = info@;
        let pos = self.find(id);
        let mut taken = ConnectionTable { entries: Vec::new() };
        std::mem::swap(&mut taken, self);
        proof {
            use_type_invariant(&taken);
        }
        let ConnectionTable { mut entries } = taken;
        let ghost before = entries@;
        match pos {
            Some(i) => {
                entries.set(i, (id, info));
                proof {
                    assert(old_es[i as int].0 == id);
                    assert forall|a: int, b: int|
                        0 <= a < entries@.len() && 0 <= b < entries@.len() && a != b implies #[trigger] entries@[a].0
                        != #[trigger] entries@[b].0 by {
                        if a != i && b != i {
                            assert(before[a].0 != before[b].0);
                        } else if a == i {
                            assert(before[i as int].0 != before[b].0);
                        } else {
                            assert(before[i as int].0 != before[a].0);
                        }
                    }
                }
                *self = ConnectionTable { entries };
                assert(self.view_entries() =~= old_es.update(i as int, (id, iv)));
            },
            None => {
                entries.push((id, info));
                proof {
                    assert forall|a: int, b: int|
                        0 <= a < entries@.len() && 0 <= b < entries@.len() && a != b implies #[trigger] entries@[a].0
                        != #[trigger] entries@[b].0 by {
                        if a < before.len() && b < before.len() {
                            assert(before[a].0 != before[b].0);
                        } else if a < before.len() {
                            assert(old_es[a].0 != id);
                        } else {
                            assert(old_es[b].0 != id);
                        }
                    }
                }
                *self = ConnectionTable { entries };
                assert(self.view_entries() =~= old_es.push((id, iv)));
            },
        }
    }

    /// Remove connection `id`; error 706 when absent.
    pub fn remove(&mut self, id: i32) -> (r: Result<(), statics::Error>)
        ensures
            unique_conn_ids(final(self).view_entries()),
            match conn_pos(old(self).view_entries(), id) {
                None => r == Err::<(), statics::Error>(statics::Error::InvalidConnectionReference)
                    && final(self).view_entries() == old(self).view_entries(),
                Some(i) => r is Ok && final(self).view_entries() == old(self).view_entries().remove(i),
            },
    {
        match self.find(id) {
            None => {
                proof {
                    use_type_invariant(&*self);
                    self.lemma_view_unique();
                }
                Err(statics::Error::InvalidConnectionReference)
            },
            Some(i) => {
                let ghost old_es = self.view_entries();
                let mut taken = ConnectionTable { entries: Vec::new() };
                std::mem::swap(&mut taken, self);
                proof {
                    use_type_invariant(&taken);
                }
                let ConnectionTable { mut entries } = taken;
                let ghost before = entries@;
                let _ = entries.remove(i);
                proof {
                    assert forall|a: int, b: int|
                        0 <= a < entries@.len() && 0 <= b < entries@.len() && a != b implies #[trigger] entries@[a].0
                        != #[trigger] entries@[b].0 by {
                        let a2 = if a < i { a } else { a + 1 };
                        let b2 = if b < i { b } else { b + 1 };
                        assert(entries@[a] == before[a2]);
                        assert(entries@[b] == before[b2]);
                        assert(before[a2].0 != before[b2].0);
                    }
                }
                *self = ConnectionTable { entries };
                assert(self.view_entries() =~= old_es.remove(i as int));
                Ok(())
            },
        }
    }

    /// The connection IDs as comma-separated decimals, in table order.
    pub fn ids_csv(&self) -> (r: String)
        ensures
            r@ == join_ids(self.ids()),
    {
        let ghost ids = self.ids();
        let mut s = String::new();
        let mut i: usize = 0;
        assert(ids.subrange(0, 0) =~= Seq::<i32>::empty());
        while i < self.entries.len()
            invariant
                ids == self.ids(),
                i <= ids.len(),
                s@ == join_ids(ids.subrange(0, i as int)),
            decreases self.entries.len() - i,
        {
            let ghost sub = ids.subrange(0, i + 1);
            assert(sub.drop_last() =~= ids.subrange(0, i as int));
            assert(ids[i as int] == self.entries@[i as int].0);
            if i > 0 {
                crate::text::push_str(&mut s, ",");
            }
            crate::text::push_decimal_signed(&mut s, self.entries[i].0 as i64);
            assert(s@ =~= join_ids(sub));
            i = i + 1;
        }
        assert(ids.subrange(0, ids.len() as int) =~= ids);
        s
    }
}

/// Any connection table may be held by a lock.
pub struct TableLock;

impl vstd::rwlock::RwLockPredicate<ConnectionTable> for TableLock {
    open spec fn inv(self, v: ConnectionTable) -> bool {
        true
    }
}

/// Shared event publisher type alias for convenience.
pub type ConnectionManagerEventPublisher = Arc<RwLock<EventPublisher, PublisherLock>>;

/// ConnectionManager service — owns action registry, state variables, and eventing.
///
/// The application registers trait implementations via `register_action()`;
/// the SOAP handler dispatches incoming requests to them. When state changes
/// through `set_state_var()`, the evented variables are sent in a bare
/// propertyset NOTIFY (ConnectionManager has no LastChange variable).
///
/// Connection tracking (per UPnP-av-ConnectionManager-v3 spec §4.2):
/// - PrepareForConnection() allocates a ConnectionID and binds AVTransportID/RcsID
/// - CurrentConnectionIDs tracks the active connections
/// - ConnectionComplete() removes the connection from the table
#[derive(Clone)]
pub struct ConnectionManagerService {
    actions: Arc<RwLock<ActionMap, ActionMapLock>>,
    state_store: Arc<RwLock<StateStore<StateVariableName>, StoreLock<StateVariableName>>>,
    event_publisher: Arc<RwLock<EventPublisher, PublisherLock>>,
    /// Connection table: ConnectionID → connection details.
    connection_table: Arc<RwLock<ConnectionTable, TableLock>>,
}

impl ConnectionManagerService {
    /// The lock holding the action registry.
    pub closed spec fn action_lock(&self) -> RwLock<ActionMap, ActionMapLock> {
        *self.actions
    }

    /// The lock holding the state variables.
    pub closed spec fn store_lock(&self) -> RwLock<StateStore<StateVariableName>, StoreLock<StateVariableName>> {
        *self.state_store
    }

    /// The lock holding the connection table.
    pub closed spec fn table_lock(&self) -> RwLock<ConnectionTable, TableLock> {
        *self.connection_table
    }

    /// The lock holding the event publisher.
    pub closed spec fn publisher_lock(&self) -> RwLock<EventPublisher, PublisherLock> {
        *self.event_publisher
    }

    /// Create a new empty ConnectionManager service with all state variables initialized.
    pub fn new() -> (r: Self)
        ensures
            r.action_lock().pred().service == Services::ConnectionManager(ServiceVersion::V3),
            r.publisher_lock().pred().url@ == event_url_spec(Services::ConnectionManager(ServiceVersion::V3)),
            exists|defs: Seq<StateSchema<StateVariableName>>|
                #[trigger] schema_views(defs) == state_schema_list() && r.store_lock().pred().schema@
                    == register_all((Seq::empty(), Seq::empty()), defs).0,
    {
        Self::with_event_publisher(EventPublisher::new(Services::ConnectionManager(ServiceVersion::V3).event_url(), false))
    }

    /// Create a new ConnectionManager service with a custom event publisher.
    pub fn with_event_publisher(publisher: EventPublisher) -> (r: Self)
        ensures
            r.action_lock().pred().service == Services::ConnectionManager(ServiceVersion::V3),
            r.publisher_lock().pred().url@ == publisher.url(),
            exists|defs: Seq<StateSchema<StateVariableName>>|
                #[trigger] schema_views(defs) == state_schema_list() && r.store_lock().pred().schema@
                    == register_all((Seq::empty(), Seq::empty()), defs).0,
    {
        let ghost url = publisher.url();
        let mut state_store = StateStore::new();
        Self::init_state_vars(&mut state_store);
        let ghost schema = state_store.schema_seq();
        // Per UPnP AV spec §5.4.3: ConnectionManager always has a default implicit connection
        // (ConnectionID=0, AVTransportID=0, RcsID=0) that exists without PrepareForConnection().
        let connection_table = ConnectionTable::with_default_connection();
        ConnectionManagerService {
            actions: Arc::new(RwLock::new(ActionMap::new(Services::ConnectionManager(ServiceVersion::V3)), Ghost(ActionMapLock { service: Services::ConnectionManager(ServiceVersion::V3) }))),
            state_store: Arc::new(RwLock::new(state_store, Ghost(StoreLock { schema: Ghost(schema) }))),
            event_publisher: Arc::new(RwLock::new(publisher, Ghost(PublisherLock { url: Ghost(url) }))),
            connection_table: Arc::new(RwLock::new(connection_table, Ghost(TableLock))),
        }
    }

    /// Get a clone of the shared event publisher.
    pub fn event_publisher(&self) -> (r: ConnectionManagerEventPublisher)
        ensures
            *r == self.publisher_lock(),
    {
        share(&self.event_publisher)
    }

    /// Get the shared state store, for action construction.
    pub fn state_store(&self) -> (r: Arc<RwLock<StateStore<StateVariableName>, StoreLock<StateVariableName>>>)
        ensures
            *r == self.store_lock(),
    {
        share(&self.state_store)
    }

    /// Initialize all ConnectionManager state variables: registers `state_definitions()`,
    /// in order.
    fn init_state_vars(state_store: &mut StateStore<StateVariableName>)
        requires
            old(state_store).wf(),
        ensures
            final(state_store).wf(),
            final(state_store).instances() == old(state_store).instances(),
            exists|defs: Seq<StateSchema<StateVariableName>>|
                #[trigger] schema_views(defs) == state_schema_list() && (
                    final(state_store).schema_seq(),
                    final(state_store).vars(),
                ) == register_all((old(state_store).schema_seq(), old(state_store).vars()), defs),
            crate::state::holds_registered::<StateVariableName>(final(state_store).vars()),
    {
        let defs = state_definitions();
        let ghost d = defs@;
        let ghost start = (state_store.schema_seq(), state_store.vars());
        state_store.register_batch(defs);
        assert(schema_views(d) == state_schema_list());
        proof {
            assert forall|n: StateVariableName| #[trigger] n.registered() implies crate::state::key_pos(
                state_store.vars(),
                n.wire_name(),
            ) is Some by {
                let i = choose|i: int| 0 <= i < state_schema_list().len() && #[trigger] state_schema_list()[i].name == n;
                assert(schema_views(d)[i].name == d[i].name);
                assert(d[i].name.wire_name() == n.wire_name());
                crate::state::lemma_register_all_names(start, d, n.wire_name());
            }
        }
    }

    /// Register a trait implementation for the given action name.
    pub fn register_action(&mut self, action: Box<dyn Action>)
        ensures
            *final(self) == *old(self),
    {
        let (mut map, handle) = self.actions.acquire_write();
        map.register(action);
        handle.release_write(map);
    }

    /// Get the action map for SOAP dispatch.
    pub fn actions(&self) -> (r: Arc<RwLock<ActionMap, ActionMapLock>>)
        ensures
            *r == self.action_lock(),
    {
        share(&self.actions)
    }

    /// Get a state variable by name.
    pub fn get_state_var(&self, name: StateVariableName) -> (r: Result<DataType, Error>)
        ensures
            r is Ok,
            exists|st: StateStore<StateVariableName>|
                #[trigger] st.wf() && st.schema_seq() == self.store_lock().pred().schema@ && match crate::state::key_pos(st.vars(), name.wire_name()) {
                    Some(i) => r matches Ok(v) && v@ == st.vars()[i].1.value,
                    None => r == Err::<DataType, Error>(Error::ArgumentValueInvalid),
                },
    {
        let h = self.state_store.acquire_read();
        let r = h.borrow().get_owned(name);
        proof {
            assert(h.view().wf());
            lemma_every_name_registered(name);
            assert(name.registered());
            assert(crate::state::key_pos(h.view().vars(), name.wire_name()) is Some);
        }
        h.release_read();
        r
    }

    /// Get a clone of a state variable by name.
    pub fn get_state_var_mut(&mut self, name: StateVariableName) -> (r: Option<StateVariable>)
        ensures
            r is Some,
            *final(self) == *old(self),
            exists|st: StateStore<StateVariableName>|
                #[trigger] st.wf() && st.schema_seq() == old(self).store_lock().pred().schema@ && match crate::state::key_pos(st.vars(), name.wire_name()) {
                    Some(i) => r matches Some(v) && v@ == st.vars()[i].1,
                    None => r is None,
                },
    {
        let h = self.state_store.acquire_read();
        let r = h.borrow().get_mut_owned(name);
        proof {
            assert(h.view().wf());
            lemma_every_name_registered(name);
            assert(name.registered());
            assert(crate::state::key_pos(h.view().vars(), name.wire_name()) is Some);
        }
        h.release_read();
        r
    }

    /// Set a state variable. ConnectionManager has no instance-scoped
    /// variables, so the InstanceID is not used.
    ///
    /// Sets the value in StateStore, then sends the evented variables in a
    /// bare propertyset NOTIFY.
    ///
    /// Writing the same value does NOT set has_changes (per UPnP spec).
    ///
    /// Returns, as ghost values, the store as the write found it and as the
    /// write left it when it handed it back to the lock.
    pub fn set_state_var(&self, _instance_id: u32, name: StateVariableName, value: DataType) -> (r: Ghost<
        (StateStore<StateVariableName>, StateStore<StateVariableName>),
    >)
        ensures
            r@.0.wf(),
            r@.1.wf(),
            r@.0.schema_seq() == self.store_lock().pred().schema@,
            crate::state::scoped_write(r@.0, r@.1, name, 0, value@),
    {
        let (mut store, handle) = self.state_store.acquire_write();
        let ghost before = store;
        store.set(name, value);
        proof {
            crate::state::lemma_same_schema_holds_registered(before, store);
        }
        let ghost after = store;
        handle.release_write(store);
        self.trigger_events();
        Ghost((before, after))
    }

    /// Trigger GENA events for all evented state variables: a direct NOTIFY
    /// (bare propertyset), no LastChange wrapping.
    fn trigger_events(&self) {
        let h = self.state_store.acquire_read();
        let evented = h.borrow().collect_evented();
        h.release_read();
        let (mut publisher, publisher_handle) = self.event_publisher.acquire_write();
        let _results = publisher.notify(evented.as_slice());
        publisher_handle.release_write(publisher);
    }

    // ===========================================================================
    // Connection Table Management (per UPnP-av-ConnectionManager-v3 spec §4.2)
    // ===========================================================================

    /// Register a new connection in the table and update CurrentConnectionIDs state variable.
    ///
    /// Returns error 708 if the connection table is full (single-connection device).
    pub fn register_connection(&self, connection_id: i32, info: ConnectionInfo) -> (r: Result<(), statics::Error>)
        ensures
            r is Err ==> r == Err::<(), statics::Error>(statics::Error::ConnectionTableOverflow),
    {
        let (mut table, handle) = self.connection_table.acquire_write();
        let r = table.register(connection_id, info);
        handle.release_write(table);
        if r.is_ok() {
            let (mut store, store_handle) = self.state_store.acquire_write();
            let ghost before = store;
            store.set(StateVariableName::CurrentConnectionIDs, DataType::String(crate::text::i64_to_string(connection_id as i64)));
            proof {
                crate::state::lemma_same_schema_holds_registered(before, store);
            }
            store_handle.release_write(store);
        }
        r
    }

    /// Remove a connection from the table and update CurrentConnectionIDs state variable.
    ///
    /// Returns error 706 if the connection ID is not found.
    pub fn remove_connection(&self, connection_id: i32) -> (r: Result<(), statics::Error>)
        ensures
            r is Err ==> r == Err::<(), statics::Error>(statics::Error::InvalidConnectionReference),
    {
        let (mut table, handle) = self.connection_table.acquire_write();
        let r = table.remove(connection_id);
        let remaining = table.ids_csv();
        handle.release_write(table);
        if r.is_ok() {
            let (mut store, store_handle) = self.state_store.acquire_write();
            let ghost before = store;
            store.set(StateVariableName::CurrentConnectionIDs, DataType::String(remaining));
            proof {
                crate::state::lemma_same_schema_holds_registered(before, store);
            }
            store_handle.release_write(store);
        }
        r
    }

    /// Get the connection info for a given connection ID.
    ///
    /// Returns error 706 if the connection ID is not found.
    pub fn get_connection_info(&self, connection_id: i32) -> (r: Result<ConnectionInfo, statics::Error>)
        ensures
            r is Err ==> r == Err::<ConnectionInfo, statics::Error>(statics::Error::InvalidConnectionReference),
    {
        let h = self.connection_table.acquire_read();
        let r = h.borrow().get(connection_id);
        h.release_read();
        r
    }

    /// Get the current connection IDs as a CSV string.
    pub fn get_current_connection_ids(&self) -> (r: String)
        ensures
            exists|t: ConnectionTable| r@ == join_ids(#[trigger] t.ids()),
    {
        let h = self.connection_table.acquire_read();
        let r = h.borrow().ids_csv();
        h.release_read();
        r
    }

    /// Validate that a connection ID exists in the table.
    ///
    /// Returns error 706 if not found.
    pub fn validate_connection(&self, connection_id: i32) -> (r: Result<(), statics::Error>)
        ensures
            r is Err ==> r == Err::<(), statics::Error>(statics::Error::InvalidConnectionReference),
    {
        let h = self.connection_table.acquire_read();
        let found = h.borrow().contains(connection_id);
        h.release_read();
        if found {
            Ok(())
        } else {
            Err(statics::Error::InvalidConnectionReference)
        }
    }

    /// Get the number of active connections.
    pub fn connection_count(&self) -> (r: usize)
        ensures
            exists|t: ConnectionTable| r == (#[trigger] t.view_entries()).len(),
    {
        let h = self.connection_table.acquire_read();
        let r = h.borrow().len();
        h.release_read();
        r
    }

    /// Get a reference to the connection table for validation by other bridges.
    pub fn connection_table(&self) -> (r: &Arc<RwLock<ConnectionTable, TableLock>>)
        ensures
            **r == self.table_lock(),
    {
        &self.connection_table
    }

    /// Get all state variable names (for SCPD generation).
    pub fn state_var_names(&self) -> (r: Vec<String>)
        ensures
            r@.map_values(|s: String| s@) == crate::state::schema_names(self.store_lock().pred().schema@),
    {
        let h = self.state_store.acquire_read();
        let r = h.borrow().names();
        proof {
            assert(h.view().wf());
        }
        h.release_read();
        r
    }
}

} // verus!
