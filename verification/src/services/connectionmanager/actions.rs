//! ConnectionManager actions — bridges from the SOAP `Action` trait to the
//! application traits.
//!
//! Each struct wraps an `Arc<T>` where `T` implements the application trait.
//! The `execute` method extracts typed args, calls the trait, and wraps results.
//!
//! Bridge structs are prefixed with `Action` to avoid name collision with traits.
use vstd::prelude::*;

use std::sync::Arc;

use crate::services::args::{arg_bool, arg_or, arg_required, drop_empty, split_csv, state_pairs_xml};
use crate::text::{i64_to_string, parse_i16, parse_i32, parse_u16, parse_u32, str_eq, to_owned_string, u64_to_string};
use crate::types::upnp::{static_arg_view, Action, ActionArgs, ArgView, ArgumentDefinition, ArgumentDirection, DataType, Error};
use vstd::rwlock::RwLock;
use super::statics::Direction;
use super::{ConnectionInfo, ConnectionTable, TableLock};
use super::traits::{ConnectionComplete, ConnectionCompleteInput, GetCurrentConnectionIDs, GetCurrentConnectionInfo, GetCurrentConnectionInfoInput, GetFeatureList, GetProtocolInfo, GetRendererItemInfo, GetRendererItemInfoInput, PrepareForConnection, PrepareForConnectionInput};

verus! {

broadcast use vstd::string::group_string_axioms;

/// The generic UPnP error with the given code, or `ActionFailed` when the
/// generic errors have none with that code.
pub fn failed_with(code: u16) -> (r: Error)
    ensures
        r == match crate::types::upnp::upnp_error_from_code(code) {
            Some(e) => e,
            None => Error::ActionFailed,
        },
{
    match Error::from_code(code) {
        Some(e) => e,
        None => Error::ActionFailed,
    }
}

pub struct ActionGetProtocolInfo<T: GetProtocolInfo> {
    trait_impl: Arc<T>,
}

impl<T: GetProtocolInfo> ActionGetProtocolInfo<T> {
    /// The application's implementation of the action.
    pub closed spec fn implementation(&self) -> T {
        *self.trait_impl
    }

    pub fn new(trait_impl: T) -> (r: Self)
        ensures
            r.implementation() == trait_impl,
    {
        ActionGetProtocolInfo { trait_impl: Arc::new(trait_impl) }
    }
}

impl<T: GetProtocolInfo> Action for ActionGetProtocolInfo<T> {
    open spec fn action_name(&self) -> Seq<char> {
        "GetProtocolInfo"@
    }

    open spec fn in_arg_views(&self) -> Seq<ArgView> {
        Seq::<ArgView>::empty()
    }

    open spec fn out_arg_views(&self) -> Seq<ArgView> {
        seq![("Source"@, ArgumentDirection::OUT, Some("SourceProtocolInfo"@)), ("Sink"@, ArgumentDirection::OUT, Some("SinkProtocolInfo"@))]
    }

    open spec fn outcome(&self, args: Seq<(Seq<char>, Seq<char>)>, r: Result<ActionArgs, Error>) -> bool {
        &&& r is Err ==> (r->Err_0 == Error::ActionFailed)
        &&& exists|res: Result<super::traits::GetProtocolInfoOutput, T::Error>|
            #[trigger] call_ensures(T::get_protocol_info, (&self.implementation(),), res) && (r is Ok <==> res is Ok) && (res matches Ok(o) ==> r->Ok_0@ == get_protocol_info_reply_pairs(o))
    }

    fn name(&self) -> &'static str {
        "GetProtocolInfo"
    }

    fn in_args(&self) -> Vec<ArgumentDefinition<&'static str, &'static str>> {
        let mut v: Vec<ArgumentDefinition<&'static str, &'static str>> = Vec::new();
        assert(v@.map_values(|a: ArgumentDefinition<&'static str, &'static str>| static_arg_view(a)) =~= Seq::<ArgView>::empty());
        v
    }

    fn out_args(&self) -> Vec<ArgumentDefinition<&'static str, &'static str>> {
        let mut v: Vec<ArgumentDefinition<&'static str, &'static str>> = Vec::new();
        v.push(ArgumentDefinition { name: "Source", direction: ArgumentDirection::OUT, related_state_var: Some("SourceProtocolInfo") });
        v.push(ArgumentDefinition { name: "Sink", direction: ArgumentDirection::OUT, related_state_var: Some("SinkProtocolInfo") });
        assert(v@.map_values(|a: ArgumentDefinition<&'static str, &'static str>| static_arg_view(a)) =~= seq![("Source"@, ArgumentDirection::OUT, Some("SourceProtocolInfo"@)), ("Sink"@, ArgumentDirection::OUT, Some("SinkProtocolInfo"@))]);
        v
    }

    fn execute(&self, _args: &ActionArgs) -> (r: Result<ActionArgs, Error>)
    {
        let res = self.trait_impl.get_protocol_info();
        assert(call_ensures(T::get_protocol_info, (&self.implementation(),), res));
        let output = match res { Ok(o) => o, Err(_) => return Err(Error::ActionFailed) };
        Ok(get_protocol_info_reply(output))
    }
}

pub struct ActionGetCurrentConnectionIDs<T: GetCurrentConnectionIDs> {
    trait_impl: Arc<T>,
}

impl<T: GetCurrentConnectionIDs> ActionGetCurrentConnectionIDs<T> {
    /// The application's implementation of the action.
    pub closed spec fn implementation(&self) -> T {
        *self.trait_impl
    }

    pub fn new(trait_impl: T) -> (r: Self)
        ensures
            r.implementation() == trait_impl,
    {
        ActionGetCurrentConnectionIDs { trait_impl: Arc::new(trait_impl) }
    }
}

impl<T: GetCurrentConnectionIDs> Action for ActionGetCurrentConnectionIDs<T> {
    open spec fn action_name(&self) -> Seq<char> {
        "GetCurrentConnectionIDs"@
    }

    open spec fn in_arg_views(&self) -> Seq<ArgView> {
        Seq::<ArgView>::empty()
    }

    open spec fn out_arg_views(&self) -> Seq<ArgView> {
        seq![("ConnectionIDs"@, ArgumentDirection::OUT, Some("CurrentConnectionIDs"@))]
    }

    open spec fn outcome(&self, args: Seq<(Seq<char>, Seq<char>)>, r: Result<ActionArgs, Error>) -> bool {
        &&& r is Err ==> (r->Err_0 == Error::ActionFailed)
        &&& exists|res: Result<super::traits::GetCurrentConnectionIDsOutput, T::Error>|
            #[trigger] call_ensures(T::get_current_connection_ids, (&self.implementation(),), res) && (r is Ok <==> res is Ok) && (res matches Ok(o) ==> r->Ok_0@ == get_current_connection_i_ds_reply_pairs(o))
    }

    fn name(&self) -> &'static str {
        "GetCurrentConnectionIDs"
    }

    fn in_args(&self) -> Vec<ArgumentDefinition<&'static str, &'static str>> {
        let mut v: Vec<ArgumentDefinition<&'static str, &'static str>> = Vec::new();
        assert(v@.map_values(|a: ArgumentDefinition<&'static str, &'static str>| static_arg_view(a)) =~= Seq::<ArgView>::empty());
        v
    }

    fn out_args(&self) -> Vec<ArgumentDefinition<&'static str, &'static str>> {
        let mut v: Vec<ArgumentDefinition<&'static str, &'static str>> = Vec::new();
        v.push(ArgumentDefinition { name: "ConnectionIDs", direction: ArgumentDirection::OUT, related_state_var: Some("CurrentConnectionIDs") });
        assert(v@.map_values(|a: ArgumentDefinition<&'static str, &'static str>| static_arg_view(a)) =~= seq![("ConnectionIDs"@, ArgumentDirection::OUT, Some("CurrentConnectionIDs"@))]);
        v
    }

    fn execute(&self, _args: &ActionArgs) -> (r: Result<ActionArgs, Error>)
    {
        let res = self.trait_impl.get_current_connection_ids();
        assert(call_ensures(T::get_current_connection_ids, (&self.implementation(),), res));
        let output = match res { Ok(o) => o, Err(_) => return Err(Error::ActionFailed) };
        Ok(get_current_connection_i_ds_reply(output))
    }
}

pub struct ActionGetCurrentConnectionInfo<T: GetCurrentConnectionInfo> {
    trait_impl: Arc<T>,
}

impl<T: GetCurrentConnectionInfo> ActionGetCurrentConnectionInfo<T> {
    /// The application's implementation of the action.
    pub closed spec fn implementation(&self) -> T {
        *self.trait_impl
    }

    pub fn new(trait_impl: T) -> (r: Self)
        ensures
            r.implementation() == trait_impl,
    {
        ActionGetCurrentConnectionInfo { trait_impl: Arc::new(trait_impl) }
    }
}

impl<T: GetCurrentConnectionInfo> Action for ActionGetCurrentConnectionInfo<T> {
    open spec fn action_name(&self) -> Seq<char> {
        "GetCurrentConnectionInfo"@
    }

    open spec fn in_arg_views(&self) -> Seq<ArgView> {
        seq![("ConnectionID"@, ArgumentDirection::IN, Some("A_ARG_TYPE_ConnectionID"@))]
    }

    open spec fn out_arg_views(&self) -> Seq<ArgView> {
        seq![("RcsID"@, ArgumentDirection::OUT, Some("A_ARG_TYPE_RcsID"@)), ("AVTransportID"@, ArgumentDirection::OUT, Some("A_ARG_TYPE_AVTransportID"@)), ("ProtocolInfo"@, ArgumentDirection::OUT, Some("A_ARG_TYPE_ProtocolInfo"@)), ("PeerConnectionManager"@, ArgumentDirection::OUT, Some("A_ARG_TYPE_ConnectionManager"@)), ("PeerConnectionID"@, ArgumentDirection::OUT, Some("A_ARG_TYPE_ConnectionID"@)), ("Direction"@, ArgumentDirection::OUT, Some("A_ARG_TYPE_Direction"@)), ("Status"@, ArgumentDirection::OUT, Some("A_ARG_TYPE_ConnectionStatus"@))]
    }

    open spec fn outcome(&self, args: Seq<(Seq<char>, Seq<char>)>, r: Result<ActionArgs, Error>) -> bool {
        &&& r is Err ==> (r->Err_0 == Error::ActionFailed || r->Err_0 == Error::ArgumentValueInvalid)
        &&& get_current_connection_info_refusal(args) matches Some(e) ==> r == Err::<ActionArgs, Error>(e)
        &&& get_current_connection_info_refusal(args) is None ==> (r is Err ==> r->Err_0 == Error::ActionFailed)
        &&& get_current_connection_info_refusal(args) is None ==> exists|input: super::traits::GetCurrentConnectionInfoInput, res: Result<super::traits::GetCurrentConnectionInfoOutput, T::Error>|
            get_current_connection_info_input(args, input) && #[trigger] call_ensures(T::get_current_connection_info, (&self.implementation(), input), res) && (r is Ok
                <==> res is Ok) && (res matches Ok(o) ==> r->Ok_0@ == get_current_connection_info_reply_pairs(o))
    }

    fn name(&self) -> &'static str {
        "GetCurrentConnectionInfo"
    }

    fn in_args(&self) -> Vec<ArgumentDefinition<&'static str, &'static str>> {
        let mut v: Vec<ArgumentDefinition<&'static str, &'static str>> = Vec::new();
        v.push(ArgumentDefinition { name: "ConnectionID", direction: ArgumentDirection::IN, related_state_var: Some("A_ARG_TYPE_ConnectionID") });
        assert(v@.map_values(|a: ArgumentDefinition<&'static str, &'static str>| static_arg_view(a)) =~= seq![("ConnectionID"@, ArgumentDirection::IN, Some("A_ARG_TYPE_ConnectionID"@))]);
        v
    }

    fn out_args(&self) -> Vec<ArgumentDefinition<&'static str, &'static str>> {
        let mut v: Vec<ArgumentDefinition<&'static str, &'static str>> = Vec::new();
        v.push(ArgumentDefinition { name: "RcsID", direction: ArgumentDirection::OUT, related_state_var: Some("A_ARG_TYPE_RcsID") });
        v.push(ArgumentDefinition { name: "AVTransportID", direction: ArgumentDirection::OUT, related_state_var: Some("A_ARG_TYPE_AVTransportID") });
        v.push(ArgumentDefinition { name: "ProtocolInfo", direction: ArgumentDirection::OUT, related_state_var: Some("A_ARG_TYPE_ProtocolInfo") });
        v.push(ArgumentDefinition { name: "PeerConnectionManager", direction: ArgumentDirection::OUT, related_state_var: Some("A_ARG_TYPE_ConnectionManager") });
        v.push(ArgumentDefinition { name: "PeerConnectionID", direction: ArgumentDirection::OUT, related_state_var: Some("A_ARG_TYPE_ConnectionID") });
        v.push(ArgumentDefinition { name: "Direction", direction: ArgumentDirection::OUT, related_state_var: Some("A_ARG_TYPE_Direction") });
        v.push(ArgumentDefinition { name: "Status", direction: ArgumentDirection::OUT, related_state_var: Some("A_ARG_TYPE_ConnectionStatus") });
        assert(v@.map_values(|a: ArgumentDefinition<&'static str, &'static str>| static_arg_view(a)) =~= seq![("RcsID"@, ArgumentDirection::OUT, Some("A_ARG_TYPE_RcsID"@)), ("AVTransportID"@, ArgumentDirection::OUT, Some("A_ARG_TYPE_AVTransportID"@)), ("ProtocolInfo"@, ArgumentDirection::OUT, Some("A_ARG_TYPE_ProtocolInfo"@)), ("PeerConnectionManager"@, ArgumentDirection::OUT, Some("A_ARG_TYPE_ConnectionManager"@)), ("PeerConnectionID"@, ArgumentDirection::OUT, Some("A_ARG_TYPE_ConnectionID"@)), ("Direction"@, ArgumentDirection::OUT, Some("A_ARG_TYPE_Direction"@)), ("Status"@, ArgumentDirection::OUT, Some("A_ARG_TYPE_ConnectionStatus"@))]);
        v
    }

    fn execute(&self, args: &ActionArgs) -> Result<ActionArgs, Error> {
        let input = match get_current_connection_info_request(args) { Ok(i) => i, Err(e) => return Err(e) };
        let ghost handed = input;
        let res = self.trait_impl.get_current_connection_info(input);
        assert(call_ensures(T::get_current_connection_info, (&self.implementation(), handed), res));
        let output = match res { Ok(o) => o, Err(_) => return Err(Error::ActionFailed) };
        Ok(get_current_connection_info_reply(output))
    }
}

pub struct ActionGetFeatureList<T: GetFeatureList> {
    trait_impl: Arc<T>,
}

impl<T: GetFeatureList> ActionGetFeatureList<T> {
    /// The application's implementation of the action.
    pub closed spec fn implementation(&self) -> T {
        *self.trait_impl
    }

    pub fn new(trait_impl: T) -> (r: Self)
        ensures
            r.implementation() == trait_impl,
    {
        ActionGetFeatureList { trait_impl: Arc::new(trait_impl) }
    }
}

impl<T: GetFeatureList> Action for ActionGetFeatureList<T> {
    open spec fn action_name(&self) -> Seq<char> {
        "GetFeatureList"@
    }

    open spec fn in_arg_views(&self) -> Seq<ArgView> {
        Seq::<ArgView>::empty()
    }

    open spec fn out_arg_views(&self) -> Seq<ArgView> {
        seq![("FeatureList"@, ArgumentDirection::OUT, Some("FeatureList"@))]
    }

    open spec fn outcome(&self, args: Seq<(Seq<char>, Seq<char>)>, r: Result<ActionArgs, Error>) -> bool {
        &&& r is Err ==> (r->Err_0 == Error::ActionFailed)
        &&& exists|res: Result<super::traits::GetFeatureListOutput, T::Error>|
            #[trigger] call_ensures(T::get_feature_list, (&self.implementation(),), res) && (r is Ok <==> res is Ok) && (res matches Ok(o) ==> r->Ok_0@ == get_feature_list_reply_pairs(o))
    }

    fn name(&self) -> &'static str {
        "GetFeatureList"
    }

    fn in_args(&self) -> Vec<ArgumentDefinition<&'static str, &'static str>> {
        let mut v: Vec<ArgumentDefinition<&'static str, &'static str>> = Vec::new();
        assert(v@.map_values(|a: ArgumentDefinition<&'static str, &'static str>| static_arg_view(a)) =~= Seq::<ArgView>::empty());
        v
    }

    fn out_args(&self) -> Vec<ArgumentDefinition<&'static str, &'static str>> {
        let mut v: Vec<ArgumentDefinition<&'static str, &'static str>> = Vec::new();
        v.push(ArgumentDefinition { name: "FeatureList", direction: ArgumentDirection::OUT, related_state_var: Some("FeatureList") });
        assert(v@.map_values(|a: ArgumentDefinition<&'static str, &'static str>| static_arg_view(a)) =~= seq![("FeatureList"@, ArgumentDirection::OUT, Some("FeatureList"@))]);
        v
    }

    fn execute(&self, _args: &ActionArgs) -> (r: Result<ActionArgs, Error>)
    {
        let res = self.trait_impl.get_feature_list();
        assert(call_ensures(T::get_feature_list, (&self.implementation(),), res));
        let output = match res { Ok(o) => o, Err(_) => return Err(Error::ActionFailed) };
        Ok(get_feature_list_reply(output))
    }
}

pub struct ActionPrepareForConnection<T: PrepareForConnection> {
    trait_impl: Arc<T>,
    /// Reference to connection table for registering and removing connections.
    connection_table: Arc<RwLock<ConnectionTable, TableLock>>,
}

impl<T: PrepareForConnection> ActionPrepareForConnection<T> {
    /// The application's implementation of the action.
    pub closed spec fn implementation(&self) -> T {
        *self.trait_impl
    }

    /// The connection table the action updates.
    pub closed spec fn table(&self) -> Arc<RwLock<ConnectionTable, TableLock>> {
        self.connection_table
    }

    pub fn new(trait_impl: T, connection_table: Arc<RwLock<ConnectionTable, TableLock>>) -> (r: Self)
        ensures
            r.implementation() == trait_impl,
            r.table() == connection_table,
    {
        ActionPrepareForConnection { trait_impl: Arc::new(trait_impl), connection_table }
    }
}

impl<T: PrepareForConnection> Action for ActionPrepareForConnection<T> {
    open spec fn action_name(&self) -> Seq<char> {
        "PrepareForConnection"@
    }

    open spec fn in_arg_views(&self) -> Seq<ArgView> {
        seq![("RemoteProtocolInfo"@, ArgumentDirection::IN, Some("A_ARG_TYPE_ProtocolInfo"@)), ("PeerConnectionManager"@, ArgumentDirection::IN, Some("A_ARG_TYPE_ConnectionManager"@)), ("PeerConnectionID"@, ArgumentDirection::IN, Some("A_ARG_TYPE_ConnectionID"@)), ("Direction"@, ArgumentDirection::IN, Some("A_ARG_TYPE_Direction"@))]
    }

    open spec fn out_arg_views(&self) -> Seq<ArgView> {
        seq![("ConnectionID"@, ArgumentDirection::OUT, Some("A_ARG_TYPE_ConnectionID"@)), ("AVTransportID"@, ArgumentDirection::OUT, Some("A_ARG_TYPE_AVTransportID"@)), ("RcsID"@, ArgumentDirection::OUT, Some("A_ARG_TYPE_RcsID"@))]
    }

    open spec fn outcome(&self, args: Seq<(Seq<char>, Seq<char>)>, r: Result<ActionArgs, Error>) -> bool {
        &&& r is Err ==> (r->Err_0 == Error::ActionFailed || r->Err_0 == Error::ArgumentValueInvalid)
        &&& prepare_for_connection_refusal(args) matches Some(e) ==> r == Err::<ActionArgs, Error>(e)
        &&& prepare_for_connection_refusal(args) is None ==> (r is Err ==> r->Err_0 == Error::ActionFailed)
        &&& prepare_for_connection_refusal(args) is None ==> exists|input: super::traits::PrepareForConnectionInput, res: Result<super::traits::PrepareForConnectionOutput, T::Error>|
            prepare_for_connection_input(args, input) && #[trigger] call_ensures(T::prepare_for_connection, (&self.implementation(), input), res)
                && (r is Ok <==> res is Ok) && (res matches Ok(o) ==> r->Ok_0@ == prepare_for_connection_reply_pairs(o))
    }

    fn name(&self) -> &'static str {
        "PrepareForConnection"
    }

    fn in_args(&self) -> Vec<ArgumentDefinition<&'static str, &'static str>> {
        let mut v: Vec<ArgumentDefinition<&'static str, &'static str>> = Vec::new();
        v.push(ArgumentDefinition { name: "RemoteProtocolInfo", direction: ArgumentDirection::IN, related_state_var: Some("A_ARG_TYPE_ProtocolInfo") });
        v.push(ArgumentDefinition { name: "PeerConnectionManager", direction: ArgumentDirection::IN, related_state_var: Some("A_ARG_TYPE_ConnectionManager") });
        v.push(ArgumentDefinition { name: "PeerConnectionID", direction: ArgumentDirection::IN, related_state_var: Some("A_ARG_TYPE_ConnectionID") });
        v.push(ArgumentDefinition { name: "Direction", direction: ArgumentDirection::IN, related_state_var: Some("A_ARG_TYPE_Direction") });
        assert(v@.map_values(|a: ArgumentDefinition<&'static str, &'static str>| static_arg_view(a)) =~= seq![("RemoteProtocolInfo"@, ArgumentDirection::IN, Some("A_ARG_TYPE_ProtocolInfo"@)), ("PeerConnectionManager"@, ArgumentDirection::IN, Some("A_ARG_TYPE_ConnectionManager"@)), ("PeerConnectionID"@, ArgumentDirection::IN, Some("A_ARG_TYPE_ConnectionID"@)), ("Direction"@, ArgumentDirection::IN, Some("A_ARG_TYPE_Direction"@))]);
        v
    }

    fn out_args(&self) -> Vec<ArgumentDefinition<&'static str, &'static str>> {
        let mut v: Vec<ArgumentDefinition<&'static str, &'static str>> = Vec::new();
        v.push(ArgumentDefinition { name: "ConnectionID", direction: ArgumentDirection::OUT, related_state_var: Some("A_ARG_TYPE_ConnectionID") });
        v.push(ArgumentDefinition { name: "AVTransportID", direction: ArgumentDirection::OUT, related_state_var: Some("A_ARG_TYPE_AVTransportID") });
        v.push(ArgumentDefinition { name: "RcsID", direction: ArgumentDirection::OUT, related_state_var: Some("A_ARG_TYPE_RcsID") });
        assert(v@.map_values(|a: ArgumentDefinition<&'static str, &'static str>| static_arg_view(a)) =~= seq![("ConnectionID"@, ArgumentDirection::OUT, Some("A_ARG_TYPE_ConnectionID"@)), ("AVTransportID"@, ArgumentDirection::OUT, Some("A_ARG_TYPE_AVTransportID"@)), ("RcsID"@, ArgumentDirection::OUT, Some("A_ARG_TYPE_RcsID"@))]);
        v
    }

    fn execute(&self, args: &ActionArgs) -> Result<ActionArgs, Error> {
        let input = match prepare_for_connection_request(args) { Ok(i) => i, Err(e) => return Err(e) };
        // The generic UPnP errors have no 702 (incompatible directions) or 708
        // (connection table overflow) entry, so every failure of the
        // application is reported as ActionFailed.
        let direction = input.direction;
        let peer_connection_manager = input.peer_connection_manager.clone();
        let peer_connection_id = input.peer_connection_id;
        let ghost handed = input;
        let res = self.trait_impl.prepare_for_connection(input);
        assert(call_ensures(T::prepare_for_connection, (&self.implementation(), handed), res));
        let output = match res { Ok(o) => o, Err(_) => return Err(failed_with(702)) };
        let (mut table, handle) = self.connection_table.acquire_write();
        table.insert(output.connection_id, ConnectionInfo { protocol_info: i64_to_string(output.av_transport_id as i64), direction, peer_connection_manager, peer_connection_id });
        handle.release_write(table);
        Ok(prepare_for_connection_reply(output))
    }
}

pub struct ActionConnectionComplete<T: ConnectionComplete> {
    trait_impl: Arc<T>,
    /// Reference to connection table for registering and removing connections.
    connection_table: Arc<RwLock<ConnectionTable, TableLock>>,
}

impl<T: ConnectionComplete> ActionConnectionComplete<T> {
    /// The application's implementation of the action.
    pub closed spec fn implementation(&self) -> T {
        *self.trait_impl
    }

    /// The connection table the action updates.
    pub closed spec fn table(&self) -> Arc<RwLock<ConnectionTable, TableLock>> {
        self.connection_table
    }

    pub fn new(trait_impl: T, connection_table: Arc<RwLock<ConnectionTable, TableLock>>) -> (r: Self)
        ensures
            r.implementation() == trait_impl,
            r.table() == connection_table,
    {
        ActionConnectionComplete { trait_impl: Arc::new(trait_impl), connection_table }
    }
}

impl<T: ConnectionComplete> Action for ActionConnectionComplete<T> {
    open spec fn action_name(&self) -> Seq<char> {
        "ConnectionComplete"@
    }

    open spec fn in_arg_views(&self) -> Seq<ArgView> {
        seq![("ConnectionID"@, ArgumentDirection::IN, Some("A_ARG_TYPE_ConnectionID"@))]
    }

    open spec fn out_arg_views(&self) -> Seq<ArgView> {
        Seq::<ArgView>::empty()
    }

    open spec fn outcome(&self, args: Seq<(Seq<char>, Seq<char>)>, r: Result<ActionArgs, Error>) -> bool {
        &&& r is Err ==> (r->Err_0 == Error::ActionFailed || r->Err_0 == Error::ArgumentValueInvalid)
        &&& connection_complete_refusal(args) matches Some(e) ==> r == Err::<ActionArgs, Error>(e)
        &&& r is Ok ==> r->Ok_0@ == Seq::<(Seq<char>, Seq<char>)>::empty()
        &&& connection_complete_refusal(args) is None ==> (r is Err ==> r->Err_0 == Error::ActionFailed)
        &&& r is Ok ==> exists|input: super::traits::ConnectionCompleteInput, res: Result<super::traits::ConnectionCompleteOutput, T::Error>|
            connection_complete_input(args, input) && #[trigger] call_ensures(T::connection_complete, (&self.implementation(), input), res)
                && res is Ok
    }

    fn name(&self) -> &'static str {
        "ConnectionComplete"
    }

    fn in_args(&self) -> Vec<ArgumentDefinition<&'static str, &'static str>> {
        let mut v: Vec<ArgumentDefinition<&'static str, &'static str>> = Vec::new();
        v.push(ArgumentDefinition { name: "ConnectionID", direction: ArgumentDirection::IN, related_state_var: Some("A_ARG_TYPE_ConnectionID") });
        assert(v@.map_values(|a: ArgumentDefinition<&'static str, &'static str>| static_arg_view(a)) =~= seq![("ConnectionID"@, ArgumentDirection::IN, Some("A_ARG_TYPE_ConnectionID"@))]);
        v
    }

    fn out_args(&self) -> Vec<ArgumentDefinition<&'static str, &'static str>> {
        let mut v: Vec<ArgumentDefinition<&'static str, &'static str>> = Vec::new();
        assert(v@.map_values(|a: ArgumentDefinition<&'static str, &'static str>| static_arg_view(a)) =~= Seq::<ArgView>::empty());
        v
    }

    fn execute(&self, args: &ActionArgs) -> Result<ActionArgs, Error> {
        let request = match connection_complete_request(args) { Ok(i) => i, Err(e) => return Err(e) };
        let connection_id = request.connection_id;
        let (mut table, handle) = self.connection_table.acquire_write();
        if !table.contains(connection_id) { handle.release_write(table); return Err(failed_with(706)); }
        let _ = table.remove(connection_id);
        handle.release_write(table);
        let input = ConnectionCompleteInput { connection_id };
        let ghost handed = input;
        let res = self.trait_impl.connection_complete(input);
        assert(call_ensures(T::connection_complete, (&self.implementation(), handed), res));
        match res { Ok(_) => {}, Err(_) => return Err(Error::ActionFailed) }
        Ok(ActionArgs::new())
    }
}

pub struct ActionGetRendererItemInfo<T: GetRendererItemInfo> {
    trait_impl: Arc<T>,
}

impl<T: GetRendererItemInfo> ActionGetRendererItemInfo<T> {
    /// The application's implementation of the action.
    pub closed spec fn implementation(&self) -> T {
        *self.trait_impl
    }

    pub fn new(trait_impl: T) -> (r: Self)
        ensures
            r.implementation() == trait_impl,
    {
        ActionGetRendererItemInfo { trait_impl: Arc::new(trait_impl) }
    }
}

impl<T: GetRendererItemInfo> Action for ActionGetRendererItemInfo<T> {
    open spec fn action_name(&self) -> Seq<char> {
        "GetRendererItemInfo"@
    }

    open spec fn in_arg_views(&self) -> Seq<ArgView> {
        seq![("ItemInfoFilter"@, ArgumentDirection::IN, Some("A_ARG_TYPE_ItemInfoFilter"@)), ("ItemMetadataList"@, ArgumentDirection::IN, Some("A_ARG_TYPE_Result"@))]
    }

    open spec fn out_arg_views(&self) -> Seq<ArgView> {
        seq![("ItemRenderingInfoList"@, ArgumentDirection::OUT, Some("A_ARG_TYPE_RenderingInfoList"@))]
    }

    open spec fn outcome(&self, args: Seq<(Seq<char>, Seq<char>)>, r: Result<ActionArgs, Error>) -> bool {
        &&& r is Err ==> (r->Err_0 == Error::ActionFailed || r->Err_0 == Error::ArgumentValueInvalid)
        &&& get_renderer_item_info_refusal(args) matches Some(e) ==> r == Err::<ActionArgs, Error>(e)
        &&& get_renderer_item_info_refusal(args) is None ==> (r is Err ==> r->Err_0 == Error::ActionFailed)
        &&& get_renderer_item_info_refusal(args) is None ==> exists|input: super::traits::GetRendererItemInfoInput, res: Result<super::traits::GetRendererItemInfoOutput, T::Error>|
            get_renderer_item_info_input(args, input) && #[trigger] call_ensures(T::get_renderer_item_info, (&self.implementation(), input), res) && (r is Ok
                <==> res is Ok) && (res matches Ok(o) ==> r->Ok_0@ == get_renderer_item_info_reply_pairs(o))
    }

    fn name(&self) -> &'static str {
        "GetRendererItemInfo"
    }

    fn in_args(&self) -> Vec<ArgumentDefinition<&'static str, &'static str>> {
        let mut v: Vec<ArgumentDefinition<&'static str, &'static str>> = Vec::new();
        v.push(ArgumentDefinition { name: "ItemInfoFilter", direction: ArgumentDirection::IN, related_state_var: Some("A_ARG_TYPE_ItemInfoFilter") });
        v.push(ArgumentDefinition { name: "ItemMetadataList", direction: ArgumentDirection::IN, related_state_var: Some("A_ARG_TYPE_Result") });
        assert(v@.map_values(|a: ArgumentDefinition<&'static str, &'static str>| static_arg_view(a)) =~= seq![("ItemInfoFilter"@, ArgumentDirection::IN, Some("A_ARG_TYPE_ItemInfoFilter"@)), ("ItemMetadataList"@, ArgumentDirection::IN, Some("A_ARG_TYPE_Result"@))]);
        v
    }

    fn out_args(&self) -> Vec<ArgumentDefinition<&'static str, &'static str>> {
        let mut v: Vec<ArgumentDefinition<&'static str, &'static str>> = Vec::new();
        v.push(ArgumentDefinition { name: "ItemRenderingInfoList", direction: ArgumentDirection::OUT, related_state_var: Some("A_ARG_TYPE_RenderingInfoList") });
        assert(v@.map_values(|a: ArgumentDefinition<&'static str, &'static str>| static_arg_view(a)) =~= seq![("ItemRenderingInfoList"@, ArgumentDirection::OUT, Some("A_ARG_TYPE_RenderingInfoList"@))]);
        v
    }

    fn execute(&self, args: &ActionArgs) -> Result<ActionArgs, Error> {
        let input = match get_renderer_item_info_request(args) { Ok(i) => i, Err(e) => return Err(e) };
        let ghost handed = input;
        let res = self.trait_impl.get_renderer_item_info(input);
        assert(call_ensures(T::get_renderer_item_info, (&self.implementation(), handed), res));
        let output = match res { Ok(o) => o, Err(_) => return Err(Error::ActionFailed) };
        Ok(get_renderer_item_info_reply(output))
    }
}

// ---------------------------------------------------------------------------
// OUT arguments
// ---------------------------------------------------------------------------

/// The OUT arguments of GetProtocolInfo for the application's output, in order.
pub open spec fn get_protocol_info_reply_pairs(o: super::traits::GetProtocolInfoOutput) -> Seq<(Seq<char>, Seq<char>)> {
    seq![("Source"@, o.source@), ("Sink"@, o.sink@)]
}

/// The OUT arguments of GetProtocolInfo for the application's output.
pub fn get_protocol_info_reply(o: super::traits::GetProtocolInfoOutput) -> (r: ActionArgs)
    ensures
        r@ == get_protocol_info_reply_pairs(o),
{
    let ghost target = get_protocol_info_reply_pairs(o);
    let mut pairs: Vec<(String, String)> = Vec::new();
    pairs.push((to_owned_string("Source"), o.source));
    pairs.push((to_owned_string("Sink"), o.sink));
    assert(crate::types::upnp::pairs_view(pairs@) =~= target);
    ActionArgs::from_pairs(pairs)
}

/// The OUT arguments of GetCurrentConnectionIDs for the application's output, in order.
pub open spec fn get_current_connection_i_ds_reply_pairs(o: super::traits::GetCurrentConnectionIDsOutput) -> Seq<(Seq<char>, Seq<char>)> {
    seq![("ConnectionIDs"@, o.connection_ids@)]
}

/// The OUT arguments of GetCurrentConnectionIDs for the application's output.
pub fn get_current_connection_i_ds_reply(o: super::traits::GetCurrentConnectionIDsOutput) -> (r: ActionArgs)
    ensures
        r@ == get_current_connection_i_ds_reply_pairs(o),
{
    let ghost target = get_current_connection_i_ds_reply_pairs(o);
    let mut pairs: Vec<(String, String)> = Vec::new();
    pairs.push((to_owned_string("ConnectionIDs"), o.connection_ids));
    assert(crate::types::upnp::pairs_view(pairs@) =~= target);
    ActionArgs::from_pairs(pairs)
}

/// The OUT arguments of GetCurrentConnectionInfo for the application's output, in order.
pub open spec fn get_current_connection_info_reply_pairs(o: super::traits::GetCurrentConnectionInfoOutput) -> Seq<(Seq<char>, Seq<char>)> {
    seq![("RcsID"@, crate::text::int_to_decimal(o.rcs_id as int)), ("AVTransportID"@, crate::text::int_to_decimal(o.av_transport_id as int)), ("ProtocolInfo"@, o.protocol_info@), ("PeerConnectionManager"@, o.peer_connection_manager@), ("PeerConnectionID"@, crate::text::int_to_decimal(o.peer_connection_id as int)), ("Direction"@, super::statics::direction_str(o.direction)), ("Status"@, super::statics::connection_status_str(o.status))]
}

/// The OUT arguments of GetCurrentConnectionInfo for the application's output.
pub fn get_current_connection_info_reply(o: super::traits::GetCurrentConnectionInfoOutput) -> (r: ActionArgs)
    ensures
        r@ == get_current_connection_info_reply_pairs(o),
{
    let ghost target = get_current_connection_info_reply_pairs(o);
    let mut pairs: Vec<(String, String)> = Vec::new();
    pairs.push((to_owned_string("RcsID"), i64_to_string(o.rcs_id as i64)));
    pairs.push((to_owned_string("AVTransportID"), i64_to_string(o.av_transport_id as i64)));
    pairs.push((to_owned_string("ProtocolInfo"), o.protocol_info));
    pairs.push((to_owned_string("PeerConnectionManager"), o.peer_connection_manager));
    pairs.push((to_owned_string("PeerConnectionID"), i64_to_string(o.peer_connection_id as i64)));
    pairs.push((to_owned_string("Direction"), to_owned_string(o.direction.as_str())));
    pairs.push((to_owned_string("Status"), to_owned_string(o.status.as_str())));
    assert(crate::types::upnp::pairs_view(pairs@) =~= target);
    ActionArgs::from_pairs(pairs)
}

/// The OUT arguments of GetFeatureList for the application's output, in order.
pub open spec fn get_feature_list_reply_pairs(o: super::traits::GetFeatureListOutput) -> Seq<(Seq<char>, Seq<char>)> {
    seq![("FeatureList"@, o.feature_list@)]
}

/// The OUT arguments of GetFeatureList for the application's output.
pub fn get_feature_list_reply(o: super::traits::GetFeatureListOutput) -> (r: ActionArgs)
    ensures
        r@ == get_feature_list_reply_pairs(o),
{
    let ghost target = get_feature_list_reply_pairs(o);
    let mut pairs: Vec<(String, String)> = Vec::new();
    pairs.push((to_owned_string("FeatureList"), o.feature_list));
    assert(crate::types::upnp::pairs_view(pairs@) =~= target);
    ActionArgs::from_pairs(pairs)
}

/// The OUT arguments of PrepareForConnection for the application's output, in order.
pub open spec fn prepare_for_connection_reply_pairs(o: super::traits::PrepareForConnectionOutput) -> Seq<(Seq<char>, Seq<char>)> {
    seq![("ConnectionID"@, crate::text::int_to_decimal(o.connection_id as int)), ("AVTransportID"@, crate::text::int_to_decimal(o.av_transport_id as int)), ("RcsID"@, crate::text::int_to_decimal(o.rcs_id as int))]
}

/// The OUT arguments of PrepareForConnection for the application's output.
pub fn prepare_for_connection_reply(o: super::traits::PrepareForConnectionOutput) -> (r: ActionArgs)
    ensures
        r@ == prepare_for_connection_reply_pairs(o),
{
    let ghost target = prepare_for_connection_reply_pairs(o);
    let mut pairs: Vec<(String, String)> = Vec::new();
    pairs.push((to_owned_string("ConnectionID"), i64_to_string(o.connection_id as i64)));
    pairs.push((to_owned_string("AVTransportID"), i64_to_string(o.av_transport_id as i64)));
    pairs.push((to_owned_string("RcsID"), i64_to_string(o.rcs_id as i64)));
    assert(crate::types::upnp::pairs_view(pairs@) =~= target);
    ActionArgs::from_pairs(pairs)
}

/// The OUT arguments of GetRendererItemInfo for the application's output, in order.
pub open spec fn get_renderer_item_info_reply_pairs(o: super::traits::GetRendererItemInfoOutput) -> Seq<(Seq<char>, Seq<char>)> {
    seq![("ItemRenderingInfoList"@, o.item_rendering_info_list@)]
}

/// The OUT arguments of GetRendererItemInfo for the application's output.
pub fn get_renderer_item_info_reply(o: super::traits::GetRendererItemInfoOutput) -> (r: ActionArgs)
    ensures
        r@ == get_renderer_item_info_reply_pairs(o),
{
    let ghost target = get_renderer_item_info_reply_pairs(o);
    let mut pairs: Vec<(String, String)> = Vec::new();
    pairs.push((to_owned_string("ItemRenderingInfoList"), o.item_rendering_info_list));
    assert(crate::types::upnp::pairs_view(pairs@) =~= target);
    ActionArgs::from_pairs(pairs)
}

// ---------------------------------------------------------------------------
// IN arguments
// ---------------------------------------------------------------------------

/// The error with which GetCurrentConnectionInfo refuses its IN arguments, if any.
pub open spec fn get_current_connection_info_refusal(a: Seq<(Seq<char>, Seq<char>)>) -> Option<Error> {
    if crate::types::upnp::lookup(a, "ConnectionID"@) is None {
        Some(Error::ArgumentValueInvalid)
    } else if (crate::text::parse_signed(crate::types::upnp::lookup(a, "ConnectionID"@)->0, i32::MAX as nat, 2147483648)) is None {
        Some(Error::ArgumentValueInvalid)
    } else {
        None
    }
}

/// The input GetCurrentConnectionInfo hands to the application, read from its IN arguments.
/// The input the request hands to the application.
pub open spec fn get_current_connection_info_input(args: Seq<(Seq<char>, Seq<char>)>, i: super::traits::GetCurrentConnectionInfoInput) -> bool {
    i.connection_id == ((crate::text::parse_signed(crate::types::upnp::lookup(args, "ConnectionID"@)->0, i32::MAX as nat, 2147483648))->0 as i32)
}

pub fn get_current_connection_info_request(args: &ActionArgs) -> (r: Result<super::traits::GetCurrentConnectionInfoInput, Error>)
    ensures
        match get_current_connection_info_refusal(args@) {
            Some(e) => r == Err::<super::traits::GetCurrentConnectionInfoInput, Error>(e),
            None => r matches Ok(i) && get_current_connection_info_input(args@, i),
        },
{
    let connection_id_text = match arg_required(args, "ConnectionID", Error::ArgumentValueInvalid) { Ok(x) => x, Err(err) => return Err(err) };
    let connection_id: i32 = match parse_i32(connection_id_text.as_str()) { Some(x) => x, None => return Err(Error::ArgumentValueInvalid) };
    let r = GetCurrentConnectionInfoInput { connection_id };
    Ok(r)
}

/// The error with which GetRendererItemInfo refuses its IN arguments, if any.
pub open spec fn get_renderer_item_info_refusal(a: Seq<(Seq<char>, Seq<char>)>) -> Option<Error> {
    if crate::types::upnp::lookup(a, "ItemMetadataList"@) is None {
        Some(Error::ArgumentValueInvalid)
    } else {
        None
    }
}

/// The input GetRendererItemInfo hands to the application, read from its IN arguments.
/// The input the request hands to the application.
pub open spec fn get_renderer_item_info_input(args: Seq<(Seq<char>, Seq<char>)>, i: super::traits::GetRendererItemInfoInput) -> bool {
    i.item_info_filter@ == crate::services::args::arg_text(args, "ItemInfoFilter"@, "*"@) && i.item_metadata_list@ == crate::types::upnp::lookup(args, "ItemMetadataList"@)->0
}

pub fn get_renderer_item_info_request(args: &ActionArgs) -> (r: Result<super::traits::GetRendererItemInfoInput, Error>)
    ensures
        match get_renderer_item_info_refusal(args@) {
            Some(e) => r == Err::<super::traits::GetRendererItemInfoInput, Error>(e),
            None => r matches Ok(i) && get_renderer_item_info_input(args@, i),
        },
{
    let item_info_filter = arg_or(args, "ItemInfoFilter", "*");
    let item_metadata_list = match arg_required(args, "ItemMetadataList", Error::ArgumentValueInvalid) { Ok(x) => x, Err(err) => return Err(err) };
    let r = GetRendererItemInfoInput { item_info_filter, item_metadata_list };
    Ok(r)
}

/// The error with which PrepareForConnection refuses its IN arguments, if any.
pub open spec fn prepare_for_connection_refusal(a: Seq<(Seq<char>, Seq<char>)>) -> Option<Error> {
    if crate::types::upnp::lookup(a, "RemoteProtocolInfo"@) is None {
        Some(Error::ArgumentValueInvalid)
    } else if crate::types::upnp::lookup(a, "Direction"@) is None {
        Some(Error::ArgumentValueInvalid)
    } else if super::statics::direction_from_str(crate::types::upnp::lookup(a, "Direction"@)->0) is None {
        Some(Error::ArgumentValueInvalid)
    } else {
        None
    }
}

/// The input PrepareForConnection hands to the application, read from its IN arguments.
/// The input the request hands to the application.
pub open spec fn prepare_for_connection_input(args: Seq<(Seq<char>, Seq<char>)>, i: super::traits::PrepareForConnectionInput) -> bool {
    i.remote_protocol_info@ == crate::types::upnp::lookup(args, "RemoteProtocolInfo"@)->0 && i.peer_connection_manager@ == crate::services::args::arg_text(args, "PeerConnectionManager"@, "-1"@) && i.peer_connection_id == (match crate::text::parse_signed(crate::services::args::arg_text(args, "PeerConnectionID"@, "-1"@), i32::MAX as nat, 2147483648) { Some(n) => n as i32, None => (-1) as i32 }) && i.direction == super::statics::direction_from_str(crate::types::upnp::lookup(args, "Direction"@)->0)->0
}

pub fn prepare_for_connection_request(args: &ActionArgs) -> (r: Result<super::traits::PrepareForConnectionInput, Error>)
    ensures
        match prepare_for_connection_refusal(args@) {
            Some(e) => r == Err::<super::traits::PrepareForConnectionInput, Error>(e),
            None => r matches Ok(i) && prepare_for_connection_input(args@, i),
        },
{
    let remote_protocol_info = match arg_required(args, "RemoteProtocolInfo", Error::ArgumentValueInvalid) { Ok(x) => x, Err(err) => return Err(err) };
    let peer_connection_manager = arg_or(args, "PeerConnectionManager", "-1");
    let peer_connection_id_text = arg_or(args, "PeerConnectionID", "-1");
    let peer_connection_id: i32 = match parse_i32(peer_connection_id_text.as_str()) { Some(x) => x, None => -1 };
    let direction_str = match arg_required(args, "Direction", Error::ArgumentValueInvalid) { Ok(x) => x, Err(err) => return Err(err) };
    let direction = match Direction::from_str(direction_str.as_str()) { Some(x) => x, None => return Err(Error::ArgumentValueInvalid) };
    Ok(PrepareForConnectionInput { remote_protocol_info, peer_connection_manager, peer_connection_id, direction })
}

/// The error with which ConnectionComplete refuses its IN arguments, if any.
pub open spec fn connection_complete_refusal(a: Seq<(Seq<char>, Seq<char>)>) -> Option<Error> {
    if crate::types::upnp::lookup(a, "ConnectionID"@) is None {
        Some(Error::ArgumentValueInvalid)
    } else if crate::text::parse_signed(crate::types::upnp::lookup(a, "ConnectionID"@)->0, i32::MAX as nat, 2147483648) is None {
        Some(Error::ArgumentValueInvalid)
    } else {
        None
    }
}

/// The input ConnectionComplete hands to the application, read from its IN arguments.
/// The input the request hands to the application.
pub open spec fn connection_complete_input(args: Seq<(Seq<char>, Seq<char>)>, i: super::traits::ConnectionCompleteInput) -> bool {
    i.connection_id == (crate::text::parse_signed(
                crate::types::upnp::lookup(args, "ConnectionID"@)->0,
                i32::MAX as nat,
                2147483648,
            )->0 as i32)
}

pub fn connection_complete_request(args: &ActionArgs) -> (r: Result<super::traits::ConnectionCompleteInput, Error>)
    ensures
        match connection_complete_refusal(args@) {
            Some(e) => r == Err::<super::traits::ConnectionCompleteInput, Error>(e),
            None => r matches Ok(i) && connection_complete_input(args@, i),
        },
{
    let connection_id_text = match arg_required(args, "ConnectionID", Error::ArgumentValueInvalid) { Ok(x) => x, Err(err) => return Err(err) };
    let connection_id: i32 = match parse_i32(connection_id_text.as_str()) { Some(x) => x, None => return Err(Error::ArgumentValueInvalid) };
    Ok(ConnectionCompleteInput { connection_id })
}

} // verus!
