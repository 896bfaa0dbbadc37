//! AVTransport actions — bridges from the SOAP `Action` trait to the
//! application traits.
//!
//! Each struct wraps an `Arc<T>` where `T` implements the application trait.
//! The `execute` method extracts typed args, calls the trait, and wraps results.
//!
//! Bridge structs are prefixed with `Action` to avoid name collision with traits.
use vstd::prelude::*;

use std::sync::Arc;

use crate::services::args::{instance_arg, arg_bool, arg_or, arg_required, drop_empty, split_csv, state_pairs_xml};
use crate::text::{i64_to_string, parse_i16, parse_i32, parse_u16, parse_u32, str_eq, to_owned_string, u64_to_string};
use crate::types::upnp::{static_arg_view, Action, ActionArgs, ArgView, ArgumentDefinition, ArgumentDirection, DataType, Error};
use super::statics::{PlayMode, StateVariableName};
use super::AvTransportService;
use super::traits::{AdjustSyncOffset, AdjustSyncOffsetInput, GetCurrentTransportActions, GetCurrentTransportActionsInput, GetDRMState, GetDeviceCapabilities, GetDeviceCapabilitiesInput, GetMediaInfo, GetMediaInfoExt, GetMediaInfoInput, GetPlaylistInfo, GetPositionInfo, GetPositionInfoInput, GetStateVariables, GetStateVariablesInput, GetSyncOffset, GetTransportInfo, GetTransportInfoInput, GetTransportSettings, GetTransportSettingsInput, Next, NextInput, Pause, PauseInput, Play, PlayInput, Previous, PreviousInput, Record, Seek, SeekInput, SetAVTransportURI, SetAVTransportURIInput, SetNextAVTransportURI, SetNextAVTransportURIInput, SetPlayMode, SetPlayModeInput, SetRecordQualityMode, SetRecordQualityModeInput, SetStateVariables, SetStateVariablesInput, SetStaticPlaylist, SetStaticPlaylistInput, SetStreamingPlaylist, SetStreamingPlaylistInput, SetSyncOffset, SetSyncOffsetInput, Stop, StopInput, SyncPause, SyncPlay, SyncStop};

verus! {

broadcast use vstd::string::group_string_axioms;

pub struct ActionPlay<T: Play> {
    trait_impl: Arc<T>,
    service: AvTransportService,
}

impl<T: Play> ActionPlay<T> {
    /// The application's implementation of the action.
    pub closed spec fn implementation(&self) -> T {
        *self.trait_impl
    }

    /// The service whose state the action updates.
    pub closed spec fn bound_service(&self) -> AvTransportService {
        self.service
    }

    pub fn new(trait_impl: T, service: AvTransportService) -> (r: Self)
        ensures
            r.implementation() == trait_impl,
            r.bound_service() == service,
    {
        ActionPlay { trait_impl: Arc::new(trait_impl), service }
    }
}

impl<T: Play> Action for ActionPlay<T> {
    open spec fn action_name(&self) -> Seq<char> {
        "Play"@
    }

    open spec fn in_arg_views(&self) -> Seq<ArgView> {
        seq![("InstanceID"@, ArgumentDirection::IN, Some("A_ARG_TYPE_InstanceID"@)), ("Speed"@, ArgumentDirection::IN, Some("TransportPlaySpeed"@))]
    }

    open spec fn out_arg_views(&self) -> Seq<ArgView> {
        Seq::<ArgView>::empty()
    }

    open spec fn outcome(&self, args: Seq<(Seq<char>, Seq<char>)>, r: Result<ActionArgs, Error>) -> bool {
        &&& r is Err ==> (r->Err_0 == Error::ActionFailed)
        &&& r is Ok ==> r->Ok_0@ == Seq::<(Seq<char>, Seq<char>)>::empty()
        &&& exists|input: PlayInput, res: Result<super::traits::PlayOutput, T::Error>|
            input.instance_id == instance_arg(args) && input.speed@ == crate::services::args::arg_text(
                args,
                "Speed"@,
                "1"@,
            ) && #[trigger] call_ensures(T::play, (&self.implementation(), input), res) && (r is Ok <==> res is Ok)
    }

    fn name(&self) -> &'static str {
        "Play"
    }

    fn in_args(&self) -> Vec<ArgumentDefinition<&'static str, &'static str>> {
        let mut v: Vec<ArgumentDefinition<&'static str, &'static str>> = Vec::new();
        v.push(ArgumentDefinition { name: "InstanceID", direction: ArgumentDirection::IN, related_state_var: Some("A_ARG_TYPE_InstanceID") });
        v.push(ArgumentDefinition { name: "Speed", direction: ArgumentDirection::IN, related_state_var: Some("TransportPlaySpeed") });
        assert(v@.map_values(|a: ArgumentDefinition<&'static str, &'static str>| static_arg_view(a)) =~= seq![("InstanceID"@, ArgumentDirection::IN, Some("A_ARG_TYPE_InstanceID"@)), ("Speed"@, ArgumentDirection::IN, Some("TransportPlaySpeed"@))]);
        v
    }

    fn out_args(&self) -> Vec<ArgumentDefinition<&'static str, &'static str>> {
        let mut v: Vec<ArgumentDefinition<&'static str, &'static str>> = Vec::new();
        assert(v@.map_values(|a: ArgumentDefinition<&'static str, &'static str>| static_arg_view(a)) =~= Seq::<ArgView>::empty());
        v
    }

    fn execute(&self, args: &ActionArgs) -> Result<ActionArgs, Error> {
        let input = match play_request(args) { Ok(i) => i, Err(e) => return Err(e) };
        let instance_id = input.instance_id;
        let speed = input.speed.clone();
        let ghost handed = input;
        let res = self.trait_impl.play(input);
        assert(call_ensures(T::play, (&self.implementation(), handed), res));
        match res { Ok(_) => {}, Err(_) => return Err(Error::ActionFailed) }
        self.service.set_state_var(instance_id, StateVariableName::TransportState, DataType::String(to_owned_string("PLAYING")));
        self.service.set_state_var(instance_id, StateVariableName::TransportPlaySpeed, DataType::String(speed));
        Ok(ActionArgs::new())
    }
}

pub struct ActionStop<T: Stop> {
    trait_impl: Arc<T>,
    service: AvTransportService,
}

impl<T: Stop> ActionStop<T> {
    /// The application's implementation of the action.
    pub closed spec fn implementation(&self) -> T {
        *self.trait_impl
    }

    /// The service whose state the action updates.
    pub closed spec fn bound_service(&self) -> AvTransportService {
        self.service
    }

    pub fn new(trait_impl: T, service: AvTransportService) -> (r: Self)
        ensures
            r.implementation() == trait_impl,
            r.bound_service() == service,
    {
        ActionStop { trait_impl: Arc::new(trait_impl), service }
    }
}

impl<T: Stop> Action for ActionStop<T> {
    open spec fn action_name(&self) -> Seq<char> {
        "Stop"@
    }

    open spec fn in_arg_views(&self) -> Seq<ArgView> {
        seq![("InstanceID"@, ArgumentDirection::IN, Some("A_ARG_TYPE_InstanceID"@))]
    }

    open spec fn out_arg_views(&self) -> Seq<ArgView> {
        Seq::<ArgView>::empty()
    }

    open spec fn outcome(&self, args: Seq<(Seq<char>, Seq<char>)>, r: Result<ActionArgs, Error>) -> bool {
        &&& r is Err ==> (r->Err_0 == Error::ActionFailed)
        &&& r is Ok ==> r->Ok_0@ == Seq::<(Seq<char>, Seq<char>)>::empty()
        &&& exists|res: Result<super::traits::StopOutput, T::Error>|
            #[trigger] call_ensures(
                T::stop,
                (&self.implementation(), super::traits::StopInput { instance_id: instance_arg(args) }),
                res,
            ) && (r is Ok <==> res is Ok)
    }

    fn name(&self) -> &'static str {
        "Stop"
    }

    fn in_args(&self) -> Vec<ArgumentDefinition<&'static str, &'static str>> {
        let mut v: Vec<ArgumentDefinition<&'static str, &'static str>> = Vec::new();
        v.push(ArgumentDefinition { name: "InstanceID", direction: ArgumentDirection::IN, related_state_var: Some("A_ARG_TYPE_InstanceID") });
        assert(v@.map_values(|a: ArgumentDefinition<&'static str, &'static str>| static_arg_view(a)) =~= seq![("InstanceID"@, ArgumentDirection::IN, Some("A_ARG_TYPE_InstanceID"@))]);
        v
    }

    fn out_args(&self) -> Vec<ArgumentDefinition<&'static str, &'static str>> {
        let mut v: Vec<ArgumentDefinition<&'static str, &'static str>> = Vec::new();
        assert(v@.map_values(|a: ArgumentDefinition<&'static str, &'static str>| static_arg_view(a)) =~= Seq::<ArgView>::empty());
        v
    }

    fn execute(&self, args: &ActionArgs) -> Result<ActionArgs, Error> {
        let input = match stop_request(args) { Ok(i) => i, Err(e) => return Err(e) };
        let instance_id = input.instance_id;
        let ghost handed = input;
        let res = self.trait_impl.stop(input);
        assert(call_ensures(T::stop, (&self.implementation(), handed), res));
        match res { Ok(_) => {}, Err(_) => return Err(Error::ActionFailed) }
        self.service.set_state_var(instance_id, StateVariableName::TransportState, DataType::String(to_owned_string("STOPPED")));
        Ok(ActionArgs::new())
    }
}

pub struct ActionSeek<T: Seek> {
    trait_impl: Arc<T>,
    service: AvTransportService,
}

impl<T: Seek> ActionSeek<T> {
    /// The application's implementation of the action.
    pub closed spec fn implementation(&self) -> T {
        *self.trait_impl
    }

    /// The service whose state the action updates.
    pub closed spec fn bound_service(&self) -> AvTransportService {
        self.service
    }

    pub fn new(trait_impl: T, service: AvTransportService) -> (r: Self)
        ensures
            r.implementation() == trait_impl,
            r.bound_service() == service,
    {
        ActionSeek { trait_impl: Arc::new(trait_impl), service }
    }
}

impl<T: Seek> Action for ActionSeek<T> {
    open spec fn action_name(&self) -> Seq<char> {
        "Seek"@
    }

    open spec fn in_arg_views(&self) -> Seq<ArgView> {
        seq![("InstanceID"@, ArgumentDirection::IN, Some("A_ARG_TYPE_InstanceID"@)), ("Unit"@, ArgumentDirection::IN, Some("A_ARG_TYPE_SeekMode"@)), ("Target"@, ArgumentDirection::IN, Some("A_ARG_TYPE_SeekTarget"@))]
    }

    open spec fn out_arg_views(&self) -> Seq<ArgView> {
        Seq::<ArgView>::empty()
    }

    open spec fn outcome(&self, args: Seq<(Seq<char>, Seq<char>)>, r: Result<ActionArgs, Error>) -> bool {
        &&& r is Err ==> (r->Err_0 == Error::ActionFailed || r->Err_0 == Error::ArgumentValueInvalid)
        &&& r is Ok ==> r->Ok_0@ == Seq::<(Seq<char>, Seq<char>)>::empty()
        &&& seek_refusal(args) matches Some(e) ==> r == Err::<ActionArgs, Error>(e)
        &&& seek_refusal(args) is None ==> (r is Err ==> r->Err_0 == Error::ActionFailed)
        &&& seek_refusal(args) is None ==> exists|input: super::traits::SeekInput, res: Result<super::traits::SeekOutput, T::Error>|
            seek_input(args, input) && #[trigger] call_ensures(T::seek, (&self.implementation(), input), res) && (r is Ok
                <==> res is Ok)
    }

    fn name(&self) -> &'static str {
        "Seek"
    }

    fn in_args(&self) -> Vec<ArgumentDefinition<&'static str, &'static str>> {
        let mut v: Vec<ArgumentDefinition<&'static str, &'static str>> = Vec::new();
        v.push(ArgumentDefinition { name: "InstanceID", direction: ArgumentDirection::IN, related_state_var: Some("A_ARG_TYPE_InstanceID") });
        v.push(ArgumentDefinition { name: "Unit", direction: ArgumentDirection::IN, related_state_var: Some("A_ARG_TYPE_SeekMode") });
        v.push(ArgumentDefinition { name: "Target", direction: ArgumentDirection::IN, related_state_var: Some("A_ARG_TYPE_SeekTarget") });
        assert(v@.map_values(|a: ArgumentDefinition<&'static str, &'static str>| static_arg_view(a)) =~= seq![("InstanceID"@, ArgumentDirection::IN, Some("A_ARG_TYPE_InstanceID"@)), ("Unit"@, ArgumentDirection::IN, Some("A_ARG_TYPE_SeekMode"@)), ("Target"@, ArgumentDirection::IN, Some("A_ARG_TYPE_SeekTarget"@))]);
        v
    }

    fn out_args(&self) -> Vec<ArgumentDefinition<&'static str, &'static str>> {
        let mut v: Vec<ArgumentDefinition<&'static str, &'static str>> = Vec::new();
        assert(v@.map_values(|a: ArgumentDefinition<&'static str, &'static str>| static_arg_view(a)) =~= Seq::<ArgView>::empty());
        v
    }

    fn execute(&self, args: &ActionArgs) -> Result<ActionArgs, Error> {
        let input = match seek_request(args) { Ok(i) => i, Err(e) => return Err(e) };
        let instance_id = input.instance_id;
        let ghost handed = input;
        let res = self.trait_impl.seek(input);
        assert(call_ensures(T::seek, (&self.implementation(), handed), res));
        match res { Ok(_) => {}, Err(_) => return Err(Error::ActionFailed) }
        self.service.set_state_var(instance_id, StateVariableName::TransportState, DataType::String(to_owned_string("TRANSITIONING")));
        Ok(ActionArgs::new())
    }
}

pub struct ActionNext<T: Next> {
    trait_impl: Arc<T>,
    service: AvTransportService,
}

impl<T: Next> ActionNext<T> {
    /// The application's implementation of the action.
    pub closed spec fn implementation(&self) -> T {
        *self.trait_impl
    }

    /// The service whose state the action updates.
    pub closed spec fn bound_service(&self) -> AvTransportService {
        self.service
    }

    pub fn new(trait_impl: T, service: AvTransportService) -> (r: Self)
        ensures
            r.implementation() == trait_impl,
            r.bound_service() == service,
    {
        ActionNext { trait_impl: Arc::new(trait_impl), service }
    }
}

impl<T: Next> Action for ActionNext<T> {
    open spec fn action_name(&self) -> Seq<char> {
        "Next"@
    }

    open spec fn in_arg_views(&self) -> Seq<ArgView> {
        seq![("InstanceID"@, ArgumentDirection::IN, Some("A_ARG_TYPE_InstanceID"@))]
    }

    open spec fn out_arg_views(&self) -> Seq<ArgView> {
        Seq::<ArgView>::empty()
    }

    open spec fn outcome(&self, args: Seq<(Seq<char>, Seq<char>)>, r: Result<ActionArgs, Error>) -> bool {
        &&& r is Err ==> (r->Err_0 == Error::ActionFailed)
        &&& r is Ok ==> r->Ok_0@ == Seq::<(Seq<char>, Seq<char>)>::empty()
        &&& exists|res: Result<super::traits::NextOutput, T::Error>|
            #[trigger] call_ensures(
                T::next,
                (&self.implementation(), super::traits::NextInput { instance_id: instance_arg(args) }),
                res,
            ) && (r is Ok <==> res is Ok)
    }

    fn name(&self) -> &'static str {
        "Next"
    }

    fn in_args(&self) -> Vec<ArgumentDefinition<&'static str, &'static str>> {
        let mut v: Vec<ArgumentDefinition<&'static str, &'static str>> = Vec::new();
        v.push(ArgumentDefinition { name: "InstanceID", direction: ArgumentDirection::IN, related_state_var: Some("A_ARG_TYPE_InstanceID") });
        assert(v@.map_values(|a: ArgumentDefinition<&'static str, &'static str>| static_arg_view(a)) =~= seq![("InstanceID"@, ArgumentDirection::IN, Some("A_ARG_TYPE_InstanceID"@))]);
        v
    }

    fn out_args(&self) -> Vec<ArgumentDefinition<&'static str, &'static str>> {
        let mut v: Vec<ArgumentDefinition<&'static str, &'static str>> = Vec::new();
        assert(v@.map_values(|a: ArgumentDefinition<&'static str, &'static str>| static_arg_view(a)) =~= Seq::<ArgView>::empty());
        v
    }

    fn execute(&self, args: &ActionArgs) -> Result<ActionArgs, Error> {
        let input = match next_request(args) { Ok(i) => i, Err(e) => return Err(e) };
        let instance_id = input.instance_id;
        let ghost handed = input;
        let res = self.trait_impl.next(input);
        assert(call_ensures(T::next, (&self.implementation(), handed), res));
        match res { Ok(_) => {}, Err(_) => return Err(Error::ActionFailed) }
        self.service.set_state_var(instance_id, StateVariableName::TransportState, DataType::String(to_owned_string("TRANSITIONING")));
        Ok(ActionArgs::new())
    }
}

pub struct ActionPrevious<T: Previous> {
    trait_impl: Arc<T>,
    service: AvTransportService,
}

impl<T: Previous> ActionPrevious<T> {
    /// The application's implementation of the action.
    pub closed spec fn implementation(&self) -> T {
        *self.trait_impl
    }

    /// The service whose state the action updates.
    pub closed spec fn bound_service(&self) -> AvTransportService {
        self.service
    }

    pub fn new(trait_impl: T, service: AvTransportService) -> (r: Self)
        ensures
            r.implementation() == trait_impl,
            r.bound_service() == service,
    {
        ActionPrevious { trait_impl: Arc::new(trait_impl), service }
    }
}

impl<T: Previous> Action for ActionPrevious<T> {
    open spec fn action_name(&self) -> Seq<char> {
        "Previous"@
    }

    open spec fn in_arg_views(&self) -> Seq<ArgView> {
        seq![("InstanceID"@, ArgumentDirection::IN, Some("A_ARG_TYPE_InstanceID"@))]
    }

    open spec fn out_arg_views(&self) -> Seq<ArgView> {
        Seq::<ArgView>::empty()
    }

    open spec fn outcome(&self, args: Seq<(Seq<char>, Seq<char>)>, r: Result<ActionArgs, Error>) -> bool {
        &&& r is Err ==> (r->Err_0 == Error::ActionFailed)
        &&& r is Ok ==> r->Ok_0@ == Seq::<(Seq<char>, Seq<char>)>::empty()
        &&& exists|res: Result<super::traits::PreviousOutput, T::Error>|
            #[trigger] call_ensures(
                T::previous,
                (&self.implementation(), super::traits::PreviousInput { instance_id: instance_arg(args) }),
                res,
            ) && (r is Ok <==> res is Ok)
    }

    fn name(&self) -> &'static str {
        "Previous"
    }

    fn in_args(&self) -> Vec<ArgumentDefinition<&'static str, &'static str>> {
        let mut v: Vec<ArgumentDefinition<&'static str, &'static str>> = Vec::new();
        v.push(ArgumentDefinition { name: "InstanceID", direction: ArgumentDirection::IN, related_state_var: Some("A_ARG_TYPE_InstanceID") });
        assert(v@.map_values(|a: ArgumentDefinition<&'static str, &'static str>| static_arg_view(a)) =~= seq![("InstanceID"@, ArgumentDirection::IN, Some("A_ARG_TYPE_InstanceID"@))]);
        v
    }

    fn out_args(&self) -> Vec<ArgumentDefinition<&'static str, &'static str>> {
        let mut v: Vec<ArgumentDefinition<&'static str, &'static str>> = Vec::new();
        assert(v@.map_values(|a: ArgumentDefinition<&'static str, &'static str>| static_arg_view(a)) =~= Seq::<ArgView>::empty());
        v
    }

    fn execute(&self, args: &ActionArgs) -> Result<ActionArgs, Error> {
        let input = match previous_request(args) { Ok(i) => i, Err(e) => return Err(e) };
        let instance_id = input.instance_id;
        let ghost handed = input;
        let res = self.trait_impl.previous(input);
        assert(call_ensures(T::previous, (&self.implementation(), handed), res));
        match res { Ok(_) => {}, Err(_) => return Err(Error::ActionFailed) }
        self.service.set_state_var(instance_id, StateVariableName::TransportState, DataType::String(to_owned_string("TRANSITIONING")));
        Ok(ActionArgs::new())
    }
}

pub struct ActionSetAVTransportURI<T: SetAVTransportURI> {
    trait_impl: Arc<T>,
    service: AvTransportService,
}

impl<T: SetAVTransportURI> ActionSetAVTransportURI<T> {
    /// The application's implementation of the action.
    pub closed spec fn implementation(&self) -> T {
        *self.trait_impl
    }

    /// The service whose state the action updates.
    pub closed spec fn bound_service(&self) -> AvTransportService {
        self.service
    }

    pub fn new(trait_impl: T, service: AvTransportService) -> (r: Self)
        ensures
            r.implementation() == trait_impl,
            r.bound_service() == service,
    {
        ActionSetAVTransportURI { trait_impl: Arc::new(trait_impl), service }
    }
}

impl<T: SetAVTransportURI> Action for ActionSetAVTransportURI<T> {
    open spec fn action_name(&self) -> Seq<char> {
        "SetAVTransportURI"@
    }

    open spec fn in_arg_views(&self) -> Seq<ArgView> {
        seq![("InstanceID"@, ArgumentDirection::IN, Some("A_ARG_TYPE_InstanceID"@)), ("CurrentURI"@, ArgumentDirection::IN, Some("AVTransportURI"@)), ("CurrentURIMetaData"@, ArgumentDirection::IN, Some("AVTransportURIMetaData"@))]
    }

    open spec fn out_arg_views(&self) -> Seq<ArgView> {
        Seq::<ArgView>::empty()
    }

    open spec fn outcome(&self, args: Seq<(Seq<char>, Seq<char>)>, r: Result<ActionArgs, Error>) -> bool {
        &&& r is Err ==> (r->Err_0 == Error::ActionFailed || r->Err_0 == Error::ArgumentValueInvalid)
        &&& r is Ok ==> r->Ok_0@ == Seq::<(Seq<char>, Seq<char>)>::empty()
        &&& set_av_transport_uri_refusal(args) matches Some(e) ==> r == Err::<ActionArgs, Error>(e)
        &&& set_av_transport_uri_refusal(args) is None ==> (r is Err ==> r->Err_0 == Error::ActionFailed)
        &&& set_av_transport_uri_refusal(args) is None ==> exists|input: super::traits::SetAVTransportURIInput, res: Result<super::traits::SetAVTransportURIOutput, T::Error>|
            set_av_transport_uri_input(args, input) && #[trigger] call_ensures(T::set_av_transport_uri, (&self.implementation(), input), res) && (r is Ok
                <==> res is Ok)
    }

    fn name(&self) -> &'static str {
        "SetAVTransportURI"
    }

    fn in_args(&self) -> Vec<ArgumentDefinition<&'static str, &'static str>> {
        let mut v: Vec<ArgumentDefinition<&'static str, &'static str>> = Vec::new();
        v.push(ArgumentDefinition { name: "InstanceID", direction: ArgumentDirection::IN, related_state_var: Some("A_ARG_TYPE_InstanceID") });
        v.push(ArgumentDefinition { name: "CurrentURI", direction: ArgumentDirection::IN, related_state_var: Some("AVTransportURI") });
        v.push(ArgumentDefinition { name: "CurrentURIMetaData", direction: ArgumentDirection::IN, related_state_var: Some("AVTransportURIMetaData") });
        assert(v@.map_values(|a: ArgumentDefinition<&'static str, &'static str>| static_arg_view(a)) =~= seq![("InstanceID"@, ArgumentDirection::IN, Some("A_ARG_TYPE_InstanceID"@)), ("CurrentURI"@, ArgumentDirection::IN, Some("AVTransportURI"@)), ("CurrentURIMetaData"@, ArgumentDirection::IN, Some("AVTransportURIMetaData"@))]);
        v
    }

    fn out_args(&self) -> Vec<ArgumentDefinition<&'static str, &'static str>> {
        let mut v: Vec<ArgumentDefinition<&'static str, &'static str>> = Vec::new();
        assert(v@.map_values(|a: ArgumentDefinition<&'static str, &'static str>| static_arg_view(a)) =~= Seq::<ArgView>::empty());
        v
    }

    fn execute(&self, args: &ActionArgs) -> Result<ActionArgs, Error> {
        let input = match set_av_transport_uri_request(args) { Ok(i) => i, Err(e) => return Err(e) };
        let instance_id = input.instance_id;
        let current_uri = input.current_uri.clone();
        let current_uri_metadata = input.current_uri_metadata.clone();
        let ghost handed = input;
        let res = self.trait_impl.set_av_transport_uri(input);
        assert(call_ensures(T::set_av_transport_uri, (&self.implementation(), handed), res));
        match res { Ok(_) => {}, Err(_) => return Err(Error::ActionFailed) }
        self.service.set_state_var(instance_id, StateVariableName::AVTransportURI, DataType::Uri(current_uri));
        self.service.set_state_var(instance_id, StateVariableName::AVTransportURIMetaData, DataType::String(current_uri_metadata));
        Ok(ActionArgs::new())
    }
}

pub struct ActionGetMediaInfo<T: GetMediaInfo> {
    trait_impl: Arc<T>,
}

impl<T: GetMediaInfo> ActionGetMediaInfo<T> {
    /// The application's implementation of the action.
    pub closed spec fn implementation(&self) -> T {
        *self.trait_impl
    }

    pub fn new(trait_impl: T) -> (r: Self)
        ensures
            r.implementation() == trait_impl,
    {
        ActionGetMediaInfo { trait_impl: Arc::new(trait_impl) }
    }
}

impl<T: GetMediaInfo> Action for ActionGetMediaInfo<T> {
    open spec fn action_name(&self) -> Seq<char> {
        "GetMediaInfo"@
    }

    open spec fn in_arg_views(&self) -> Seq<ArgView> {
        seq![("InstanceID"@, ArgumentDirection::IN, Some("A_ARG_TYPE_InstanceID"@))]
    }

    open spec fn out_arg_views(&self) -> Seq<ArgView> {
        seq![("NrTracks"@, ArgumentDirection::OUT, Some("NumberOfTracks"@)), ("MediaDuration"@, ArgumentDirection::OUT, Some("CurrentMediaDuration"@)), ("CurrentURI"@, ArgumentDirection::OUT, Some("AVTransportURI"@)), ("CurrentURIMetaData"@, ArgumentDirection::OUT, Some("AVTransportURIMetaData"@)), ("NextURI"@, ArgumentDirection::OUT, Some("NextAVTransportURI"@)), ("NextURIMetaData"@, ArgumentDirection::OUT, Some("NextAVTransportURIMetaData"@)), ("PlayMedium"@, ArgumentDirection::OUT, Some("PlaybackStorageMedium"@)), ("RecordMedium"@, ArgumentDirection::OUT, Some("RecordStorageMedium"@)), ("WriteStatus"@, ArgumentDirection::OUT, Some("RecordMediumWriteStatus"@))]
    }

    open spec fn outcome(&self, args: Seq<(Seq<char>, Seq<char>)>, r: Result<ActionArgs, Error>) -> bool {
        &&& r is Err ==> (r->Err_0 == Error::ActionFailed)
        &&& exists|res: Result<super::traits::GetMediaInfoOutput, T::Error>|
            #[trigger] call_ensures(
                T::get_media_info,
                (&self.implementation(), super::traits::GetMediaInfoInput { instance_id: instance_arg(args) }),
                res,
            ) && (r is Ok <==> res is Ok) && (res matches Ok(o) ==> r->Ok_0@ == get_media_info_reply_pairs(o))
    }

    fn name(&self) -> &'static str {
        "GetMediaInfo"
    }

    fn in_args(&self) -> Vec<ArgumentDefinition<&'static str, &'static str>> {
        let mut v: Vec<ArgumentDefinition<&'static str, &'static str>> = Vec::new();
        v.push(ArgumentDefinition { name: "InstanceID", direction: ArgumentDirection::IN, related_state_var: Some("A_ARG_TYPE_InstanceID") });
        assert(v@.map_values(|a: ArgumentDefinition<&'static str, &'static str>| static_arg_view(a)) =~= seq![("InstanceID"@, ArgumentDirection::IN, Some("A_ARG_TYPE_InstanceID"@))]);
        v
    }

    fn out_args(&self) -> Vec<ArgumentDefinition<&'static str, &'static str>> {
        let mut v: Vec<ArgumentDefinition<&'static str, &'static str>> = Vec::new();
        v.push(ArgumentDefinition { name: "NrTracks", direction: ArgumentDirection::OUT, related_state_var: Some("NumberOfTracks") });
        v.push(ArgumentDefinition { name: "MediaDuration", direction: ArgumentDirection::OUT, related_state_var: Some("CurrentMediaDuration") });
        v.push(ArgumentDefinition { name: "CurrentURI", direction: ArgumentDirection::OUT, related_state_var: Some("AVTransportURI") });
        v.push(ArgumentDefinition { name: "CurrentURIMetaData", direction: ArgumentDirection::OUT, related_state_var: Some("AVTransportURIMetaData") });
        v.push(ArgumentDefinition { name: "NextURI", direction: ArgumentDirection::OUT, related_state_var: Some("NextAVTransportURI") });
        v.push(ArgumentDefinition { name: "NextURIMetaData", direction: ArgumentDirection::OUT, related_state_var: Some("NextAVTransportURIMetaData") });
        v.push(ArgumentDefinition { name: "PlayMedium", direction: ArgumentDirection::OUT, related_state_var: Some("PlaybackStorageMedium") });
        v.push(ArgumentDefinition { name: "RecordMedium", direction: ArgumentDirection::OUT, related_state_var: Some("RecordStorageMedium") });
        v.push(ArgumentDefinition { name: "WriteStatus", direction: ArgumentDirection::OUT, related_state_var: Some("RecordMediumWriteStatus") });
        assert(v@.map_values(|a: ArgumentDefinition<&'static str, &'static str>| static_arg_view(a)) =~= seq![("NrTracks"@, ArgumentDirection::OUT, Some("NumberOfTracks"@)), ("MediaDuration"@, ArgumentDirection::OUT, Some("CurrentMediaDuration"@)), ("CurrentURI"@, ArgumentDirection::OUT, Some("AVTransportURI"@)), ("CurrentURIMetaData"@, ArgumentDirection::OUT, Some("AVTransportURIMetaData"@)), ("NextURI"@, ArgumentDirection::OUT, Some("NextAVTransportURI"@)), ("NextURIMetaData"@, ArgumentDirection::OUT, Some("NextAVTransportURIMetaData"@)), ("PlayMedium"@, ArgumentDirection::OUT, Some("PlaybackStorageMedium"@)), ("RecordMedium"@, ArgumentDirection::OUT, Some("RecordStorageMedium"@)), ("WriteStatus"@, ArgumentDirection::OUT, Some("RecordMediumWriteStatus"@))]);
        v
    }

    fn execute(&self, args: &ActionArgs) -> Result<ActionArgs, Error> {
        let input = match get_media_info_request(args) { Ok(i) => i, Err(e) => return Err(e) };
        let ghost handed = input;
        let res = self.trait_impl.get_media_info(input);
        assert(call_ensures(T::get_media_info, (&self.implementation(), handed), res));
        let output = match res { Ok(o) => o, Err(_) => return Err(Error::ActionFailed) };
        Ok(get_media_info_reply(output))
    }
}

pub struct ActionGetTransportInfo<T: GetTransportInfo> {
    trait_impl: Arc<T>,
}

impl<T: GetTransportInfo> ActionGetTransportInfo<T> {
    /// The application's implementation of the action.
    pub closed spec fn implementation(&self) -> T {
        *self.trait_impl
    }

    pub fn new(trait_impl: T) -> (r: Self)
        ensures
            r.implementation() == trait_impl,
    {
        ActionGetTransportInfo { trait_impl: Arc::new(trait_impl) }
    }
}

impl<T: GetTransportInfo> Action for ActionGetTransportInfo<T> {
    open spec fn action_name(&self) -> Seq<char> {
        "GetTransportInfo"@
    }

    open spec fn in_arg_views(&self) -> Seq<ArgView> {
        seq![("InstanceID"@, ArgumentDirection::IN, Some("A_ARG_TYPE_InstanceID"@))]
    }

    open spec fn out_arg_views(&self) -> Seq<ArgView> {
        seq![("CurrentTransportState"@, ArgumentDirection::OUT, Some("TransportState"@)), ("CurrentTransportStatus"@, ArgumentDirection::OUT, Some("TransportStatus"@)), ("CurrentSpeed"@, ArgumentDirection::OUT, Some("TransportPlaySpeed"@))]
    }

    open spec fn outcome(&self, args: Seq<(Seq<char>, Seq<char>)>, r: Result<ActionArgs, Error>) -> bool {
        &&& r is Err ==> (r->Err_0 == Error::ActionFailed)
        &&& exists|res: Result<super::traits::GetTransportInfoOutput, T::Error>|
            #[trigger] call_ensures(
                T::get_transport_info,
                (&self.implementation(), super::traits::GetTransportInfoInput { instance_id: instance_arg(args) }),
                res,
            ) && (r is Ok <==> res is Ok) && (res matches Ok(o) ==> r->Ok_0@ == get_transport_info_reply_pairs(o))
    }

    fn name(&self) -> &'static str {
        "GetTransportInfo"
    }

    fn in_args(&self) -> Vec<ArgumentDefinition<&'static str, &'static str>> {
        let mut v: Vec<ArgumentDefinition<&'static str, &'static str>> = Vec::new();
        v.push(ArgumentDefinition { name: "InstanceID", direction: ArgumentDirection::IN, related_state_var: Some("A_ARG_TYPE_InstanceID") });
        assert(v@.map_values(|a: ArgumentDefinition<&'static str, &'static str>| static_arg_view(a)) =~= seq![("InstanceID"@, ArgumentDirection::IN, Some("A_ARG_TYPE_InstanceID"@))]);
        v
    }

    fn out_args(&self) -> Vec<ArgumentDefinition<&'static str, &'static str>> {
        let mut v: Vec<ArgumentDefinition<&'static str, &'static str>> = Vec::new();
        v.push(ArgumentDefinition { name: "CurrentTransportState", direction: ArgumentDirection::OUT, related_state_var: Some("TransportState") });
        v.push(ArgumentDefinition { name: "CurrentTransportStatus", direction: ArgumentDirection::OUT, related_state_var: Some("TransportStatus") });
        v.push(ArgumentDefinition { name: "CurrentSpeed", direction: ArgumentDirection::OUT, related_state_var: Some("TransportPlaySpeed") });
        assert(v@.map_values(|a: ArgumentDefinition<&'static str, &'static str>| static_arg_view(a)) =~= seq![("CurrentTransportState"@, ArgumentDirection::OUT, Some("TransportState"@)), ("CurrentTransportStatus"@, ArgumentDirection::OUT, Some("TransportStatus"@)), ("CurrentSpeed"@, ArgumentDirection::OUT, Some("TransportPlaySpeed"@))]);
        v
    }

    fn execute(&self, args: &ActionArgs) -> Result<ActionArgs, Error> {
        let input = match get_transport_info_request(args) { Ok(i) => i, Err(e) => return Err(e) };
        let ghost handed = input;
        let res = self.trait_impl.get_transport_info(input);
        assert(call_ensures(T::get_transport_info, (&self.implementation(), handed), res));
        let output = match res { Ok(o) => o, Err(_) => return Err(Error::ActionFailed) };
        Ok(get_transport_info_reply(output))
    }
}

pub struct ActionGetPositionInfo<T: GetPositionInfo> {
    trait_impl: Arc<T>,
}

impl<T: GetPositionInfo> ActionGetPositionInfo<T> {
    /// The application's implementation of the action.
    pub closed spec fn implementation(&self) -> T {
        *self.trait_impl
    }

    pub fn new(trait_impl: T) -> (r: Self)
        ensures
            r.implementation() == trait_impl,
    {
        ActionGetPositionInfo { trait_impl: Arc::new(trait_impl) }
    }
}

impl<T: GetPositionInfo> Action for ActionGetPositionInfo<T> {
    open spec fn action_name(&self) -> Seq<char> {
        "GetPositionInfo"@
    }

    open spec fn in_arg_views(&self) -> Seq<ArgView> {
        seq![("InstanceID"@, ArgumentDirection::IN, Some("A_ARG_TYPE_InstanceID"@))]
    }

    open spec fn out_arg_views(&self) -> Seq<ArgView> {
        seq![("Track"@, ArgumentDirection::OUT, Some("CurrentTrack"@)), ("TrackDuration"@, ArgumentDirection::OUT, Some("CurrentTrackDuration"@)), ("TrackMetaData"@, ArgumentDirection::OUT, Some("CurrentTrackMetaData"@)), ("TrackURI"@, ArgumentDirection::OUT, Some("CurrentTrackURI"@)), ("RelTime"@, ArgumentDirection::OUT, Some("RelativeTimePosition"@)), ("AbsTime"@, ArgumentDirection::OUT, Some("AbsoluteTimePosition"@)), ("RelCount"@, ArgumentDirection::OUT, Some("RelativeCounterPosition"@)), ("AbsCount"@, ArgumentDirection::OUT, Some("AbsoluteCounterPosition"@))]
    }

    open spec fn outcome(&self, args: Seq<(Seq<char>, Seq<char>)>, r: Result<ActionArgs, Error>) -> bool {
        &&& r is Err ==> (r->Err_0 == Error::ActionFailed)
        &&& exists|res: Result<super::traits::GetPositionInfoOutput, T::Error>|
            #[trigger] call_ensures(
                T::get_position_info,
                (&self.implementation(), super::traits::GetPositionInfoInput { instance_id: instance_arg(args) }),
                res,
            ) && (r is Ok <==> res is Ok) && (res matches Ok(o) ==> r->Ok_0@ == get_position_info_reply_pairs(o))
    }

    fn name(&self) -> &'static str {
        "GetPositionInfo"
    }

    fn in_args(&self) -> Vec<ArgumentDefinition<&'static str, &'static str>> {
        let mut v: Vec<ArgumentDefinition<&'static str, &'static str>> = Vec::new();
        v.push(ArgumentDefinition { name: "InstanceID", direction: ArgumentDirection::IN, related_state_var: Some("A_ARG_TYPE_InstanceID") });
        assert(v@.map_values(|a: ArgumentDefinition<&'static str, &'static str>| static_arg_view(a)) =~= seq![("InstanceID"@, ArgumentDirection::IN, Some("A_ARG_TYPE_InstanceID"@))]);
        v
    }

    fn out_args(&self) -> Vec<ArgumentDefinition<&'static str, &'static str>> {
        let mut v: Vec<ArgumentDefinition<&'static str, &'static str>> = Vec::new();
        v.push(ArgumentDefinition { name: "Track", direction: ArgumentDirection::OUT, related_state_var: Some("CurrentTrack") });
        v.push(ArgumentDefinition { name: "TrackDuration", direction: ArgumentDirection::OUT, related_state_var: Some("CurrentTrackDuration") });
        v.push(ArgumentDefinition { name: "TrackMetaData", direction: ArgumentDirection::OUT, related_state_var: Some("CurrentTrackMetaData") });
        v.push(ArgumentDefinition { name: "TrackURI", direction: ArgumentDirection::OUT, related_state_var: Some("CurrentTrackURI") });
        v.push(ArgumentDefinition { name: "RelTime", direction: ArgumentDirection::OUT, related_state_var: Some("RelativeTimePosition") });
        v.push(ArgumentDefinition { name: "AbsTime", direction: ArgumentDirection::OUT, related_state_var: Some("AbsoluteTimePosition") });
        v.push(ArgumentDefinition { name: "RelCount", direction: ArgumentDirection::OUT, related_state_var: Some("RelativeCounterPosition") });
        v.push(ArgumentDefinition { name: "AbsCount", direction: ArgumentDirection::OUT, related_state_var: Some("AbsoluteCounterPosition") });
        assert(v@.map_values(|a: ArgumentDefinition<&'static str, &'static str>| static_arg_view(a)) =~= seq![("Track"@, ArgumentDirection::OUT, Some("CurrentTrack"@)), ("TrackDuration"@, ArgumentDirection::OUT, Some("CurrentTrackDuration"@)), ("TrackMetaData"@, ArgumentDirection::OUT, Some("CurrentTrackMetaData"@)), ("TrackURI"@, ArgumentDirection::OUT, Some("CurrentTrackURI"@)), ("RelTime"@, ArgumentDirection::OUT, Some("RelativeTimePosition"@)), ("AbsTime"@, ArgumentDirection::OUT, Some("AbsoluteTimePosition"@)), ("RelCount"@, ArgumentDirection::OUT, Some("RelativeCounterPosition"@)), ("AbsCount"@, ArgumentDirection::OUT, Some("AbsoluteCounterPosition"@))]);
        v
    }

    fn execute(&self, args: &ActionArgs) -> Result<ActionArgs, Error> {
        let input = match get_position_info_request(args) { Ok(i) => i, Err(e) => return Err(e) };
        let ghost handed = input;
        let res = self.trait_impl.get_position_info(input);
        assert(call_ensures(T::get_position_info, (&self.implementation(), handed), res));
        let output = match res { Ok(o) => o, Err(_) => return Err(Error::ActionFailed) };
        Ok(get_position_info_reply(output))
    }
}

pub struct ActionGetDeviceCapabilities<T: GetDeviceCapabilities> {
    trait_impl: Arc<T>,
}

impl<T: GetDeviceCapabilities> ActionGetDeviceCapabilities<T> {
    /// The application's implementation of the action.
    pub closed spec fn implementation(&self) -> T {
        *self.trait_impl
    }

    pub fn new(trait_impl: T) -> (r: Self)
        ensures
            r.implementation() == trait_impl,
    {
        ActionGetDeviceCapabilities { trait_impl: Arc::new(trait_impl) }
    }
}

impl<T: GetDeviceCapabilities> Action for ActionGetDeviceCapabilities<T> {
    open spec fn action_name(&self) -> Seq<char> {
        "GetDeviceCapabilities"@
    }

    open spec fn in_arg_views(&self) -> Seq<ArgView> {
        seq![("InstanceID"@, ArgumentDirection::IN, Some("A_ARG_TYPE_InstanceID"@))]
    }

    open spec fn out_arg_views(&self) -> Seq<ArgView> {
        seq![("PlayMedia"@, ArgumentDirection::OUT, Some("PossiblePlaybackStorageMedia"@)), ("RecMedia"@, ArgumentDirection::OUT, Some("PossibleRecordStorageMedia"@)), ("RecQualityModes"@, ArgumentDirection::OUT, Some("PossibleRecordQualityModes"@))]
    }

    open spec fn outcome(&self, args: Seq<(Seq<char>, Seq<char>)>, r: Result<ActionArgs, Error>) -> bool {
        &&& r is Err ==> (r->Err_0 == Error::ActionFailed)
        &&& exists|res: Result<super::traits::GetDeviceCapabilitiesOutput, T::Error>|
            #[trigger] call_ensures(
                T::get_device_capabilities,
                (&self.implementation(), super::traits::GetDeviceCapabilitiesInput { instance_id: instance_arg(args) }),
                res,
            ) && (r is Ok <==> res is Ok) && (res matches Ok(o) ==> r->Ok_0@ == get_device_capabilities_reply_pairs(o))
    }

    fn name(&self) -> &'static str {
        "GetDeviceCapabilities"
    }

    fn in_args(&self) -> Vec<ArgumentDefinition<&'static str, &'static str>> {
        let mut v: Vec<ArgumentDefinition<&'static str, &'static str>> = Vec::new();
        v.push(ArgumentDefinition { name: "InstanceID", direction: ArgumentDirection::IN, related_state_var: Some("A_ARG_TYPE_InstanceID") });
        assert(v@.map_values(|a: ArgumentDefinition<&'static str, &'static str>| static_arg_view(a)) =~= seq![("InstanceID"@, ArgumentDirection::IN, Some("A_ARG_TYPE_InstanceID"@))]);
        v
    }

    fn out_args(&self) -> Vec<ArgumentDefinition<&'static str, &'static str>> {
        let mut v: Vec<ArgumentDefinition<&'static str, &'static str>> = Vec::new();
        v.push(ArgumentDefinition { name: "PlayMedia", direction: ArgumentDirection::OUT, related_state_var: Some("PossiblePlaybackStorageMedia") });
        v.push(ArgumentDefinition { name: "RecMedia", direction: ArgumentDirection::OUT, related_state_var: Some("PossibleRecordStorageMedia") });
        v.push(ArgumentDefinition { name: "RecQualityModes", direction: ArgumentDirection::OUT, related_state_var: Some("PossibleRecordQualityModes") });
        assert(v@.map_values(|a: ArgumentDefinition<&'static str, &'static str>| static_arg_view(a)) =~= seq![("PlayMedia"@, ArgumentDirection::OUT, Some("PossiblePlaybackStorageMedia"@)), ("RecMedia"@, ArgumentDirection::OUT, Some("PossibleRecordStorageMedia"@)), ("RecQualityModes"@, ArgumentDirection::OUT, Some("PossibleRecordQualityModes"@))]);
        v
    }

    fn execute(&self, args: &ActionArgs) -> Result<ActionArgs, Error> {
        let input = match get_device_capabilities_request(args) { Ok(i) => i, Err(e) => return Err(e) };
        let ghost handed = input;
        let res = self.trait_impl.get_device_capabilities(input);
        assert(call_ensures(T::get_device_capabilities, (&self.implementation(), handed), res));
        let output = match res { Ok(o) => o, Err(_) => return Err(Error::ActionFailed) };
        Ok(get_device_capabilities_reply(output))
    }
}

pub struct ActionGetTransportSettings<T: GetTransportSettings> {
    trait_impl: Arc<T>,
}

impl<T: GetTransportSettings> ActionGetTransportSettings<T> {
    /// The application's implementation of the action.
    pub closed spec fn implementation(&self) -> T {
        *self.trait_impl
    }

    pub fn new(trait_impl: T) -> (r: Self)
        ensures
            r.implementation() == trait_impl,
    {
        ActionGetTransportSettings { trait_impl: Arc::new(trait_impl) }
    }
}

impl<T: GetTransportSettings> Action for ActionGetTransportSettings<T> {
    open spec fn action_name(&self) -> Seq<char> {
        "GetTransportSettings"@
    }

    open spec fn in_arg_views(&self) -> Seq<ArgView> {
        seq![("InstanceID"@, ArgumentDirection::IN, Some("A_ARG_TYPE_InstanceID"@))]
    }

    open spec fn out_arg_views(&self) -> Seq<ArgView> {
        seq![("PlayMode"@, ArgumentDirection::OUT, Some("CurrentPlayMode"@)), ("RecQualityMode"@, ArgumentDirection::OUT, Some("CurrentRecordQualityMode"@))]
    }

    open spec fn outcome(&self, args: Seq<(Seq<char>, Seq<char>)>, r: Result<ActionArgs, Error>) -> bool {
        &&& r is Err ==> (r->Err_0 == Error::ActionFailed)
        &&& exists|res: Result<super::traits::GetTransportSettingsOutput, T::Error>|
            #[trigger] call_ensures(
                T::get_transport_settings,
                (&self.implementation(), super::traits::GetTransportSettingsInput { instance_id: instance_arg(args) }),
                res,
            ) && (r is Ok <==> res is Ok) && (res matches Ok(o) ==> r->Ok_0@ == get_transport_settings_reply_pairs(o))
    }

    fn name(&self) -> &'static str {
        "GetTransportSettings"
    }

    fn in_args(&self) -> Vec<ArgumentDefinition<&'static str, &'static str>> {
        let mut v: Vec<ArgumentDefinition<&'static str, &'static str>> = Vec::new();
        v.push(ArgumentDefinition { name: "InstanceID", direction: ArgumentDirection::IN, related_state_var: Some("A_ARG_TYPE_InstanceID") });
        assert(v@.map_values(|a: ArgumentDefinition<&'static str, &'static str>| static_arg_view(a)) =~= seq![("InstanceID"@, ArgumentDirection::IN, Some("A_ARG_TYPE_InstanceID"@))]);
        v
    }

    fn out_args(&self) -> Vec<ArgumentDefinition<&'static str, &'static str>> {
        let mut v: Vec<ArgumentDefinition<&'static str, &'static str>> = Vec::new();
        v.push(ArgumentDefinition { name: "PlayMode", direction: ArgumentDirection::OUT, related_state_var: Some("CurrentPlayMode") });
        v.push(ArgumentDefinition { name: "RecQualityMode", direction: ArgumentDirection::OUT, related_state_var: Some("CurrentRecordQualityMode") });
        assert(v@.map_values(|a: ArgumentDefinition<&'static str, &'static str>| static_arg_view(a)) =~= seq![("PlayMode"@, ArgumentDirection::OUT, Some("CurrentPlayMode"@)), ("RecQualityMode"@, ArgumentDirection::OUT, Some("CurrentRecordQualityMode"@))]);
        v
    }

    fn execute(&self, args: &ActionArgs) -> Result<ActionArgs, Error> {
        let input = match get_transport_settings_request(args) { Ok(i) => i, Err(e) => return Err(e) };
        let ghost handed = input;
        let res = self.trait_impl.get_transport_settings(input);
        assert(call_ensures(T::get_transport_settings, (&self.implementation(), handed), res));
        let output = match res { Ok(o) => o, Err(_) => return Err(Error::ActionFailed) };
        Ok(get_transport_settings_reply(output))
    }
}

pub struct ActionSetNextAVTransportURI<T: SetNextAVTransportURI> {
    trait_impl: Arc<T>,
}

impl<T: SetNextAVTransportURI> ActionSetNextAVTransportURI<T> {
    /// The application's implementation of the action.
    pub closed spec fn implementation(&self) -> T {
        *self.trait_impl
    }

    pub fn new(trait_impl: T) -> (r: Self)
        ensures
            r.implementation() == trait_impl,
    {
        ActionSetNextAVTransportURI { trait_impl: Arc::new(trait_impl) }
    }
}

impl<T: SetNextAVTransportURI> Action for ActionSetNextAVTransportURI<T> {
    open spec fn action_name(&self) -> Seq<char> {
        "SetNextAVTransportURI"@
    }

    open spec fn in_arg_views(&self) -> Seq<ArgView> {
        seq![("InstanceID"@, ArgumentDirection::IN, Some("A_ARG_TYPE_InstanceID"@)), ("NextURI"@, ArgumentDirection::IN, Some("NextAVTransportURI"@)), ("NextURIMetaData"@, ArgumentDirection::IN, Some("NextAVTransportURIMetaData"@))]
    }

    open spec fn out_arg_views(&self) -> Seq<ArgView> {
        Seq::<ArgView>::empty()
    }

    open spec fn outcome(&self, args: Seq<(Seq<char>, Seq<char>)>, r: Result<ActionArgs, Error>) -> bool {
        &&& r is Err ==> (r->Err_0 == Error::ActionFailed || r->Err_0 == Error::ArgumentValueInvalid)
        &&& r is Ok ==> r->Ok_0@ == Seq::<(Seq<char>, Seq<char>)>::empty()
        &&& set_next_av_transport_uri_refusal(args) matches Some(e) ==> r == Err::<ActionArgs, Error>(e)
        &&& set_next_av_transport_uri_refusal(args) is None ==> (r is Err ==> r->Err_0 == Error::ActionFailed)
        &&& set_next_av_transport_uri_refusal(args) is None ==> exists|input: super::traits::SetNextAVTransportURIInput, res: Result<super::traits::SetNextAVTransportURIOutput, T::Error>|
            set_next_av_transport_uri_input(args, input) && #[trigger] call_ensures(T::set_next_av_transport_uri, (&self.implementation(), input), res) && (r is Ok
                <==> res is Ok)
    }

    fn name(&self) -> &'static str {
        "SetNextAVTransportURI"
    }

    fn in_args(&self) -> Vec<ArgumentDefinition<&'static str, &'static str>> {
        let mut v: Vec<ArgumentDefinition<&'static str, &'static str>> = Vec::new();
        v.push(ArgumentDefinition { name: "InstanceID", direction: ArgumentDirection::IN, related_state_var: Some("A_ARG_TYPE_InstanceID") });
        v.push(ArgumentDefinition { name: "NextURI", direction: ArgumentDirection::IN, related_state_var: Some("NextAVTransportURI") });
        v.push(ArgumentDefinition { name: "NextURIMetaData", direction: ArgumentDirection::IN, related_state_var: Some("NextAVTransportURIMetaData") });
        assert(v@.map_values(|a: ArgumentDefinition<&'static str, &'static str>| static_arg_view(a)) =~= seq![("InstanceID"@, ArgumentDirection::IN, Some("A_ARG_TYPE_InstanceID"@)), ("NextURI"@, ArgumentDirection::IN, Some("NextAVTransportURI"@)), ("NextURIMetaData"@, ArgumentDirection::IN, Some("NextAVTransportURIMetaData"@))]);
        v
    }

    fn out_args(&self) -> Vec<ArgumentDefinition<&'static str, &'static str>> {
        let mut v: Vec<ArgumentDefinition<&'static str, &'static str>> = Vec::new();
        assert(v@.map_values(|a: ArgumentDefinition<&'static str, &'static str>| static_arg_view(a)) =~= Seq::<ArgView>::empty());
        v
    }

    fn execute(&self, args: &ActionArgs) -> Result<ActionArgs, Error> {
        let input = match set_next_av_transport_uri_request(args) { Ok(i) => i, Err(e) => return Err(e) };
        let ghost handed = input;
        let res = self.trait_impl.set_next_av_transport_uri(input);
        assert(call_ensures(T::set_next_av_transport_uri, (&self.implementation(), handed), res));
        match res { Ok(_) => {}, Err(_) => return Err(Error::ActionFailed) }
        Ok(ActionArgs::new())
    }
}

pub struct ActionPause<T: Pause> {
    trait_impl: Arc<T>,
    service: AvTransportService,
}

impl<T: Pause> ActionPause<T> {
    /// The application's implementation of the action.
    pub closed spec fn implementation(&self) -> T {
        *self.trait_impl
    }

    /// The service whose state the action updates.
    pub closed spec fn bound_service(&self) -> AvTransportService {
        self.service
    }

    pub fn new(trait_impl: T, service: AvTransportService) -> (r: Self)
        ensures
            r.implementation() == trait_impl,
            r.bound_service() == service,
    {
        ActionPause { trait_impl: Arc::new(trait_impl), service }
    }
}

impl<T: Pause> Action for ActionPause<T> {
    open spec fn action_name(&self) -> Seq<char> {
        "Pause"@
    }

    open spec fn in_arg_views(&self) -> Seq<ArgView> {
        seq![("InstanceID"@, ArgumentDirection::IN, Some("A_ARG_TYPE_InstanceID"@))]
    }

    open spec fn out_arg_views(&self) -> Seq<ArgView> {
        Seq::<ArgView>::empty()
    }

    open spec fn outcome(&self, args: Seq<(Seq<char>, Seq<char>)>, r: Result<ActionArgs, Error>) -> bool {
        &&& r is Err ==> (r->Err_0 == Error::ActionFailed)
        &&& r is Ok ==> r->Ok_0@ == Seq::<(Seq<char>, Seq<char>)>::empty()
        &&& exists|res: Result<super::traits::PauseOutput, T::Error>|
            #[trigger] call_ensures(
                T::pause,
                (&self.implementation(), super::traits::PauseInput { instance_id: instance_arg(args) }),
                res,
            ) && (r is Ok <==> res is Ok)
    }

    fn name(&self) -> &'static str {
        "Pause"
    }

    fn in_args(&self) -> Vec<ArgumentDefinition<&'static str, &'static str>> {
        let mut v: Vec<ArgumentDefinition<&'static str, &'static str>> = Vec::new();
        v.push(ArgumentDefinition { name: "InstanceID", direction: ArgumentDirection::IN, related_state_var: Some("A_ARG_TYPE_InstanceID") });
        assert(v@.map_values(|a: ArgumentDefinition<&'static str, &'static str>| static_arg_view(a)) =~= seq![("InstanceID"@, ArgumentDirection::IN, Some("A_ARG_TYPE_InstanceID"@))]);
        v
    }

    fn out_args(&self) -> Vec<ArgumentDefinition<&'static str, &'static str>> {
        let mut v: Vec<ArgumentDefinition<&'static str, &'static str>> = Vec::new();
        assert(v@.map_values(|a: ArgumentDefinition<&'static str, &'static str>| static_arg_view(a)) =~= Seq::<ArgView>::empty());
        v
    }

    fn execute(&self, args: &ActionArgs) -> Result<ActionArgs, Error> {
        let input = match pause_request(args) { Ok(i) => i, Err(e) => return Err(e) };
        let instance_id = input.instance_id;
        let ghost handed = input;
        let res = self.trait_impl.pause(input);
        assert(call_ensures(T::pause, (&self.implementation(), handed), res));
        match res { Ok(_) => {}, Err(_) => return Err(Error::ActionFailed) }
        self.service.set_state_var(instance_id, StateVariableName::TransportState, DataType::String(to_owned_string("PAUSED_PLAYBACK")));
        Ok(ActionArgs::new())
    }
}

pub struct ActionSetPlayMode<T: SetPlayMode> {
    trait_impl: Arc<T>,
    service: AvTransportService,
}

impl<T: SetPlayMode> ActionSetPlayMode<T> {
    /// The application's implementation of the action.
    pub closed spec fn implementation(&self) -> T {
        *self.trait_impl
    }

    /// The service whose state the action updates.
    pub closed spec fn bound_service(&self) -> AvTransportService {
        self.service
    }

    pub fn new(trait_impl: T, service: AvTransportService) -> (r: Self)
        ensures
            r.implementation() == trait_impl,
            r.bound_service() == service,
    {
        ActionSetPlayMode { trait_impl: Arc::new(trait_impl), service }
    }
}

impl<T: SetPlayMode> Action for ActionSetPlayMode<T> {
    open spec fn action_name(&self) -> Seq<char> {
        "SetPlayMode"@
    }

    open spec fn in_arg_views(&self) -> Seq<ArgView> {
        seq![("InstanceID"@, ArgumentDirection::IN, Some("A_ARG_TYPE_InstanceID"@)), ("NewPlayMode"@, ArgumentDirection::IN, Some("CurrentPlayMode"@))]
    }

    open spec fn out_arg_views(&self) -> Seq<ArgView> {
        Seq::<ArgView>::empty()
    }

    open spec fn outcome(&self, args: Seq<(Seq<char>, Seq<char>)>, r: Result<ActionArgs, Error>) -> bool {
        &&& r is Err ==> (r->Err_0 == Error::ActionFailed || r->Err_0 == Error::ArgumentValueInvalid)
        &&& r is Ok ==> r->Ok_0@ == Seq::<(Seq<char>, Seq<char>)>::empty()
        &&& set_play_mode_refusal(args) matches Some(e) ==> r == Err::<ActionArgs, Error>(e)
        &&& set_play_mode_refusal(args) is None ==> (r is Err ==> r->Err_0 == Error::ActionFailed)
        &&& set_play_mode_refusal(args) is None ==> exists|input: super::traits::SetPlayModeInput, res: Result<super::traits::SetPlayModeOutput, T::Error>|
            set_play_mode_input(args, input) && #[trigger] call_ensures(T::set_play_mode, (&self.implementation(), input), res) && (r is Ok
                <==> res is Ok)
    }

    fn name(&self) -> &'static str {
        "SetPlayMode"
    }

    fn in_args(&self) -> Vec<ArgumentDefinition<&'static str, &'static str>> {
        let mut v: Vec<ArgumentDefinition<&'static str, &'static str>> = Vec::new();
        v.push(ArgumentDefinition { name: "InstanceID", direction: ArgumentDirection::IN, related_state_var: Some("A_ARG_TYPE_InstanceID") });
        v.push(ArgumentDefinition { name: "NewPlayMode", direction: ArgumentDirection::IN, related_state_var: Some("CurrentPlayMode") });
        assert(v@.map_values(|a: ArgumentDefinition<&'static str, &'static str>| static_arg_view(a)) =~= seq![("InstanceID"@, ArgumentDirection::IN, Some("A_ARG_TYPE_InstanceID"@)), ("NewPlayMode"@, ArgumentDirection::IN, Some("CurrentPlayMode"@))]);
        v
    }

    fn out_args(&self) -> Vec<ArgumentDefinition<&'static str, &'static str>> {
        let mut v: Vec<ArgumentDefinition<&'static str, &'static str>> = Vec::new();
        assert(v@.map_values(|a: ArgumentDefinition<&'static str, &'static str>| static_arg_view(a)) =~= Seq::<ArgView>::empty());
        v
    }

    fn execute(&self, args: &ActionArgs) -> Result<ActionArgs, Error> {
        let input = match set_play_mode_request(args) { Ok(i) => i, Err(e) => return Err(e) };
        let instance_id = input.instance_id;
        let play_mode = input.play_mode;
        let ghost handed = input;
        let res = self.trait_impl.set_play_mode(input);
        assert(call_ensures(T::set_play_mode, (&self.implementation(), handed), res));
        match res { Ok(_) => {}, Err(_) => return Err(Error::ActionFailed) }
        self.service.set_state_var(instance_id, StateVariableName::CurrentPlayMode, DataType::String(to_owned_string(play_mode.as_str())));
        Ok(ActionArgs::new())
    }
}

pub struct ActionGetCurrentTransportActions<T: GetCurrentTransportActions> {
    trait_impl: Arc<T>,
}

impl<T: GetCurrentTransportActions> ActionGetCurrentTransportActions<T> {
    /// The application's implementation of the action.
    pub closed spec fn implementation(&self) -> T {
        *self.trait_impl
    }

    pub fn new(trait_impl: T) -> (r: Self)
        ensures
            r.implementation() == trait_impl,
    {
        ActionGetCurrentTransportActions { trait_impl: Arc::new(trait_impl) }
    }
}

impl<T: GetCurrentTransportActions> Action for ActionGetCurrentTransportActions<T> {
    open spec fn action_name(&self) -> Seq<char> {
        "GetCurrentTransportActions"@
    }

    open spec fn in_arg_views(&self) -> Seq<ArgView> {
        seq![("InstanceID"@, ArgumentDirection::IN, Some("A_ARG_TYPE_InstanceID"@))]
    }

    open spec fn out_arg_views(&self) -> Seq<ArgView> {
        seq![("Actions"@, ArgumentDirection::OUT, Some("CurrentTransportActions"@))]
    }

    open spec fn outcome(&self, args: Seq<(Seq<char>, Seq<char>)>, r: Result<ActionArgs, Error>) -> bool {
        &&& r is Err ==> (r->Err_0 == Error::ActionFailed)
        &&& exists|res: Result<super::traits::GetCurrentTransportActionsOutput, T::Error>|
            #[trigger] call_ensures(
                T::get_current_transport_actions,
                (&self.implementation(), super::traits::GetCurrentTransportActionsInput { instance_id: instance_arg(args) }),
                res,
            ) && (r is Ok <==> res is Ok) && (res matches Ok(o) ==> r->Ok_0@ == get_current_transport_actions_reply_pairs(o))
    }

    fn name(&self) -> &'static str {
        "GetCurrentTransportActions"
    }

    fn in_args(&self) -> Vec<ArgumentDefinition<&'static str, &'static str>> {
        let mut v: Vec<ArgumentDefinition<&'static str, &'static str>> = Vec::new();
        v.push(ArgumentDefinition { name: "InstanceID", direction: ArgumentDirection::IN, related_state_var: Some("A_ARG_TYPE_InstanceID") });
        assert(v@.map_values(|a: ArgumentDefinition<&'static str, &'static str>| static_arg_view(a)) =~= seq![("InstanceID"@, ArgumentDirection::IN, Some("A_ARG_TYPE_InstanceID"@))]);
        v
    }

    fn out_args(&self) -> Vec<ArgumentDefinition<&'static str, &'static str>> {
        let mut v: Vec<ArgumentDefinition<&'static str, &'static str>> = Vec::new();
        v.push(ArgumentDefinition { name: "Actions", direction: ArgumentDirection::OUT, related_state_var: Some("CurrentTransportActions") });
        assert(v@.map_values(|a: ArgumentDefinition<&'static str, &'static str>| static_arg_view(a)) =~= seq![("Actions"@, ArgumentDirection::OUT, Some("CurrentTransportActions"@))]);
        v
    }

    fn execute(&self, args: &ActionArgs) -> Result<ActionArgs, Error> {
        let input = match get_current_transport_actions_request(args) { Ok(i) => i, Err(e) => return Err(e) };
        let ghost handed = input;
        let res = self.trait_impl.get_current_transport_actions(input);
        assert(call_ensures(T::get_current_transport_actions, (&self.implementation(), handed), res));
        let output = match res { Ok(o) => o, Err(_) => return Err(Error::ActionFailed) };
        Ok(get_current_transport_actions_reply(output))
    }
}

pub struct ActionRecord<T: Record> {
    trait_impl: Arc<T>,
}

impl<T: Record> ActionRecord<T> {
    /// The application's implementation of the action.
    pub closed spec fn implementation(&self) -> T {
        *self.trait_impl
    }

    pub fn new(trait_impl: T) -> (r: Self)
        ensures
            r.implementation() == trait_impl,
    {
        ActionRecord { trait_impl: Arc::new(trait_impl) }
    }
}

impl<T: Record> Action for ActionRecord<T> {
    open spec fn action_name(&self) -> Seq<char> {
        "Record"@
    }

    open spec fn in_arg_views(&self) -> Seq<ArgView> {
        seq![("InstanceID"@, ArgumentDirection::IN, Some("A_ARG_TYPE_InstanceID"@))]
    }

    open spec fn out_arg_views(&self) -> Seq<ArgView> {
        Seq::<ArgView>::empty()
    }

    open spec fn outcome(&self, args: Seq<(Seq<char>, Seq<char>)>, r: Result<ActionArgs, Error>) -> bool {
        &&& r is Err ==> (r->Err_0 == Error::ActionFailed)
        &&& r is Ok ==> r->Ok_0@ == Seq::<(Seq<char>, Seq<char>)>::empty()
        &&& exists|input: super::traits::StopInput, res: Result<(), T::Error>|
            record_input(args, input) && #[trigger] call_ensures(T::record, (&self.implementation(), input), res) && (r is Ok
                <==> res is Ok)
    }

    fn name(&self) -> &'static str {
        "Record"
    }

    fn in_args(&self) -> Vec<ArgumentDefinition<&'static str, &'static str>> {
        let mut v: Vec<ArgumentDefinition<&'static str, &'static str>> = Vec::new();
        v.push(ArgumentDefinition { name: "InstanceID", direction: ArgumentDirection::IN, related_state_var: Some("A_ARG_TYPE_InstanceID") });
        assert(v@.map_values(|a: ArgumentDefinition<&'static str, &'static str>| static_arg_view(a)) =~= seq![("InstanceID"@, ArgumentDirection::IN, Some("A_ARG_TYPE_InstanceID"@))]);
        v
    }

    fn out_args(&self) -> Vec<ArgumentDefinition<&'static str, &'static str>> {
        let mut v: Vec<ArgumentDefinition<&'static str, &'static str>> = Vec::new();
        assert(v@.map_values(|a: ArgumentDefinition<&'static str, &'static str>| static_arg_view(a)) =~= Seq::<ArgView>::empty());
        v
    }

    fn execute(&self, args: &ActionArgs) -> Result<ActionArgs, Error> {
        let input = match record_request(args) { Ok(i) => i, Err(e) => return Err(e) };
        let ghost handed = input;
        let res = self.trait_impl.record(input);
        assert(call_ensures(T::record, (&self.implementation(), handed), res));
        match res { Ok(_) => {}, Err(_) => return Err(Error::ActionFailed) }
        Ok(ActionArgs::new())
    }
}

pub struct ActionSetRecordQualityMode<T: SetRecordQualityMode> {
    trait_impl: Arc<T>,
}

impl<T: SetRecordQualityMode> ActionSetRecordQualityMode<T> {
    /// The application's implementation of the action.
    pub closed spec fn implementation(&self) -> T {
        *self.trait_impl
    }

    pub fn new(trait_impl: T) -> (r: Self)
        ensures
            r.implementation() == trait_impl,
    {
        ActionSetRecordQualityMode { trait_impl: Arc::new(trait_impl) }
    }
}

impl<T: SetRecordQualityMode> Action for ActionSetRecordQualityMode<T> {
    open spec fn action_name(&self) -> Seq<char> {
        "SetRecordQualityMode"@
    }

    open spec fn in_arg_views(&self) -> Seq<ArgView> {
        seq![("InstanceID"@, ArgumentDirection::IN, Some("A_ARG_TYPE_InstanceID"@)), ("NewRecordQualityMode"@, ArgumentDirection::IN, Some("CurrentRecordQualityMode"@))]
    }

    open spec fn out_arg_views(&self) -> Seq<ArgView> {
        Seq::<ArgView>::empty()
    }

    open spec fn outcome(&self, args: Seq<(Seq<char>, Seq<char>)>, r: Result<ActionArgs, Error>) -> bool {
        &&& r is Err ==> (r->Err_0 == Error::ActionFailed || r->Err_0 == Error::ArgumentValueInvalid)
        &&& r is Ok ==> r->Ok_0@ == Seq::<(Seq<char>, Seq<char>)>::empty()
        &&& set_record_quality_mode_refusal(args) matches Some(e) ==> r == Err::<ActionArgs, Error>(e)
        &&& set_record_quality_mode_refusal(args) is None ==> (r is Err ==> r->Err_0 == Error::ActionFailed)
        &&& set_record_quality_mode_refusal(args) is None ==> exists|input: super::traits::SetRecordQualityModeInput, res: Result<super::traits::SetRecordQualityModeOutput, T::Error>|
            set_record_quality_mode_input(args, input) && #[trigger] call_ensures(T::set_record_quality_mode, (&self.implementation(), input), res) && (r is Ok
                <==> res is Ok)
    }

    fn name(&self) -> &'static str {
        "SetRecordQualityMode"
    }

    fn in_args(&self) -> Vec<ArgumentDefinition<&'static str, &'static str>> {
        let mut v: Vec<ArgumentDefinition<&'static str, &'static str>> = Vec::new();
        v.push(ArgumentDefinition { name: "InstanceID", direction: ArgumentDirection::IN, related_state_var: Some("A_ARG_TYPE_InstanceID") });
        v.push(ArgumentDefinition { name: "NewRecordQualityMode", direction: ArgumentDirection::IN, related_state_var: Some("CurrentRecordQualityMode") });
        assert(v@.map_values(|a: ArgumentDefinition<&'static str, &'static str>| static_arg_view(a)) =~= seq![("InstanceID"@, ArgumentDirection::IN, Some("A_ARG_TYPE_InstanceID"@)), ("NewRecordQualityMode"@, ArgumentDirection::IN, Some("CurrentRecordQualityMode"@))]);
        v
    }

    fn out_args(&self) -> Vec<ArgumentDefinition<&'static str, &'static str>> {
        let mut v: Vec<ArgumentDefinition<&'static str, &'static str>> = Vec::new();
        assert(v@.map_values(|a: ArgumentDefinition<&'static str, &'static str>| static_arg_view(a)) =~= Seq::<ArgView>::empty());
        v
    }

    fn execute(&self, args: &ActionArgs) -> Result<ActionArgs, Error> {
        let input = match set_record_quality_mode_request(args) { Ok(i) => i, Err(e) => return Err(e) };
        let ghost handed = input;
        let res = self.trait_impl.set_record_quality_mode(input);
        assert(call_ensures(T::set_record_quality_mode, (&self.implementation(), handed), res));
        match res { Ok(_) => {}, Err(_) => return Err(Error::ActionFailed) }
        Ok(ActionArgs::new())
    }
}

pub struct ActionGetDRMState<T: GetDRMState> {
    trait_impl: Arc<T>,
}

impl<T: GetDRMState> ActionGetDRMState<T> {
    /// The application's implementation of the action.
    pub closed spec fn implementation(&self) -> T {
        *self.trait_impl
    }

    pub fn new(trait_impl: T) -> (r: Self)
        ensures
            r.implementation() == trait_impl,
    {
        ActionGetDRMState { trait_impl: Arc::new(trait_impl) }
    }
}

impl<T: GetDRMState> Action for ActionGetDRMState<T> {
    open spec fn action_name(&self) -> Seq<char> {
        "GetDRMState"@
    }

    open spec fn in_arg_views(&self) -> Seq<ArgView> {
        Seq::<ArgView>::empty()
    }

    open spec fn out_arg_views(&self) -> Seq<ArgView> {
        seq![("DRMState"@, ArgumentDirection::OUT, Some("DRMState"@))]
    }

    open spec fn outcome(&self, args: Seq<(Seq<char>, Seq<char>)>, r: Result<ActionArgs, Error>) -> bool {
        &&& r is Err ==> (r->Err_0 == Error::ActionFailed)
        &&& exists|res: Result<super::traits::GetDRMStateOutput, T::Error>|
            #[trigger] call_ensures(T::get_drm_state, (&self.implementation(),), res) && (r is Ok <==> res is Ok) && (res matches Ok(o) ==> r->Ok_0@ == get_drm_state_reply_pairs(o))
    }

    fn name(&self) -> &'static str {
        "GetDRMState"
    }

    fn in_args(&self) -> Vec<ArgumentDefinition<&'static str, &'static str>> {
        let mut v: Vec<ArgumentDefinition<&'static str, &'static str>> = Vec::new();
        assert(v@.map_values(|a: ArgumentDefinition<&'static str, &'static str>| static_arg_view(a)) =~= Seq::<ArgView>::empty());
        v
    }

    fn out_args(&self) -> Vec<ArgumentDefinition<&'static str, &'static str>> {
        let mut v: Vec<ArgumentDefinition<&'static str, &'static str>> = Vec::new();
        v.push(ArgumentDefinition { name: "DRMState", direction: ArgumentDirection::OUT, related_state_var: Some("DRMState") });
        assert(v@.map_values(|a: ArgumentDefinition<&'static str, &'static str>| static_arg_view(a)) =~= seq![("DRMState"@, ArgumentDirection::OUT, Some("DRMState"@))]);
        v
    }

    fn execute(&self, _args: &ActionArgs) -> (r: Result<ActionArgs, Error>)
    {
        let res = self.trait_impl.get_drm_state();
        assert(call_ensures(T::get_drm_state, (&self.implementation(),), res));
        let output = match res { Ok(o) => o, Err(_) => return Err(Error::ActionFailed) };
        Ok(get_drm_state_reply(output))
    }
}

pub struct ActionGetStateVariables<T: GetStateVariables> {
    trait_impl: Arc<T>,
}

impl<T: GetStateVariables> ActionGetStateVariables<T> {
    /// The application's implementation of the action.
    pub closed spec fn implementation(&self) -> T {
        *self.trait_impl
    }

    pub fn new(trait_impl: T) -> (r: Self)
        ensures
            r.implementation() == trait_impl,
    {
        ActionGetStateVariables { trait_impl: Arc::new(trait_impl) }
    }
}

impl<T: GetStateVariables> Action for ActionGetStateVariables<T> {
    open spec fn action_name(&self) -> Seq<char> {
        "GetStateVariables"@
    }

    open spec fn in_arg_views(&self) -> Seq<ArgView> {
        seq![("InstanceID"@, ArgumentDirection::IN, Some("A_ARG_TYPE_InstanceID"@)), ("StateVariableList"@, ArgumentDirection::IN, Some("A_ARG_TYPE_StateVariableList"@))]
    }

    open spec fn out_arg_views(&self) -> Seq<ArgView> {
        seq![("StateVariableValuePairs"@, ArgumentDirection::OUT, Some("A_ARG_TYPE_StateVariableValuePairs"@))]
    }

    open spec fn outcome(&self, args: Seq<(Seq<char>, Seq<char>)>, r: Result<ActionArgs, Error>) -> bool {
        &&& r is Err ==> (r->Err_0 == Error::ActionFailed)
        &&& exists|input: super::traits::GetStateVariablesInput, res: Result<super::traits::GetStateVariablesOutput, T::Error>|
            input.instance_id == instance_arg(args) && input.var_list@.map_values(|x: String| x@) == requested_vars(
                crate::services::args::arg_text(args, "StateVariableList"@, "*"@),
            ) && #[trigger] call_ensures(T::get_state_variables, (&self.implementation(), input), res) && (r is Ok
                <==> res is Ok) && (res matches Ok(o) ==> r->Ok_0@ == get_state_variables_reply_pairs(o))
    }

    fn name(&self) -> &'static str {
        "GetStateVariables"
    }

    fn in_args(&self) -> Vec<ArgumentDefinition<&'static str, &'static str>> {
        let mut v: Vec<ArgumentDefinition<&'static str, &'static str>> = Vec::new();
        v.push(ArgumentDefinition { name: "InstanceID", direction: ArgumentDirection::IN, related_state_var: Some("A_ARG_TYPE_InstanceID") });
        v.push(ArgumentDefinition { name: "StateVariableList", direction: ArgumentDirection::IN, related_state_var: Some("A_ARG_TYPE_StateVariableList") });
        assert(v@.map_values(|a: ArgumentDefinition<&'static str, &'static str>| static_arg_view(a)) =~= seq![("InstanceID"@, ArgumentDirection::IN, Some("A_ARG_TYPE_InstanceID"@)), ("StateVariableList"@, ArgumentDirection::IN, Some("A_ARG_TYPE_StateVariableList"@))]);
        v
    }

    fn out_args(&self) -> Vec<ArgumentDefinition<&'static str, &'static str>> {
        let mut v: Vec<ArgumentDefinition<&'static str, &'static str>> = Vec::new();
        v.push(ArgumentDefinition { name: "StateVariableValuePairs", direction: ArgumentDirection::OUT, related_state_var: Some("A_ARG_TYPE_StateVariableValuePairs") });
        assert(v@.map_values(|a: ArgumentDefinition<&'static str, &'static str>| static_arg_view(a)) =~= seq![("StateVariableValuePairs"@, ArgumentDirection::OUT, Some("A_ARG_TYPE_StateVariableValuePairs"@))]);
        v
    }

    fn execute(&self, args: &ActionArgs) -> Result<ActionArgs, Error> {
        let input = get_state_variables_request(args);
        let ghost handed = input;
        let res = self.trait_impl.get_state_variables(input);
        assert(call_ensures(T::get_state_variables, (&self.implementation(), handed), res));
        let output = match res { Ok(o) => o, Err(_) => return Err(Error::ActionFailed) };
        Ok(get_state_variables_reply(output))
    }
}

pub struct ActionSetStateVariables<T: SetStateVariables> {
    trait_impl: Arc<T>,
}

impl<T: SetStateVariables> ActionSetStateVariables<T> {
    /// The application's implementation of the action.
    pub closed spec fn implementation(&self) -> T {
        *self.trait_impl
    }

    pub fn new(trait_impl: T) -> (r: Self)
        ensures
            r.implementation() == trait_impl,
    {
        ActionSetStateVariables { trait_impl: Arc::new(trait_impl) }
    }
}

impl<T: SetStateVariables> Action for ActionSetStateVariables<T> {
    open spec fn action_name(&self) -> Seq<char> {
        "SetStateVariables"@
    }

    open spec fn in_arg_views(&self) -> Seq<ArgView> {
        seq![("InstanceID"@, ArgumentDirection::IN, Some("A_ARG_TYPE_InstanceID"@)), ("AVTransportUDN"@, ArgumentDirection::IN, Some("A_ARG_TYPE_DeviceUDN"@)), ("ServiceType"@, ArgumentDirection::IN, Some("A_ARG_TYPE_ServiceType"@)), ("ServiceId"@, ArgumentDirection::IN, Some("A_ARG_TYPE_ServiceID"@)), ("StateVariableValuePairs"@, ArgumentDirection::IN, Some("A_ARG_TYPE_StateVariableValuePairs"@))]
    }

    open spec fn out_arg_views(&self) -> Seq<ArgView> {
        seq![("StateVariableList"@, ArgumentDirection::OUT, Some("A_ARG_TYPE_StateVariableList"@))]
    }

    open spec fn outcome(&self, args: Seq<(Seq<char>, Seq<char>)>, r: Result<ActionArgs, Error>) -> bool {
        &&& r is Err ==> (r->Err_0 == Error::ActionFailed || r->Err_0 == Error::ArgumentValueInvalid)
        &&& set_state_variables_refusal(args) matches Some(e) ==> r == Err::<ActionArgs, Error>(e)
        &&& r is Ok ==> r->Ok_0@ == Seq::<(Seq<char>, Seq<char>)>::empty()
        &&& set_state_variables_refusal(args) is None ==> (r is Err ==> r->Err_0 == Error::ActionFailed)
        &&& set_state_variables_refusal(args) is None ==> exists|input: super::traits::SetStateVariablesInput, res: Result<super::traits::SetStateVariablesOutput, T::Error>|
            set_state_variables_input(args, input) && #[trigger] call_ensures(T::set_state_variables, (&self.implementation(), input), res) && (r is Ok
                <==> res is Ok)
    }

    fn name(&self) -> &'static str {
        "SetStateVariables"
    }

    fn in_args(&self) -> Vec<ArgumentDefinition<&'static str, &'static str>> {
        let mut v: Vec<ArgumentDefinition<&'static str, &'static str>> = Vec::new();
        v.push(ArgumentDefinition { name: "InstanceID", direction: ArgumentDirection::IN, related_state_var: Some("A_ARG_TYPE_InstanceID") });
        v.push(ArgumentDefinition { name: "AVTransportUDN", direction: ArgumentDirection::IN, related_state_var: Some("A_ARG_TYPE_DeviceUDN") });
        v.push(ArgumentDefinition { name: "ServiceType", direction: ArgumentDirection::IN, related_state_var: Some("A_ARG_TYPE_ServiceType") });
        v.push(ArgumentDefinition { name: "ServiceId", direction: ArgumentDirection::IN, related_state_var: Some("A_ARG_TYPE_ServiceID") });
        v.push(ArgumentDefinition { name: "StateVariableValuePairs", direction: ArgumentDirection::IN, related_state_var: Some("A_ARG_TYPE_StateVariableValuePairs") });
        assert(v@.map_values(|a: ArgumentDefinition<&'static str, &'static str>| static_arg_view(a)) =~= seq![("InstanceID"@, ArgumentDirection::IN, Some("A_ARG_TYPE_InstanceID"@)), ("AVTransportUDN"@, ArgumentDirection::IN, Some("A_ARG_TYPE_DeviceUDN"@)), ("ServiceType"@, ArgumentDirection::IN, Some("A_ARG_TYPE_ServiceType"@)), ("ServiceId"@, ArgumentDirection::IN, Some("A_ARG_TYPE_ServiceID"@)), ("StateVariableValuePairs"@, ArgumentDirection::IN, Some("A_ARG_TYPE_StateVariableValuePairs"@))]);
        v
    }

    fn out_args(&self) -> Vec<ArgumentDefinition<&'static str, &'static str>> {
        let mut v: Vec<ArgumentDefinition<&'static str, &'static str>> = Vec::new();
        v.push(ArgumentDefinition { name: "StateVariableList", direction: ArgumentDirection::OUT, related_state_var: Some("A_ARG_TYPE_StateVariableList") });
        assert(v@.map_values(|a: ArgumentDefinition<&'static str, &'static str>| static_arg_view(a)) =~= seq![("StateVariableList"@, ArgumentDirection::OUT, Some("A_ARG_TYPE_StateVariableList"@))]);
        v
    }

    fn execute(&self, args: &ActionArgs) -> Result<ActionArgs, Error> {
        let input = match set_state_variables_request(args) { Ok(i) => i, Err(e) => return Err(e) };
        let ghost handed = input;
        let res = self.trait_impl.set_state_variables(input);
        assert(call_ensures(T::set_state_variables, (&self.implementation(), handed), res));
        match res { Ok(_) => {}, Err(_) => return Err(Error::ActionFailed) }
        Ok(ActionArgs::new())
    }
}

pub struct ActionGetSyncOffset<T: GetSyncOffset> {
    trait_impl: Arc<T>,
}

impl<T: GetSyncOffset> ActionGetSyncOffset<T> {
    /// The application's implementation of the action.
    pub closed spec fn implementation(&self) -> T {
        *self.trait_impl
    }

    pub fn new(trait_impl: T) -> (r: Self)
        ensures
            r.implementation() == trait_impl,
    {
        ActionGetSyncOffset { trait_impl: Arc::new(trait_impl) }
    }
}

impl<T: GetSyncOffset> Action for ActionGetSyncOffset<T> {
    open spec fn action_name(&self) -> Seq<char> {
        "GetSyncOffset"@
    }

    open spec fn in_arg_views(&self) -> Seq<ArgView> {
        seq![("InstanceID"@, ArgumentDirection::IN, Some("A_ARG_TYPE_InstanceID"@))]
    }

    open spec fn out_arg_views(&self) -> Seq<ArgView> {
        seq![("CurrentSyncOffset"@, ArgumentDirection::OUT, Some("SyncOffset"@))]
    }

    open spec fn outcome(&self, args: Seq<(Seq<char>, Seq<char>)>, r: Result<ActionArgs, Error>) -> bool {
        &&& r is Err ==> (r->Err_0 == Error::ActionFailed)
        &&& exists|res: Result<super::traits::GetSyncOffsetOutput, T::Error>|
            #[trigger] call_ensures(T::get_sync_offset, (&self.implementation(),), res) && (r is Ok <==> res is Ok) && (res matches Ok(o) ==> r->Ok_0@ == get_sync_offset_reply_pairs(o))
    }

    fn name(&self) -> &'static str {
        "GetSyncOffset"
    }

    fn in_args(&self) -> Vec<ArgumentDefinition<&'static str, &'static str>> {
        let mut v: Vec<ArgumentDefinition<&'static str, &'static str>> = Vec::new();
        v.push(ArgumentDefinition { name: "InstanceID", direction: ArgumentDirection::IN, related_state_var: Some("A_ARG_TYPE_InstanceID") });
        assert(v@.map_values(|a: ArgumentDefinition<&'static str, &'static str>| static_arg_view(a)) =~= seq![("InstanceID"@, ArgumentDirection::IN, Some("A_ARG_TYPE_InstanceID"@))]);
        v
    }

    fn out_args(&self) -> Vec<ArgumentDefinition<&'static str, &'static str>> {
        let mut v: Vec<ArgumentDefinition<&'static str, &'static str>> = Vec::new();
        v.push(ArgumentDefinition { name: "CurrentSyncOffset", direction: ArgumentDirection::OUT, related_state_var: Some("SyncOffset") });
        assert(v@.map_values(|a: ArgumentDefinition<&'static str, &'static str>| static_arg_view(a)) =~= seq![("CurrentSyncOffset"@, ArgumentDirection::OUT, Some("SyncOffset"@))]);
        v
    }

    fn execute(&self, args: &ActionArgs) -> Result<ActionArgs, Error> {
        let _instance_id_text = arg_or(args, "InstanceID", "0");
        let _instance_id: u32 = match parse_u32(_instance_id_text.as_str()) { Some(x) => x, None => 0 };
        let res = self.trait_impl.get_sync_offset();
        assert(call_ensures(T::get_sync_offset, (&self.implementation(),), res));
        let output = match res { Ok(o) => o, Err(_) => return Err(Error::ActionFailed) };
        Ok(get_sync_offset_reply(output))
    }
}

pub struct ActionSetSyncOffset<T: SetSyncOffset> {
    trait_impl: Arc<T>,
}

impl<T: SetSyncOffset> ActionSetSyncOffset<T> {
    /// The application's implementation of the action.
    pub closed spec fn implementation(&self) -> T {
        *self.trait_impl
    }

    pub fn new(trait_impl: T) -> (r: Self)
        ensures
            r.implementation() == trait_impl,
    {
        ActionSetSyncOffset { trait_impl: Arc::new(trait_impl) }
    }
}

impl<T: SetSyncOffset> Action for ActionSetSyncOffset<T> {
    open spec fn action_name(&self) -> Seq<char> {
        "SetSyncOffset"@
    }

    open spec fn in_arg_views(&self) -> Seq<ArgView> {
        seq![("InstanceID"@, ArgumentDirection::IN, Some("A_ARG_TYPE_InstanceID"@)), ("NewSyncOffset"@, ArgumentDirection::IN, Some("SyncOffset"@))]
    }

    open spec fn out_arg_views(&self) -> Seq<ArgView> {
        Seq::<ArgView>::empty()
    }

    open spec fn outcome(&self, args: Seq<(Seq<char>, Seq<char>)>, r: Result<ActionArgs, Error>) -> bool {
        &&& r is Err ==> (r->Err_0 == Error::ActionFailed || r->Err_0 == Error::ArgumentValueInvalid)
        &&& r is Ok ==> r->Ok_0@ == Seq::<(Seq<char>, Seq<char>)>::empty()
        &&& set_sync_offset_refusal(args) matches Some(e) ==> r == Err::<ActionArgs, Error>(e)
        &&& set_sync_offset_refusal(args) is None ==> (r is Err ==> r->Err_0 == Error::ActionFailed)
        &&& set_sync_offset_refusal(args) is None ==> exists|input: super::traits::SetSyncOffsetInput, res: Result<super::traits::SetSyncOffsetOutput, T::Error>|
            set_sync_offset_input(args, input) && #[trigger] call_ensures(T::set_sync_offset, (&self.implementation(), input), res) && (r is Ok
                <==> res is Ok)
    }

    fn name(&self) -> &'static str {
        "SetSyncOffset"
    }

    fn in_args(&self) -> Vec<ArgumentDefinition<&'static str, &'static str>> {
        let mut v: Vec<ArgumentDefinition<&'static str, &'static str>> = Vec::new();
        v.push(ArgumentDefinition { name: "InstanceID", direction: ArgumentDirection::IN, related_state_var: Some("A_ARG_TYPE_InstanceID") });
        v.push(ArgumentDefinition { name: "NewSyncOffset", direction: ArgumentDirection::IN, related_state_var: Some("SyncOffset") });
        assert(v@.map_values(|a: ArgumentDefinition<&'static str, &'static str>| static_arg_view(a)) =~= seq![("InstanceID"@, ArgumentDirection::IN, Some("A_ARG_TYPE_InstanceID"@)), ("NewSyncOffset"@, ArgumentDirection::IN, Some("SyncOffset"@))]);
        v
    }

    fn out_args(&self) -> Vec<ArgumentDefinition<&'static str, &'static str>> {
        let mut v: Vec<ArgumentDefinition<&'static str, &'static str>> = Vec::new();
        assert(v@.map_values(|a: ArgumentDefinition<&'static str, &'static str>| static_arg_view(a)) =~= Seq::<ArgView>::empty());
        v
    }

    fn execute(&self, args: &ActionArgs) -> Result<ActionArgs, Error> {
        let input = match set_sync_offset_request(args) { Ok(i) => i, Err(e) => return Err(e) };
        let ghost handed = input;
        let res = self.trait_impl.set_sync_offset(input);
        assert(call_ensures(T::set_sync_offset, (&self.implementation(), handed), res));
        match res { Ok(_) => {}, Err(_) => return Err(Error::ActionFailed) }
        Ok(ActionArgs::new())
    }
}

pub struct ActionAdjustSyncOffset<T: AdjustSyncOffset> {
    trait_impl: Arc<T>,
}

impl<T: AdjustSyncOffset> ActionAdjustSyncOffset<T> {
    /// The application's implementation of the action.
    pub closed spec fn implementation(&self) -> T {
        *self.trait_impl
    }

    pub fn new(trait_impl: T) -> (r: Self)
        ensures
            r.implementation() == trait_impl,
    {
        ActionAdjustSyncOffset { trait_impl: Arc::new(trait_impl) }
    }
}

impl<T: AdjustSyncOffset> Action for ActionAdjustSyncOffset<T> {
    open spec fn action_name(&self) -> Seq<char> {
        "AdjustSyncOffset"@
    }

    open spec fn in_arg_views(&self) -> Seq<ArgView> {
        seq![("InstanceID"@, ArgumentDirection::IN, Some("A_ARG_TYPE_InstanceID"@)), ("Adjustment"@, ArgumentDirection::IN, Some("SyncOffset"@))]
    }

    open spec fn out_arg_views(&self) -> Seq<ArgView> {
        Seq::<ArgView>::empty()
    }

    open spec fn outcome(&self, args: Seq<(Seq<char>, Seq<char>)>, r: Result<ActionArgs, Error>) -> bool {
        &&& r is Err ==> (r->Err_0 == Error::ActionFailed || r->Err_0 == Error::ArgumentValueInvalid)
        &&& r is Ok ==> r->Ok_0@ == Seq::<(Seq<char>, Seq<char>)>::empty()
        &&& adjust_sync_offset_refusal(args) matches Some(e) ==> r == Err::<ActionArgs, Error>(e)
        &&& adjust_sync_offset_refusal(args) is None ==> (r is Err ==> r->Err_0 == Error::ActionFailed)
        &&& adjust_sync_offset_refusal(args) is None ==> exists|input: super::traits::AdjustSyncOffsetInput, res: Result<super::traits::AdjustSyncOffsetOutput, T::Error>|
            adjust_sync_offset_input(args, input) && #[trigger] call_ensures(T::adjust_sync_offset, (&self.implementation(), input), res) && (r is Ok
                <==> res is Ok)
    }

    fn name(&self) -> &'static str {
        "AdjustSyncOffset"
    }

    fn in_args(&self) -> Vec<ArgumentDefinition<&'static str, &'static str>> {
        let mut v: Vec<ArgumentDefinition<&'static str, &'static str>> = Vec::new();
        v.push(ArgumentDefinition { name: "InstanceID", direction: ArgumentDirection::IN, related_state_var: Some("A_ARG_TYPE_InstanceID") });
        v.push(ArgumentDefinition { name: "Adjustment", direction: ArgumentDirection::IN, related_state_var: Some("SyncOffset") });
        assert(v@.map_values(|a: ArgumentDefinition<&'static str, &'static str>| static_arg_view(a)) =~= seq![("InstanceID"@, ArgumentDirection::IN, Some("A_ARG_TYPE_InstanceID"@)), ("Adjustment"@, ArgumentDirection::IN, Some("SyncOffset"@))]);
        v
    }

    fn out_args(&self) -> Vec<ArgumentDefinition<&'static str, &'static str>> {
        let mut v: Vec<ArgumentDefinition<&'static str, &'static str>> = Vec::new();
        assert(v@.map_values(|a: ArgumentDefinition<&'static str, &'static str>| static_arg_view(a)) =~= Seq::<ArgView>::empty());
        v
    }

    fn execute(&self, args: &ActionArgs) -> Result<ActionArgs, Error> {
        let input = match adjust_sync_offset_request(args) { Ok(i) => i, Err(e) => return Err(e) };
        let ghost handed = input;
        let res = self.trait_impl.adjust_sync_offset(input);
        assert(call_ensures(T::adjust_sync_offset, (&self.implementation(), handed), res));
        match res { Ok(_) => {}, Err(_) => return Err(Error::ActionFailed) }
        Ok(ActionArgs::new())
    }
}

pub struct ActionSyncPlay<T: SyncPlay> {
    trait_impl: Arc<T>,
}

impl<T: SyncPlay> ActionSyncPlay<T> {
    /// The application's implementation of the action.
    pub closed spec fn implementation(&self) -> T {
        *self.trait_impl
    }

    pub fn new(trait_impl: T) -> (r: Self)
        ensures
            r.implementation() == trait_impl,
    {
        ActionSyncPlay { trait_impl: Arc::new(trait_impl) }
    }
}

impl<T: SyncPlay> Action for ActionSyncPlay<T> {
    open spec fn action_name(&self) -> Seq<char> {
        "SyncPlay"@
    }

    open spec fn in_arg_views(&self) -> Seq<ArgView> {
        Seq::<ArgView>::empty()
    }

    open spec fn out_arg_views(&self) -> Seq<ArgView> {
        Seq::<ArgView>::empty()
    }

    open spec fn outcome(&self, args: Seq<(Seq<char>, Seq<char>)>, r: Result<ActionArgs, Error>) -> bool {
        &&& r is Err ==> (r->Err_0 == Error::ActionFailed)
        &&& r is Ok ==> r->Ok_0@ == Seq::<(Seq<char>, Seq<char>)>::empty()
        &&& exists|res: Result<super::traits::SyncPlayOutput, T::Error>|
            #[trigger] call_ensures(T::sync_play, (&self.implementation(),), res) && (r is Ok <==> res is Ok)
    }

    fn name(&self) -> &'static str {
        "SyncPlay"
    }

    fn in_args(&self) -> Vec<ArgumentDefinition<&'static str, &'static str>> {
        let mut v: Vec<ArgumentDefinition<&'static str, &'static str>> = Vec::new();
        assert(v@.map_values(|a: ArgumentDefinition<&'static str, &'static str>| static_arg_view(a)) =~= Seq::<ArgView>::empty());
        v
    }

    fn out_args(&self) -> Vec<ArgumentDefinition<&'static str, &'static str>> {
        let mut v: Vec<ArgumentDefinition<&'static str, &'static str>> = Vec::new();
        assert(v@.map_values(|a: ArgumentDefinition<&'static str, &'static str>| static_arg_view(a)) =~= Seq::<ArgView>::empty());
        v
    }

    fn execute(&self, _args: &ActionArgs) -> (r: Result<ActionArgs, Error>)
    {
        let res = self.trait_impl.sync_play();
        assert(call_ensures(T::sync_play, (&self.implementation(),), res));
        match res { Ok(_) => {}, Err(_) => return Err(Error::ActionFailed) }
        Ok(ActionArgs::new())
    }
}

pub struct ActionSyncStop<T: SyncStop> {
    trait_impl: Arc<T>,
}

impl<T: SyncStop> ActionSyncStop<T> {
    /// The application's implementation of the action.
    pub closed spec fn implementation(&self) -> T {
        *self.trait_impl
    }

    pub fn new(trait_impl: T) -> (r: Self)
        ensures
            r.implementation() == trait_impl,
    {
        ActionSyncStop { trait_impl: Arc::new(trait_impl) }
    }
}

impl<T: SyncStop> Action for ActionSyncStop<T> {
    open spec fn action_name(&self) -> Seq<char> {
        "SyncStop"@
    }

    open spec fn in_arg_views(&self) -> Seq<ArgView> {
        Seq::<ArgView>::empty()
    }

    open spec fn out_arg_views(&self) -> Seq<ArgView> {
        Seq::<ArgView>::empty()
    }

    open spec fn outcome(&self, args: Seq<(Seq<char>, Seq<char>)>, r: Result<ActionArgs, Error>) -> bool {
        &&& r is Err ==> (r->Err_0 == Error::ActionFailed)
        &&& r is Ok ==> r->Ok_0@ == Seq::<(Seq<char>, Seq<char>)>::empty()
        &&& exists|res: Result<super::traits::SyncStopOutput, T::Error>|
            #[trigger] call_ensures(T::sync_stop, (&self.implementation(),), res) && (r is Ok <==> res is Ok)
    }

    fn name(&self) -> &'static str {
        "SyncStop"
    }

    fn in_args(&self) -> Vec<ArgumentDefinition<&'static str, &'static str>> {
        let mut v: Vec<ArgumentDefinition<&'static str, &'static str>> = Vec::new();
        assert(v@.map_values(|a: ArgumentDefinition<&'static str, &'static str>| static_arg_view(a)) =~= Seq::<ArgView>::empty());
        v
    }

    fn out_args(&self) -> Vec<ArgumentDefinition<&'static str, &'static str>> {
        let mut v: Vec<ArgumentDefinition<&'static str, &'static str>> = Vec::new();
        assert(v@.map_values(|a: ArgumentDefinition<&'static str, &'static str>| static_arg_view(a)) =~= Seq::<ArgView>::empty());
        v
    }

    fn execute(&self, _args: &ActionArgs) -> (r: Result<ActionArgs, Error>)
    {
        let res = self.trait_impl.sync_stop();
        assert(call_ensures(T::sync_stop, (&self.implementation(),), res));
        match res { Ok(_) => {}, Err(_) => return Err(Error::ActionFailed) }
        Ok(ActionArgs::new())
    }
}

pub struct ActionSyncPause<T: SyncPause> {
    trait_impl: Arc<T>,
}

impl<T: SyncPause> ActionSyncPause<T> {
    /// The application's implementation of the action.
    pub closed spec fn implementation(&self) -> T {
        *self.trait_impl
    }

    pub fn new(trait_impl: T) -> (r: Self)
        ensures
            r.implementation() == trait_impl,
    {
        ActionSyncPause { trait_impl: Arc::new(trait_impl) }
    }
}

impl<T: SyncPause> Action for ActionSyncPause<T> {
    open spec fn action_name(&self) -> Seq<char> {
        "SyncPause"@
    }

    open spec fn in_arg_views(&self) -> Seq<ArgView> {
        Seq::<ArgView>::empty()
    }

    open spec fn out_arg_views(&self) -> Seq<ArgView> {
        Seq::<ArgView>::empty()
    }

    open spec fn outcome(&self, args: Seq<(Seq<char>, Seq<char>)>, r: Result<ActionArgs, Error>) -> bool {
        &&& r is Err ==> (r->Err_0 == Error::ActionFailed)
        &&& r is Ok ==> r->Ok_0@ == Seq::<(Seq<char>, Seq<char>)>::empty()
        &&& exists|res: Result<super::traits::SyncPauseOutput, T::Error>|
            #[trigger] call_ensures(T::sync_pause, (&self.implementation(),), res) && (r is Ok <==> res is Ok)
    }

    fn name(&self) -> &'static str {
        "SyncPause"
    }

    fn in_args(&self) -> Vec<ArgumentDefinition<&'static str, &'static str>> {
        let mut v: Vec<ArgumentDefinition<&'static str, &'static str>> = Vec::new();
        assert(v@.map_values(|a: ArgumentDefinition<&'static str, &'static str>| static_arg_view(a)) =~= Seq::<ArgView>::empty());
        v
    }

    fn out_args(&self) -> Vec<ArgumentDefinition<&'static str, &'static str>> {
        let mut v: Vec<ArgumentDefinition<&'static str, &'static str>> = Vec::new();
        assert(v@.map_values(|a: ArgumentDefinition<&'static str, &'static str>| static_arg_view(a)) =~= Seq::<ArgView>::empty());
        v
    }

    fn execute(&self, _args: &ActionArgs) -> (r: Result<ActionArgs, Error>)
    {
        let res = self.trait_impl.sync_pause();
        assert(call_ensures(T::sync_pause, (&self.implementation(),), res));
        match res { Ok(_) => {}, Err(_) => return Err(Error::ActionFailed) }
        Ok(ActionArgs::new())
    }
}

pub struct ActionSetStaticPlaylist<T: SetStaticPlaylist> {
    trait_impl: Arc<T>,
}

impl<T: SetStaticPlaylist> ActionSetStaticPlaylist<T> {
    /// The application's implementation of the action.
    pub closed spec fn implementation(&self) -> T {
        *self.trait_impl
    }

    pub fn new(trait_impl: T) -> (r: Self)
        ensures
            r.implementation() == trait_impl,
    {
        ActionSetStaticPlaylist { trait_impl: Arc::new(trait_impl) }
    }
}

impl<T: SetStaticPlaylist> Action for ActionSetStaticPlaylist<T> {
    open spec fn action_name(&self) -> Seq<char> {
        "SetStaticPlaylist"@
    }

    open spec fn in_arg_views(&self) -> Seq<ArgView> {
        seq![("InstanceID"@, ArgumentDirection::IN, Some("A_ARG_TYPE_InstanceID"@)), ("PlaylistData"@, ArgumentDirection::IN, Some("A_ARG_TYPE_PlaylistData"@)), ("PlaylistDataLength"@, ArgumentDirection::IN, Some("A_ARG_TYPE_PlaylistDataLength"@)), ("PlaylistOffset"@, ArgumentDirection::IN, Some("A_ARG_TYPE_PlaylistOffset"@)), ("PlaylistTotalLength"@, ArgumentDirection::IN, Some("A_ARG_TYPE_PlaylistTotalLength"@))]
    }

    open spec fn out_arg_views(&self) -> Seq<ArgView> {
        seq![("PlaylistDataLength"@, ArgumentDirection::OUT, Some("A_ARG_TYPE_PlaylistDataLength"@)), ("PlaylistOffset"@, ArgumentDirection::OUT, Some("A_ARG_TYPE_PlaylistOffset"@)), ("PlaylistTotalLength"@, ArgumentDirection::OUT, Some("A_ARG_TYPE_PlaylistTotalLength"@))]
    }

    open spec fn outcome(&self, args: Seq<(Seq<char>, Seq<char>)>, r: Result<ActionArgs, Error>) -> bool {
        &&& r is Err ==> (r->Err_0 == Error::ActionFailed || r->Err_0 == Error::ArgumentValueInvalid)
        &&& set_static_playlist_refusal(args) matches Some(e) ==> r == Err::<ActionArgs, Error>(e)
        &&& set_static_playlist_refusal(args) is None ==> (r is Err ==> r->Err_0 == Error::ActionFailed)
        &&& set_static_playlist_refusal(args) is None ==> exists|input: super::traits::SetStaticPlaylistInput, res: Result<super::traits::SetStaticPlaylistOutput, T::Error>|
            set_static_playlist_input(args, input) && #[trigger] call_ensures(T::set_static_playlist, (&self.implementation(), input), res) && (r is Ok
                <==> res is Ok) && (res matches Ok(o) ==> r->Ok_0@ == set_static_playlist_reply_pairs(o))
    }

    fn name(&self) -> &'static str {
        "SetStaticPlaylist"
    }

    fn in_args(&self) -> Vec<ArgumentDefinition<&'static str, &'static str>> {
        let mut v: Vec<ArgumentDefinition<&'static str, &'static str>> = Vec::new();
        v.push(ArgumentDefinition { name: "InstanceID", direction: ArgumentDirection::IN, related_state_var: Some("A_ARG_TYPE_InstanceID") });
        v.push(ArgumentDefinition { name: "PlaylistData", direction: ArgumentDirection::IN, related_state_var: Some("A_ARG_TYPE_PlaylistData") });
        v.push(ArgumentDefinition { name: "PlaylistDataLength", direction: ArgumentDirection::IN, related_state_var: Some("A_ARG_TYPE_PlaylistDataLength") });
        v.push(ArgumentDefinition { name: "PlaylistOffset", direction: ArgumentDirection::IN, related_state_var: Some("A_ARG_TYPE_PlaylistOffset") });
        v.push(ArgumentDefinition { name: "PlaylistTotalLength", direction: ArgumentDirection::IN, related_state_var: Some("A_ARG_TYPE_PlaylistTotalLength") });
        assert(v@.map_values(|a: ArgumentDefinition<&'static str, &'static str>| static_arg_view(a)) =~= seq![("InstanceID"@, ArgumentDirection::IN, Some("A_ARG_TYPE_InstanceID"@)), ("PlaylistData"@, ArgumentDirection::IN, Some("A_ARG_TYPE_PlaylistData"@)), ("PlaylistDataLength"@, ArgumentDirection::IN, Some("A_ARG_TYPE_PlaylistDataLength"@)), ("PlaylistOffset"@, ArgumentDirection::IN, Some("A_ARG_TYPE_PlaylistOffset"@)), ("PlaylistTotalLength"@, ArgumentDirection::IN, Some("A_ARG_TYPE_PlaylistTotalLength"@))]);
        v
    }

    fn out_args(&self) -> Vec<ArgumentDefinition<&'static str, &'static str>> {
        let mut v: Vec<ArgumentDefinition<&'static str, &'static str>> = Vec::new();
        v.push(ArgumentDefinition { name: "PlaylistDataLength", direction: ArgumentDirection::OUT, related_state_var: Some("A_ARG_TYPE_PlaylistDataLength") });
        v.push(ArgumentDefinition { name: "PlaylistOffset", direction: ArgumentDirection::OUT, related_state_var: Some("A_ARG_TYPE_PlaylistOffset") });
        v.push(ArgumentDefinition { name: "PlaylistTotalLength", direction: ArgumentDirection::OUT, related_state_var: Some("A_ARG_TYPE_PlaylistTotalLength") });
        assert(v@.map_values(|a: ArgumentDefinition<&'static str, &'static str>| static_arg_view(a)) =~= seq![("PlaylistDataLength"@, ArgumentDirection::OUT, Some("A_ARG_TYPE_PlaylistDataLength"@)), ("PlaylistOffset"@, ArgumentDirection::OUT, Some("A_ARG_TYPE_PlaylistOffset"@)), ("PlaylistTotalLength"@, ArgumentDirection::OUT, Some("A_ARG_TYPE_PlaylistTotalLength"@))]);
        v
    }

    fn execute(&self, args: &ActionArgs) -> Result<ActionArgs, Error> {
        let input = match set_static_playlist_request(args) { Ok(i) => i, Err(e) => return Err(e) };
        let ghost handed = input;
        let res = self.trait_impl.set_static_playlist(input);
        assert(call_ensures(T::set_static_playlist, (&self.implementation(), handed), res));
        let output = match res { Ok(o) => o, Err(_) => return Err(Error::ActionFailed) };
        Ok(set_static_playlist_reply(output))
    }
}

pub struct ActionSetStreamingPlaylist<T: SetStreamingPlaylist> {
    trait_impl: Arc<T>,
}

impl<T: SetStreamingPlaylist> ActionSetStreamingPlaylist<T> {
    /// The application's implementation of the action.
    pub closed spec fn implementation(&self) -> T {
        *self.trait_impl
    }

    pub fn new(trait_impl: T) -> (r: Self)
        ensures
            r.implementation() == trait_impl,
    {
        ActionSetStreamingPlaylist { trait_impl: Arc::new(trait_impl) }
    }
}

impl<T: SetStreamingPlaylist> Action for ActionSetStreamingPlaylist<T> {
    open spec fn action_name(&self) -> Seq<char> {
        "SetStreamingPlaylist"@
    }

    open spec fn in_arg_views(&self) -> Seq<ArgView> {
        seq![("InstanceID"@, ArgumentDirection::IN, Some("A_ARG_TYPE_InstanceID"@)), ("PlaylistData"@, ArgumentDirection::IN, Some("A_ARG_TYPE_PlaylistData"@)), ("PlaylistDataLength"@, ArgumentDirection::IN, Some("A_ARG_TYPE_PlaylistDataLength"@)), ("PlaylistOffset"@, ArgumentDirection::IN, Some("A_ARG_TYPE_PlaylistOffset"@)), ("PlaylistTotalLength"@, ArgumentDirection::IN, Some("A_ARG_TYPE_PlaylistTotalLength"@)), ("PlaylistMIMEType"@, ArgumentDirection::IN, Some("PlaylistMIMEType"@)), ("PlaylistExtendedType"@, ArgumentDirection::IN, Some("PlaylistExtendedType"@)), ("PlaylistStep"@, ArgumentDirection::IN, Some("A_ARG_TYPE_PlaylistStep"@)), ("PlaylistType"@, ArgumentDirection::IN, Some("A_ARG_TYPE_PlaylistType"@))]
    }

    open spec fn out_arg_views(&self) -> Seq<ArgView> {
        seq![("PlaylistDataLength"@, ArgumentDirection::OUT, Some("A_ARG_TYPE_PlaylistDataLength"@)), ("PlaylistOffset"@, ArgumentDirection::OUT, Some("A_ARG_TYPE_PlaylistOffset"@)), ("PlaylistTotalLength"@, ArgumentDirection::OUT, Some("A_ARG_TYPE_PlaylistTotalLength"@))]
    }

    open spec fn outcome(&self, args: Seq<(Seq<char>, Seq<char>)>, r: Result<ActionArgs, Error>) -> bool {
        &&& r is Err ==> (r->Err_0 == Error::ActionFailed || r->Err_0 == Error::ArgumentValueInvalid)
        &&& set_streaming_playlist_refusal(args) matches Some(e) ==> r == Err::<ActionArgs, Error>(e)
        &&& set_streaming_playlist_refusal(args) is None ==> (r is Err ==> r->Err_0 == Error::ActionFailed)
        &&& set_streaming_playlist_refusal(args) is None ==> exists|input: super::traits::SetStreamingPlaylistInput, res: Result<super::traits::SetStreamingPlaylistOutput, T::Error>|
            set_streaming_playlist_input(args, input) && #[trigger] call_ensures(T::set_streaming_playlist, (&self.implementation(), input), res) && (r is Ok
                <==> res is Ok) && (res matches Ok(o) ==> r->Ok_0@ == set_streaming_playlist_reply_pairs(o))
    }

    fn name(&self) -> &'static str {
        "SetStreamingPlaylist"
    }

    fn in_args(&self) -> Vec<ArgumentDefinition<&'static str, &'static str>> {
        let mut v: Vec<ArgumentDefinition<&'static str, &'static str>> = Vec::new();
        v.push(ArgumentDefinition { name: "InstanceID", direction: ArgumentDirection::IN, related_state_var: Some("A_ARG_TYPE_InstanceID") });
        v.push(ArgumentDefinition { name: "PlaylistData", direction: ArgumentDirection::IN, related_state_var: Some("A_ARG_TYPE_PlaylistData") });
        v.push(ArgumentDefinition { name: "PlaylistDataLength", direction: ArgumentDirection::IN, related_state_var: Some("A_ARG_TYPE_PlaylistDataLength") });
        v.push(ArgumentDefinition { name: "PlaylistOffset", direction: ArgumentDirection::IN, related_state_var: Some("A_ARG_TYPE_PlaylistOffset") });
        v.push(ArgumentDefinition { name: "PlaylistTotalLength", direction: ArgumentDirection::IN, related_state_var: Some("A_ARG_TYPE_PlaylistTotalLength") });
        v.push(ArgumentDefinition { name: "PlaylistMIMEType", direction: ArgumentDirection::IN, related_state_var: Some("PlaylistMIMEType") });
        v.push(ArgumentDefinition { name: "PlaylistExtendedType", direction: ArgumentDirection::IN, related_state_var: Some("PlaylistExtendedType") });
        v.push(ArgumentDefinition { name: "PlaylistStep", direction: ArgumentDirection::IN, related_state_var: Some("A_ARG_TYPE_PlaylistStep") });
        v.push(ArgumentDefinition { name: "PlaylistType", direction: ArgumentDirection::IN, related_state_var: Some("A_ARG_TYPE_PlaylistType") });
        assert(v@.map_values(|a: ArgumentDefinition<&'static str, &'static str>| static_arg_view(a)) =~= seq![("InstanceID"@, ArgumentDirection::IN, Some("A_ARG_TYPE_InstanceID"@)), ("PlaylistData"@, ArgumentDirection::IN, Some("A_ARG_TYPE_PlaylistData"@)), ("PlaylistDataLength"@, ArgumentDirection::IN, Some("A_ARG_TYPE_PlaylistDataLength"@)), ("PlaylistOffset"@, ArgumentDirection::IN, Some("A_ARG_TYPE_PlaylistOffset"@)), ("PlaylistTotalLength"@, ArgumentDirection::IN, Some("A_ARG_TYPE_PlaylistTotalLength"@)), ("PlaylistMIMEType"@, ArgumentDirection::IN, Some("PlaylistMIMEType"@)), ("PlaylistExtendedType"@, ArgumentDirection::IN, Some("PlaylistExtendedType"@)), ("PlaylistStep"@, ArgumentDirection::IN, Some("A_ARG_TYPE_PlaylistStep"@)), ("PlaylistType"@, ArgumentDirection::IN, Some("A_ARG_TYPE_PlaylistType"@))]);
        v
    }

    fn out_args(&self) -> Vec<ArgumentDefinition<&'static str, &'static str>> {
        let mut v: Vec<ArgumentDefinition<&'static str, &'static str>> = Vec::new();
        v.push(ArgumentDefinition { name: "PlaylistDataLength", direction: ArgumentDirection::OUT, related_state_var: Some("A_ARG_TYPE_PlaylistDataLength") });
        v.push(ArgumentDefinition { name: "PlaylistOffset", direction: ArgumentDirection::OUT, related_state_var: Some("A_ARG_TYPE_PlaylistOffset") });
        v.push(ArgumentDefinition { name: "PlaylistTotalLength", direction: ArgumentDirection::OUT, related_state_var: Some("A_ARG_TYPE_PlaylistTotalLength") });
        assert(v@.map_values(|a: ArgumentDefinition<&'static str, &'static str>| static_arg_view(a)) =~= seq![("PlaylistDataLength"@, ArgumentDirection::OUT, Some("A_ARG_TYPE_PlaylistDataLength"@)), ("PlaylistOffset"@, ArgumentDirection::OUT, Some("A_ARG_TYPE_PlaylistOffset"@)), ("PlaylistTotalLength"@, ArgumentDirection::OUT, Some("A_ARG_TYPE_PlaylistTotalLength"@))]);
        v
    }

    fn execute(&self, args: &ActionArgs) -> Result<ActionArgs, Error> {
        let input = match set_streaming_playlist_request(args) { Ok(i) => i, Err(e) => return Err(e) };
        let ghost handed = input;
        let res = self.trait_impl.set_streaming_playlist(input);
        assert(call_ensures(T::set_streaming_playlist, (&self.implementation(), handed), res));
        let output = match res { Ok(o) => o, Err(_) => return Err(Error::ActionFailed) };
        Ok(set_streaming_playlist_reply(output))
    }
}

pub struct ActionGetPlaylistInfo<T: GetPlaylistInfo> {
    trait_impl: Arc<T>,
}

impl<T: GetPlaylistInfo> ActionGetPlaylistInfo<T> {
    /// The application's implementation of the action.
    pub closed spec fn implementation(&self) -> T {
        *self.trait_impl
    }

    pub fn new(trait_impl: T) -> (r: Self)
        ensures
            r.implementation() == trait_impl,
    {
        ActionGetPlaylistInfo { trait_impl: Arc::new(trait_impl) }
    }
}

impl<T: GetPlaylistInfo> Action for ActionGetPlaylistInfo<T> {
    open spec fn action_name(&self) -> Seq<char> {
        "GetPlaylistInfo"@
    }

    open spec fn in_arg_views(&self) -> Seq<ArgView> {
        seq![("InstanceID"@, ArgumentDirection::IN, Some("A_ARG_TYPE_InstanceID"@))]
    }

    open spec fn out_arg_views(&self) -> Seq<ArgView> {
        seq![("PlaylistData"@, ArgumentDirection::OUT, Some("PlaylistData"@)), ("PlaylistDataLength"@, ArgumentDirection::OUT, Some("PlaylistDataLength"@)), ("PlaylistOffset"@, ArgumentDirection::OUT, Some("PlaylistOffset"@)), ("PlaylistTotalLength"@, ArgumentDirection::OUT, Some("PlaylistTotalLength"@)), ("PlaylistMIMEType"@, ArgumentDirection::OUT, Some("PlaylistMIMEType"@)), ("PlaylistExtendedType"@, ArgumentDirection::OUT, Some("PlaylistExtendedType"@)), ("PlaylistStep"@, ArgumentDirection::OUT, Some("PlaylistStep"@)), ("PlaylistType"@, ArgumentDirection::OUT, Some("PlaylistType"@)), ("PlaylistInfo"@, ArgumentDirection::OUT, Some("PlaylistInfo"@))]
    }

    open spec fn outcome(&self, args: Seq<(Seq<char>, Seq<char>)>, r: Result<ActionArgs, Error>) -> bool {
        &&& r is Err ==> (r->Err_0 == Error::ActionFailed)
        &&& exists|res: Result<super::traits::GetPlaylistInfoOutput, T::Error>|
            #[trigger] call_ensures(
                T::get_playlist_info,
                (&self.implementation(), super::traits::GetMediaInfoInput { instance_id: instance_arg(args) }),
                res,
            ) && (r is Ok <==> res is Ok) && (res matches Ok(o) ==> r->Ok_0@ == get_playlist_info_reply_pairs(o))
    }

    fn name(&self) -> &'static str {
        "GetPlaylistInfo"
    }

    fn in_args(&self) -> Vec<ArgumentDefinition<&'static str, &'static str>> {
        let mut v: Vec<ArgumentDefinition<&'static str, &'static str>> = Vec::new();
        v.push(ArgumentDefinition { name: "InstanceID", direction: ArgumentDirection::IN, related_state_var: Some("A_ARG_TYPE_InstanceID") });
        assert(v@.map_values(|a: ArgumentDefinition<&'static str, &'static str>| static_arg_view(a)) =~= seq![("InstanceID"@, ArgumentDirection::IN, Some("A_ARG_TYPE_InstanceID"@))]);
        v
    }

    fn out_args(&self) -> Vec<ArgumentDefinition<&'static str, &'static str>> {
        let mut v: Vec<ArgumentDefinition<&'static str, &'static str>> = Vec::new();
        v.push(ArgumentDefinition { name: "PlaylistData", direction: ArgumentDirection::OUT, related_state_var: Some("PlaylistData") });
        v.push(ArgumentDefinition { name: "PlaylistDataLength", direction: ArgumentDirection::OUT, related_state_var: Some("PlaylistDataLength") });
        v.push(ArgumentDefinition { name: "PlaylistOffset", direction: ArgumentDirection::OUT, related_state_var: Some("PlaylistOffset") });
        v.push(ArgumentDefinition { name: "PlaylistTotalLength", direction: ArgumentDirection::OUT, related_state_var: Some("PlaylistTotalLength") });
        v.push(ArgumentDefinition { name: "PlaylistMIMEType", direction: ArgumentDirection::OUT, related_state_var: Some("PlaylistMIMEType") });
        v.push(ArgumentDefinition { name: "PlaylistExtendedType", direction: ArgumentDirection::OUT, related_state_var: Some("PlaylistExtendedType") });
        v.push(ArgumentDefinition { name: "PlaylistStep", direction: ArgumentDirection::OUT, related_state_var: Some("PlaylistStep") });
        v.push(ArgumentDefinition { name: "PlaylistType", direction: ArgumentDirection::OUT, related_state_var: Some("PlaylistType") });
        v.push(ArgumentDefinition { name: "PlaylistInfo", direction: ArgumentDirection::OUT, related_state_var: Some("PlaylistInfo") });
        assert(v@.map_values(|a: ArgumentDefinition<&'static str, &'static str>| static_arg_view(a)) =~= seq![("PlaylistData"@, ArgumentDirection::OUT, Some("PlaylistData"@)), ("PlaylistDataLength"@, ArgumentDirection::OUT, Some("PlaylistDataLength"@)), ("PlaylistOffset"@, ArgumentDirection::OUT, Some("PlaylistOffset"@)), ("PlaylistTotalLength"@, ArgumentDirection::OUT, Some("PlaylistTotalLength"@)), ("PlaylistMIMEType"@, ArgumentDirection::OUT, Some("PlaylistMIMEType"@)), ("PlaylistExtendedType"@, ArgumentDirection::OUT, Some("PlaylistExtendedType"@)), ("PlaylistStep"@, ArgumentDirection::OUT, Some("PlaylistStep"@)), ("PlaylistType"@, ArgumentDirection::OUT, Some("PlaylistType"@)), ("PlaylistInfo"@, ArgumentDirection::OUT, Some("PlaylistInfo"@))]);
        v
    }

    fn execute(&self, args: &ActionArgs) -> Result<ActionArgs, Error> {
        let input = match get_playlist_info_request(args) { Ok(i) => i, Err(e) => return Err(e) };
        let ghost handed = input;
        let res = self.trait_impl.get_playlist_info(input);
        assert(call_ensures(T::get_playlist_info, (&self.implementation(), handed), res));
        let output = match res { Ok(o) => o, Err(_) => return Err(Error::ActionFailed) };
        Ok(get_playlist_info_reply(output))
    }
}

pub struct ActionGetMediaInfoExt<T: GetMediaInfoExt> {
    trait_impl: Arc<T>,
}

impl<T: GetMediaInfoExt> ActionGetMediaInfoExt<T> {
    /// The application's implementation of the action.
    pub closed spec fn implementation(&self) -> T {
        *self.trait_impl
    }

    pub fn new(trait_impl: T) -> (r: Self)
        ensures
            r.implementation() == trait_impl,
    {
        ActionGetMediaInfoExt { trait_impl: Arc::new(trait_impl) }
    }
}

impl<T: GetMediaInfoExt> Action for ActionGetMediaInfoExt<T> {
    open spec fn action_name(&self) -> Seq<char> {
        "GetMediaInfo_Ext"@
    }

    open spec fn in_arg_views(&self) -> Seq<ArgView> {
        seq![("InstanceID"@, ArgumentDirection::IN, Some("A_ARG_TYPE_InstanceID"@))]
    }

    open spec fn out_arg_views(&self) -> Seq<ArgView> {
        seq![("NrTracks"@, ArgumentDirection::OUT, Some("NumberOfTracks"@)), ("MediaDuration"@, ArgumentDirection::OUT, Some("CurrentMediaDuration"@)), ("CurrentURI"@, ArgumentDirection::OUT, Some("AVTransportURI"@)), ("CurrentURIMetaData"@, ArgumentDirection::OUT, Some("AVTransportURIMetaData"@)), ("NextURI"@, ArgumentDirection::OUT, Some("NextAVTransportURI"@)), ("NextURIMetaData"@, ArgumentDirection::OUT, Some("NextAVTransportURIMetaData"@)), ("PlayMedium"@, ArgumentDirection::OUT, Some("PlaybackStorageMedium"@)), ("RecordMedium"@, ArgumentDirection::OUT, Some("RecordStorageMedium"@)), ("WriteStatus"@, ArgumentDirection::OUT, Some("RecordMediumWriteStatus"@)), ("CurrentTrackMetaData"@, ArgumentDirection::OUT, Some("CurrentTrackMetaData"@)), ("TrackDuration"@, ArgumentDirection::OUT, Some("CurrentTrackDuration"@)), ("TrackURI"@, ArgumentDirection::OUT, Some("CurrentTrackURI"@)), ("RelTime"@, ArgumentDirection::OUT, Some("RelativeTimePosition"@)), ("AbsTime"@, ArgumentDirection::OUT, Some("AbsoluteTimePosition"@)), ("RelCount"@, ArgumentDirection::OUT, Some("RelativeCounterPosition"@)), ("AbsCount"@, ArgumentDirection::OUT, Some("AbsoluteCounterPosition"@)), ("TransportState"@, ArgumentDirection::OUT, Some("TransportState"@)), ("TransportStatus"@, ArgumentDirection::OUT, Some("TransportStatus"@)), ("TransportSpeed"@, ArgumentDirection::OUT, Some("TransportPlaySpeed"@)), ("TrackNavEnabled"@, ArgumentDirection::OUT, None::<Seq<char>>)]
    }

    open spec fn outcome(&self, args: Seq<(Seq<char>, Seq<char>)>, r: Result<ActionArgs, Error>) -> bool {
        &&& r is Err ==> (r->Err_0 == Error::ActionFailed)
        &&& exists|res: Result<super::traits::GetMediaInfoExtOutput, T::Error>|
            #[trigger] call_ensures(
                T::get_media_info_ext,
                (&self.implementation(), super::traits::GetMediaInfoInput { instance_id: instance_arg(args) }),
                res,
            ) && (r is Ok <==> res is Ok) && (res matches Ok(o) ==> r->Ok_0@ == get_media_info_ext_reply_pairs(o))
    }

    fn name(&self) -> &'static str {
        "GetMediaInfo_Ext"
    }

    fn in_args(&self) -> Vec<ArgumentDefinition<&'static str, &'static str>> {
        let mut v: Vec<ArgumentDefinition<&'static str, &'static str>> = Vec::new();
        v.push(ArgumentDefinition { name: "InstanceID", direction: ArgumentDirection::IN, related_state_var: Some("A_ARG_TYPE_InstanceID") });
        assert(v@.map_values(|a: ArgumentDefinition<&'static str, &'static str>| static_arg_view(a)) =~= seq![("InstanceID"@, ArgumentDirection::IN, Some("A_ARG_TYPE_InstanceID"@))]);
        v
    }

    fn out_args(&self) -> Vec<ArgumentDefinition<&'static str, &'static str>> {
        let mut v: Vec<ArgumentDefinition<&'static str, &'static str>> = Vec::new();
        v.push(ArgumentDefinition { name: "NrTracks", direction: ArgumentDirection::OUT, related_state_var: Some("NumberOfTracks") });
        v.push(ArgumentDefinition { name: "MediaDuration", direction: ArgumentDirection::OUT, related_state_var: Some("CurrentMediaDuration") });
        v.push(ArgumentDefinition { name: "CurrentURI", direction: ArgumentDirection::OUT, related_state_var: Some("AVTransportURI") });
        v.push(ArgumentDefinition { name: "CurrentURIMetaData", direction: ArgumentDirection::OUT, related_state_var: Some("AVTransportURIMetaData") });
        v.push(ArgumentDefinition { name: "NextURI", direction: ArgumentDirection::OUT, related_state_var: Some("NextAVTransportURI") });
        v.push(ArgumentDefinition { name: "NextURIMetaData", direction: ArgumentDirection::OUT, related_state_var: Some("NextAVTransportURIMetaData") });
        v.push(ArgumentDefinition { name: "PlayMedium", direction: ArgumentDirection::OUT, related_state_var: Some("PlaybackStorageMedium") });
        v.push(ArgumentDefinition { name: "RecordMedium", direction: ArgumentDirection::OUT, related_state_var: Some("RecordStorageMedium") });
        v.push(ArgumentDefinition { name: "WriteStatus", direction: ArgumentDirection::OUT, related_state_var: Some("RecordMediumWriteStatus") });
        v.push(ArgumentDefinition { name: "CurrentTrackMetaData", direction: ArgumentDirection::OUT, related_state_var: Some("CurrentTrackMetaData") });
        v.push(ArgumentDefinition { name: "TrackDuration", direction: ArgumentDirection::OUT, related_state_var: Some("CurrentTrackDuration") });
        v.push(ArgumentDefinition { name: "TrackURI", direction: ArgumentDirection::OUT, related_state_var: Some("CurrentTrackURI") });
        v.push(ArgumentDefinition { name: "RelTime", direction: ArgumentDirection::OUT, related_state_var: Some("RelativeTimePosition") });
        v.push(ArgumentDefinition { name: "AbsTime", direction: ArgumentDirection::OUT, related_state_var: Some("AbsoluteTimePosition") });
        v.push(ArgumentDefinition { name: "RelCount", direction: ArgumentDirection::OUT, related_state_var: Some("RelativeCounterPosition") });
        v.push(ArgumentDefinition { name: "AbsCount", direction: ArgumentDirection::OUT, related_state_var: Some("AbsoluteCounterPosition") });
        v.push(ArgumentDefinition { name: "TransportState", direction: ArgumentDirection::OUT, related_state_var: Some("TransportState") });
        v.push(ArgumentDefinition { name: "TransportStatus", direction: ArgumentDirection::OUT, related_state_var: Some("TransportStatus") });
        v.push(ArgumentDefinition { name: "TransportSpeed", direction: ArgumentDirection::OUT, related_state_var: Some("TransportPlaySpeed") });
        v.push(ArgumentDefinition { name: "TrackNavEnabled", direction: ArgumentDirection::OUT, related_state_var: None });
        assert(v@.map_values(|a: ArgumentDefinition<&'static str, &'static str>| static_arg_view(a)) =~= seq![("NrTracks"@, ArgumentDirection::OUT, Some("NumberOfTracks"@)), ("MediaDuration"@, ArgumentDirection::OUT, Some("CurrentMediaDuration"@)), ("CurrentURI"@, ArgumentDirection::OUT, Some("AVTransportURI"@)), ("CurrentURIMetaData"@, ArgumentDirection::OUT, Some("AVTransportURIMetaData"@)), ("NextURI"@, ArgumentDirection::OUT, Some("NextAVTransportURI"@)), ("NextURIMetaData"@, ArgumentDirection::OUT, Some("NextAVTransportURIMetaData"@)), ("PlayMedium"@, ArgumentDirection::OUT, Some("PlaybackStorageMedium"@)), ("RecordMedium"@, ArgumentDirection::OUT, Some("RecordStorageMedium"@)), ("WriteStatus"@, ArgumentDirection::OUT, Some("RecordMediumWriteStatus"@)), ("CurrentTrackMetaData"@, ArgumentDirection::OUT, Some("CurrentTrackMetaData"@)), ("TrackDuration"@, ArgumentDirection::OUT, Some("CurrentTrackDuration"@)), ("TrackURI"@, ArgumentDirection::OUT, Some("CurrentTrackURI"@)), ("RelTime"@, ArgumentDirection::OUT, Some("RelativeTimePosition"@)), ("AbsTime"@, ArgumentDirection::OUT, Some("AbsoluteTimePosition"@)), ("RelCount"@, ArgumentDirection::OUT, Some("RelativeCounterPosition"@)), ("AbsCount"@, ArgumentDirection::OUT, Some("AbsoluteCounterPosition"@)), ("TransportState"@, ArgumentDirection::OUT, Some("TransportState"@)), ("TransportStatus"@, ArgumentDirection::OUT, Some("TransportStatus"@)), ("TransportSpeed"@, ArgumentDirection::OUT, Some("TransportPlaySpeed"@)), ("TrackNavEnabled"@, ArgumentDirection::OUT, None::<Seq<char>>)]);
        v
    }

    fn execute(&self, args: &ActionArgs) -> Result<ActionArgs, Error> {
        let input = match get_media_info_ext_request(args) { Ok(i) => i, Err(e) => return Err(e) };
        let ghost handed = input;
        let res = self.trait_impl.get_media_info_ext(input);
        assert(call_ensures(T::get_media_info_ext, (&self.implementation(), handed), res));
        let output = match res { Ok(o) => o, Err(_) => return Err(Error::ActionFailed) };
        Ok(get_media_info_ext_reply(output))
    }
}

// ---------------------------------------------------------------------------
// OUT arguments
// ---------------------------------------------------------------------------

/// The OUT arguments of GetMediaInfo for the application's output, in order.
pub open spec fn get_media_info_reply_pairs(o: super::traits::GetMediaInfoOutput) -> Seq<(Seq<char>, Seq<char>)> {
    seq![("NrTracks"@, crate::text::nat_to_decimal(o.nr_tracks as nat)), ("MediaDuration"@, o.media_duration@), ("CurrentURI"@, o.current_uri@), ("CurrentURIMetaData"@, o.current_uri_metadata@), ("NextURI"@, o.next_uri@), ("NextURIMetaData"@, o.next_uri_metadata@), ("PlayMedium"@, super::statics::storage_medium_str(o.play_medium)), ("RecordMedium"@, super::statics::storage_medium_str(o.record_medium)), ("WriteStatus"@, super::statics::record_medium_write_status_str(o.write_status))]
}

/// The OUT arguments of GetMediaInfo for the application's output.
pub fn get_media_info_reply(o: super::traits::GetMediaInfoOutput) -> (r: ActionArgs)
    ensures
        r@ == get_media_info_reply_pairs(o),
{
    let ghost target = get_media_info_reply_pairs(o);
    let mut pairs: Vec<(String, String)> = Vec::new();
    pairs.push((to_owned_string("NrTracks"), u64_to_string(o.nr_tracks as u64)));
    pairs.push((to_owned_string("MediaDuration"), o.media_duration));
    pairs.push((to_owned_string("CurrentURI"), o.current_uri));
    pairs.push((to_owned_string("CurrentURIMetaData"), o.current_uri_metadata));
    pairs.push((to_owned_string("NextURI"), o.next_uri));
    pairs.push((to_owned_string("NextURIMetaData"), o.next_uri_metadata));
    pairs.push((to_owned_string("PlayMedium"), to_owned_string(o.play_medium.as_str())));
    pairs.push((to_owned_string("RecordMedium"), to_owned_string(o.record_medium.as_str())));
    pairs.push((to_owned_string("WriteStatus"), to_owned_string(o.write_status.as_str())));
    assert(crate::types::upnp::pairs_view(pairs@) =~= target);
    ActionArgs::from_pairs(pairs)
}

/// The OUT arguments of GetTransportInfo for the application's output, in order.
pub open spec fn get_transport_info_reply_pairs(o: super::traits::GetTransportInfoOutput) -> Seq<(Seq<char>, Seq<char>)> {
    seq![("CurrentTransportState"@, super::statics::transport_state_str(o.transport_state)), ("CurrentTransportStatus"@, super::statics::transport_status_str(o.transport_status)), ("CurrentSpeed"@, o.play_speed@)]
}

/// The OUT arguments of GetTransportInfo for the application's output.
pub fn get_transport_info_reply(o: super::traits::GetTransportInfoOutput) -> (r: ActionArgs)
    ensures
        r@ == get_transport_info_reply_pairs(o),
{
    let ghost target = get_transport_info_reply_pairs(o);
    let mut pairs: Vec<(String, String)> = Vec::new();
    pairs.push((to_owned_string("CurrentTransportState"), to_owned_string(o.transport_state.as_str())));
    pairs.push((to_owned_string("CurrentTransportStatus"), to_owned_string(o.transport_status.as_str())));
    pairs.push((to_owned_string("CurrentSpeed"), o.play_speed));
    assert(crate::types::upnp::pairs_view(pairs@) =~= target);
    ActionArgs::from_pairs(pairs)
}

/// The OUT arguments of GetPositionInfo for the application's output, in order.
pub open spec fn get_position_info_reply_pairs(o: super::traits::GetPositionInfoOutput) -> Seq<(Seq<char>, Seq<char>)> {
    seq![("Track"@, crate::text::nat_to_decimal(o.track as nat)), ("TrackDuration"@, o.track_duration@), ("TrackMetaData"@, o.track_metadata@), ("TrackURI"@, o.track_uri@), ("RelTime"@, o.rel_time@), ("AbsTime"@, o.abs_time@), ("RelCount"@, crate::text::int_to_decimal(o.rel_count as int)), ("AbsCount"@, crate::text::nat_to_decimal(o.abs_count as nat))]
}

/// The OUT arguments of GetPositionInfo for the application's output.
pub fn get_position_info_reply(o: super::traits::GetPositionInfoOutput) -> (r: ActionArgs)
    ensures
        r@ == get_position_info_reply_pairs(o),
{
    let ghost target = get_position_info_reply_pairs(o);
    let mut pairs: Vec<(String, String)> = Vec::new();
    pairs.push((to_owned_string("Track"), u64_to_string(o.track as u64)));
    pairs.push((to_owned_string("TrackDuration"), o.track_duration));
    pairs.push((to_owned_string("TrackMetaData"), o.track_metadata));
    pairs.push((to_owned_string("TrackURI"), o.track_uri));
    pairs.push((to_owned_string("RelTime"), o.rel_time));
    pairs.push((to_owned_string("AbsTime"), o.abs_time));
    pairs.push((to_owned_string("RelCount"), i64_to_string(o.rel_count as i64)));
    pairs.push((to_owned_string("AbsCount"), u64_to_string(o.abs_count as u64)));
    assert(crate::types::upnp::pairs_view(pairs@) =~= target);
    ActionArgs::from_pairs(pairs)
}

/// The OUT arguments of GetDeviceCapabilities for the application's output, in order.
pub open spec fn get_device_capabilities_reply_pairs(o: super::traits::GetDeviceCapabilitiesOutput) -> Seq<(Seq<char>, Seq<char>)> {
    seq![("PlayMedia"@, o.play_media@), ("RecMedia"@, o.rec_media@), ("RecQualityModes"@, o.rec_quality_modes@)]
}

/// The OUT arguments of GetDeviceCapabilities for the application's output.
pub fn get_device_capabilities_reply(o: super::traits::GetDeviceCapabilitiesOutput) -> (r: ActionArgs)
    ensures
        r@ == get_device_capabilities_reply_pairs(o),
{
    let ghost target = get_device_capabilities_reply_pairs(o);
    let mut pairs: Vec<(String, String)> = Vec::new();
    pairs.push((to_owned_string("PlayMedia"), o.play_media));
    pairs.push((to_owned_string("RecMedia"), o.rec_media));
    pairs.push((to_owned_string("RecQualityModes"), o.rec_quality_modes));
    assert(crate::types::upnp::pairs_view(pairs@) =~= target);
    ActionArgs::from_pairs(pairs)
}

/// The OUT arguments of GetTransportSettings for the application's output, in order.
pub open spec fn get_transport_settings_reply_pairs(o: super::traits::GetTransportSettingsOutput) -> Seq<(Seq<char>, Seq<char>)> {
    seq![("PlayMode"@, super::statics::play_mode_str(o.play_mode)), ("RecQualityMode"@, o.rec_quality_mode@)]
}

/// The OUT arguments of GetTransportSettings for the application's output.
pub fn get_transport_settings_reply(o: super::traits::GetTransportSettingsOutput) -> (r: ActionArgs)
    ensures
        r@ == get_transport_settings_reply_pairs(o),
{
    let ghost target = get_transport_settings_reply_pairs(o);
    let mut pairs: Vec<(String, String)> = Vec::new();
    pairs.push((to_owned_string("PlayMode"), to_owned_string(o.play_mode.as_str())));
    pairs.push((to_owned_string("RecQualityMode"), o.rec_quality_mode));
    assert(crate::types::upnp::pairs_view(pairs@) =~= target);
    ActionArgs::from_pairs(pairs)
}

/// The OUT arguments of GetCurrentTransportActions for the application's output, in order.
pub open spec fn get_current_transport_actions_reply_pairs(o: super::traits::GetCurrentTransportActionsOutput) -> Seq<(Seq<char>, Seq<char>)> {
    seq![("Actions"@, o.actions@)]
}

/// The OUT arguments of GetCurrentTransportActions for the application's output.
pub fn get_current_transport_actions_reply(o: super::traits::GetCurrentTransportActionsOutput) -> (r: ActionArgs)
    ensures
        r@ == get_current_transport_actions_reply_pairs(o),
{
    let ghost target = get_current_transport_actions_reply_pairs(o);
    let mut pairs: Vec<(String, String)> = Vec::new();
    pairs.push((to_owned_string("Actions"), o.actions));
    assert(crate::types::upnp::pairs_view(pairs@) =~= target);
    ActionArgs::from_pairs(pairs)
}

/// The OUT arguments of GetDRMState for the application's output, in order.
pub open spec fn get_drm_state_reply_pairs(o: super::traits::GetDRMStateOutput) -> Seq<(Seq<char>, Seq<char>)> {
    seq![("DRMState"@, o.drm_state@)]
}

/// The OUT arguments of GetDRMState for the application's output.
pub fn get_drm_state_reply(o: super::traits::GetDRMStateOutput) -> (r: ActionArgs)
    ensures
        r@ == get_drm_state_reply_pairs(o),
{
    let ghost target = get_drm_state_reply_pairs(o);
    let mut pairs: Vec<(String, String)> = Vec::new();
    pairs.push((to_owned_string("DRMState"), o.drm_state));
    assert(crate::types::upnp::pairs_view(pairs@) =~= target);
    ActionArgs::from_pairs(pairs)
}

/// The OUT arguments of GetStateVariables for the application's output, in order.
pub open spec fn get_state_variables_reply_pairs(o: super::traits::GetStateVariablesOutput) -> Seq<(Seq<char>, Seq<char>)> {
    seq![("StateVariableValuePairs"@, crate::services::args::state_pairs_document(crate::types::upnp::pairs_view(o.values@)))]
}

/// The OUT arguments of GetStateVariables for the application's output.
pub fn get_state_variables_reply(o: super::traits::GetStateVariablesOutput) -> (r: ActionArgs)
    ensures
        r@ == get_state_variables_reply_pairs(o),
{
    let ghost target = get_state_variables_reply_pairs(o);
    let mut pairs: Vec<(String, String)> = Vec::new();
    pairs.push((to_owned_string("StateVariableValuePairs"), state_pairs_xml(&o.values)));
    assert(crate::types::upnp::pairs_view(pairs@) =~= target);
    ActionArgs::from_pairs(pairs)
}

/// The OUT arguments of GetSyncOffset for the application's output, in order.
pub open spec fn get_sync_offset_reply_pairs(o: super::traits::GetSyncOffsetOutput) -> Seq<(Seq<char>, Seq<char>)> {
    seq![("CurrentSyncOffset"@, o.sync_offset@)]
}

/// The OUT arguments of GetSyncOffset for the application's output.
pub fn get_sync_offset_reply(o: super::traits::GetSyncOffsetOutput) -> (r: ActionArgs)
    ensures
        r@ == get_sync_offset_reply_pairs(o),
{
    let ghost target = get_sync_offset_reply_pairs(o);
    let mut pairs: Vec<(String, String)> = Vec::new();
    pairs.push((to_owned_string("CurrentSyncOffset"), o.sync_offset));
    assert(crate::types::upnp::pairs_view(pairs@) =~= target);
    ActionArgs::from_pairs(pairs)
}

/// The OUT arguments of SetStaticPlaylist for the application's output, in order.
pub open spec fn set_static_playlist_reply_pairs(o: super::traits::SetStaticPlaylistOutput) -> Seq<(Seq<char>, Seq<char>)> {
    seq![("PlaylistDataLength"@, crate::text::nat_to_decimal(o.playlist_data_length as nat)), ("PlaylistOffset"@, crate::text::nat_to_decimal(o.playlist_offset as nat)), ("PlaylistTotalLength"@, crate::text::nat_to_decimal(o.playlist_total_length as nat))]
}

/// The OUT arguments of SetStaticPlaylist for the application's output.
pub fn set_static_playlist_reply(o: super::traits::SetStaticPlaylistOutput) -> (r: ActionArgs)
    ensures
        r@ == set_static_playlist_reply_pairs(o),
{
    let ghost target = set_static_playlist_reply_pairs(o);
    let mut pairs: Vec<(String, String)> = Vec::new();
    pairs.push((to_owned_string("PlaylistDataLength"), u64_to_string(o.playlist_data_length as u64)));
    pairs.push((to_owned_string("PlaylistOffset"), u64_to_string(o.playlist_offset as u64)));
    pairs.push((to_owned_string("PlaylistTotalLength"), u64_to_string(o.playlist_total_length as u64)));
    assert(crate::types::upnp::pairs_view(pairs@) =~= target);
    ActionArgs::from_pairs(pairs)
}

/// The OUT arguments of SetStreamingPlaylist for the application's output, in order.
pub open spec fn set_streaming_playlist_reply_pairs(o: super::traits::SetStreamingPlaylistOutput) -> Seq<(Seq<char>, Seq<char>)> {
    seq![("PlaylistDataLength"@, crate::text::nat_to_decimal(o.playlist_data_length as nat)), ("PlaylistOffset"@, crate::text::nat_to_decimal(o.playlist_offset as nat)), ("PlaylistTotalLength"@, crate::text::nat_to_decimal(o.playlist_total_length as nat))]
}

/// The OUT arguments of SetStreamingPlaylist for the application's output.
pub fn set_streaming_playlist_reply(o: super::traits::SetStreamingPlaylistOutput) -> (r: ActionArgs)
    ensures
        r@ == set_streaming_playlist_reply_pairs(o),
{
    let ghost target = set_streaming_playlist_reply_pairs(o);
    let mut pairs: Vec<(String, String)> = Vec::new();
    pairs.push((to_owned_string("PlaylistDataLength"), u64_to_string(o.playlist_data_length as u64)));
    pairs.push((to_owned_string("PlaylistOffset"), u64_to_string(o.playlist_offset as u64)));
    pairs.push((to_owned_string("PlaylistTotalLength"), u64_to_string(o.playlist_total_length as u64)));
    assert(crate::types::upnp::pairs_view(pairs@) =~= target);
    ActionArgs::from_pairs(pairs)
}

/// The OUT arguments of GetPlaylistInfo for the application's output, in order.
pub open spec fn get_playlist_info_reply_pairs(o: super::traits::GetPlaylistInfoOutput) -> Seq<(Seq<char>, Seq<char>)> {
    seq![("PlaylistData"@, o.playlist_data@), ("PlaylistDataLength"@, crate::text::nat_to_decimal(o.playlist_data_length as nat)), ("PlaylistOffset"@, crate::text::nat_to_decimal(o.playlist_offset as nat)), ("PlaylistTotalLength"@, crate::text::nat_to_decimal(o.playlist_total_length as nat)), ("PlaylistMIMEType"@, o.playlist_mime_type@), ("PlaylistExtendedType"@, o.playlist_extended_type@), ("PlaylistStep"@, o.playlist_step@), ("PlaylistType"@, o.playlist_type@), ("PlaylistInfo"@, o.playlist_info@)]
}

/// The OUT arguments of GetPlaylistInfo for the application's output.
pub fn get_playlist_info_reply(o: super::traits::GetPlaylistInfoOutput) -> (r: ActionArgs)
    ensures
        r@ == get_playlist_info_reply_pairs(o),
{
    let ghost target = get_playlist_info_reply_pairs(o);
    let mut pairs: Vec<(String, String)> = Vec::new();
    pairs.push((to_owned_string("PlaylistData"), o.playlist_data));
    pairs.push((to_owned_string("PlaylistDataLength"), u64_to_string(o.playlist_data_length as u64)));
    pairs.push((to_owned_string("PlaylistOffset"), u64_to_string(o.playlist_offset as u64)));
    pairs.push((to_owned_string("PlaylistTotalLength"), u64_to_string(o.playlist_total_length as u64)));
    pairs.push((to_owned_string("PlaylistMIMEType"), o.playlist_mime_type));
    pairs.push((to_owned_string("PlaylistExtendedType"), o.playlist_extended_type));
    pairs.push((to_owned_string("PlaylistStep"), o.playlist_step));
    pairs.push((to_owned_string("PlaylistType"), o.playlist_type));
    pairs.push((to_owned_string("PlaylistInfo"), o.playlist_info));
    assert(crate::types::upnp::pairs_view(pairs@) =~= target);
    ActionArgs::from_pairs(pairs)
}

/// The OUT arguments of GetMediaInfoExt for the application's output, in order.
pub open spec fn get_media_info_ext_reply_pairs(o: super::traits::GetMediaInfoExtOutput) -> Seq<(Seq<char>, Seq<char>)> {
    seq![("NrTracks"@, crate::text::nat_to_decimal(o.nr_tracks as nat)), ("MediaDuration"@, o.media_duration@), ("CurrentURI"@, o.current_uri@), ("CurrentURIMetaData"@, o.current_uri_metadata@), ("NextURI"@, o.next_uri@), ("NextURIMetaData"@, o.next_uri_metadata@), ("PlayMedium"@, super::statics::storage_medium_str(o.play_medium)), ("RecordMedium"@, super::statics::storage_medium_str(o.record_medium)), ("WriteStatus"@, super::statics::record_medium_write_status_str(o.write_status)), ("CurrentTrackMetaData"@, o.current_track_metadata@), ("TrackDuration"@, o.track_duration@), ("TrackURI"@, o.track_uri@), ("RelTime"@, o.rel_time@), ("AbsTime"@, o.abs_time@), ("RelCount"@, crate::text::int_to_decimal(o.rel_count as int)), ("AbsCount"@, crate::text::nat_to_decimal(o.abs_count as nat)), ("TransportState"@, super::statics::transport_state_str(o.transport_state)), ("TransportStatus"@, super::statics::transport_status_str(o.transport_status)), ("TransportSpeed"@, o.transport_speed@), ("TrackNavEnabled"@, if o.track_nav_enabled { "1"@ } else { "0"@ })]
}

/// GetMediaInfoExt ends its OUT arguments with `TrackNavEnabled`, which read
/// as a UPnP boolean is the application's `track_nav_enabled`.
pub proof fn lemma_track_nav_enabled_reads_back(o: super::traits::GetMediaInfoExtOutput)
    ensures
        get_media_info_ext_reply_pairs(o).len() == 20,
        get_media_info_ext_reply_pairs(o).last().0 == "TrackNavEnabled"@,
        crate::services::args::boolean_text_value(get_media_info_ext_reply_pairs(o).last().1) == Some(
            o.track_nav_enabled,
        ),
{
    crate::services::args::lemma_boolean_words();
}

/// The OUT arguments of GetMediaInfoExt for the application's output.
pub fn get_media_info_ext_reply(o: super::traits::GetMediaInfoExtOutput) -> (r: ActionArgs)
    ensures
        r@ == get_media_info_ext_reply_pairs(o),
        r@.last().0 == "TrackNavEnabled"@,
        crate::services::args::boolean_text_value(r@.last().1) == Some(o.track_nav_enabled),
{
    proof {
        lemma_track_nav_enabled_reads_back(o);
    }
    let ghost target = get_media_info_ext_reply_pairs(o);
    let mut pairs: Vec<(String, String)> = Vec::new();
    pairs.push((to_owned_string("NrTracks"), u64_to_string(o.nr_tracks as u64)));
    pairs.push((to_owned_string("MediaDuration"), o.media_duration));
    pairs.push((to_owned_string("CurrentURI"), o.current_uri));
    pairs.push((to_owned_string("CurrentURIMetaData"), o.current_uri_metadata));
    pairs.push((to_owned_string("NextURI"), o.next_uri));
    pairs.push((to_owned_string("NextURIMetaData"), o.next_uri_metadata));
    pairs.push((to_owned_string("PlayMedium"), to_owned_string(o.play_medium.as_str())));
    pairs.push((to_owned_string("RecordMedium"), to_owned_string(o.record_medium.as_str())));
    pairs.push((to_owned_string("WriteStatus"), to_owned_string(o.write_status.as_str())));
    pairs.push((to_owned_string("CurrentTrackMetaData"), o.current_track_metadata));
    pairs.push((to_owned_string("TrackDuration"), o.track_duration));
    pairs.push((to_owned_string("TrackURI"), o.track_uri));
    pairs.push((to_owned_string("RelTime"), o.rel_time));
    pairs.push((to_owned_string("AbsTime"), o.abs_time));
    pairs.push((to_owned_string("RelCount"), i64_to_string(o.rel_count as i64)));
    pairs.push((to_owned_string("AbsCount"), u64_to_string(o.abs_count as u64)));
    pairs.push((to_owned_string("TransportState"), to_owned_string(o.transport_state.as_str())));
    pairs.push((to_owned_string("TransportStatus"), to_owned_string(o.transport_status.as_str())));
    pairs.push((to_owned_string("TransportSpeed"), o.transport_speed));
    pairs.push((to_owned_string("TrackNavEnabled"), if o.track_nav_enabled { to_owned_string("1") } else { to_owned_string("0") }));
    assert(crate::types::upnp::pairs_view(pairs@) =~= target);
    ActionArgs::from_pairs(pairs)
}

// ---------------------------------------------------------------------------
// IN arguments
// ---------------------------------------------------------------------------

/// The input Play hands to the application, read from its IN arguments.
/// The input the request hands to the application.
pub open spec fn play_input(args: Seq<(Seq<char>, Seq<char>)>, i: super::traits::PlayInput) -> bool {
    i.instance_id == (match crate::text::parse_unsigned(crate::services::args::arg_text(args, "InstanceID"@, "0"@), u32::MAX as nat) { Some(n) => n as u32, None => (0) as u32 }) && i.speed@ == crate::services::args::arg_text(args, "Speed"@, "1"@)
}

pub fn play_request(args: &ActionArgs) -> (r: Result<super::traits::PlayInput, Error>)
    ensures
        r matches Ok(i) && play_input(args@, i),
{
    let instance_id_text = arg_or(args, "InstanceID", "0");
    let instance_id: u32 = match parse_u32(instance_id_text.as_str()) { Some(x) => x, None => 0 };
    let speed = arg_or(args, "Speed", "1");
    let r = PlayInput { instance_id, speed: speed.clone() };
    Ok(r)
}

/// The input Stop hands to the application, read from its IN arguments.
/// The input the request hands to the application.
pub open spec fn stop_input(args: Seq<(Seq<char>, Seq<char>)>, i: super::traits::StopInput) -> bool {
    i.instance_id == (match crate::text::parse_unsigned(crate::services::args::arg_text(args, "InstanceID"@, "0"@), u32::MAX as nat) { Some(n) => n as u32, None => (0) as u32 })
}

pub fn stop_request(args: &ActionArgs) -> (r: Result<super::traits::StopInput, Error>)
    ensures
        r matches Ok(i) && stop_input(args@, i),
{
    let instance_id_text = arg_or(args, "InstanceID", "0");
    let instance_id: u32 = match parse_u32(instance_id_text.as_str()) { Some(x) => x, None => 0 };
    let r = StopInput { instance_id };
    Ok(r)
}

/// The error with which Seek refuses its IN arguments, if any.
pub open spec fn seek_refusal(a: Seq<(Seq<char>, Seq<char>)>) -> Option<Error> {
    if crate::types::upnp::lookup(a, "Unit"@) is None {
        Some(Error::ArgumentValueInvalid)
    } else if crate::types::upnp::lookup(a, "Target"@) is None {
        Some(Error::ArgumentValueInvalid)
    } else {
        None
    }
}

/// The input Seek hands to the application, read from its IN arguments.
/// The input the request hands to the application.
pub open spec fn seek_input(args: Seq<(Seq<char>, Seq<char>)>, i: super::traits::SeekInput) -> bool {
    i.instance_id == (match crate::text::parse_unsigned(crate::services::args::arg_text(args, "InstanceID"@, "0"@), u32::MAX as nat) { Some(n) => n as u32, None => (0) as u32 }) && i.unit@ == crate::types::upnp::lookup(args, "Unit"@)->0 && i.target@ == crate::types::upnp::lookup(args, "Target"@)->0
}

pub fn seek_request(args: &ActionArgs) -> (r: Result<super::traits::SeekInput, Error>)
    ensures
        match seek_refusal(args@) {
            Some(e) => r == Err::<super::traits::SeekInput, Error>(e),
            None => r matches Ok(i) && seek_input(args@, i),
        },
{
    let instance_id_text = arg_or(args, "InstanceID", "0");
    let instance_id: u32 = match parse_u32(instance_id_text.as_str()) { Some(x) => x, None => 0 };
    let unit = match arg_required(args, "Unit", Error::ArgumentValueInvalid) { Ok(x) => x, Err(err) => return Err(err) };
    let target = match arg_required(args, "Target", Error::ArgumentValueInvalid) { Ok(x) => x, Err(err) => return Err(err) };
    let r = SeekInput { instance_id, unit, target };
    Ok(r)
}

/// The input Next hands to the application, read from its IN arguments.
/// The input the request hands to the application.
pub open spec fn next_input(args: Seq<(Seq<char>, Seq<char>)>, i: super::traits::NextInput) -> bool {
    i.instance_id == (match crate::text::parse_unsigned(crate::services::args::arg_text(args, "InstanceID"@, "0"@), u32::MAX as nat) { Some(n) => n as u32, None => (0) as u32 })
}

pub fn next_request(args: &ActionArgs) -> (r: Result<super::traits::NextInput, Error>)
    ensures
        r matches Ok(i) && next_input(args@, i),
{
    let instance_id_text = arg_or(args, "InstanceID", "0");
    let instance_id: u32 = match parse_u32(instance_id_text.as_str()) { Some(x) => x, None => 0 };
    let r = NextInput { instance_id };
    Ok(r)
}

/// The input Previous hands to the application, read from its IN arguments.
/// The input the request hands to the application.
pub open spec fn previous_input(args: Seq<(Seq<char>, Seq<char>)>, i: super::traits::PreviousInput) -> bool {
    i.instance_id == (match crate::text::parse_unsigned(crate::services::args::arg_text(args, "InstanceID"@, "0"@), u32::MAX as nat) { Some(n) => n as u32, None => (0) as u32 })
}

pub fn previous_request(args: &ActionArgs) -> (r: Result<super::traits::PreviousInput, Error>)
    ensures
        r matches Ok(i) && previous_input(args@, i),
{
    let instance_id_text = arg_or(args, "InstanceID", "0");
    let instance_id: u32 = match parse_u32(instance_id_text.as_str()) { Some(x) => x, None => 0 };
    let r = PreviousInput { instance_id };
    Ok(r)
}

/// The error with which SetAVTransportURI refuses its IN arguments, if any.
pub open spec fn set_av_transport_uri_refusal(a: Seq<(Seq<char>, Seq<char>)>) -> Option<Error> {
    if crate::types::upnp::lookup(a, "CurrentURI"@) is None {
        Some(Error::ArgumentValueInvalid)
    } else {
        None
    }
}

/// The input SetAVTransportURI hands to the application, read from its IN arguments.
/// The input the request hands to the application.
pub open spec fn set_av_transport_uri_input(args: Seq<(Seq<char>, Seq<char>)>, i: super::traits::SetAVTransportURIInput) -> bool {
    i.instance_id == (match crate::text::parse_unsigned(crate::services::args::arg_text(args, "InstanceID"@, "0"@), u32::MAX as nat) { Some(n) => n as u32, None => (0) as u32 }) && i.current_uri@ == crate::types::upnp::lookup(args, "CurrentURI"@)->0 && i.current_uri_metadata@ == crate::services::args::arg_text(args, "CurrentURIMetaData"@, ""@)
}

pub fn set_av_transport_uri_request(args: &ActionArgs) -> (r: Result<super::traits::SetAVTransportURIInput, Error>)
    ensures
        match set_av_transport_uri_refusal(args@) {
            Some(e) => r == Err::<super::traits::SetAVTransportURIInput, Error>(e),
            None => r matches Ok(i) && set_av_transport_uri_input(args@, i),
        },
{
    let instance_id_text = arg_or(args, "InstanceID", "0");
    let instance_id: u32 = match parse_u32(instance_id_text.as_str()) { Some(x) => x, None => 0 };
    let current_uri = match arg_required(args, "CurrentURI", Error::ArgumentValueInvalid) { Ok(x) => x, Err(err) => return Err(err) };
    let current_uri_metadata = arg_or(args, "CurrentURIMetaData", "");
    let r = SetAVTransportURIInput { instance_id, current_uri: current_uri.clone(), current_uri_metadata: current_uri_metadata.clone() };
    Ok(r)
}

/// The input GetMediaInfo hands to the application, read from its IN arguments.
/// The input the request hands to the application.
pub open spec fn get_media_info_input(args: Seq<(Seq<char>, Seq<char>)>, i: super::traits::GetMediaInfoInput) -> bool {
    i.instance_id == (match crate::text::parse_unsigned(crate::services::args::arg_text(args, "InstanceID"@, "0"@), u32::MAX as nat) { Some(n) => n as u32, None => (0) as u32 })
}

pub fn get_media_info_request(args: &ActionArgs) -> (r: Result<super::traits::GetMediaInfoInput, Error>)
    ensures
        r matches Ok(i) && get_media_info_input(args@, i),
{
    let instance_id_text = arg_or(args, "InstanceID", "0");
    let instance_id: u32 = match parse_u32(instance_id_text.as_str()) { Some(x) => x, None => 0 };
    let r = GetMediaInfoInput { instance_id };
    Ok(r)
}

/// The input GetTransportInfo hands to the application, read from its IN arguments.
/// The input the request hands to the application.
pub open spec fn get_transport_info_input(args: Seq<(Seq<char>, Seq<char>)>, i: super::traits::GetTransportInfoInput) -> bool {
    i.instance_id == (match crate::text::parse_unsigned(crate::services::args::arg_text(args, "InstanceID"@, "0"@), u32::MAX as nat) { Some(n) => n as u32, None => (0) as u32 })
}

pub fn get_transport_info_request(args: &ActionArgs) -> (r: Result<super::traits::GetTransportInfoInput, Error>)
    ensures
        r matches Ok(i) && get_transport_info_input(args@, i),
{
    let instance_id_text = arg_or(args, "InstanceID", "0");
    let instance_id: u32 = match parse_u32(instance_id_text.as_str()) { Some(x) => x, None => 0 };
    let r = GetTransportInfoInput { instance_id };
    Ok(r)
}

/// The input GetPositionInfo hands to the application, read from its IN arguments.
/// The input the request hands to the application.
pub open spec fn get_position_info_input(args: Seq<(Seq<char>, Seq<char>)>, i: super::traits::GetPositionInfoInput) -> bool {
    i.instance_id == (match crate::text::parse_unsigned(crate::services::args::arg_text(args, "InstanceID"@, "0"@), u32::MAX as nat) { Some(n) => n as u32, None => (0) as u32 })
}

pub fn get_position_info_request(args: &ActionArgs) -> (r: Result<super::traits::GetPositionInfoInput, Error>)
    ensures
        r matches Ok(i) && get_position_info_input(args@, i),
{
    let instance_id_text = arg_or(args, "InstanceID", "0");
    let instance_id: u32 = match parse_u32(instance_id_text.as_str()) { Some(x) => x, None => 0 };
    let r = GetPositionInfoInput { instance_id };
    Ok(r)
}

/// The input GetDeviceCapabilities hands to the application, read from its IN arguments.
/// The input the request hands to the application.
pub open spec fn get_device_capabilities_input(args: Seq<(Seq<char>, Seq<char>)>, i: super::traits::GetDeviceCapabilitiesInput) -> bool {
    i.instance_id == (match crate::text::parse_unsigned(crate::services::args::arg_text(args, "InstanceID"@, "0"@), u32::MAX as nat) { Some(n) => n as u32, None => (0) as u32 })
}

pub fn get_device_capabilities_request(args: &ActionArgs) -> (r: Result<super::traits::GetDeviceCapabilitiesInput, Error>)
    ensures
        r matches Ok(i) && get_device_capabilities_input(args@, i),
{
    let instance_id_text = arg_or(args, "InstanceID", "0");
    let instance_id: u32 = match parse_u32(instance_id_text.as_str()) { Some(x) => x, None => 0 };
    let r = GetDeviceCapabilitiesInput { instance_id };
    Ok(r)
}

/// The input GetTransportSettings hands to the application, read from its IN arguments.
/// The input the request hands to the application.
pub open spec fn get_transport_settings_input(args: Seq<(Seq<char>, Seq<char>)>, i: super::traits::GetTransportSettingsInput) -> bool {
    i.instance_id == (match crate::text::parse_unsigned(crate::services::args::arg_text(args, "InstanceID"@, "0"@), u32::MAX as nat) { Some(n) => n as u32, None => (0) as u32 })
}

pub fn get_transport_settings_request(args: &ActionArgs) -> (r: Result<super::traits::GetTransportSettingsInput, Error>)
    ensures
        r matches Ok(i) && get_transport_settings_input(args@, i),
{
    let instance_id_text = arg_or(args, "InstanceID", "0");
    let instance_id: u32 = match parse_u32(instance_id_text.as_str()) { Some(x) => x, None => 0 };
    let r = GetTransportSettingsInput { instance_id };
    Ok(r)
}

/// The error with which SetNextAVTransportURI refuses its IN arguments, if any.
pub open spec fn set_next_av_transport_uri_refusal(a: Seq<(Seq<char>, Seq<char>)>) -> Option<Error> {
    if crate::types::upnp::lookup(a, "NextURI"@) is None {
        Some(Error::ArgumentValueInvalid)
    } else {
        None
    }
}

/// The input SetNextAVTransportURI hands to the application, read from its IN arguments.
/// The input the request hands to the application.
pub open spec fn set_next_av_transport_uri_input(args: Seq<(Seq<char>, Seq<char>)>, i: super::traits::SetNextAVTransportURIInput) -> bool {
    i.instance_id == (match crate::text::parse_unsigned(crate::services::args::arg_text(args, "InstanceID"@, "0"@), u32::MAX as nat) { Some(n) => n as u32, None => (0) as u32 }) && i.next_uri@ == crate::types::upnp::lookup(args, "NextURI"@)->0 && i.next_uri_metadata@ == crate::services::args::arg_text(args, "NextURIMetaData"@, ""@)
}

pub fn set_next_av_transport_uri_request(args: &ActionArgs) -> (r: Result<super::traits::SetNextAVTransportURIInput, Error>)
    ensures
        match set_next_av_transport_uri_refusal(args@) {
            Some(e) => r == Err::<super::traits::SetNextAVTransportURIInput, Error>(e),
            None => r matches Ok(i) && set_next_av_transport_uri_input(args@, i),
        },
{
    let instance_id_text = arg_or(args, "InstanceID", "0");
    let instance_id: u32 = match parse_u32(instance_id_text.as_str()) { Some(x) => x, None => 0 };
    let next_uri = match arg_required(args, "NextURI", Error::ArgumentValueInvalid) { Ok(x) => x, Err(err) => return Err(err) };
    let next_uri_metadata = arg_or(args, "NextURIMetaData", "");
    let r = SetNextAVTransportURIInput { instance_id, next_uri, next_uri_metadata };
    Ok(r)
}

/// The input Pause hands to the application, read from its IN arguments.
/// The input the request hands to the application.
pub open spec fn pause_input(args: Seq<(Seq<char>, Seq<char>)>, i: super::traits::PauseInput) -> bool {
    i.instance_id == (match crate::text::parse_unsigned(crate::services::args::arg_text(args, "InstanceID"@, "0"@), u32::MAX as nat) { Some(n) => n as u32, None => (0) as u32 })
}

pub fn pause_request(args: &ActionArgs) -> (r: Result<super::traits::PauseInput, Error>)
    ensures
        r matches Ok(i) && pause_input(args@, i),
{
    let instance_id_text = arg_or(args, "InstanceID", "0");
    let instance_id: u32 = match parse_u32(instance_id_text.as_str()) { Some(x) => x, None => 0 };
    let r = PauseInput { instance_id };
    Ok(r)
}

/// The error with which SetPlayMode refuses its IN arguments, if any.
pub open spec fn set_play_mode_refusal(a: Seq<(Seq<char>, Seq<char>)>) -> Option<Error> {
    if crate::types::upnp::lookup(a, "NewPlayMode"@) is None {
        Some(Error::ArgumentValueInvalid)
    } else if super::statics::play_mode_from_str(crate::types::upnp::lookup(a, "NewPlayMode"@)->0) is None {
        Some(Error::ArgumentValueInvalid)
    } else {
        None
    }
}

/// The input SetPlayMode hands to the application, read from its IN arguments.
/// The input the request hands to the application.
pub open spec fn set_play_mode_input(args: Seq<(Seq<char>, Seq<char>)>, i: super::traits::SetPlayModeInput) -> bool {
    i.instance_id == (match crate::text::parse_unsigned(crate::services::args::arg_text(args, "InstanceID"@, "0"@), u32::MAX as nat) { Some(n) => n as u32, None => (0) as u32 }) && i.play_mode == super::statics::play_mode_from_str(crate::types::upnp::lookup(args, "NewPlayMode"@)->0)->0
}

pub fn set_play_mode_request(args: &ActionArgs) -> (r: Result<super::traits::SetPlayModeInput, Error>)
    ensures
        match set_play_mode_refusal(args@) {
            Some(e) => r == Err::<super::traits::SetPlayModeInput, Error>(e),
            None => r matches Ok(i) && set_play_mode_input(args@, i),
        },
{
    let instance_id_text = arg_or(args, "InstanceID", "0");
    let instance_id: u32 = match parse_u32(instance_id_text.as_str()) { Some(x) => x, None => 0 };
    let play_mode_str = match arg_required(args, "NewPlayMode", Error::ArgumentValueInvalid) { Ok(x) => x, Err(err) => return Err(err) };
    let play_mode = match PlayMode::from_str(play_mode_str.as_str()) { Some(x) => x, None => return Err(Error::ArgumentValueInvalid) };
    let r = SetPlayModeInput { instance_id, play_mode };
    Ok(r)
}

/// The input GetCurrentTransportActions hands to the application, read from its IN arguments.
/// The input the request hands to the application.
pub open spec fn get_current_transport_actions_input(args: Seq<(Seq<char>, Seq<char>)>, i: super::traits::GetCurrentTransportActionsInput) -> bool {
    i.instance_id == (match crate::text::parse_unsigned(crate::services::args::arg_text(args, "InstanceID"@, "0"@), u32::MAX as nat) { Some(n) => n as u32, None => (0) as u32 })
}

pub fn get_current_transport_actions_request(args: &ActionArgs) -> (r: Result<super::traits::GetCurrentTransportActionsInput, Error>)
    ensures
        r matches Ok(i) && get_current_transport_actions_input(args@, i),
{
    let instance_id_text = arg_or(args, "InstanceID", "0");
    let instance_id: u32 = match parse_u32(instance_id_text.as_str()) { Some(x) => x, None => 0 };
    let r = GetCurrentTransportActionsInput { instance_id };
    Ok(r)
}

/// The input Record hands to the application, read from its IN arguments.
/// The input the request hands to the application.
pub open spec fn record_input(args: Seq<(Seq<char>, Seq<char>)>, i: super::traits::StopInput) -> bool {
    i.instance_id == (match crate::text::parse_unsigned(crate::services::args::arg_text(args, "InstanceID"@, "0"@), u32::MAX as nat) { Some(n) => n as u32, None => (0) as u32 })
}

pub fn record_request(args: &ActionArgs) -> (r: Result<super::traits::StopInput, Error>)
    ensures
        r matches Ok(i) && record_input(args@, i),
{
    let instance_id_text = arg_or(args, "InstanceID", "0");
    let instance_id: u32 = match parse_u32(instance_id_text.as_str()) { Some(x) => x, None => 0 };
    let r = StopInput { instance_id };
    Ok(r)
}

/// The error with which SetRecordQualityMode refuses its IN arguments, if any.
pub open spec fn set_record_quality_mode_refusal(a: Seq<(Seq<char>, Seq<char>)>) -> Option<Error> {
    if crate::types::upnp::lookup(a, "NewRecordQualityMode"@) is None {
        Some(Error::ArgumentValueInvalid)
    } else {
        None
    }
}

/// The input SetRecordQualityMode hands to the application, read from its IN arguments.
/// The input the request hands to the application.
pub open spec fn set_record_quality_mode_input(args: Seq<(Seq<char>, Seq<char>)>, i: super::traits::SetRecordQualityModeInput) -> bool {
    i.instance_id == (match crate::text::parse_unsigned(crate::services::args::arg_text(args, "InstanceID"@, "0"@), u32::MAX as nat) { Some(n) => n as u32, None => (0) as u32 }) && i.rec_quality_mode@ == crate::types::upnp::lookup(args, "NewRecordQualityMode"@)->0
}

pub fn set_record_quality_mode_request(args: &ActionArgs) -> (r: Result<super::traits::SetRecordQualityModeInput, Error>)
    ensures
        match set_record_quality_mode_refusal(args@) {
            Some(e) => r == Err::<super::traits::SetRecordQualityModeInput, Error>(e),
            None => r matches Ok(i) && set_record_quality_mode_input(args@, i),
        },
{
    let instance_id_text = arg_or(args, "InstanceID", "0");
    let instance_id: u32 = match parse_u32(instance_id_text.as_str()) { Some(x) => x, None => 0 };
    let rec_quality_mode = match arg_required(args, "NewRecordQualityMode", Error::ArgumentValueInvalid) { Ok(x) => x, Err(err) => return Err(err) };
    let r = SetRecordQualityModeInput { instance_id, rec_quality_mode };
    Ok(r)
}

/// The error with which SetSyncOffset refuses its IN arguments, if any.
pub open spec fn set_sync_offset_refusal(a: Seq<(Seq<char>, Seq<char>)>) -> Option<Error> {
    if crate::types::upnp::lookup(a, "NewSyncOffset"@) is None {
        Some(Error::ArgumentValueInvalid)
    } else {
        None
    }
}

/// The input SetSyncOffset hands to the application, read from its IN arguments.
/// The input the request hands to the application.
pub open spec fn set_sync_offset_input(args: Seq<(Seq<char>, Seq<char>)>, i: super::traits::SetSyncOffsetInput) -> bool {
    i.instance_id == (match crate::text::parse_unsigned(crate::services::args::arg_text(args, "InstanceID"@, "0"@), u32::MAX as nat) { Some(n) => n as u32, None => (0) as u32 }) && i.new_sync_offset@ == crate::types::upnp::lookup(args, "NewSyncOffset"@)->0
}

pub fn set_sync_offset_request(args: &ActionArgs) -> (r: Result<super::traits::SetSyncOffsetInput, Error>)
    ensures
        match set_sync_offset_refusal(args@) {
            Some(e) => r == Err::<super::traits::SetSyncOffsetInput, Error>(e),
            None => r matches Ok(i) && set_sync_offset_input(args@, i),
        },
{
    let instance_id_text = arg_or(args, "InstanceID", "0");
    let instance_id: u32 = match parse_u32(instance_id_text.as_str()) { Some(x) => x, None => 0 };
    let new_sync_offset = match arg_required(args, "NewSyncOffset", Error::ArgumentValueInvalid) { Ok(x) => x, Err(err) => return Err(err) };
    let r = SetSyncOffsetInput { instance_id, new_sync_offset: new_sync_offset };
    Ok(r)
}

/// The error with which AdjustSyncOffset refuses its IN arguments, if any.
pub open spec fn adjust_sync_offset_refusal(a: Seq<(Seq<char>, Seq<char>)>) -> Option<Error> {
    if crate::types::upnp::lookup(a, "Adjustment"@) is None {
        Some(Error::ArgumentValueInvalid)
    } else {
        None
    }
}

/// The input AdjustSyncOffset hands to the application, read from its IN arguments.
/// The input the request hands to the application.
pub open spec fn adjust_sync_offset_input(args: Seq<(Seq<char>, Seq<char>)>, i: super::traits::AdjustSyncOffsetInput) -> bool {
    i.instance_id == (match crate::text::parse_unsigned(crate::services::args::arg_text(args, "InstanceID"@, "0"@), u32::MAX as nat) { Some(n) => n as u32, None => (0) as u32 }) && i.adjustment == (match crate::text::parse_signed(crate::types::upnp::lookup(args, "Adjustment"@)->0, i32::MAX as nat, 2147483648) { Some(n) => n as i32, None => (0) as i32 }) && i.sync_point@ == crate::services::args::arg_text(args, "SyncPoint"@, "0"@)
}

pub fn adjust_sync_offset_request(args: &ActionArgs) -> (r: Result<super::traits::AdjustSyncOffsetInput, Error>)
    ensures
        match adjust_sync_offset_refusal(args@) {
            Some(e) => r == Err::<super::traits::AdjustSyncOffsetInput, Error>(e),
            None => r matches Ok(i) && adjust_sync_offset_input(args@, i),
        },
{
    let instance_id_text = arg_or(args, "InstanceID", "0");
    let instance_id: u32 = match parse_u32(instance_id_text.as_str()) { Some(x) => x, None => 0 };
    let adjustment = match arg_required(args, "Adjustment", Error::ArgumentValueInvalid) { Ok(x) => x, Err(err) => return Err(err) };
    let adj: i32 = match parse_i32(adjustment.as_str()) { Some(x) => x, None => 0 };
    let sync_point = arg_or(args, "SyncPoint", "0");
    let r = AdjustSyncOffsetInput { instance_id, adjustment: adj, sync_point };
    Ok(r)
}

/// The error with which SetStaticPlaylist refuses its IN arguments, if any.
pub open spec fn set_static_playlist_refusal(a: Seq<(Seq<char>, Seq<char>)>) -> Option<Error> {
    if crate::types::upnp::lookup(a, "PlaylistData"@) is None {
        Some(Error::ArgumentValueInvalid)
    } else if crate::types::upnp::lookup(a, "PlaylistDataLength"@) is None {
        Some(Error::ArgumentValueInvalid)
    } else if crate::types::upnp::lookup(a, "PlaylistOffset"@) is None {
        Some(Error::ArgumentValueInvalid)
    } else if crate::types::upnp::lookup(a, "PlaylistTotalLength"@) is None {
        Some(Error::ArgumentValueInvalid)
    } else {
        None
    }
}

/// The input SetStaticPlaylist hands to the application, read from its IN arguments.
/// The input the request hands to the application.
pub open spec fn set_static_playlist_input(args: Seq<(Seq<char>, Seq<char>)>, i: super::traits::SetStaticPlaylistInput) -> bool {
    i.instance_id == (match crate::text::parse_unsigned(crate::services::args::arg_text(args, "InstanceID"@, "0"@), u32::MAX as nat) { Some(n) => n as u32, None => (0) as u32 }) && i.playlist_data@ == crate::types::upnp::lookup(args, "PlaylistData"@)->0 && i.playlist_data_length == (match crate::text::parse_unsigned(crate::types::upnp::lookup(args, "PlaylistDataLength"@)->0, u32::MAX as nat) { Some(n) => n as u32, None => (0) as u32 }) && i.playlist_offset == (match crate::text::parse_unsigned(crate::types::upnp::lookup(args, "PlaylistOffset"@)->0, u32::MAX as nat) { Some(n) => n as u32, None => (0) as u32 }) && i.playlist_total_length == (match crate::text::parse_unsigned(crate::types::upnp::lookup(args, "PlaylistTotalLength"@)->0, u32::MAX as nat) { Some(n) => n as u32, None => (0) as u32 })
}

pub fn set_static_playlist_request(args: &ActionArgs) -> (r: Result<super::traits::SetStaticPlaylistInput, Error>)
    ensures
        match set_static_playlist_refusal(args@) {
            Some(e) => r == Err::<super::traits::SetStaticPlaylistInput, Error>(e),
            None => r matches Ok(i) && set_static_playlist_input(args@, i),
        },
{
    let instance_id_text = arg_or(args, "InstanceID", "0");
    let instance_id: u32 = match parse_u32(instance_id_text.as_str()) { Some(x) => x, None => 0 };
    let playlist_data = match arg_required(args, "PlaylistData", Error::ArgumentValueInvalid) { Ok(x) => x, Err(err) => return Err(err) };
    let playlist_data_length_text = match arg_required(args, "PlaylistDataLength", Error::ArgumentValueInvalid) { Ok(x) => x, Err(err) => return Err(err) };
    let playlist_data_length: u32 = match parse_u32(playlist_data_length_text.as_str()) { Some(x) => x, None => 0 };
    let playlist_offset_text = match arg_required(args, "PlaylistOffset", Error::ArgumentValueInvalid) { Ok(x) => x, Err(err) => return Err(err) };
    let playlist_offset: u32 = match parse_u32(playlist_offset_text.as_str()) { Some(x) => x, None => 0 };
    let playlist_total_length_text = match arg_required(args, "PlaylistTotalLength", Error::ArgumentValueInvalid) { Ok(x) => x, Err(err) => return Err(err) };
    let playlist_total_length: u32 = match parse_u32(playlist_total_length_text.as_str()) { Some(x) => x, None => 0 };
    let r = SetStaticPlaylistInput { instance_id, playlist_data, playlist_data_length, playlist_offset, playlist_total_length };
    Ok(r)
}

/// The error with which SetStreamingPlaylist refuses its IN arguments, if any.
pub open spec fn set_streaming_playlist_refusal(a: Seq<(Seq<char>, Seq<char>)>) -> Option<Error> {
    if crate::types::upnp::lookup(a, "PlaylistData"@) is None {
        Some(Error::ArgumentValueInvalid)
    } else if crate::types::upnp::lookup(a, "PlaylistDataLength"@) is None {
        Some(Error::ArgumentValueInvalid)
    } else if crate::types::upnp::lookup(a, "PlaylistOffset"@) is None {
        Some(Error::ArgumentValueInvalid)
    } else if crate::types::upnp::lookup(a, "PlaylistTotalLength"@) is None {
        Some(Error::ArgumentValueInvalid)
    } else {
        None
    }
}

/// The input SetStreamingPlaylist hands to the application, read from its IN arguments.
/// The input the request hands to the application.
pub open spec fn set_streaming_playlist_input(args: Seq<(Seq<char>, Seq<char>)>, i: super::traits::SetStreamingPlaylistInput) -> bool {
    i.instance_id == (match crate::text::parse_unsigned(crate::services::args::arg_text(args, "InstanceID"@, "0"@), u32::MAX as nat) { Some(n) => n as u32, None => (0) as u32 }) && i.playlist_data@ == crate::types::upnp::lookup(args, "PlaylistData"@)->0 && i.playlist_data_length == (match crate::text::parse_unsigned(crate::types::upnp::lookup(args, "PlaylistDataLength"@)->0, u32::MAX as nat) { Some(n) => n as u32, None => (0) as u32 }) && i.playlist_offset == (match crate::text::parse_unsigned(crate::types::upnp::lookup(args, "PlaylistOffset"@)->0, u32::MAX as nat) { Some(n) => n as u32, None => (0) as u32 }) && i.playlist_total_length == (match crate::text::parse_unsigned(crate::types::upnp::lookup(args, "PlaylistTotalLength"@)->0, u32::MAX as nat) { Some(n) => n as u32, None => (0) as u32 }) && i.mime_type@ == crate::services::args::arg_text(args, "PlaylistMIMEType"@, ""@) && i.extended_type@ == crate::services::args::arg_text(args, "PlaylistExtendedType"@, ""@) && i.step@ == crate::services::args::arg_text(args, "PlaylistStep"@, ""@) && i.playlist_type@ == crate::services::args::arg_text(args, "PlaylistType"@, ""@)
}

pub fn set_streaming_playlist_request(args: &ActionArgs) -> (r: Result<super::traits::SetStreamingPlaylistInput, Error>)
    ensures
        match set_streaming_playlist_refusal(args@) {
            Some(e) => r == Err::<super::traits::SetStreamingPlaylistInput, Error>(e),
            None => r matches Ok(i) && set_streaming_playlist_input(args@, i),
        },
{
    let instance_id_text = arg_or(args, "InstanceID", "0");
    let instance_id: u32 = match parse_u32(instance_id_text.as_str()) { Some(x) => x, None => 0 };
    let playlist_data = match arg_required(args, "PlaylistData", Error::ArgumentValueInvalid) { Ok(x) => x, Err(err) => return Err(err) };
    let playlist_data_length_text = match arg_required(args, "PlaylistDataLength", Error::ArgumentValueInvalid) { Ok(x) => x, Err(err) => return Err(err) };
    let playlist_data_length: u32 = match parse_u32(playlist_data_length_text.as_str()) { Some(x) => x, None => 0 };
    let playlist_offset_text = match arg_required(args, "PlaylistOffset", Error::ArgumentValueInvalid) { Ok(x) => x, Err(err) => return Err(err) };
    let playlist_offset: u32 = match parse_u32(playlist_offset_text.as_str()) { Some(x) => x, None => 0 };
    let playlist_total_length_text = match arg_required(args, "PlaylistTotalLength", Error::ArgumentValueInvalid) { Ok(x) => x, Err(err) => return Err(err) };
    let playlist_total_length: u32 = match parse_u32(playlist_total_length_text.as_str()) { Some(x) => x, None => 0 };
    let mime_type = arg_or(args, "PlaylistMIMEType", "");
    let extended_type = arg_or(args, "PlaylistExtendedType", "");
    let step = arg_or(args, "PlaylistStep", "");
    let playlist_type = arg_or(args, "PlaylistType", "");
    let r = SetStreamingPlaylistInput { instance_id, playlist_data, playlist_data_length, playlist_offset, playlist_total_length, mime_type, extended_type, step, playlist_type };
    Ok(r)
}

/// The input GetPlaylistInfo hands to the application, read from its IN arguments.
/// The input the request hands to the application.
pub open spec fn get_playlist_info_input(args: Seq<(Seq<char>, Seq<char>)>, i: super::traits::GetMediaInfoInput) -> bool {
    i.instance_id == (match crate::text::parse_unsigned(crate::services::args::arg_text(args, "InstanceID"@, "0"@), u32::MAX as nat) { Some(n) => n as u32, None => (0) as u32 })
}

pub fn get_playlist_info_request(args: &ActionArgs) -> (r: Result<super::traits::GetMediaInfoInput, Error>)
    ensures
        r matches Ok(i) && get_playlist_info_input(args@, i),
{
    let instance_id_text = arg_or(args, "InstanceID", "0");
    let instance_id: u32 = match parse_u32(instance_id_text.as_str()) { Some(x) => x, None => 0 };
    let r = GetMediaInfoInput { instance_id };
    Ok(r)
}

/// The input GetMediaInfoExt hands to the application, read from its IN arguments.
/// The input the request hands to the application.
pub open spec fn get_media_info_ext_input(args: Seq<(Seq<char>, Seq<char>)>, i: super::traits::GetMediaInfoInput) -> bool {
    i.instance_id == (match crate::text::parse_unsigned(crate::services::args::arg_text(args, "InstanceID"@, "0"@), u32::MAX as nat) { Some(n) => n as u32, None => (0) as u32 })
}

pub fn get_media_info_ext_request(args: &ActionArgs) -> (r: Result<super::traits::GetMediaInfoInput, Error>)
    ensures
        r matches Ok(i) && get_media_info_ext_input(args@, i),
{
    let instance_id_text = arg_or(args, "InstanceID", "0");
    let instance_id: u32 = match parse_u32(instance_id_text.as_str()) { Some(x) => x, None => 0 };
    let r = GetMediaInfoInput { instance_id };
    Ok(r)
}

/// The variables GetStateVariables asks for: none named (all of them) for
/// `*`, else the names of the comma-separated list.
pub open spec fn requested_vars(list: Seq<char>) -> Seq<Seq<char>> {
    if list == "*"@ {
        Seq::empty()
    } else {
        crate::services::args::csv_items(list)
    }
}

/// The input GetStateVariables hands to the application, read from its IN arguments.
pub fn get_state_variables_request(args: &ActionArgs) -> (r: super::traits::GetStateVariablesInput)
    ensures
        r.instance_id == (match crate::text::parse_unsigned(crate::services::args::arg_text(args@, "InstanceID"@, "0"@), u32::MAX as nat) { Some(n) => n as u32, None => 0u32 }),
        r.var_list@.map_values(|x: String| x@) == requested_vars(
            crate::services::args::arg_text(args@, "StateVariableList"@, "*"@),
        ),
{
    let instance_id_text = arg_or(args, "InstanceID", "0");
    let instance_id: u32 = match parse_u32(instance_id_text.as_str()) { Some(x) => x, None => 0 };
    let state_var_list_raw = arg_or(args, "StateVariableList", "*");
    let state_var_list: Vec<String> = if str_eq(state_var_list_raw.as_str(), "*") {
        let v: Vec<String> = Vec::new();
        assert(v@.map_values(|x: String| x@) =~= Seq::<Seq<char>>::empty());
        v
    } else {
        split_csv(state_var_list_raw.as_str())
    };
    GetStateVariablesInput { instance_id, var_list: state_var_list }
}

/// The error with which SetStateVariables refuses its IN arguments, if any.
pub open spec fn set_state_variables_refusal(a: Seq<(Seq<char>, Seq<char>)>) -> Option<Error> {
    if crate::types::upnp::lookup(a, "StateVariableValuePairs"@) is None {
        Some(Error::ArgumentValueInvalid)
    } else {
        None
    }
}

/// The input SetStateVariables hands to the application: the value-pairs
/// document with the service type, as one pair.
/// The input the request hands to the application.
pub open spec fn set_state_variables_input(args: Seq<(Seq<char>, Seq<char>)>, i: super::traits::SetStateVariablesInput) -> bool {
    i.instance_id == (match crate::text::parse_unsigned(crate::services::args::arg_text(args, "InstanceID"@, "0"@), u32::MAX as nat) { Some(n) => n as u32, None => 0u32 })
                && crate::types::upnp::pairs_view(i.pairs@) == seq![(
                crate::types::upnp::lookup(args, "StateVariableValuePairs"@)->0,
                crate::services::args::arg_text(args, "ServiceType"@, "AVTransport:3"@),
            )]
}

pub fn set_state_variables_request(args: &ActionArgs) -> (r: Result<super::traits::SetStateVariablesInput, Error>)
    ensures
        match set_state_variables_refusal(args@) {
            Some(e) => r == Err::<super::traits::SetStateVariablesInput, Error>(e),
            None => r matches Ok(i) && set_state_variables_input(args@, i),
        },
{
    let instance_id_text = arg_or(args, "InstanceID", "0");
    let instance_id: u32 = match parse_u32(instance_id_text.as_str()) { Some(x) => x, None => 0 };
    let state_var_pairs = match arg_required(args, "StateVariableValuePairs", Error::ArgumentValueInvalid) { Ok(x) => x, Err(err) => return Err(err) };
    let service_type = arg_or(args, "ServiceType", "AVTransport:3");
    let mut pairs: Vec<(String, String)> = Vec::new();
    pairs.push((state_var_pairs, service_type));
    assert(crate::types::upnp::pairs_view(pairs@) =~= seq![(
        crate::types::upnp::lookup(args@, "StateVariableValuePairs"@)->0,
        crate::services::args::arg_text(args@, "ServiceType"@, "AVTransport:3"@),
    )]);
    Ok(SetStateVariablesInput { instance_id, pairs })
}

} // verus!
