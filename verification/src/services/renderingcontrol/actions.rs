//! RenderingControl actions — bridges from the SOAP `Action` trait to the
//! application traits.
//!
//! Each struct wraps an `Arc<T>` where `T` implements the application trait.
//! The `execute` method extracts typed args, calls the trait, and wraps results.
//!
//! Bridge structs are prefixed with `Action` to avoid name collision with traits.
use vstd::prelude::*;

use std::sync::Arc;

use crate::services::args::{instance_arg, arg_bool, arg_or, arg_required, drop_empty, split_csv, state_pairs_xml};
use crate::text::{i64_to_string, parse_i16, parse_i32, parse_u16, parse_u32, str_eq, to_owned_string, u64_to_string};
use crate::types::upnp::{static_arg_view, Action, ActionArgs, ArgView, ArgumentDefinition, ArgumentDirection, DataType, Error};
use super::statics::{Channel, StateVariableName};
use super::RenderingControlService;
use crate::xml::{read_attributes, read_xml_events, XmlEvent};
use super::traits::{GetAllAvailableTransforms, GetAllAvailableTransformsInput, GetAllowedDefaultTransforms, GetAllowedDefaultTransformsInput, GetAllowedTransforms, GetAllowedTransformsInput, GetBlueVideoBlackLevel, GetBlueVideoBlackLevelInput, GetBlueVideoGain, GetBlueVideoGainInput, GetBrightness, GetBrightnessInput, GetColorTemperature, GetColorTemperatureInput, GetContrast, GetContrastInput, GetDefaultTransforms, GetDefaultTransformsInput, GetGreenVideoBlackLevel, GetGreenVideoBlackLevelInput, GetGreenVideoGain, GetGreenVideoGainInput, GetHorizontalKeystone, GetHorizontalKeystoneInput, GetLoudness, GetLoudnessInput, GetMute, GetMuteInput, GetRedVideoBlackLevel, GetRedVideoBlackLevelInput, GetRedVideoGain, GetRedVideoGainInput, GetSharpness, GetSharpnessInput, GetStateVariables, GetStateVariablesInput, GetTransforms, GetTransformsInput, GetVerticalKeystone, GetVerticalKeystoneInput, GetVolume, GetVolumeDB, GetVolumeDBInput, GetVolumeDBRange, GetVolumeDBRangeInput, GetVolumeInput, ListPresets, SelectPreset, SelectPresetInput, SetBlueVideoBlackLevel, SetBlueVideoBlackLevelInput, SetBlueVideoGain, SetBlueVideoGainInput, SetBrightness, SetBrightnessInput, SetColorTemperature, SetColorTemperatureInput, SetContrast, SetContrastInput, SetDefaultTransforms, SetDefaultTransformsInput, SetGreenVideoBlackLevel, SetGreenVideoBlackLevelInput, SetGreenVideoGain, SetGreenVideoGainInput, SetHorizontalKeystone, SetHorizontalKeystoneInput, SetLoudness, SetLoudnessInput, SetMute, SetMuteInput, SetRedVideoBlackLevel, SetRedVideoBlackLevelInput, SetRedVideoGain, SetRedVideoGainInput, SetSharpness, SetSharpnessInput, SetStateVariables, SetStateVariablesInput, SetTransforms, SetTransformsInput, SetVerticalKeystone, SetVerticalKeystoneInput, SetVolume, SetVolumeDB, SetVolumeDBInput, SetVolumeInput};

verus! {

broadcast use vstd::string::group_string_axioms;

/// The value of the last well-formed attribute named `key`, if any.
pub open spec fn last_attr(items: Seq<Option<(Seq<char>, Seq<char>)>>, key: Seq<char>) -> Option<Seq<char>>
    decreases items.len(),
{
    if items.len() == 0 {
        None
    } else {
        match items.last() {
            Some(kv) => if kv.0 == key {
                Some(kv.1)
            } else {
                last_attr(items.drop_last(), key)
            },
            None => last_attr(items.drop_last(), key),
        }
    }
}

fn last_attr_of(items: &Vec<Option<(String, String)>>, key: &str) -> (r: Option<String>)
    ensures
        opt_text(r) == last_attr(crate::xml::attributes_view(items@), key@),
{
    let ghost iv = crate::xml::attributes_view(items@);
    let mut found: Option<String> = None;
    let mut i: usize = 0;
    assert(iv.subrange(0, 0) =~= Seq::<Option<(Seq<char>, Seq<char>)>>::empty());
    while i < items.len()
        invariant
            iv == crate::xml::attributes_view(items@),
            i <= iv.len(),
            opt_text(found) == last_attr(iv.subrange(0, i as int), key@),
        decreases items.len() - i,
    {
        let ghost sub = iv.subrange(0, i + 1);
        assert(sub.drop_last() =~= iv.subrange(0, i as int));
        assert(sub.last() == iv[i as int]);
        match &items[i] {
            Some(kv) => {
                if str_eq(kv.0.as_str(), key) {
                    found = Some(to_owned_string(kv.1.as_str()));
                }
            },
            None => {},
        }
        i = i + 1;
    }
    assert(iv.subrange(0, iv.len() as int) =~= iv);
    found
}

/// The view of an optional string.
pub open spec fn opt_text(o: Option<String>) -> Option<Seq<char>> {
    match o {
        Some(s) => Some(s@),
        None => None,
    }
}

/// Where the scan of a state variable value document stands: inside a
/// `stateVariable` element or not, the name read from its `variableName`
/// attribute and the text collected so far.
pub struct PairScan {
    pub in_var: bool,
    pub name: Option<Seq<char>>,
    pub value: Option<Seq<char>>,
}

/// The (name, value) pairs found in the tokens from position `i` on.
///
/// A `stateVariable` start tag opens a value (empty so far) and takes its name
/// from the last well-formed `variableName` attribute, if it has one; text
/// inside adds to the value; the end tag yields (name, trimmed value) when both
/// are known, and clears them. The scan stops at the end of input or at a
/// reader error.
pub open spec fn pairs_scan(es: Seq<crate::xml::XmlEventView>, i: int, st: PairScan) -> Seq<(Seq<char>, Seq<char>)>
    decreases es.len() - i,
{
    if i < 0 || i >= es.len() {
        Seq::empty()
    } else {
        match es[i] {
            crate::xml::XmlEventView::Start(tag, attrs) => if tag == "stateVariable"@ {
                let name = match last_attr(crate::xml::attribute_items(attrs), "variableName"@) {
                    Some(v) => Some(v),
                    None => st.name,
                };
                pairs_scan(es, i + 1, PairScan { in_var: true, name, value: Some(Seq::empty()) })
            } else {
                pairs_scan(es, i + 1, st)
            },
            crate::xml::XmlEventView::End(tag) => if tag == "stateVariable"@ {
                let rest = pairs_scan(es, i + 1, PairScan { in_var: false, name: None, value: None });
                match (st.name, st.value) {
                    (Some(n), Some(v)) => seq![(n, crate::text::trimmed(v))] + rest,
                    _ => rest,
                }
            } else {
                pairs_scan(es, i + 1, st)
            },
            crate::xml::XmlEventView::Text(t) => if st.in_var && st.value is Some {
                pairs_scan(es, i + 1, PairScan { value: Some(st.value->0 + t), ..st })
            } else {
                pairs_scan(es, i + 1, st)
            },
            crate::xml::XmlEventView::Eof => Seq::empty(),
            crate::xml::XmlEventView::Error => Seq::empty(),
            crate::xml::XmlEventView::Other => pairs_scan(es, i + 1, st),
        }
    }
}

/// The (name, value) pairs of a state variable value document, from its tokens.
pub fn state_pairs_of(events: &Vec<XmlEvent>) -> (r: Vec<(String, String)>)
    ensures
        crate::types::upnp::pairs_view(r@) == pairs_scan(
            crate::xml::events_view(events@),
            0,
            PairScan { in_var: false, name: None, value: None },
        ),
{
    let ghost es = crate::xml::events_view(events@);
    let mut out: Vec<(String, String)> = Vec::new();
    let mut in_var = false;
    let mut current_name: Option<String> = None;
    let mut current_value: Option<String> = None;
    let mut i: usize = 0;
    while i < events.len()
        invariant
            es == crate::xml::events_view(events@),
            i <= events@.len(),
            crate::types::upnp::pairs_view(out@) + pairs_scan(
                es,
                i as int,
                PairScan { in_var, name: opt_text(current_name), value: opt_text(current_value) },
            ) == pairs_scan(es, 0, PairScan { in_var: false, name: None, value: None }),
        decreases events.len() - i,
    {
        let ghost prev = crate::types::upnp::pairs_view(out@);
        assert(es[i as int] == events@[i as int]@);
        match &events[i] {
            XmlEvent::Start(tag, attrs) => {
                if str_eq(tag.as_str(), "stateVariable") {
                    in_var = true;
                    let items = read_attributes(attrs.as_str());
                    match last_attr_of(&items, "variableName") {
                        Some(v) => {
                            current_name = Some(v);
                        },
                        None => {},
                    }
                    current_value = Some(String::new());
                }
            },
            XmlEvent::End(tag) => {
                if str_eq(tag.as_str(), "stateVariable") {
                    let name = current_name;
                    let value = current_value;
                    current_name = None;
                    current_value = None;
                    match (name, value) {
                        (Some(n), Some(v)) => {
                            let tv = crate::text::trim(v.as_str());
                            let ghost entry = (n@, tv@);
                            out.push((n, tv));
                            assert(crate::types::upnp::pairs_view(out@) =~= prev.push(entry));
                            assert(prev.push(entry) + pairs_scan(
                                es,
                                i + 1,
                                PairScan { in_var: false, name: None, value: None },
                            ) =~= prev + (seq![entry] + pairs_scan(
                                es,
                                i + 1,
                                PairScan { in_var: false, name: None, value: None },
                            )));
                        },
                        _ => {},
                    }
                    in_var = false;
                }
            },
            XmlEvent::Text(t) => {
                if in_var {
                    match current_value {
                        Some(v) => {
                            let mut nv = v;
                            crate::text::push_str(&mut nv, t.as_str());
                            current_value = Some(nv);
                        },
                        None => {
                            current_value = None;
                        },
                    }
                }
            },
            XmlEvent::Eof => {
                assert(pairs_scan(es, i as int, PairScan { in_var, name: opt_text(current_name), value: opt_text(current_value) }) =~= Seq::<(Seq<char>, Seq<char>)>::empty());
                assert(prev + Seq::<(Seq<char>, Seq<char>)>::empty() =~= prev);
                return out;
            },
            XmlEvent::Error => {
                assert(pairs_scan(es, i as int, PairScan { in_var, name: opt_text(current_name), value: opt_text(current_value) }) =~= Seq::<(Seq<char>, Seq<char>)>::empty());
                assert(prev + Seq::<(Seq<char>, Seq<char>)>::empty() =~= prev);
                return out;
            },
            XmlEvent::Other => {},
        }
        i = i + 1;
    }
    assert(crate::types::upnp::pairs_view(out@) + Seq::<(Seq<char>, Seq<char>)>::empty() =~= crate::types::upnp::pairs_view(out@));
    out
}

/// The (name, value) pairs of a state variable value document.
pub fn parse_state_variable_pairs(xml: &str) -> (r: Vec<(String, String)>)
    ensures
        crate::types::upnp::pairs_view(r@) == pairs_scan(
            crate::xml::xml_read_events(xml@),
            0,
            PairScan { in_var: false, name: None, value: None },
        ),
{
    let events = read_xml_events(xml);
    state_pairs_of(&events)
}

pub struct ActionListPresets<T: ListPresets> {
    trait_impl: Arc<T>,
}

impl<T: ListPresets> ActionListPresets<T> {
    /// The application's implementation of the action.
    pub closed spec fn implementation(&self) -> T {
        *self.trait_impl
    }

    pub fn new(trait_impl: T) -> (r: Self)
        ensures
            r.implementation() == trait_impl,
    {
        ActionListPresets { trait_impl: Arc::new(trait_impl) }
    }
}

impl<T: ListPresets> Action for ActionListPresets<T> {
    open spec fn action_name(&self) -> Seq<char> {
        "ListPresets"@
    }

    open spec fn in_arg_views(&self) -> Seq<ArgView> {
        seq![("InstanceID"@, ArgumentDirection::IN, Some("A_ARG_TYPE_InstanceID"@))]
    }

    open spec fn out_arg_views(&self) -> Seq<ArgView> {
        seq![("CurrentPresetNameList"@, ArgumentDirection::OUT, Some("PresetNameList"@))]
    }

    open spec fn outcome(&self, args: Seq<(Seq<char>, Seq<char>)>, r: Result<ActionArgs, Error>) -> bool {
        &&& r is Err ==> (r->Err_0 == Error::ActionFailed)
        &&& exists|res: Result<super::traits::ListPresetsOutput, T::Error>|
            #[trigger] call_ensures(T::list_presets, (&self.implementation(), instance_arg(args)), res) && (r is Ok
                <==> res is Ok) && (res matches Ok(o) ==> r->Ok_0@ == list_presets_reply_pairs(o))
    }

    fn name(&self) -> &'static str {
        "ListPresets"
    }

    fn in_args(&self) -> Vec<ArgumentDefinition<&'static str, &'static str>> {
        let mut v: Vec<ArgumentDefinition<&'static str, &'static str>> = Vec::new();
        v.push(ArgumentDefinition { name: "InstanceID", direction: ArgumentDirection::IN, related_state_var: Some("A_ARG_TYPE_InstanceID") });
        assert(v@.map_values(|a: ArgumentDefinition<&'static str, &'static str>| static_arg_view(a)) =~= seq![("InstanceID"@, ArgumentDirection::IN, Some("A_ARG_TYPE_InstanceID"@))]);
        v
    }

    fn out_args(&self) -> Vec<ArgumentDefinition<&'static str, &'static str>> {
        let mut v: Vec<ArgumentDefinition<&'static str, &'static str>> = Vec::new();
        v.push(ArgumentDefinition { name: "CurrentPresetNameList", direction: ArgumentDirection::OUT, related_state_var: Some("PresetNameList") });
        assert(v@.map_values(|a: ArgumentDefinition<&'static str, &'static str>| static_arg_view(a)) =~= seq![("CurrentPresetNameList"@, ArgumentDirection::OUT, Some("PresetNameList"@))]);
        v
    }

    fn execute(&self, args: &ActionArgs) -> Result<ActionArgs, Error> {
        let instance_id_text = arg_or(args, "InstanceID", "0");
        let instance_id: u32 = match parse_u32(instance_id_text.as_str()) { Some(x) => x, None => 0 };
        let res = self.trait_impl.list_presets(instance_id);
        assert(call_ensures(T::list_presets, (&self.implementation(), instance_id), res));
        let output = match res { Ok(o) => o, Err(_) => return Err(Error::ActionFailed) };
        Ok(list_presets_reply(output))
    }
}

pub struct ActionSelectPreset<T: SelectPreset> {
    trait_impl: Arc<T>,
}

impl<T: SelectPreset> ActionSelectPreset<T> {
    /// The application's implementation of the action.
    pub closed spec fn implementation(&self) -> T {
        *self.trait_impl
    }

    pub fn new(trait_impl: T) -> (r: Self)
        ensures
            r.implementation() == trait_impl,
    {
        ActionSelectPreset { trait_impl: Arc::new(trait_impl) }
    }
}

impl<T: SelectPreset> Action for ActionSelectPreset<T> {
    open spec fn action_name(&self) -> Seq<char> {
        "SelectPreset"@
    }

    open spec fn in_arg_views(&self) -> Seq<ArgView> {
        seq![("InstanceID"@, ArgumentDirection::IN, Some("A_ARG_TYPE_InstanceID"@)), ("PresetName"@, ArgumentDirection::IN, Some("A_ARG_TYPE_PresetName"@))]
    }

    open spec fn out_arg_views(&self) -> Seq<ArgView> {
        Seq::<ArgView>::empty()
    }

    open spec fn outcome(&self, args: Seq<(Seq<char>, Seq<char>)>, r: Result<ActionArgs, Error>) -> bool {
        &&& r is Err ==> (r->Err_0 == Error::ActionFailed || r->Err_0 == Error::ArgumentValueInvalid)
        &&& r is Ok ==> r->Ok_0@ == Seq::<(Seq<char>, Seq<char>)>::empty()
        &&& select_preset_refusal(args) matches Some(e) ==> r == Err::<ActionArgs, Error>(e)
        &&& select_preset_refusal(args) is None ==> (r is Err ==> r->Err_0 == Error::ActionFailed)
        &&& select_preset_refusal(args) is None ==> exists|input: super::traits::SelectPresetInput, res: Result<super::traits::SelectPresetOutput, T::Error>|
            select_preset_input(args, input) && #[trigger] call_ensures(T::select_preset, (&self.implementation(), input), res) && (r is Ok
                <==> res is Ok)
    }

    fn name(&self) -> &'static str {
        "SelectPreset"
    }

    fn in_args(&self) -> Vec<ArgumentDefinition<&'static str, &'static str>> {
        let mut v: Vec<ArgumentDefinition<&'static str, &'static str>> = Vec::new();
        v.push(ArgumentDefinition { name: "InstanceID", direction: ArgumentDirection::IN, related_state_var: Some("A_ARG_TYPE_InstanceID") });
        v.push(ArgumentDefinition { name: "PresetName", direction: ArgumentDirection::IN, related_state_var: Some("A_ARG_TYPE_PresetName") });
        assert(v@.map_values(|a: ArgumentDefinition<&'static str, &'static str>| static_arg_view(a)) =~= seq![("InstanceID"@, ArgumentDirection::IN, Some("A_ARG_TYPE_InstanceID"@)), ("PresetName"@, ArgumentDirection::IN, Some("A_ARG_TYPE_PresetName"@))]);
        v
    }

    fn out_args(&self) -> Vec<ArgumentDefinition<&'static str, &'static str>> {
        let mut v: Vec<ArgumentDefinition<&'static str, &'static str>> = Vec::new();
        assert(v@.map_values(|a: ArgumentDefinition<&'static str, &'static str>| static_arg_view(a)) =~= Seq::<ArgView>::empty());
        v
    }

    fn execute(&self, args: &ActionArgs) -> Result<ActionArgs, Error> {
        let input = match select_preset_request(args) { Ok(i) => i, Err(e) => return Err(e) };
        let ghost handed = input;
        let res = self.trait_impl.select_preset(input);
        assert(call_ensures(T::select_preset, (&self.implementation(), handed), res));
        match res { Ok(_) => {}, Err(_) => return Err(Error::ActionFailed) }
        Ok(ActionArgs::new())
    }
}

pub struct ActionGetBrightness<T: GetBrightness> {
    trait_impl: Arc<T>,
}

impl<T: GetBrightness> ActionGetBrightness<T> {
    /// The application's implementation of the action.
    pub closed spec fn implementation(&self) -> T {
        *self.trait_impl
    }

    pub fn new(trait_impl: T) -> (r: Self)
        ensures
            r.implementation() == trait_impl,
    {
        ActionGetBrightness { trait_impl: Arc::new(trait_impl) }
    }
}

impl<T: GetBrightness> Action for ActionGetBrightness<T> {
    open spec fn action_name(&self) -> Seq<char> {
        "GetBrightness"@
    }

    open spec fn in_arg_views(&self) -> Seq<ArgView> {
        seq![("InstanceID"@, ArgumentDirection::IN, Some("A_ARG_TYPE_InstanceID"@))]
    }

    open spec fn out_arg_views(&self) -> Seq<ArgView> {
        seq![("CurrentBrightness"@, ArgumentDirection::OUT, Some("Brightness"@))]
    }

    open spec fn outcome(&self, args: Seq<(Seq<char>, Seq<char>)>, r: Result<ActionArgs, Error>) -> bool {
        &&& r is Err ==> (r->Err_0 == Error::ActionFailed)
        &&& exists|input: super::traits::GetBrightnessInput, res: Result<super::traits::GetBrightnessOutput, T::Error>|
            get_brightness_input(args, input) && #[trigger] call_ensures(T::get_brightness, (&self.implementation(), input), res) && (r is Ok
                <==> res is Ok) && (res matches Ok(o) ==> r->Ok_0@ == get_brightness_reply_pairs(o))
    }

    fn name(&self) -> &'static str {
        "GetBrightness"
    }

    fn in_args(&self) -> Vec<ArgumentDefinition<&'static str, &'static str>> {
        let mut v: Vec<ArgumentDefinition<&'static str, &'static str>> = Vec::new();
        v.push(ArgumentDefinition { name: "InstanceID", direction: ArgumentDirection::IN, related_state_var: Some("A_ARG_TYPE_InstanceID") });
        assert(v@.map_values(|a: ArgumentDefinition<&'static str, &'static str>| static_arg_view(a)) =~= seq![("InstanceID"@, ArgumentDirection::IN, Some("A_ARG_TYPE_InstanceID"@))]);
        v
    }

    fn out_args(&self) -> Vec<ArgumentDefinition<&'static str, &'static str>> {
        let mut v: Vec<ArgumentDefinition<&'static str, &'static str>> = Vec::new();
        v.push(ArgumentDefinition { name: "CurrentBrightness", direction: ArgumentDirection::OUT, related_state_var: Some("Brightness") });
        assert(v@.map_values(|a: ArgumentDefinition<&'static str, &'static str>| static_arg_view(a)) =~= seq![("CurrentBrightness"@, ArgumentDirection::OUT, Some("Brightness"@))]);
        v
    }

    fn execute(&self, args: &ActionArgs) -> Result<ActionArgs, Error> {
        let input = match get_brightness_request(args) { Ok(i) => i, Err(e) => return Err(e) };
        let ghost handed = input;
        let res = self.trait_impl.get_brightness(input);
        assert(call_ensures(T::get_brightness, (&self.implementation(), handed), res));
        let output = match res { Ok(o) => o, Err(_) => return Err(Error::ActionFailed) };
        Ok(get_brightness_reply(output))
    }
}

pub struct ActionSetBrightness<T: SetBrightness> {
    trait_impl: Arc<T>,
    service: RenderingControlService,
}

impl<T: SetBrightness> ActionSetBrightness<T> {
    /// The application's implementation of the action.
    pub closed spec fn implementation(&self) -> T {
        *self.trait_impl
    }

    /// The service whose state the action updates.
    pub closed spec fn bound_service(&self) -> RenderingControlService {
        self.service
    }

    pub fn new(trait_impl: T, service: RenderingControlService) -> (r: Self)
        ensures
            r.implementation() == trait_impl,
            r.bound_service() == service,
    {
        ActionSetBrightness { trait_impl: Arc::new(trait_impl), service }
    }
}

impl<T: SetBrightness> Action for ActionSetBrightness<T> {
    open spec fn action_name(&self) -> Seq<char> {
        "SetBrightness"@
    }

    open spec fn in_arg_views(&self) -> Seq<ArgView> {
        seq![("InstanceID"@, ArgumentDirection::IN, Some("A_ARG_TYPE_InstanceID"@)), ("DesiredBrightness"@, ArgumentDirection::IN, Some("Brightness"@))]
    }

    open spec fn out_arg_views(&self) -> Seq<ArgView> {
        Seq::<ArgView>::empty()
    }

    open spec fn outcome(&self, args: Seq<(Seq<char>, Seq<char>)>, r: Result<ActionArgs, Error>) -> bool {
        &&& r is Err ==> (r->Err_0 == Error::ActionFailed || r->Err_0 == Error::ArgumentValueInvalid || r->Err_0 == Error::ArgumentValueOutOfRange)
        &&& r is Ok ==> r->Ok_0@ == Seq::<(Seq<char>, Seq<char>)>::empty()
        &&& set_brightness_refusal(args) matches Some(e) ==> r == Err::<ActionArgs, Error>(e)
        &&& set_brightness_refusal(args) is None ==> (r is Err ==> r->Err_0 == Error::ActionFailed)
        &&& set_brightness_refusal(args) is None ==> exists|input: super::traits::SetBrightnessInput, res: Result<super::traits::SetBrightnessOutput, T::Error>|
            set_brightness_input(args, input) && #[trigger] call_ensures(T::set_brightness, (&self.implementation(), input), res) && (r is Ok
                <==> res is Ok)
    }

    fn name(&self) -> &'static str {
        "SetBrightness"
    }

    fn in_args(&self) -> Vec<ArgumentDefinition<&'static str, &'static str>> {
        let mut v: Vec<ArgumentDefinition<&'static str, &'static str>> = Vec::new();
        v.push(ArgumentDefinition { name: "InstanceID", direction: ArgumentDirection::IN, related_state_var: Some("A_ARG_TYPE_InstanceID") });
        v.push(ArgumentDefinition { name: "DesiredBrightness", direction: ArgumentDirection::IN, related_state_var: Some("Brightness") });
        assert(v@.map_values(|a: ArgumentDefinition<&'static str, &'static str>| static_arg_view(a)) =~= seq![("InstanceID"@, ArgumentDirection::IN, Some("A_ARG_TYPE_InstanceID"@)), ("DesiredBrightness"@, ArgumentDirection::IN, Some("Brightness"@))]);
        v
    }

    fn out_args(&self) -> Vec<ArgumentDefinition<&'static str, &'static str>> {
        let mut v: Vec<ArgumentDefinition<&'static str, &'static str>> = Vec::new();
        assert(v@.map_values(|a: ArgumentDefinition<&'static str, &'static str>| static_arg_view(a)) =~= Seq::<ArgView>::empty());
        v
    }

    fn execute(&self, args: &ActionArgs) -> Result<ActionArgs, Error> {
        let input = match set_brightness_request(args) { Ok(i) => i, Err(e) => return Err(e) };
        let instance_id = input.instance_id;
        let ghost handed = input;
        let res = self.trait_impl.set_brightness(input);
        assert(call_ensures(T::set_brightness, (&self.implementation(), handed), res));
        match res { Ok(_) => {}, Err(_) => return Err(Error::ActionFailed) }
        let desired_text = arg_or(args, "DesiredBrightness", "0");
        let desired: u16 = match parse_u16(desired_text.as_str()) { Some(x) => x, None => 0 };
        self.service.set_state_var(instance_id, StateVariableName::Brightness, DataType::Ui2(desired));
        Ok(ActionArgs::new())
    }
}

pub struct ActionGetContrast<T: GetContrast> {
    trait_impl: Arc<T>,
}

impl<T: GetContrast> ActionGetContrast<T> {
    /// The application's implementation of the action.
    pub closed spec fn implementation(&self) -> T {
        *self.trait_impl
    }

    pub fn new(trait_impl: T) -> (r: Self)
        ensures
            r.implementation() == trait_impl,
    {
        ActionGetContrast { trait_impl: Arc::new(trait_impl) }
    }
}

impl<T: GetContrast> Action for ActionGetContrast<T> {
    open spec fn action_name(&self) -> Seq<char> {
        "GetContrast"@
    }

    open spec fn in_arg_views(&self) -> Seq<ArgView> {
        seq![("InstanceID"@, ArgumentDirection::IN, Some("A_ARG_TYPE_InstanceID"@))]
    }

    open spec fn out_arg_views(&self) -> Seq<ArgView> {
        seq![("CurrentContrast"@, ArgumentDirection::OUT, Some("Contrast"@))]
    }

    open spec fn outcome(&self, args: Seq<(Seq<char>, Seq<char>)>, r: Result<ActionArgs, Error>) -> bool {
        &&& r is Err ==> (r->Err_0 == Error::ActionFailed)
        &&& exists|res: Result<super::traits::GetContrastOutput, T::Error>|
            #[trigger] call_ensures(
                T::get_contrast,
                (&self.implementation(), super::traits::GetContrastInput { instance_id: instance_arg(args) }),
                res,
            ) && (r is Ok <==> res is Ok) && (res matches Ok(o) ==> r->Ok_0@ == get_contrast_reply_pairs(o))
    }

    fn name(&self) -> &'static str {
        "GetContrast"
    }

    fn in_args(&self) -> Vec<ArgumentDefinition<&'static str, &'static str>> {
        let mut v: Vec<ArgumentDefinition<&'static str, &'static str>> = Vec::new();
        v.push(ArgumentDefinition { name: "InstanceID", direction: ArgumentDirection::IN, related_state_var: Some("A_ARG_TYPE_InstanceID") });
        assert(v@.map_values(|a: ArgumentDefinition<&'static str, &'static str>| static_arg_view(a)) =~= seq![("InstanceID"@, ArgumentDirection::IN, Some("A_ARG_TYPE_InstanceID"@))]);
        v
    }

    fn out_args(&self) -> Vec<ArgumentDefinition<&'static str, &'static str>> {
        let mut v: Vec<ArgumentDefinition<&'static str, &'static str>> = Vec::new();
        v.push(ArgumentDefinition { name: "CurrentContrast", direction: ArgumentDirection::OUT, related_state_var: Some("Contrast") });
        assert(v@.map_values(|a: ArgumentDefinition<&'static str, &'static str>| static_arg_view(a)) =~= seq![("CurrentContrast"@, ArgumentDirection::OUT, Some("Contrast"@))]);
        v
    }

    fn execute(&self, args: &ActionArgs) -> Result<ActionArgs, Error> {
        let input = match get_contrast_request(args) { Ok(i) => i, Err(e) => return Err(e) };
        let ghost handed = input;
        let res = self.trait_impl.get_contrast(input);
        assert(call_ensures(T::get_contrast, (&self.implementation(), handed), res));
        let output = match res { Ok(o) => o, Err(_) => return Err(Error::ActionFailed) };
        Ok(get_contrast_reply(output))
    }
}

pub struct ActionSetContrast<T: SetContrast> {
    trait_impl: Arc<T>,
    service: RenderingControlService,
}

impl<T: SetContrast> ActionSetContrast<T> {
    /// The application's implementation of the action.
    pub closed spec fn implementation(&self) -> T {
        *self.trait_impl
    }

    /// The service whose state the action updates.
    pub closed spec fn bound_service(&self) -> RenderingControlService {
        self.service
    }

    pub fn new(trait_impl: T, service: RenderingControlService) -> (r: Self)
        ensures
            r.implementation() == trait_impl,
            r.bound_service() == service,
    {
        ActionSetContrast { trait_impl: Arc::new(trait_impl), service }
    }
}

impl<T: SetContrast> Action for ActionSetContrast<T> {
    open spec fn action_name(&self) -> Seq<char> {
        "SetContrast"@
    }

    open spec fn in_arg_views(&self) -> Seq<ArgView> {
        seq![("InstanceID"@, ArgumentDirection::IN, Some("A_ARG_TYPE_InstanceID"@)), ("DesiredContrast"@, ArgumentDirection::IN, Some("Contrast"@))]
    }

    open spec fn out_arg_views(&self) -> Seq<ArgView> {
        Seq::<ArgView>::empty()
    }

    open spec fn outcome(&self, args: Seq<(Seq<char>, Seq<char>)>, r: Result<ActionArgs, Error>) -> bool {
        &&& r is Err ==> (r->Err_0 == Error::ActionFailed || r->Err_0 == Error::ArgumentValueInvalid || r->Err_0 == Error::ArgumentValueOutOfRange)
        &&& r is Ok ==> r->Ok_0@ == Seq::<(Seq<char>, Seq<char>)>::empty()
        &&& set_contrast_refusal(args) matches Some(e) ==> r == Err::<ActionArgs, Error>(e)
        &&& set_contrast_refusal(args) is None ==> (r is Err ==> r->Err_0 == Error::ActionFailed)
        &&& set_contrast_refusal(args) is None ==> exists|input: super::traits::SetContrastInput, res: Result<super::traits::SetContrastOutput, T::Error>|
            set_contrast_input(args, input) && #[trigger] call_ensures(T::set_contrast, (&self.implementation(), input), res) && (r is Ok
                <==> res is Ok)
    }

    fn name(&self) -> &'static str {
        "SetContrast"
    }

    fn in_args(&self) -> Vec<ArgumentDefinition<&'static str, &'static str>> {
        let mut v: Vec<ArgumentDefinition<&'static str, &'static str>> = Vec::new();
        v.push(ArgumentDefinition { name: "InstanceID", direction: ArgumentDirection::IN, related_state_var: Some("A_ARG_TYPE_InstanceID") });
        v.push(ArgumentDefinition { name: "DesiredContrast", direction: ArgumentDirection::IN, related_state_var: Some("Contrast") });
        assert(v@.map_values(|a: ArgumentDefinition<&'static str, &'static str>| static_arg_view(a)) =~= seq![("InstanceID"@, ArgumentDirection::IN, Some("A_ARG_TYPE_InstanceID"@)), ("DesiredContrast"@, ArgumentDirection::IN, Some("Contrast"@))]);
        v
    }

    fn out_args(&self) -> Vec<ArgumentDefinition<&'static str, &'static str>> {
        let mut v: Vec<ArgumentDefinition<&'static str, &'static str>> = Vec::new();
        assert(v@.map_values(|a: ArgumentDefinition<&'static str, &'static str>| static_arg_view(a)) =~= Seq::<ArgView>::empty());
        v
    }

    fn execute(&self, args: &ActionArgs) -> Result<ActionArgs, Error> {
        let input = match set_contrast_request(args) { Ok(i) => i, Err(e) => return Err(e) };
        let instance_id = input.instance_id;
        let ghost handed = input;
        let res = self.trait_impl.set_contrast(input);
        assert(call_ensures(T::set_contrast, (&self.implementation(), handed), res));
        match res { Ok(_) => {}, Err(_) => return Err(Error::ActionFailed) }
        let desired_text = arg_or(args, "DesiredContrast", "0");
        let desired: u16 = match parse_u16(desired_text.as_str()) { Some(x) => x, None => 0 };
        self.service.set_state_var(instance_id, StateVariableName::Contrast, DataType::Ui2(desired));
        Ok(ActionArgs::new())
    }
}

pub struct ActionGetSharpness<T: GetSharpness> {
    trait_impl: Arc<T>,
}

impl<T: GetSharpness> ActionGetSharpness<T> {
    /// The application's implementation of the action.
    pub closed spec fn implementation(&self) -> T {
        *self.trait_impl
    }

    pub fn new(trait_impl: T) -> (r: Self)
        ensures
            r.implementation() == trait_impl,
    {
        ActionGetSharpness { trait_impl: Arc::new(trait_impl) }
    }
}

impl<T: GetSharpness> Action for ActionGetSharpness<T> {
    open spec fn action_name(&self) -> Seq<char> {
        "GetSharpness"@
    }

    open spec fn in_arg_views(&self) -> Seq<ArgView> {
        seq![("InstanceID"@, ArgumentDirection::IN, Some("A_ARG_TYPE_InstanceID"@))]
    }

    open spec fn out_arg_views(&self) -> Seq<ArgView> {
        seq![("CurrentSharpness"@, ArgumentDirection::OUT, Some("Sharpness"@))]
    }

    open spec fn outcome(&self, args: Seq<(Seq<char>, Seq<char>)>, r: Result<ActionArgs, Error>) -> bool {
        &&& r is Err ==> (r->Err_0 == Error::ActionFailed)
        &&& exists|res: Result<super::traits::GetSharpnessOutput, T::Error>|
            #[trigger] call_ensures(
                T::get_sharpness,
                (&self.implementation(), super::traits::GetSharpnessInput { instance_id: instance_arg(args) }),
                res,
            ) && (r is Ok <==> res is Ok) && (res matches Ok(o) ==> r->Ok_0@ == get_sharpness_reply_pairs(o))
    }

    fn name(&self) -> &'static str {
        "GetSharpness"
    }

    fn in_args(&self) -> Vec<ArgumentDefinition<&'static str, &'static str>> {
        let mut v: Vec<ArgumentDefinition<&'static str, &'static str>> = Vec::new();
        v.push(ArgumentDefinition { name: "InstanceID", direction: ArgumentDirection::IN, related_state_var: Some("A_ARG_TYPE_InstanceID") });
        assert(v@.map_values(|a: ArgumentDefinition<&'static str, &'static str>| static_arg_view(a)) =~= seq![("InstanceID"@, ArgumentDirection::IN, Some("A_ARG_TYPE_InstanceID"@))]);
        v
    }

    fn out_args(&self) -> Vec<ArgumentDefinition<&'static str, &'static str>> {
        let mut v: Vec<ArgumentDefinition<&'static str, &'static str>> = Vec::new();
        v.push(ArgumentDefinition { name: "CurrentSharpness", direction: ArgumentDirection::OUT, related_state_var: Some("Sharpness") });
        assert(v@.map_values(|a: ArgumentDefinition<&'static str, &'static str>| static_arg_view(a)) =~= seq![("CurrentSharpness"@, ArgumentDirection::OUT, Some("Sharpness"@))]);
        v
    }

    fn execute(&self, args: &ActionArgs) -> Result<ActionArgs, Error> {
        let input = match get_sharpness_request(args) { Ok(i) => i, Err(e) => return Err(e) };
        let ghost handed = input;
        let res = self.trait_impl.get_sharpness(input);
        assert(call_ensures(T::get_sharpness, (&self.implementation(), handed), res));
        let output = match res { Ok(o) => o, Err(_) => return Err(Error::ActionFailed) };
        Ok(get_sharpness_reply(output))
    }
}

pub struct ActionSetSharpness<T: SetSharpness> {
    trait_impl: Arc<T>,
    service: RenderingControlService,
}

impl<T: SetSharpness> ActionSetSharpness<T> {
    /// The application's implementation of the action.
    pub closed spec fn implementation(&self) -> T {
        *self.trait_impl
    }

    /// The service whose state the action updates.
    pub closed spec fn bound_service(&self) -> RenderingControlService {
        self.service
    }

    pub fn new(trait_impl: T, service: RenderingControlService) -> (r: Self)
        ensures
            r.implementation() == trait_impl,
            r.bound_service() == service,
    {
        ActionSetSharpness { trait_impl: Arc::new(trait_impl), service }
    }
}

impl<T: SetSharpness> Action for ActionSetSharpness<T> {
    open spec fn action_name(&self) -> Seq<char> {
        "SetSharpness"@
    }

    open spec fn in_arg_views(&self) -> Seq<ArgView> {
        seq![("InstanceID"@, ArgumentDirection::IN, Some("A_ARG_TYPE_InstanceID"@)), ("DesiredSharpness"@, ArgumentDirection::IN, Some("Sharpness"@))]
    }

    open spec fn out_arg_views(&self) -> Seq<ArgView> {
        Seq::<ArgView>::empty()
    }

    open spec fn outcome(&self, args: Seq<(Seq<char>, Seq<char>)>, r: Result<ActionArgs, Error>) -> bool {
        &&& r is Err ==> (r->Err_0 == Error::ActionFailed || r->Err_0 == Error::ArgumentValueInvalid || r->Err_0 == Error::ArgumentValueOutOfRange)
        &&& r is Ok ==> r->Ok_0@ == Seq::<(Seq<char>, Seq<char>)>::empty()
        &&& set_sharpness_refusal(args) matches Some(e) ==> r == Err::<ActionArgs, Error>(e)
        &&& set_sharpness_refusal(args) is None ==> (r is Err ==> r->Err_0 == Error::ActionFailed)
        &&& set_sharpness_refusal(args) is None ==> exists|input: super::traits::SetSharpnessInput, res: Result<super::traits::SetSharpnessOutput, T::Error>|
            set_sharpness_input(args, input) && #[trigger] call_ensures(T::set_sharpness, (&self.implementation(), input), res) && (r is Ok
                <==> res is Ok)
    }

    fn name(&self) -> &'static str {
        "SetSharpness"
    }

    fn in_args(&self) -> Vec<ArgumentDefinition<&'static str, &'static str>> {
        let mut v: Vec<ArgumentDefinition<&'static str, &'static str>> = Vec::new();
        v.push(ArgumentDefinition { name: "InstanceID", direction: ArgumentDirection::IN, related_state_var: Some("A_ARG_TYPE_InstanceID") });
        v.push(ArgumentDefinition { name: "DesiredSharpness", direction: ArgumentDirection::IN, related_state_var: Some("Sharpness") });
        assert(v@.map_values(|a: ArgumentDefinition<&'static str, &'static str>| static_arg_view(a)) =~= seq![("InstanceID"@, ArgumentDirection::IN, Some("A_ARG_TYPE_InstanceID"@)), ("DesiredSharpness"@, ArgumentDirection::IN, Some("Sharpness"@))]);
        v
    }

    fn out_args(&self) -> Vec<ArgumentDefinition<&'static str, &'static str>> {
        let mut v: Vec<ArgumentDefinition<&'static str, &'static str>> = Vec::new();
        assert(v@.map_values(|a: ArgumentDefinition<&'static str, &'static str>| static_arg_view(a)) =~= Seq::<ArgView>::empty());
        v
    }

    fn execute(&self, args: &ActionArgs) -> Result<ActionArgs, Error> {
        let input = match set_sharpness_request(args) { Ok(i) => i, Err(e) => return Err(e) };
        let instance_id = input.instance_id;
        let ghost handed = input;
        let res = self.trait_impl.set_sharpness(input);
        assert(call_ensures(T::set_sharpness, (&self.implementation(), handed), res));
        match res { Ok(_) => {}, Err(_) => return Err(Error::ActionFailed) }
        let desired_text = arg_or(args, "DesiredSharpness", "0");
        let desired: u16 = match parse_u16(desired_text.as_str()) { Some(x) => x, None => 0 };
        self.service.set_state_var(instance_id, StateVariableName::Sharpness, DataType::Ui2(desired));
        Ok(ActionArgs::new())
    }
}

pub struct ActionGetRedVideoGain<T: GetRedVideoGain> {
    trait_impl: Arc<T>,
}

impl<T: GetRedVideoGain> ActionGetRedVideoGain<T> {
    /// The application's implementation of the action.
    pub closed spec fn implementation(&self) -> T {
        *self.trait_impl
    }

    pub fn new(trait_impl: T) -> (r: Self)
        ensures
            r.implementation() == trait_impl,
    {
        ActionGetRedVideoGain { trait_impl: Arc::new(trait_impl) }
    }
}

impl<T: GetRedVideoGain> Action for ActionGetRedVideoGain<T> {
    open spec fn action_name(&self) -> Seq<char> {
        "GetVideoGain"@
    }

    open spec fn in_arg_views(&self) -> Seq<ArgView> {
        seq![("InstanceID"@, ArgumentDirection::IN, Some("A_ARG_TYPE_InstanceID"@))]
    }

    open spec fn out_arg_views(&self) -> Seq<ArgView> {
        seq![("CurrentRedVideoGain"@, ArgumentDirection::OUT, Some("RedVideoGain"@))]
    }

    open spec fn outcome(&self, args: Seq<(Seq<char>, Seq<char>)>, r: Result<ActionArgs, Error>) -> bool {
        &&& r is Err ==> (r->Err_0 == Error::ActionFailed)
        &&& exists|res: Result<super::traits::GetRedVideoGainOutput, T::Error>|
            #[trigger] call_ensures(
                T::get_red_video_gain,
                (&self.implementation(), super::traits::GetRedVideoGainInput { instance_id: instance_arg(args) }),
                res,
            ) && (r is Ok <==> res is Ok) && (res matches Ok(o) ==> r->Ok_0@ == get_red_video_gain_reply_pairs(o))
    }

    fn name(&self) -> &'static str {
        "GetVideoGain"
    }

    fn in_args(&self) -> Vec<ArgumentDefinition<&'static str, &'static str>> {
        let mut v: Vec<ArgumentDefinition<&'static str, &'static str>> = Vec::new();
        v.push(ArgumentDefinition { name: "InstanceID", direction: ArgumentDirection::IN, related_state_var: Some("A_ARG_TYPE_InstanceID") });
        assert(v@.map_values(|a: ArgumentDefinition<&'static str, &'static str>| static_arg_view(a)) =~= seq![("InstanceID"@, ArgumentDirection::IN, Some("A_ARG_TYPE_InstanceID"@))]);
        v
    }

    fn out_args(&self) -> Vec<ArgumentDefinition<&'static str, &'static str>> {
        let mut v: Vec<ArgumentDefinition<&'static str, &'static str>> = Vec::new();
        v.push(ArgumentDefinition { name: "CurrentRedVideoGain", direction: ArgumentDirection::OUT, related_state_var: Some("RedVideoGain") });
        assert(v@.map_values(|a: ArgumentDefinition<&'static str, &'static str>| static_arg_view(a)) =~= seq![("CurrentRedVideoGain"@, ArgumentDirection::OUT, Some("RedVideoGain"@))]);
        v
    }

    fn execute(&self, args: &ActionArgs) -> Result<ActionArgs, Error> {
        let input = match get_red_video_gain_request(args) { Ok(i) => i, Err(e) => return Err(e) };
        let ghost handed = input;
        let res = self.trait_impl.get_red_video_gain(input);
        assert(call_ensures(T::get_red_video_gain, (&self.implementation(), handed), res));
        let output = match res { Ok(o) => o, Err(_) => return Err(Error::ActionFailed) };
        Ok(get_red_video_gain_reply(output))
    }
}

pub struct ActionSetRedVideoGain<T: SetRedVideoGain> {
    trait_impl: Arc<T>,
    service: RenderingControlService,
}

impl<T: SetRedVideoGain> ActionSetRedVideoGain<T> {
    /// The application's implementation of the action.
    pub closed spec fn implementation(&self) -> T {
        *self.trait_impl
    }

    /// The service whose state the action updates.
    pub closed spec fn bound_service(&self) -> RenderingControlService {
        self.service
    }

    pub fn new(trait_impl: T, service: RenderingControlService) -> (r: Self)
        ensures
            r.implementation() == trait_impl,
            r.bound_service() == service,
    {
        ActionSetRedVideoGain { trait_impl: Arc::new(trait_impl), service }
    }
}

impl<T: SetRedVideoGain> Action for ActionSetRedVideoGain<T> {
    open spec fn action_name(&self) -> Seq<char> {
        "SetVideoGain"@
    }

    open spec fn in_arg_views(&self) -> Seq<ArgView> {
        seq![("InstanceID"@, ArgumentDirection::IN, Some("A_ARG_TYPE_InstanceID"@)), ("DesiredVideoGain"@, ArgumentDirection::IN, Some("RedVideoGain"@))]
    }

    open spec fn out_arg_views(&self) -> Seq<ArgView> {
        Seq::<ArgView>::empty()
    }

    open spec fn outcome(&self, args: Seq<(Seq<char>, Seq<char>)>, r: Result<ActionArgs, Error>) -> bool {
        &&& r is Err ==> (r->Err_0 == Error::ActionFailed || r->Err_0 == Error::ArgumentValueInvalid || r->Err_0 == Error::ArgumentValueOutOfRange)
        &&& r is Ok ==> r->Ok_0@ == Seq::<(Seq<char>, Seq<char>)>::empty()
        &&& set_red_video_gain_refusal(args) matches Some(e) ==> r == Err::<ActionArgs, Error>(e)
        &&& set_red_video_gain_refusal(args) is None ==> (r is Err ==> r->Err_0 == Error::ActionFailed)
        &&& set_red_video_gain_refusal(args) is None ==> exists|input: super::traits::SetRedVideoGainInput, res: Result<super::traits::SetRedVideoGainOutput, T::Error>|
            set_red_video_gain_input(args, input) && #[trigger] call_ensures(T::set_red_video_gain, (&self.implementation(), input), res) && (r is Ok
                <==> res is Ok)
    }

    fn name(&self) -> &'static str {
        "SetVideoGain"
    }

    fn in_args(&self) -> Vec<ArgumentDefinition<&'static str, &'static str>> {
        let mut v: Vec<ArgumentDefinition<&'static str, &'static str>> = Vec::new();
        v.push(ArgumentDefinition { name: "InstanceID", direction: ArgumentDirection::IN, related_state_var: Some("A_ARG_TYPE_InstanceID") });
        v.push(ArgumentDefinition { name: "DesiredVideoGain", direction: ArgumentDirection::IN, related_state_var: Some("RedVideoGain") });
        assert(v@.map_values(|a: ArgumentDefinition<&'static str, &'static str>| static_arg_view(a)) =~= seq![("InstanceID"@, ArgumentDirection::IN, Some("A_ARG_TYPE_InstanceID"@)), ("DesiredVideoGain"@, ArgumentDirection::IN, Some("RedVideoGain"@))]);
        v
    }

    fn out_args(&self) -> Vec<ArgumentDefinition<&'static str, &'static str>> {
        let mut v: Vec<ArgumentDefinition<&'static str, &'static str>> = Vec::new();
        assert(v@.map_values(|a: ArgumentDefinition<&'static str, &'static str>| static_arg_view(a)) =~= Seq::<ArgView>::empty());
        v
    }

    fn execute(&self, args: &ActionArgs) -> Result<ActionArgs, Error> {
        let input = match set_red_video_gain_request(args) { Ok(i) => i, Err(e) => return Err(e) };
        let instance_id = input.instance_id;
        let desired = input.desired_red_video_gain;
        let ghost handed = input;
        let res = self.trait_impl.set_red_video_gain(input);
        assert(call_ensures(T::set_red_video_gain, (&self.implementation(), handed), res));
        match res { Ok(_) => {}, Err(_) => return Err(Error::ActionFailed) }
        self.service.set_state_var(instance_id, StateVariableName::RedVideoGain, DataType::Ui2(desired));
        Ok(ActionArgs::new())
    }
}

pub struct ActionGetGreenVideoGain<T: GetGreenVideoGain> {
    trait_impl: Arc<T>,
}

impl<T: GetGreenVideoGain> ActionGetGreenVideoGain<T> {
    /// The application's implementation of the action.
    pub closed spec fn implementation(&self) -> T {
        *self.trait_impl
    }

    pub fn new(trait_impl: T) -> (r: Self)
        ensures
            r.implementation() == trait_impl,
    {
        ActionGetGreenVideoGain { trait_impl: Arc::new(trait_impl) }
    }
}

impl<T: GetGreenVideoGain> Action for ActionGetGreenVideoGain<T> {
    open spec fn action_name(&self) -> Seq<char> {
        "GetVideoGain"@
    }

    open spec fn in_arg_views(&self) -> Seq<ArgView> {
        seq![("InstanceID"@, ArgumentDirection::IN, Some("A_ARG_TYPE_InstanceID"@))]
    }

    open spec fn out_arg_views(&self) -> Seq<ArgView> {
        seq![("CurrentGreenVideoGain"@, ArgumentDirection::OUT, Some("GreenVideoGain"@))]
    }

    open spec fn outcome(&self, args: Seq<(Seq<char>, Seq<char>)>, r: Result<ActionArgs, Error>) -> bool {
        &&& r is Err ==> (r->Err_0 == Error::ActionFailed)
        &&& exists|res: Result<super::traits::GetGreenVideoGainOutput, T::Error>|
            #[trigger] call_ensures(
                T::get_green_video_gain,
                (&self.implementation(), super::traits::GetGreenVideoGainInput { instance_id: instance_arg(args) }),
                res,
            ) && (r is Ok <==> res is Ok) && (res matches Ok(o) ==> r->Ok_0@ == get_green_video_gain_reply_pairs(o))
    }

    fn name(&self) -> &'static str {
        "GetVideoGain"
    }

    fn in_args(&self) -> Vec<ArgumentDefinition<&'static str, &'static str>> {
        let mut v: Vec<ArgumentDefinition<&'static str, &'static str>> = Vec::new();
        v.push(ArgumentDefinition { name: "InstanceID", direction: ArgumentDirection::IN, related_state_var: Some("A_ARG_TYPE_InstanceID") });
        assert(v@.map_values(|a: ArgumentDefinition<&'static str, &'static str>| static_arg_view(a)) =~= seq![("InstanceID"@, ArgumentDirection::IN, Some("A_ARG_TYPE_InstanceID"@))]);
        v
    }

    fn out_args(&self) -> Vec<ArgumentDefinition<&'static str, &'static str>> {
        let mut v: Vec<ArgumentDefinition<&'static str, &'static str>> = Vec::new();
        v.push(ArgumentDefinition { name: "CurrentGreenVideoGain", direction: ArgumentDirection::OUT, related_state_var: Some("GreenVideoGain") });
        assert(v@.map_values(|a: ArgumentDefinition<&'static str, &'static str>| static_arg_view(a)) =~= seq![("CurrentGreenVideoGain"@, ArgumentDirection::OUT, Some("GreenVideoGain"@))]);
        v
    }

    fn execute(&self, args: &ActionArgs) -> Result<ActionArgs, Error> {
        let input = match get_green_video_gain_request(args) { Ok(i) => i, Err(e) => return Err(e) };
        let ghost handed = input;
        let res = self.trait_impl.get_green_video_gain(input);
        assert(call_ensures(T::get_green_video_gain, (&self.implementation(), handed), res));
        let output = match res { Ok(o) => o, Err(_) => return Err(Error::ActionFailed) };
        Ok(get_green_video_gain_reply(output))
    }
}

pub struct ActionSetGreenVideoGain<T: SetGreenVideoGain> {
    trait_impl: Arc<T>,
    service: RenderingControlService,
}

impl<T: SetGreenVideoGain> ActionSetGreenVideoGain<T> {
    /// The application's implementation of the action.
    pub closed spec fn implementation(&self) -> T {
        *self.trait_impl
    }

    /// The service whose state the action updates.
    pub closed spec fn bound_service(&self) -> RenderingControlService {
        self.service
    }

    pub fn new(trait_impl: T, service: RenderingControlService) -> (r: Self)
        ensures
            r.implementation() == trait_impl,
            r.bound_service() == service,
    {
        ActionSetGreenVideoGain { trait_impl: Arc::new(trait_impl), service }
    }
}

impl<T: SetGreenVideoGain> Action for ActionSetGreenVideoGain<T> {
    open spec fn action_name(&self) -> Seq<char> {
        "SetVideoGain"@
    }

    open spec fn in_arg_views(&self) -> Seq<ArgView> {
        seq![("InstanceID"@, ArgumentDirection::IN, Some("A_ARG_TYPE_InstanceID"@)), ("DesiredVideoGain"@, ArgumentDirection::IN, Some("GreenVideoGain"@))]
    }

    open spec fn out_arg_views(&self) -> Seq<ArgView> {
        Seq::<ArgView>::empty()
    }

    open spec fn outcome(&self, args: Seq<(Seq<char>, Seq<char>)>, r: Result<ActionArgs, Error>) -> bool {
        &&& r is Err ==> (r->Err_0 == Error::ActionFailed || r->Err_0 == Error::ArgumentValueInvalid || r->Err_0 == Error::ArgumentValueOutOfRange)
        &&& r is Ok ==> r->Ok_0@ == Seq::<(Seq<char>, Seq<char>)>::empty()
        &&& set_green_video_gain_refusal(args) matches Some(e) ==> r == Err::<ActionArgs, Error>(e)
        &&& set_green_video_gain_refusal(args) is None ==> (r is Err ==> r->Err_0 == Error::ActionFailed)
        &&& set_green_video_gain_refusal(args) is None ==> exists|input: super::traits::SetGreenVideoGainInput, res: Result<super::traits::SetGreenVideoGainOutput, T::Error>|
            set_green_video_gain_input(args, input) && #[trigger] call_ensures(T::set_green_video_gain, (&self.implementation(), input), res) && (r is Ok
                <==> res is Ok)
    }

    fn name(&self) -> &'static str {
        "SetVideoGain"
    }

    fn in_args(&self) -> Vec<ArgumentDefinition<&'static str, &'static str>> {
        let mut v: Vec<ArgumentDefinition<&'static str, &'static str>> = Vec::new();
        v.push(ArgumentDefinition { name: "InstanceID", direction: ArgumentDirection::IN, related_state_var: Some("A_ARG_TYPE_InstanceID") });
        v.push(ArgumentDefinition { name: "DesiredVideoGain", direction: ArgumentDirection::IN, related_state_var: Some("GreenVideoGain") });
        assert(v@.map_values(|a: ArgumentDefinition<&'static str, &'static str>| static_arg_view(a)) =~= seq![("InstanceID"@, ArgumentDirection::IN, Some("A_ARG_TYPE_InstanceID"@)), ("DesiredVideoGain"@, ArgumentDirection::IN, Some("GreenVideoGain"@))]);
        v
    }

    fn out_args(&self) -> Vec<ArgumentDefinition<&'static str, &'static str>> {
        let mut v: Vec<ArgumentDefinition<&'static str, &'static str>> = Vec::new();
        assert(v@.map_values(|a: ArgumentDefinition<&'static str, &'static str>| static_arg_view(a)) =~= Seq::<ArgView>::empty());
        v
    }

    fn execute(&self, args: &ActionArgs) -> Result<ActionArgs, Error> {
        let input = match set_green_video_gain_request(args) { Ok(i) => i, Err(e) => return Err(e) };
        let instance_id = input.instance_id;
        let desired = input.desired_green_video_gain;
        let ghost handed = input;
        let res = self.trait_impl.set_green_video_gain(input);
        assert(call_ensures(T::set_green_video_gain, (&self.implementation(), handed), res));
        match res { Ok(_) => {}, Err(_) => return Err(Error::ActionFailed) }
        self.service.set_state_var(instance_id, StateVariableName::GreenVideoGain, DataType::Ui2(desired));
        Ok(ActionArgs::new())
    }
}

pub struct ActionGetBlueVideoGain<T: GetBlueVideoGain> {
    trait_impl: Arc<T>,
}

impl<T: GetBlueVideoGain> ActionGetBlueVideoGain<T> {
    /// The application's implementation of the action.
    pub closed spec fn implementation(&self) -> T {
        *self.trait_impl
    }

    pub fn new(trait_impl: T) -> (r: Self)
        ensures
            r.implementation() == trait_impl,
    {
        ActionGetBlueVideoGain { trait_impl: Arc::new(trait_impl) }
    }
}

impl<T: GetBlueVideoGain> Action for ActionGetBlueVideoGain<T> {
    open spec fn action_name(&self) -> Seq<char> {
        "GetVideoGain"@
    }

    open spec fn in_arg_views(&self) -> Seq<ArgView> {
        seq![("InstanceID"@, ArgumentDirection::IN, Some("A_ARG_TYPE_InstanceID"@))]
    }

    open spec fn out_arg_views(&self) -> Seq<ArgView> {
        seq![("CurrentBlueVideoGain"@, ArgumentDirection::OUT, Some("BlueVideoGain"@))]
    }

    open spec fn outcome(&self, args: Seq<(Seq<char>, Seq<char>)>, r: Result<ActionArgs, Error>) -> bool {
        &&& r is Err ==> (r->Err_0 == Error::ActionFailed)
        &&& exists|res: Result<super::traits::GetBlueVideoGainOutput, T::Error>|
            #[trigger] call_ensures(
                T::get_blue_video_gain,
                (&self.implementation(), super::traits::GetBlueVideoGainInput { instance_id: instance_arg(args) }),
                res,
            ) && (r is Ok <==> res is Ok) && (res matches Ok(o) ==> r->Ok_0@ == get_blue_video_gain_reply_pairs(o))
    }

    fn name(&self) -> &'static str {
        "GetVideoGain"
    }

    fn in_args(&self) -> Vec<ArgumentDefinition<&'static str, &'static str>> {
        let mut v: Vec<ArgumentDefinition<&'static str, &'static str>> = Vec::new();
        v.push(ArgumentDefinition { name: "InstanceID", direction: ArgumentDirection::IN, related_state_var: Some("A_ARG_TYPE_InstanceID") });
        assert(v@.map_values(|a: ArgumentDefinition<&'static str, &'static str>| static_arg_view(a)) =~= seq![("InstanceID"@, ArgumentDirection::IN, Some("A_ARG_TYPE_InstanceID"@))]);
        v
    }

    fn out_args(&self) -> Vec<ArgumentDefinition<&'static str, &'static str>> {
        let mut v: Vec<ArgumentDefinition<&'static str, &'static str>> = Vec::new();
        v.push(ArgumentDefinition { name: "CurrentBlueVideoGain", direction: ArgumentDirection::OUT, related_state_var: Some("BlueVideoGain") });
        assert(v@.map_values(|a: ArgumentDefinition<&'static str, &'static str>| static_arg_view(a)) =~= seq![("CurrentBlueVideoGain"@, ArgumentDirection::OUT, Some("BlueVideoGain"@))]);
        v
    }

    fn execute(&self, args: &ActionArgs) -> Result<ActionArgs, Error> {
        let input = match get_blue_video_gain_request(args) { Ok(i) => i, Err(e) => return Err(e) };
        let ghost handed = input;
        let res = self.trait_impl.get_blue_video_gain(input);
        assert(call_ensures(T::get_blue_video_gain, (&self.implementation(), handed), res));
        let output = match res { Ok(o) => o, Err(_) => return Err(Error::ActionFailed) };
        Ok(get_blue_video_gain_reply(output))
    }
}

pub struct ActionSetBlueVideoGain<T: SetBlueVideoGain> {
    trait_impl: Arc<T>,
    service: RenderingControlService,
}

impl<T: SetBlueVideoGain> ActionSetBlueVideoGain<T> {
    /// The application's implementation of the action.
    pub closed spec fn implementation(&self) -> T {
        *self.trait_impl
    }

    /// The service whose state the action updates.
    pub closed spec fn bound_service(&self) -> RenderingControlService {
        self.service
    }

    pub fn new(trait_impl: T, service: RenderingControlService) -> (r: Self)
        ensures
            r.implementation() == trait_impl,
            r.bound_service() == service,
    {
        ActionSetBlueVideoGain { trait_impl: Arc::new(trait_impl), service }
    }
}

impl<T: SetBlueVideoGain> Action for ActionSetBlueVideoGain<T> {
    open spec fn action_name(&self) -> Seq<char> {
        "SetVideoGain"@
    }

    open spec fn in_arg_views(&self) -> Seq<ArgView> {
        seq![("InstanceID"@, ArgumentDirection::IN, Some("A_ARG_TYPE_InstanceID"@)), ("DesiredVideoGain"@, ArgumentDirection::IN, Some("BlueVideoGain"@))]
    }

    open spec fn out_arg_views(&self) -> Seq<ArgView> {
        Seq::<ArgView>::empty()
    }

    open spec fn outcome(&self, args: Seq<(Seq<char>, Seq<char>)>, r: Result<ActionArgs, Error>) -> bool {
        &&& r is Err ==> (r->Err_0 == Error::ActionFailed || r->Err_0 == Error::ArgumentValueInvalid || r->Err_0 == Error::ArgumentValueOutOfRange)
        &&& r is Ok ==> r->Ok_0@ == Seq::<(Seq<char>, Seq<char>)>::empty()
        &&& set_blue_video_gain_refusal(args) matches Some(e) ==> r == Err::<ActionArgs, Error>(e)
        &&& set_blue_video_gain_refusal(args) is None ==> (r is Err ==> r->Err_0 == Error::ActionFailed)
        &&& set_blue_video_gain_refusal(args) is None ==> exists|input: super::traits::SetBlueVideoGainInput, res: Result<super::traits::SetBlueVideoGainOutput, T::Error>|
            set_blue_video_gain_input(args, input) && #[trigger] call_ensures(T::set_blue_video_gain, (&self.implementation(), input), res) && (r is Ok
                <==> res is Ok)
    }

    fn name(&self) -> &'static str {
        "SetVideoGain"
    }

    fn in_args(&self) -> Vec<ArgumentDefinition<&'static str, &'static str>> {
        let mut v: Vec<ArgumentDefinition<&'static str, &'static str>> = Vec::new();
        v.push(ArgumentDefinition { name: "InstanceID", direction: ArgumentDirection::IN, related_state_var: Some("A_ARG_TYPE_InstanceID") });
        v.push(ArgumentDefinition { name: "DesiredVideoGain", direction: ArgumentDirection::IN, related_state_var: Some("BlueVideoGain") });
        assert(v@.map_values(|a: ArgumentDefinition<&'static str, &'static str>| static_arg_view(a)) =~= seq![("InstanceID"@, ArgumentDirection::IN, Some("A_ARG_TYPE_InstanceID"@)), ("DesiredVideoGain"@, ArgumentDirection::IN, Some("BlueVideoGain"@))]);
        v
    }

    fn out_args(&self) -> Vec<ArgumentDefinition<&'static str, &'static str>> {
        let mut v: Vec<ArgumentDefinition<&'static str, &'static str>> = Vec::new();
        assert(v@.map_values(|a: ArgumentDefinition<&'static str, &'static str>| static_arg_view(a)) =~= Seq::<ArgView>::empty());
        v
    }

    fn execute(&self, args: &ActionArgs) -> Result<ActionArgs, Error> {
        let input = match set_blue_video_gain_request(args) { Ok(i) => i, Err(e) => return Err(e) };
        let instance_id = input.instance_id;
        let desired = input.desired_blue_video_gain;
        let ghost handed = input;
        let res = self.trait_impl.set_blue_video_gain(input);
        assert(call_ensures(T::set_blue_video_gain, (&self.implementation(), handed), res));
        match res { Ok(_) => {}, Err(_) => return Err(Error::ActionFailed) }
        self.service.set_state_var(instance_id, StateVariableName::BlueVideoGain, DataType::Ui2(desired));
        Ok(ActionArgs::new())
    }
}

pub struct ActionGetRedVideoBlackLevel<T: GetRedVideoBlackLevel> {
    trait_impl: Arc<T>,
}

impl<T: GetRedVideoBlackLevel> ActionGetRedVideoBlackLevel<T> {
    /// The application's implementation of the action.
    pub closed spec fn implementation(&self) -> T {
        *self.trait_impl
    }

    pub fn new(trait_impl: T) -> (r: Self)
        ensures
            r.implementation() == trait_impl,
    {
        ActionGetRedVideoBlackLevel { trait_impl: Arc::new(trait_impl) }
    }
}

impl<T: GetRedVideoBlackLevel> Action for ActionGetRedVideoBlackLevel<T> {
    open spec fn action_name(&self) -> Seq<char> {
        "GetVideoBlackLevel"@
    }

    open spec fn in_arg_views(&self) -> Seq<ArgView> {
        seq![("InstanceID"@, ArgumentDirection::IN, Some("A_ARG_TYPE_InstanceID"@))]
    }

    open spec fn out_arg_views(&self) -> Seq<ArgView> {
        seq![("CurrentRedVideoBlackLevel"@, ArgumentDirection::OUT, Some("RedVideoBlackLevel"@))]
    }

    open spec fn outcome(&self, args: Seq<(Seq<char>, Seq<char>)>, r: Result<ActionArgs, Error>) -> bool {
        &&& r is Err ==> (r->Err_0 == Error::ActionFailed)
        &&& exists|res: Result<super::traits::GetRedVideoBlackLevelOutput, T::Error>|
            #[trigger] call_ensures(
                T::get_red_video_black_level,
                (&self.implementation(), super::traits::GetRedVideoBlackLevelInput { instance_id: instance_arg(args) }),
                res,
            ) && (r is Ok <==> res is Ok) && (res matches Ok(o) ==> r->Ok_0@ == get_red_video_black_level_reply_pairs(o))
    }

    fn name(&self) -> &'static str {
        "GetVideoBlackLevel"
    }

    fn in_args(&self) -> Vec<ArgumentDefinition<&'static str, &'static str>> {
        let mut v: Vec<ArgumentDefinition<&'static str, &'static str>> = Vec::new();
        v.push(ArgumentDefinition { name: "InstanceID", direction: ArgumentDirection::IN, related_state_var: Some("A_ARG_TYPE_InstanceID") });
        assert(v@.map_values(|a: ArgumentDefinition<&'static str, &'static str>| static_arg_view(a)) =~= seq![("InstanceID"@, ArgumentDirection::IN, Some("A_ARG_TYPE_InstanceID"@))]);
        v
    }

    fn out_args(&self) -> Vec<ArgumentDefinition<&'static str, &'static str>> {
        let mut v: Vec<ArgumentDefinition<&'static str, &'static str>> = Vec::new();
        v.push(ArgumentDefinition { name: "CurrentRedVideoBlackLevel", direction: ArgumentDirection::OUT, related_state_var: Some("RedVideoBlackLevel") });
        assert(v@.map_values(|a: ArgumentDefinition<&'static str, &'static str>| static_arg_view(a)) =~= seq![("CurrentRedVideoBlackLevel"@, ArgumentDirection::OUT, Some("RedVideoBlackLevel"@))]);
        v
    }

    fn execute(&self, args: &ActionArgs) -> Result<ActionArgs, Error> {
        let input = match get_red_video_black_level_request(args) { Ok(i) => i, Err(e) => return Err(e) };
        let ghost handed = input;
        let res = self.trait_impl.get_red_video_black_level(input);
        assert(call_ensures(T::get_red_video_black_level, (&self.implementation(), handed), res));
        let output = match res { Ok(o) => o, Err(_) => return Err(Error::ActionFailed) };
        Ok(get_red_video_black_level_reply(output))
    }
}

pub struct ActionSetRedVideoBlackLevel<T: SetRedVideoBlackLevel> {
    trait_impl: Arc<T>,
    service: RenderingControlService,
}

impl<T: SetRedVideoBlackLevel> ActionSetRedVideoBlackLevel<T> {
    /// The application's implementation of the action.
    pub closed spec fn implementation(&self) -> T {
        *self.trait_impl
    }

    /// The service whose state the action updates.
    pub closed spec fn bound_service(&self) -> RenderingControlService {
        self.service
    }

    pub fn new(trait_impl: T, service: RenderingControlService) -> (r: Self)
        ensures
            r.implementation() == trait_impl,
            r.bound_service() == service,
    {
        ActionSetRedVideoBlackLevel { trait_impl: Arc::new(trait_impl), service }
    }
}

impl<T: SetRedVideoBlackLevel> Action for ActionSetRedVideoBlackLevel<T> {
    open spec fn action_name(&self) -> Seq<char> {
        "SetVideoBlackLevel"@
    }

    open spec fn in_arg_views(&self) -> Seq<ArgView> {
        seq![("InstanceID"@, ArgumentDirection::IN, Some("A_ARG_TYPE_InstanceID"@)), ("DesiredVideoBlackLevel"@, ArgumentDirection::IN, Some("RedVideoBlackLevel"@))]
    }

    open spec fn out_arg_views(&self) -> Seq<ArgView> {
        Seq::<ArgView>::empty()
    }

    open spec fn outcome(&self, args: Seq<(Seq<char>, Seq<char>)>, r: Result<ActionArgs, Error>) -> bool {
        &&& r is Err ==> (r->Err_0 == Error::ActionFailed || r->Err_0 == Error::ArgumentValueInvalid || r->Err_0 == Error::ArgumentValueOutOfRange)
        &&& r is Ok ==> r->Ok_0@ == Seq::<(Seq<char>, Seq<char>)>::empty()
        &&& set_red_video_black_level_refusal(args) matches Some(e) ==> r == Err::<ActionArgs, Error>(e)
        &&& set_red_video_black_level_refusal(args) is None ==> (r is Err ==> r->Err_0 == Error::ActionFailed)
        &&& set_red_video_black_level_refusal(args) is None ==> exists|input: super::traits::SetRedVideoBlackLevelInput, res: Result<super::traits::SetRedVideoBlackLevelOutput, T::Error>|
            set_red_video_black_level_input(args, input) && #[trigger] call_ensures(T::set_red_video_black_level, (&self.implementation(), input), res) && (r is Ok
                <==> res is Ok)
    }

    fn name(&self) -> &'static str {
        "SetVideoBlackLevel"
    }

    fn in_args(&self) -> Vec<ArgumentDefinition<&'static str, &'static str>> {
        let mut v: Vec<ArgumentDefinition<&'static str, &'static str>> = Vec::new();
        v.push(ArgumentDefinition { name: "InstanceID", direction: ArgumentDirection::IN, related_state_var: Some("A_ARG_TYPE_InstanceID") });
        v.push(ArgumentDefinition { name: "DesiredVideoBlackLevel", direction: ArgumentDirection::IN, related_state_var: Some("RedVideoBlackLevel") });
        assert(v@.map_values(|a: ArgumentDefinition<&'static str, &'static str>| static_arg_view(a)) =~= seq![("InstanceID"@, ArgumentDirection::IN, Some("A_ARG_TYPE_InstanceID"@)), ("DesiredVideoBlackLevel"@, ArgumentDirection::IN, Some("RedVideoBlackLevel"@))]);
        v
    }

    fn out_args(&self) -> Vec<ArgumentDefinition<&'static str, &'static str>> {
        let mut v: Vec<ArgumentDefinition<&'static str, &'static str>> = Vec::new();
        assert(v@.map_values(|a: ArgumentDefinition<&'static str, &'static str>| static_arg_view(a)) =~= Seq::<ArgView>::empty());
        v
    }

    fn execute(&self, args: &ActionArgs) -> Result<ActionArgs, Error> {
        let input = match set_red_video_black_level_request(args) { Ok(i) => i, Err(e) => return Err(e) };
        let instance_id = input.instance_id;
        let desired = input.desired_red_video_black_level;
        let ghost handed = input;
        let res = self.trait_impl.set_red_video_black_level(input);
        assert(call_ensures(T::set_red_video_black_level, (&self.implementation(), handed), res));
        match res { Ok(_) => {}, Err(_) => return Err(Error::ActionFailed) }
        self.service.set_state_var(instance_id, StateVariableName::RedVideoBlackLevel, DataType::Ui2(desired));
        Ok(ActionArgs::new())
    }
}

pub struct ActionGetGreenVideoBlackLevel<T: GetGreenVideoBlackLevel> {
    trait_impl: Arc<T>,
}

impl<T: GetGreenVideoBlackLevel> ActionGetGreenVideoBlackLevel<T> {
    /// The application's implementation of the action.
    pub closed spec fn implementation(&self) -> T {
        *self.trait_impl
    }

    pub fn new(trait_impl: T) -> (r: Self)
        ensures
            r.implementation() == trait_impl,
    {
        ActionGetGreenVideoBlackLevel { trait_impl: Arc::new(trait_impl) }
    }
}

impl<T: GetGreenVideoBlackLevel> Action for ActionGetGreenVideoBlackLevel<T> {
    open spec fn action_name(&self) -> Seq<char> {
        "GetVideoBlackLevel"@
    }

    open spec fn in_arg_views(&self) -> Seq<ArgView> {
        seq![("InstanceID"@, ArgumentDirection::IN, Some("A_ARG_TYPE_InstanceID"@))]
    }

    open spec fn out_arg_views(&self) -> Seq<ArgView> {
        seq![("CurrentGreenVideoBlackLevel"@, ArgumentDirection::OUT, Some("GreenVideoBlackLevel"@))]
    }

    open spec fn outcome(&self, args: Seq<(Seq<char>, Seq<char>)>, r: Result<ActionArgs, Error>) -> bool {
        &&& r is Err ==> (r->Err_0 == Error::ActionFailed)
        &&& exists|res: Result<super::traits::GetGreenVideoBlackLevelOutput, T::Error>|
            #[trigger] call_ensures(
                T::get_green_video_black_level,
                (&self.implementation(), super::traits::GetGreenVideoBlackLevelInput { instance_id: instance_arg(args) }),
                res,
            ) && (r is Ok <==> res is Ok) && (res matches Ok(o) ==> r->Ok_0@ == get_green_video_black_level_reply_pairs(o))
    }

    fn name(&self) -> &'static str {
        "GetVideoBlackLevel"
    }

    fn in_args(&self) -> Vec<ArgumentDefinition<&'static str, &'static str>> {
        let mut v: Vec<ArgumentDefinition<&'static str, &'static str>> = Vec::new();
        v.push(ArgumentDefinition { name: "InstanceID", direction: ArgumentDirection::IN, related_state_var: Some("A_ARG_TYPE_InstanceID") });
        assert(v@.map_values(|a: ArgumentDefinition<&'static str, &'static str>| static_arg_view(a)) =~= seq![("InstanceID"@, ArgumentDirection::IN, Some("A_ARG_TYPE_InstanceID"@))]);
        v
    }

    fn out_args(&self) -> Vec<ArgumentDefinition<&'static str, &'static str>> {
        let mut v: Vec<ArgumentDefinition<&'static str, &'static str>> = Vec::new();
        v.push(ArgumentDefinition { name: "CurrentGreenVideoBlackLevel", direction: ArgumentDirection::OUT, related_state_var: Some("GreenVideoBlackLevel") });
        assert(v@.map_values(|a: ArgumentDefinition<&'static str, &'static str>| static_arg_view(a)) =~= seq![("CurrentGreenVideoBlackLevel"@, ArgumentDirection::OUT, Some("GreenVideoBlackLevel"@))]);
        v
    }

    fn execute(&self, args: &ActionArgs) -> Result<ActionArgs, Error> {
        let input = match get_green_video_black_level_request(args) { Ok(i) => i, Err(e) => return Err(e) };
        let ghost handed = input;
        let res = self.trait_impl.get_green_video_black_level(input);
        assert(call_ensures(T::get_green_video_black_level, (&self.implementation(), handed), res));
        let output = match res { Ok(o) => o, Err(_) => return Err(Error::ActionFailed) };
        Ok(get_green_video_black_level_reply(output))
    }
}

pub struct ActionSetGreenVideoBlackLevel<T: SetGreenVideoBlackLevel> {
    trait_impl: Arc<T>,
    service: RenderingControlService,
}

impl<T: SetGreenVideoBlackLevel> ActionSetGreenVideoBlackLevel<T> {
    /// The application's implementation of the action.
    pub closed spec fn implementation(&self) -> T {
        *self.trait_impl
    }

    /// The service whose state the action updates.
    pub closed spec fn bound_service(&self) -> RenderingControlService {
        self.service
    }

    pub fn new(trait_impl: T, service: RenderingControlService) -> (r: Self)
        ensures
            r.implementation() == trait_impl,
            r.bound_service() == service,
    {
        ActionSetGreenVideoBlackLevel { trait_impl: Arc::new(trait_impl), service }
    }
}

impl<T: SetGreenVideoBlackLevel> Action for ActionSetGreenVideoBlackLevel<T> {
    open spec fn action_name(&self) -> Seq<char> {
        "SetVideoBlackLevel"@
    }

    open spec fn in_arg_views(&self) -> Seq<ArgView> {
        seq![("InstanceID"@, ArgumentDirection::IN, Some("A_ARG_TYPE_InstanceID"@)), ("DesiredVideoBlackLevel"@, ArgumentDirection::IN, Some("GreenVideoBlackLevel"@))]
    }

    open spec fn out_arg_views(&self) -> Seq<ArgView> {
        Seq::<ArgView>::empty()
    }

    open spec fn outcome(&self, args: Seq<(Seq<char>, Seq<char>)>, r: Result<ActionArgs, Error>) -> bool {
        &&& r is Err ==> (r->Err_0 == Error::ActionFailed || r->Err_0 == Error::ArgumentValueInvalid || r->Err_0 == Error::ArgumentValueOutOfRange)
        &&& r is Ok ==> r->Ok_0@ == Seq::<(Seq<char>, Seq<char>)>::empty()
        &&& set_green_video_black_level_refusal(args) matches Some(e) ==> r == Err::<ActionArgs, Error>(e)
        &&& set_green_video_black_level_refusal(args) is None ==> (r is Err ==> r->Err_0 == Error::ActionFailed)
        &&& set_green_video_black_level_refusal(args) is None ==> exists|input: super::traits::SetGreenVideoBlackLevelInput, res: Result<super::traits::SetGreenVideoBlackLevelOutput, T::Error>|
            set_green_video_black_level_input(args, input) && #[trigger] call_ensures(T::set_green_video_black_level, (&self.implementation(), input), res) && (r is Ok
                <==> res is Ok)
    }

    fn name(&self) -> &'static str {
        "SetVideoBlackLevel"
    }

    fn in_args(&self) -> Vec<ArgumentDefinition<&'static str, &'static str>> {
        let mut v: Vec<ArgumentDefinition<&'static str, &'static str>> = Vec::new();
        v.push(ArgumentDefinition { name: "InstanceID", direction: ArgumentDirection::IN, related_state_var: Some("A_ARG_TYPE_InstanceID") });
        v.push(ArgumentDefinition { name: "DesiredVideoBlackLevel", direction: ArgumentDirection::IN, related_state_var: Some("GreenVideoBlackLevel") });
        assert(v@.map_values(|a: ArgumentDefinition<&'static str, &'static str>| static_arg_view(a)) =~= seq![("InstanceID"@, ArgumentDirection::IN, Some("A_ARG_TYPE_InstanceID"@)), ("DesiredVideoBlackLevel"@, ArgumentDirection::IN, Some("GreenVideoBlackLevel"@))]);
        v
    }

    fn out_args(&self) -> Vec<ArgumentDefinition<&'static str, &'static str>> {
        let mut v: Vec<ArgumentDefinition<&'static str, &'static str>> = Vec::new();
        assert(v@.map_values(|a: ArgumentDefinition<&'static str, &'static str>| static_arg_view(a)) =~= Seq::<ArgView>::empty());
        v
    }

    fn execute(&self, args: &ActionArgs) -> Result<ActionArgs, Error> {
        let input = match set_green_video_black_level_request(args) { Ok(i) => i, Err(e) => return Err(e) };
        let instance_id = input.instance_id;
        let desired = input.desired_green_video_black_level;
        let ghost handed = input;
        let res = self.trait_impl.set_green_video_black_level(input);
        assert(call_ensures(T::set_green_video_black_level, (&self.implementation(), handed), res));
        match res { Ok(_) => {}, Err(_) => return Err(Error::ActionFailed) }
        self.service.set_state_var(instance_id, StateVariableName::GreenVideoBlackLevel, DataType::Ui2(desired));
        Ok(ActionArgs::new())
    }
}

pub struct ActionGetBlueVideoBlackLevel<T: GetBlueVideoBlackLevel> {
    trait_impl: Arc<T>,
}

impl<T: GetBlueVideoBlackLevel> ActionGetBlueVideoBlackLevel<T> {
    /// The application's implementation of the action.
    pub closed spec fn implementation(&self) -> T {
        *self.trait_impl
    }

    pub fn new(trait_impl: T) -> (r: Self)
        ensures
            r.implementation() == trait_impl,
    {
        ActionGetBlueVideoBlackLevel { trait_impl: Arc::new(trait_impl) }
    }
}

impl<T: GetBlueVideoBlackLevel> Action for ActionGetBlueVideoBlackLevel<T> {
    open spec fn action_name(&self) -> Seq<char> {
        "GetVideoBlackLevel"@
    }

    open spec fn in_arg_views(&self) -> Seq<ArgView> {
        seq![("InstanceID"@, ArgumentDirection::IN, Some("A_ARG_TYPE_InstanceID"@))]
    }

    open spec fn out_arg_views(&self) -> Seq<ArgView> {
        seq![("CurrentBlueVideoBlackLevel"@, ArgumentDirection::OUT, Some("BlueVideoBlackLevel"@))]
    }

    open spec fn outcome(&self, args: Seq<(Seq<char>, Seq<char>)>, r: Result<ActionArgs, Error>) -> bool {
        &&& r is Err ==> (r->Err_0 == Error::ActionFailed)
        &&& exists|res: Result<super::traits::GetBlueVideoBlackLevelOutput, T::Error>|
            #[trigger] call_ensures(
                T::get_blue_video_black_level,
                (&self.implementation(), super::traits::GetBlueVideoBlackLevelInput { instance_id: instance_arg(args) }),
                res,
            ) && (r is Ok <==> res is Ok) && (res matches Ok(o) ==> r->Ok_0@ == get_blue_video_black_level_reply_pairs(o))
    }

    fn name(&self) -> &'static str {
        "GetVideoBlackLevel"
    }

    fn in_args(&self) -> Vec<ArgumentDefinition<&'static str, &'static str>> {
        let mut v: Vec<ArgumentDefinition<&'static str, &'static str>> = Vec::new();
        v.push(ArgumentDefinition { name: "InstanceID", direction: ArgumentDirection::IN, related_state_var: Some("A_ARG_TYPE_InstanceID") });
        assert(v@.map_values(|a: ArgumentDefinition<&'static str, &'static str>| static_arg_view(a)) =~= seq![("InstanceID"@, ArgumentDirection::IN, Some("A_ARG_TYPE_InstanceID"@))]);
        v
    }

    fn out_args(&self) -> Vec<ArgumentDefinition<&'static str, &'static str>> {
        let mut v: Vec<ArgumentDefinition<&'static str, &'static str>> = Vec::new();
        v.push(ArgumentDefinition { name: "CurrentBlueVideoBlackLevel", direction: ArgumentDirection::OUT, related_state_var: Some("BlueVideoBlackLevel") });
        assert(v@.map_values(|a: ArgumentDefinition<&'static str, &'static str>| static_arg_view(a)) =~= seq![("CurrentBlueVideoBlackLevel"@, ArgumentDirection::OUT, Some("BlueVideoBlackLevel"@))]);
        v
    }

    fn execute(&self, args: &ActionArgs) -> Result<ActionArgs, Error> {
        let input = match get_blue_video_black_level_request(args) { Ok(i) => i, Err(e) => return Err(e) };
        let ghost handed = input;
        let res = self.trait_impl.get_blue_video_black_level(input);
        assert(call_ensures(T::get_blue_video_black_level, (&self.implementation(), handed), res));
        let output = match res { Ok(o) => o, Err(_) => return Err(Error::ActionFailed) };
        Ok(get_blue_video_black_level_reply(output))
    }
}

pub struct ActionSetBlueVideoBlackLevel<T: SetBlueVideoBlackLevel> {
    trait_impl: Arc<T>,
    service: RenderingControlService,
}

impl<T: SetBlueVideoBlackLevel> ActionSetBlueVideoBlackLevel<T> {
    /// The application's implementation of the action.
    pub closed spec fn implementation(&self) -> T {
        *self.trait_impl
    }

    /// The service whose state the action updates.
    pub closed spec fn bound_service(&self) -> RenderingControlService {
        self.service
    }

    pub fn new(trait_impl: T, service: RenderingControlService) -> (r: Self)
        ensures
            r.implementation() == trait_impl,
            r.bound_service() == service,
    {
        ActionSetBlueVideoBlackLevel { trait_impl: Arc::new(trait_impl), service }
    }
}

impl<T: SetBlueVideoBlackLevel> Action for ActionSetBlueVideoBlackLevel<T> {
    open spec fn action_name(&self) -> Seq<char> {
        "SetVideoBlackLevel"@
    }

    open spec fn in_arg_views(&self) -> Seq<ArgView> {
        seq![("InstanceID"@, ArgumentDirection::IN, Some("A_ARG_TYPE_InstanceID"@)), ("DesiredVideoBlackLevel"@, ArgumentDirection::IN, Some("BlueVideoBlackLevel"@))]
    }

    open spec fn out_arg_views(&self) -> Seq<ArgView> {
        Seq::<ArgView>::empty()
    }

    open spec fn outcome(&self, args: Seq<(Seq<char>, Seq<char>)>, r: Result<ActionArgs, Error>) -> bool {
        &&& r is Err ==> (r->Err_0 == Error::ActionFailed || r->Err_0 == Error::ArgumentValueInvalid || r->Err_0 == Error::ArgumentValueOutOfRange)
        &&& r is Ok ==> r->Ok_0@ == Seq::<(Seq<char>, Seq<char>)>::empty()
        &&& set_blue_video_black_level_refusal(args) matches Some(e) ==> r == Err::<ActionArgs, Error>(e)
        &&& set_blue_video_black_level_refusal(args) is None ==> (r is Err ==> r->Err_0 == Error::ActionFailed)
        &&& set_blue_video_black_level_refusal(args) is None ==> exists|input: super::traits::SetBlueVideoBlackLevelInput, res: Result<super::traits::SetBlueVideoBlackLevelOutput, T::Error>|
            set_blue_video_black_level_input(args, input) && #[trigger] call_ensures(T::set_blue_video_black_level, (&self.implementation(), input), res) && (r is Ok
                <==> res is Ok)
    }

    fn name(&self) -> &'static str {
        "SetVideoBlackLevel"
    }

    fn in_args(&self) -> Vec<ArgumentDefinition<&'static str, &'static str>> {
        let mut v: Vec<ArgumentDefinition<&'static str, &'static str>> = Vec::new();
        v.push(ArgumentDefinition { name: "InstanceID", direction: ArgumentDirection::IN, related_state_var: Some("A_ARG_TYPE_InstanceID") });
        v.push(ArgumentDefinition { name: "DesiredVideoBlackLevel", direction: ArgumentDirection::IN, related_state_var: Some("BlueVideoBlackLevel") });
        assert(v@.map_values(|a: ArgumentDefinition<&'static str, &'static str>| static_arg_view(a)) =~= seq![("InstanceID"@, ArgumentDirection::IN, Some("A_ARG_TYPE_InstanceID"@)), ("DesiredVideoBlackLevel"@, ArgumentDirection::IN, Some("BlueVideoBlackLevel"@))]);
        v
    }

    fn out_args(&self) -> Vec<ArgumentDefinition<&'static str, &'static str>> {
        let mut v: Vec<ArgumentDefinition<&'static str, &'static str>> = Vec::new();
        assert(v@.map_values(|a: ArgumentDefinition<&'static str, &'static str>| static_arg_view(a)) =~= Seq::<ArgView>::empty());
        v
    }

    fn execute(&self, args: &ActionArgs) -> Result<ActionArgs, Error> {
        let input = match set_blue_video_black_level_request(args) { Ok(i) => i, Err(e) => return Err(e) };
        let instance_id = input.instance_id;
        let desired = input.desired_blue_video_black_level;
        let ghost handed = input;
        let res = self.trait_impl.set_blue_video_black_level(input);
        assert(call_ensures(T::set_blue_video_black_level, (&self.implementation(), handed), res));
        match res { Ok(_) => {}, Err(_) => return Err(Error::ActionFailed) }
        self.service.set_state_var(instance_id, StateVariableName::BlueVideoBlackLevel, DataType::Ui2(desired));
        Ok(ActionArgs::new())
    }
}

pub struct ActionGetColorTemperature<T: GetColorTemperature> {
    trait_impl: Arc<T>,
}

impl<T: GetColorTemperature> ActionGetColorTemperature<T> {
    /// The application's implementation of the action.
    pub closed spec fn implementation(&self) -> T {
        *self.trait_impl
    }

    pub fn new(trait_impl: T) -> (r: Self)
        ensures
            r.implementation() == trait_impl,
    {
        ActionGetColorTemperature { trait_impl: Arc::new(trait_impl) }
    }
}

impl<T: GetColorTemperature> Action for ActionGetColorTemperature<T> {
    open spec fn action_name(&self) -> Seq<char> {
        "GetColorTemperature"@
    }

    open spec fn in_arg_views(&self) -> Seq<ArgView> {
        seq![("InstanceID"@, ArgumentDirection::IN, Some("A_ARG_TYPE_InstanceID"@))]
    }

    open spec fn out_arg_views(&self) -> Seq<ArgView> {
        seq![("CurrentColorTemperature"@, ArgumentDirection::OUT, Some("ColorTemperature"@))]
    }

    open spec fn outcome(&self, args: Seq<(Seq<char>, Seq<char>)>, r: Result<ActionArgs, Error>) -> bool {
        &&& r is Err ==> (r->Err_0 == Error::ActionFailed)
        &&& exists|res: Result<super::traits::GetColorTemperatureOutput, T::Error>|
            #[trigger] call_ensures(
                T::get_color_temperature,
                (&self.implementation(), super::traits::GetColorTemperatureInput { instance_id: instance_arg(args) }),
                res,
            ) && (r is Ok <==> res is Ok) && (res matches Ok(o) ==> r->Ok_0@ == get_color_temperature_reply_pairs(o))
    }

    fn name(&self) -> &'static str {
        "GetColorTemperature"
    }

    fn in_args(&self) -> Vec<ArgumentDefinition<&'static str, &'static str>> {
        let mut v: Vec<ArgumentDefinition<&'static str, &'static str>> = Vec::new();
        v.push(ArgumentDefinition { name: "InstanceID", direction: ArgumentDirection::IN, related_state_var: Some("A_ARG_TYPE_InstanceID") });
        assert(v@.map_values(|a: ArgumentDefinition<&'static str, &'static str>| static_arg_view(a)) =~= seq![("InstanceID"@, ArgumentDirection::IN, Some("A_ARG_TYPE_InstanceID"@))]);
        v
    }

    fn out_args(&self) -> Vec<ArgumentDefinition<&'static str, &'static str>> {
        let mut v: Vec<ArgumentDefinition<&'static str, &'static str>> = Vec::new();
        v.push(ArgumentDefinition { name: "CurrentColorTemperature", direction: ArgumentDirection::OUT, related_state_var: Some("ColorTemperature") });
        assert(v@.map_values(|a: ArgumentDefinition<&'static str, &'static str>| static_arg_view(a)) =~= seq![("CurrentColorTemperature"@, ArgumentDirection::OUT, Some("ColorTemperature"@))]);
        v
    }

    fn execute(&self, args: &ActionArgs) -> Result<ActionArgs, Error> {
        let input = match get_color_temperature_request(args) { Ok(i) => i, Err(e) => return Err(e) };
        let ghost handed = input;
        let res = self.trait_impl.get_color_temperature(input);
        assert(call_ensures(T::get_color_temperature, (&self.implementation(), handed), res));
        let output = match res { Ok(o) => o, Err(_) => return Err(Error::ActionFailed) };
        Ok(get_color_temperature_reply(output))
    }
}

pub struct ActionSetColorTemperature<T: SetColorTemperature> {
    trait_impl: Arc<T>,
    service: RenderingControlService,
}

impl<T: SetColorTemperature> ActionSetColorTemperature<T> {
    /// The application's implementation of the action.
    pub closed spec fn implementation(&self) -> T {
        *self.trait_impl
    }

    /// The service whose state the action updates.
    pub closed spec fn bound_service(&self) -> RenderingControlService {
        self.service
    }

    pub fn new(trait_impl: T, service: RenderingControlService) -> (r: Self)
        ensures
            r.implementation() == trait_impl,
            r.bound_service() == service,
    {
        ActionSetColorTemperature { trait_impl: Arc::new(trait_impl), service }
    }
}

impl<T: SetColorTemperature> Action for ActionSetColorTemperature<T> {
    open spec fn action_name(&self) -> Seq<char> {
        "SetColorTemperature"@
    }

    open spec fn in_arg_views(&self) -> Seq<ArgView> {
        seq![("InstanceID"@, ArgumentDirection::IN, Some("A_ARG_TYPE_InstanceID"@)), ("DesiredColorTemperature"@, ArgumentDirection::IN, Some("ColorTemperature"@))]
    }

    open spec fn out_arg_views(&self) -> Seq<ArgView> {
        Seq::<ArgView>::empty()
    }

    open spec fn outcome(&self, args: Seq<(Seq<char>, Seq<char>)>, r: Result<ActionArgs, Error>) -> bool {
        &&& r is Err ==> (r->Err_0 == Error::ActionFailed || r->Err_0 == Error::ArgumentValueInvalid || r->Err_0 == Error::ArgumentValueOutOfRange)
        &&& r is Ok ==> r->Ok_0@ == Seq::<(Seq<char>, Seq<char>)>::empty()
        &&& set_color_temperature_refusal(args) matches Some(e) ==> r == Err::<ActionArgs, Error>(e)
        &&& set_color_temperature_refusal(args) is None ==> (r is Err ==> r->Err_0 == Error::ActionFailed)
        &&& set_color_temperature_refusal(args) is None ==> exists|input: super::traits::SetColorTemperatureInput, res: Result<super::traits::SetColorTemperatureOutput, T::Error>|
            set_color_temperature_input(args, input) && #[trigger] call_ensures(T::set_color_temperature, (&self.implementation(), input), res) && (r is Ok
                <==> res is Ok)
    }

    fn name(&self) -> &'static str {
        "SetColorTemperature"
    }

    fn in_args(&self) -> Vec<ArgumentDefinition<&'static str, &'static str>> {
        let mut v: Vec<ArgumentDefinition<&'static str, &'static str>> = Vec::new();
        v.push(ArgumentDefinition { name: "InstanceID", direction: ArgumentDirection::IN, related_state_var: Some("A_ARG_TYPE_InstanceID") });
        v.push(ArgumentDefinition { name: "DesiredColorTemperature", direction: ArgumentDirection::IN, related_state_var: Some("ColorTemperature") });
        assert(v@.map_values(|a: ArgumentDefinition<&'static str, &'static str>| static_arg_view(a)) =~= seq![("InstanceID"@, ArgumentDirection::IN, Some("A_ARG_TYPE_InstanceID"@)), ("DesiredColorTemperature"@, ArgumentDirection::IN, Some("ColorTemperature"@))]);
        v
    }

    fn out_args(&self) -> Vec<ArgumentDefinition<&'static str, &'static str>> {
        let mut v: Vec<ArgumentDefinition<&'static str, &'static str>> = Vec::new();
        assert(v@.map_values(|a: ArgumentDefinition<&'static str, &'static str>| static_arg_view(a)) =~= Seq::<ArgView>::empty());
        v
    }

    fn execute(&self, args: &ActionArgs) -> Result<ActionArgs, Error> {
        let input = match set_color_temperature_request(args) { Ok(i) => i, Err(e) => return Err(e) };
        let instance_id = input.instance_id;
        let desired = input.desired_color_temperature;
        let ghost handed = input;
        let res = self.trait_impl.set_color_temperature(input);
        assert(call_ensures(T::set_color_temperature, (&self.implementation(), handed), res));
        match res { Ok(_) => {}, Err(_) => return Err(Error::ActionFailed) }
        self.service.set_state_var(instance_id, StateVariableName::ColorTemperature, DataType::Ui2(desired));
        Ok(ActionArgs::new())
    }
}

pub struct ActionGetHorizontalKeystone<T: GetHorizontalKeystone> {
    trait_impl: Arc<T>,
}

impl<T: GetHorizontalKeystone> ActionGetHorizontalKeystone<T> {
    /// The application's implementation of the action.
    pub closed spec fn implementation(&self) -> T {
        *self.trait_impl
    }

    pub fn new(trait_impl: T) -> (r: Self)
        ensures
            r.implementation() == trait_impl,
    {
        ActionGetHorizontalKeystone { trait_impl: Arc::new(trait_impl) }
    }
}

impl<T: GetHorizontalKeystone> Action for ActionGetHorizontalKeystone<T> {
    open spec fn action_name(&self) -> Seq<char> {
        "GetHorizontalKeystone"@
    }

    open spec fn in_arg_views(&self) -> Seq<ArgView> {
        seq![("InstanceID"@, ArgumentDirection::IN, Some("A_ARG_TYPE_InstanceID"@))]
    }

    open spec fn out_arg_views(&self) -> Seq<ArgView> {
        seq![("CurrentHorizontalKeystone"@, ArgumentDirection::OUT, Some("HorizontalKeystone"@))]
    }

    open spec fn outcome(&self, args: Seq<(Seq<char>, Seq<char>)>, r: Result<ActionArgs, Error>) -> bool {
        &&& r is Err ==> (r->Err_0 == Error::ActionFailed)
        &&& exists|res: Result<super::traits::GetHorizontalKeystoneOutput, T::Error>|
            #[trigger] call_ensures(
                T::get_horizontal_keystone,
                (&self.implementation(), super::traits::GetHorizontalKeystoneInput { instance_id: instance_arg(args) }),
                res,
            ) && (r is Ok <==> res is Ok) && (res matches Ok(o) ==> r->Ok_0@ == get_horizontal_keystone_reply_pairs(o))
    }

    fn name(&self) -> &'static str {
        "GetHorizontalKeystone"
    }

    fn in_args(&self) -> Vec<ArgumentDefinition<&'static str, &'static str>> {
        let mut v: Vec<ArgumentDefinition<&'static str, &'static str>> = Vec::new();
        v.push(ArgumentDefinition { name: "InstanceID", direction: ArgumentDirection::IN, related_state_var: Some("A_ARG_TYPE_InstanceID") });
        assert(v@.map_values(|a: ArgumentDefinition<&'static str, &'static str>| static_arg_view(a)) =~= seq![("InstanceID"@, ArgumentDirection::IN, Some("A_ARG_TYPE_InstanceID"@))]);
        v
    }

    fn out_args(&self) -> Vec<ArgumentDefinition<&'static str, &'static str>> {
        let mut v: Vec<ArgumentDefinition<&'static str, &'static str>> = Vec::new();
        v.push(ArgumentDefinition { name: "CurrentHorizontalKeystone", direction: ArgumentDirection::OUT, related_state_var: Some("HorizontalKeystone") });
        assert(v@.map_values(|a: ArgumentDefinition<&'static str, &'static str>| static_arg_view(a)) =~= seq![("CurrentHorizontalKeystone"@, ArgumentDirection::OUT, Some("HorizontalKeystone"@))]);
        v
    }

    fn execute(&self, args: &ActionArgs) -> Result<ActionArgs, Error> {
        let input = match get_horizontal_keystone_request(args) { Ok(i) => i, Err(e) => return Err(e) };
        let ghost handed = input;
        let res = self.trait_impl.get_horizontal_keystone(input);
        assert(call_ensures(T::get_horizontal_keystone, (&self.implementation(), handed), res));
        let output = match res { Ok(o) => o, Err(_) => return Err(Error::ActionFailed) };
        Ok(get_horizontal_keystone_reply(output))
    }
}

pub struct ActionSetHorizontalKeystone<T: SetHorizontalKeystone> {
    trait_impl: Arc<T>,
    service: RenderingControlService,
}

impl<T: SetHorizontalKeystone> ActionSetHorizontalKeystone<T> {
    /// The application's implementation of the action.
    pub closed spec fn implementation(&self) -> T {
        *self.trait_impl
    }

    /// The service whose state the action updates.
    pub closed spec fn bound_service(&self) -> RenderingControlService {
        self.service
    }

    pub fn new(trait_impl: T, service: RenderingControlService) -> (r: Self)
        ensures
            r.implementation() == trait_impl,
            r.bound_service() == service,
    {
        ActionSetHorizontalKeystone { trait_impl: Arc::new(trait_impl), service }
    }
}

impl<T: SetHorizontalKeystone> Action for ActionSetHorizontalKeystone<T> {
    open spec fn action_name(&self) -> Seq<char> {
        "SetHorizontalKeystone"@
    }

    open spec fn in_arg_views(&self) -> Seq<ArgView> {
        seq![("InstanceID"@, ArgumentDirection::IN, Some("A_ARG_TYPE_InstanceID"@)), ("DesiredHorizontalKeystone"@, ArgumentDirection::IN, Some("HorizontalKeystone"@))]
    }

    open spec fn out_arg_views(&self) -> Seq<ArgView> {
        Seq::<ArgView>::empty()
    }

    open spec fn outcome(&self, args: Seq<(Seq<char>, Seq<char>)>, r: Result<ActionArgs, Error>) -> bool {
        &&& r is Err ==> (r->Err_0 == Error::ActionFailed || r->Err_0 == Error::ArgumentValueInvalid || r->Err_0 == Error::ArgumentValueOutOfRange)
        &&& r is Ok ==> r->Ok_0@ == Seq::<(Seq<char>, Seq<char>)>::empty()
        &&& set_horizontal_keystone_refusal(args) matches Some(e) ==> r == Err::<ActionArgs, Error>(e)
        &&& set_horizontal_keystone_refusal(args) is None ==> (r is Err ==> r->Err_0 == Error::ActionFailed)
        &&& set_horizontal_keystone_refusal(args) is None ==> exists|input: super::traits::SetHorizontalKeystoneInput, res: Result<super::traits::SetHorizontalKeystoneOutput, T::Error>|
            set_horizontal_keystone_input(args, input) && #[trigger] call_ensures(T::set_horizontal_keystone, (&self.implementation(), input), res) && (r is Ok
                <==> res is Ok)
    }

    fn name(&self) -> &'static str {
        "SetHorizontalKeystone"
    }

    fn in_args(&self) -> Vec<ArgumentDefinition<&'static str, &'static str>> {
        let mut v: Vec<ArgumentDefinition<&'static str, &'static str>> = Vec::new();
        v.push(ArgumentDefinition { name: "InstanceID", direction: ArgumentDirection::IN, related_state_var: Some("A_ARG_TYPE_InstanceID") });
        v.push(ArgumentDefinition { name: "DesiredHorizontalKeystone", direction: ArgumentDirection::IN, related_state_var: Some("HorizontalKeystone") });
        assert(v@.map_values(|a: ArgumentDefinition<&'static str, &'static str>| static_arg_view(a)) =~= seq![("InstanceID"@, ArgumentDirection::IN, Some("A_ARG_TYPE_InstanceID"@)), ("DesiredHorizontalKeystone"@, ArgumentDirection::IN, Some("HorizontalKeystone"@))]);
        v
    }

    fn out_args(&self) -> Vec<ArgumentDefinition<&'static str, &'static str>> {
        let mut v: Vec<ArgumentDefinition<&'static str, &'static str>> = Vec::new();
        assert(v@.map_values(|a: ArgumentDefinition<&'static str, &'static str>| static_arg_view(a)) =~= Seq::<ArgView>::empty());
        v
    }

    fn execute(&self, args: &ActionArgs) -> Result<ActionArgs, Error> {
        let input = match set_horizontal_keystone_request(args) { Ok(i) => i, Err(e) => return Err(e) };
        let instance_id = input.instance_id;
        let desired = input.desired_horizontal_keystone;
        let ghost handed = input;
        let res = self.trait_impl.set_horizontal_keystone(input);
        assert(call_ensures(T::set_horizontal_keystone, (&self.implementation(), handed), res));
        match res { Ok(_) => {}, Err(_) => return Err(Error::ActionFailed) }
        self.service.set_state_var(instance_id, StateVariableName::HorizontalKeystone, DataType::I2(desired));
        Ok(ActionArgs::new())
    }
}

pub struct ActionGetVerticalKeystone<T: GetVerticalKeystone> {
    trait_impl: Arc<T>,
}

impl<T: GetVerticalKeystone> ActionGetVerticalKeystone<T> {
    /// The application's implementation of the action.
    pub closed spec fn implementation(&self) -> T {
        *self.trait_impl
    }

    pub fn new(trait_impl: T) -> (r: Self)
        ensures
            r.implementation() == trait_impl,
    {
        ActionGetVerticalKeystone { trait_impl: Arc::new(trait_impl) }
    }
}

impl<T: GetVerticalKeystone> Action for ActionGetVerticalKeystone<T> {
    open spec fn action_name(&self) -> Seq<char> {
        "GetVerticalKeystone"@
    }

    open spec fn in_arg_views(&self) -> Seq<ArgView> {
        seq![("InstanceID"@, ArgumentDirection::IN, Some("A_ARG_TYPE_InstanceID"@))]
    }

    open spec fn out_arg_views(&self) -> Seq<ArgView> {
        seq![("CurrentVerticalKeystone"@, ArgumentDirection::OUT, Some("VerticalKeystone"@))]
    }

    open spec fn outcome(&self, args: Seq<(Seq<char>, Seq<char>)>, r: Result<ActionArgs, Error>) -> bool {
        &&& r is Err ==> (r->Err_0 == Error::ActionFailed)
        &&& exists|res: Result<super::traits::GetVerticalKeystoneOutput, T::Error>|
            #[trigger] call_ensures(
                T::get_vertical_keystone,
                (&self.implementation(), super::traits::GetVerticalKeystoneInput { instance_id: instance_arg(args) }),
                res,
            ) && (r is Ok <==> res is Ok) && (res matches Ok(o) ==> r->Ok_0@ == get_vertical_keystone_reply_pairs(o))
    }

    fn name(&self) -> &'static str {
        "GetVerticalKeystone"
    }

    fn in_args(&self) -> Vec<ArgumentDefinition<&'static str, &'static str>> {
        let mut v: Vec<ArgumentDefinition<&'static str, &'static str>> = Vec::new();
        v.push(ArgumentDefinition { name: "InstanceID", direction: ArgumentDirection::IN, related_state_var: Some("A_ARG_TYPE_InstanceID") });
        assert(v@.map_values(|a: ArgumentDefinition<&'static str, &'static str>| static_arg_view(a)) =~= seq![("InstanceID"@, ArgumentDirection::IN, Some("A_ARG_TYPE_InstanceID"@))]);
        v
    }

    fn out_args(&self) -> Vec<ArgumentDefinition<&'static str, &'static str>> {
        let mut v: Vec<ArgumentDefinition<&'static str, &'static str>> = Vec::new();
        v.push(ArgumentDefinition { name: "CurrentVerticalKeystone", direction: ArgumentDirection::OUT, related_state_var: Some("VerticalKeystone") });
        assert(v@.map_values(|a: ArgumentDefinition<&'static str, &'static str>| static_arg_view(a)) =~= seq![("CurrentVerticalKeystone"@, ArgumentDirection::OUT, Some("VerticalKeystone"@))]);
        v
    }

    fn execute(&self, args: &ActionArgs) -> Result<ActionArgs, Error> {
        let input = match get_vertical_keystone_request(args) { Ok(i) => i, Err(e) => return Err(e) };
        let ghost handed = input;
        let res = self.trait_impl.get_vertical_keystone(input);
        assert(call_ensures(T::get_vertical_keystone, (&self.implementation(), handed), res));
        let output = match res { Ok(o) => o, Err(_) => return Err(Error::ActionFailed) };
        Ok(get_vertical_keystone_reply(output))
    }
}

pub struct ActionSetVerticalKeystone<T: SetVerticalKeystone> {
    trait_impl: Arc<T>,
    service: RenderingControlService,
}

impl<T: SetVerticalKeystone> ActionSetVerticalKeystone<T> {
    /// The application's implementation of the action.
    pub closed spec fn implementation(&self) -> T {
        *self.trait_impl
    }

    /// The service whose state the action updates.
    pub closed spec fn bound_service(&self) -> RenderingControlService {
        self.service
    }

    pub fn new(trait_impl: T, service: RenderingControlService) -> (r: Self)
        ensures
            r.implementation() == trait_impl,
            r.bound_service() == service,
    {
        ActionSetVerticalKeystone { trait_impl: Arc::new(trait_impl), service }
    }
}

impl<T: SetVerticalKeystone> Action for ActionSetVerticalKeystone<T> {
    open spec fn action_name(&self) -> Seq<char> {
        "SetVerticalKeystone"@
    }

    open spec fn in_arg_views(&self) -> Seq<ArgView> {
        seq![("InstanceID"@, ArgumentDirection::IN, Some("A_ARG_TYPE_InstanceID"@)), ("DesiredVerticalKeystone"@, ArgumentDirection::IN, Some("VerticalKeystone"@))]
    }

    open spec fn out_arg_views(&self) -> Seq<ArgView> {
        Seq::<ArgView>::empty()
    }

    open spec fn outcome(&self, args: Seq<(Seq<char>, Seq<char>)>, r: Result<ActionArgs, Error>) -> bool {
        &&& r is Err ==> (r->Err_0 == Error::ActionFailed || r->Err_0 == Error::ArgumentValueInvalid || r->Err_0 == Error::ArgumentValueOutOfRange)
        &&& r is Ok ==> r->Ok_0@ == Seq::<(Seq<char>, Seq<char>)>::empty()
        &&& set_vertical_keystone_refusal(args) matches Some(e) ==> r == Err::<ActionArgs, Error>(e)
        &&& set_vertical_keystone_refusal(args) is None ==> (r is Err ==> r->Err_0 == Error::ActionFailed)
        &&& set_vertical_keystone_refusal(args) is None ==> exists|input: super::traits::SetVerticalKeystoneInput, res: Result<super::traits::SetVerticalKeystoneOutput, T::Error>|
            set_vertical_keystone_input(args, input) && #[trigger] call_ensures(T::set_vertical_keystone, (&self.implementation(), input), res) && (r is Ok
                <==> res is Ok)
    }

    fn name(&self) -> &'static str {
        "SetVerticalKeystone"
    }

    fn in_args(&self) -> Vec<ArgumentDefinition<&'static str, &'static str>> {
        let mut v: Vec<ArgumentDefinition<&'static str, &'static str>> = Vec::new();
        v.push(ArgumentDefinition { name: "InstanceID", direction: ArgumentDirection::IN, related_state_var: Some("A_ARG_TYPE_InstanceID") });
        v.push(ArgumentDefinition { name: "DesiredVerticalKeystone", direction: ArgumentDirection::IN, related_state_var: Some("VerticalKeystone") });
        assert(v@.map_values(|a: ArgumentDefinition<&'static str, &'static str>| static_arg_view(a)) =~= seq![("InstanceID"@, ArgumentDirection::IN, Some("A_ARG_TYPE_InstanceID"@)), ("DesiredVerticalKeystone"@, ArgumentDirection::IN, Some("VerticalKeystone"@))]);
        v
    }

    fn out_args(&self) -> Vec<ArgumentDefinition<&'static str, &'static str>> {
        let mut v: Vec<ArgumentDefinition<&'static str, &'static str>> = Vec::new();
        assert(v@.map_values(|a: ArgumentDefinition<&'static str, &'static str>| static_arg_view(a)) =~= Seq::<ArgView>::empty());
        v
    }

    fn execute(&self, args: &ActionArgs) -> Result<ActionArgs, Error> {
        let input = match set_vertical_keystone_request(args) { Ok(i) => i, Err(e) => return Err(e) };
        let instance_id = input.instance_id;
        let desired = input.desired_vertical_keystone;
        let ghost handed = input;
        let res = self.trait_impl.set_vertical_keystone(input);
        assert(call_ensures(T::set_vertical_keystone, (&self.implementation(), handed), res));
        match res { Ok(_) => {}, Err(_) => return Err(Error::ActionFailed) }
        self.service.set_state_var(instance_id, StateVariableName::VerticalKeystone, DataType::I2(desired));
        Ok(ActionArgs::new())
    }
}

pub struct ActionGetMute<T: GetMute> {
    trait_impl: Arc<T>,
}

impl<T: GetMute> ActionGetMute<T> {
    /// The application's implementation of the action.
    pub closed spec fn implementation(&self) -> T {
        *self.trait_impl
    }

    pub fn new(trait_impl: T) -> (r: Self)
        ensures
            r.implementation() == trait_impl,
    {
        ActionGetMute { trait_impl: Arc::new(trait_impl) }
    }
}

impl<T: GetMute> Action for ActionGetMute<T> {
    open spec fn action_name(&self) -> Seq<char> {
        "GetMute"@
    }

    open spec fn in_arg_views(&self) -> Seq<ArgView> {
        seq![("InstanceID"@, ArgumentDirection::IN, Some("A_ARG_TYPE_InstanceID"@)), ("Channel"@, ArgumentDirection::IN, Some("A_ARG_TYPE_Channel"@))]
    }

    open spec fn out_arg_views(&self) -> Seq<ArgView> {
        seq![("CurrentMute"@, ArgumentDirection::OUT, Some("Mute"@))]
    }

    open spec fn outcome(&self, args: Seq<(Seq<char>, Seq<char>)>, r: Result<ActionArgs, Error>) -> bool {
        &&& r is Err ==> (r->Err_0 == Error::ActionFailed)
        &&& exists|input: super::traits::GetMuteInput, res: Result<super::traits::GetMuteOutput, T::Error>|
            get_mute_input(args, input) && #[trigger] call_ensures(T::get_mute, (&self.implementation(), input), res) && (r is Ok
                <==> res is Ok) && (res matches Ok(o) ==> r->Ok_0@ == get_mute_reply_pairs(o))
    }

    fn name(&self) -> &'static str {
        "GetMute"
    }

    fn in_args(&self) -> Vec<ArgumentDefinition<&'static str, &'static str>> {
        let mut v: Vec<ArgumentDefinition<&'static str, &'static str>> = Vec::new();
        v.push(ArgumentDefinition { name: "InstanceID", direction: ArgumentDirection::IN, related_state_var: Some("A_ARG_TYPE_InstanceID") });
        v.push(ArgumentDefinition { name: "Channel", direction: ArgumentDirection::IN, related_state_var: Some("A_ARG_TYPE_Channel") });
        assert(v@.map_values(|a: ArgumentDefinition<&'static str, &'static str>| static_arg_view(a)) =~= seq![("InstanceID"@, ArgumentDirection::IN, Some("A_ARG_TYPE_InstanceID"@)), ("Channel"@, ArgumentDirection::IN, Some("A_ARG_TYPE_Channel"@))]);
        v
    }

    fn out_args(&self) -> Vec<ArgumentDefinition<&'static str, &'static str>> {
        let mut v: Vec<ArgumentDefinition<&'static str, &'static str>> = Vec::new();
        v.push(ArgumentDefinition { name: "CurrentMute", direction: ArgumentDirection::OUT, related_state_var: Some("Mute") });
        assert(v@.map_values(|a: ArgumentDefinition<&'static str, &'static str>| static_arg_view(a)) =~= seq![("CurrentMute"@, ArgumentDirection::OUT, Some("Mute"@))]);
        v
    }

    fn execute(&self, args: &ActionArgs) -> Result<ActionArgs, Error> {
        let input = match get_mute_request(args) { Ok(i) => i, Err(e) => return Err(e) };
        let ghost handed = input;
        let res = self.trait_impl.get_mute(input);
        assert(call_ensures(T::get_mute, (&self.implementation(), handed), res));
        let output = match res { Ok(o) => o, Err(_) => return Err(Error::ActionFailed) };
        Ok(get_mute_reply(output))
    }
}

pub struct ActionSetMute<T: SetMute> {
    trait_impl: Arc<T>,
    service: RenderingControlService,
}

impl<T: SetMute> ActionSetMute<T> {
    /// The application's implementation of the action.
    pub closed spec fn implementation(&self) -> T {
        *self.trait_impl
    }

    /// The service whose state the action updates.
    pub closed spec fn bound_service(&self) -> RenderingControlService {
        self.service
    }

    pub fn new(trait_impl: T, service: RenderingControlService) -> (r: Self)
        ensures
            r.implementation() == trait_impl,
            r.bound_service() == service,
    {
        ActionSetMute { trait_impl: Arc::new(trait_impl), service }
    }
}

impl<T: SetMute> Action for ActionSetMute<T> {
    open spec fn action_name(&self) -> Seq<char> {
        "SetMute"@
    }

    open spec fn in_arg_views(&self) -> Seq<ArgView> {
        seq![("InstanceID"@, ArgumentDirection::IN, Some("A_ARG_TYPE_InstanceID"@)), ("Channel"@, ArgumentDirection::IN, Some("A_ARG_TYPE_Channel"@)), ("DesiredMute"@, ArgumentDirection::IN, Some("Mute"@))]
    }

    open spec fn out_arg_views(&self) -> Seq<ArgView> {
        Seq::<ArgView>::empty()
    }

    open spec fn outcome(&self, args: Seq<(Seq<char>, Seq<char>)>, r: Result<ActionArgs, Error>) -> bool {
        &&& r is Err ==> (r->Err_0 == Error::ActionFailed || r->Err_0 == Error::ArgumentValueInvalid)
        &&& r is Ok ==> r->Ok_0@ == Seq::<(Seq<char>, Seq<char>)>::empty()
        &&& set_mute_refusal(args) matches Some(e) ==> r == Err::<ActionArgs, Error>(e)
        &&& set_mute_refusal(args) is None ==> (r is Err ==> r->Err_0 == Error::ActionFailed)
        &&& set_mute_refusal(args) is None ==> exists|input: super::traits::SetMuteInput, res: Result<super::traits::SetMuteOutput, T::Error>|
            set_mute_input(args, input) && #[trigger] call_ensures(T::set_mute, (&self.implementation(), input), res) && (r is Ok
                <==> res is Ok)
    }

    fn name(&self) -> &'static str {
        "SetMute"
    }

    fn in_args(&self) -> Vec<ArgumentDefinition<&'static str, &'static str>> {
        let mut v: Vec<ArgumentDefinition<&'static str, &'static str>> = Vec::new();
        v.push(ArgumentDefinition { name: "InstanceID", direction: ArgumentDirection::IN, related_state_var: Some("A_ARG_TYPE_InstanceID") });
        v.push(ArgumentDefinition { name: "Channel", direction: ArgumentDirection::IN, related_state_var: Some("A_ARG_TYPE_Channel") });
        v.push(ArgumentDefinition { name: "DesiredMute", direction: ArgumentDirection::IN, related_state_var: Some("Mute") });
        assert(v@.map_values(|a: ArgumentDefinition<&'static str, &'static str>| static_arg_view(a)) =~= seq![("InstanceID"@, ArgumentDirection::IN, Some("A_ARG_TYPE_InstanceID"@)), ("Channel"@, ArgumentDirection::IN, Some("A_ARG_TYPE_Channel"@)), ("DesiredMute"@, ArgumentDirection::IN, Some("Mute"@))]);
        v
    }

    fn out_args(&self) -> Vec<ArgumentDefinition<&'static str, &'static str>> {
        let mut v: Vec<ArgumentDefinition<&'static str, &'static str>> = Vec::new();
        assert(v@.map_values(|a: ArgumentDefinition<&'static str, &'static str>| static_arg_view(a)) =~= Seq::<ArgView>::empty());
        v
    }

    fn execute(&self, args: &ActionArgs) -> Result<ActionArgs, Error> {
        let input = match set_mute_request(args) { Ok(i) => i, Err(e) => return Err(e) };
        let instance_id = input.instance_id;
        let desired = input.desired_mute;
        let ghost handed = input;
        let res = self.trait_impl.set_mute(input);
        assert(call_ensures(T::set_mute, (&self.implementation(), handed), res));
        match res { Ok(_) => {}, Err(_) => return Err(Error::ActionFailed) }
        self.service.set_state_var(instance_id, StateVariableName::Mute, DataType::Boolean(desired));
        Ok(ActionArgs::new())
    }
}

pub struct ActionGetVolume<T: GetVolume> {
    trait_impl: Arc<T>,
}

impl<T: GetVolume> ActionGetVolume<T> {
    /// The application's implementation of the action.
    pub closed spec fn implementation(&self) -> T {
        *self.trait_impl
    }

    pub fn new(trait_impl: T) -> (r: Self)
        ensures
            r.implementation() == trait_impl,
    {
        ActionGetVolume { trait_impl: Arc::new(trait_impl) }
    }
}

impl<T: GetVolume> Action for ActionGetVolume<T> {
    open spec fn action_name(&self) -> Seq<char> {
        "GetVolume"@
    }

    open spec fn in_arg_views(&self) -> Seq<ArgView> {
        seq![("InstanceID"@, ArgumentDirection::IN, Some("A_ARG_TYPE_InstanceID"@)), ("Channel"@, ArgumentDirection::IN, Some("A_ARG_TYPE_Channel"@))]
    }

    open spec fn out_arg_views(&self) -> Seq<ArgView> {
        seq![("CurrentVolume"@, ArgumentDirection::OUT, Some("Volume"@))]
    }

    open spec fn outcome(&self, args: Seq<(Seq<char>, Seq<char>)>, r: Result<ActionArgs, Error>) -> bool {
        &&& r is Err ==> (r->Err_0 == Error::ActionFailed)
        &&& exists|input: super::traits::GetVolumeInput, res: Result<super::traits::GetVolumeOutput, T::Error>|
            get_volume_input(args, input) && #[trigger] call_ensures(T::get_volume, (&self.implementation(), input), res) && (r is Ok
                <==> res is Ok) && (res matches Ok(o) ==> r->Ok_0@ == get_volume_reply_pairs(o))
    }

    fn name(&self) -> &'static str {
        "GetVolume"
    }

    fn in_args(&self) -> Vec<ArgumentDefinition<&'static str, &'static str>> {
        let mut v: Vec<ArgumentDefinition<&'static str, &'static str>> = Vec::new();
        v.push(ArgumentDefinition { name: "InstanceID", direction: ArgumentDirection::IN, related_state_var: Some("A_ARG_TYPE_InstanceID") });
        v.push(ArgumentDefinition { name: "Channel", direction: ArgumentDirection::IN, related_state_var: Some("A_ARG_TYPE_Channel") });
        assert(v@.map_values(|a: ArgumentDefinition<&'static str, &'static str>| static_arg_view(a)) =~= seq![("InstanceID"@, ArgumentDirection::IN, Some("A_ARG_TYPE_InstanceID"@)), ("Channel"@, ArgumentDirection::IN, Some("A_ARG_TYPE_Channel"@))]);
        v
    }

    fn out_args(&self) -> Vec<ArgumentDefinition<&'static str, &'static str>> {
        let mut v: Vec<ArgumentDefinition<&'static str, &'static str>> = Vec::new();
        v.push(ArgumentDefinition { name: "CurrentVolume", direction: ArgumentDirection::OUT, related_state_var: Some("Volume") });
        assert(v@.map_values(|a: ArgumentDefinition<&'static str, &'static str>| static_arg_view(a)) =~= seq![("CurrentVolume"@, ArgumentDirection::OUT, Some("Volume"@))]);
        v
    }

    fn execute(&self, args: &ActionArgs) -> Result<ActionArgs, Error> {
        let input = match get_volume_request(args) { Ok(i) => i, Err(e) => return Err(e) };
        let ghost handed = input;
        let res = self.trait_impl.get_volume(input);
        assert(call_ensures(T::get_volume, (&self.implementation(), handed), res));
        let output = match res { Ok(o) => o, Err(_) => return Err(Error::ActionFailed) };
        Ok(get_volume_reply(output))
    }
}

pub struct ActionSetVolume<T: SetVolume> {
    trait_impl: Arc<T>,
    service: RenderingControlService,
}

impl<T: SetVolume> ActionSetVolume<T> {
    /// The application's implementation of the action.
    pub closed spec fn implementation(&self) -> T {
        *self.trait_impl
    }

    /// The service whose state the action updates.
    pub closed spec fn bound_service(&self) -> RenderingControlService {
        self.service
    }

    pub fn new(trait_impl: T, service: RenderingControlService) -> (r: Self)
        ensures
            r.implementation() == trait_impl,
            r.bound_service() == service,
    {
        ActionSetVolume { trait_impl: Arc::new(trait_impl), service }
    }
}

impl<T: SetVolume> Action for ActionSetVolume<T> {
    open spec fn action_name(&self) -> Seq<char> {
        "SetVolume"@
    }

    open spec fn in_arg_views(&self) -> Seq<ArgView> {
        seq![("InstanceID"@, ArgumentDirection::IN, Some("A_ARG_TYPE_InstanceID"@)), ("Channel"@, ArgumentDirection::IN, Some("A_ARG_TYPE_Channel"@)), ("DesiredVolume"@, ArgumentDirection::IN, Some("Volume"@))]
    }

    open spec fn out_arg_views(&self) -> Seq<ArgView> {
        Seq::<ArgView>::empty()
    }

    open spec fn outcome(&self, args: Seq<(Seq<char>, Seq<char>)>, r: Result<ActionArgs, Error>) -> bool {
        &&& r is Err ==> (r->Err_0 == Error::ActionFailed || r->Err_0 == Error::ArgumentValueInvalid || r->Err_0 == Error::ArgumentValueOutOfRange)
        &&& r is Ok ==> r->Ok_0@ == Seq::<(Seq<char>, Seq<char>)>::empty()
        &&& set_volume_refusal(args) matches Some(e) ==> r == Err::<ActionArgs, Error>(e)
        &&& set_volume_refusal(args) is None ==> (r is Err ==> r->Err_0 == Error::ActionFailed)
        &&& set_volume_refusal(args) is None ==> exists|input: super::traits::SetVolumeInput, res: Result<super::traits::SetVolumeOutput, T::Error>|
            set_volume_input(args, input) && #[trigger] call_ensures(T::set_volume, (&self.implementation(), input), res) && (r is Ok
                <==> res is Ok)
    }

    fn name(&self) -> &'static str {
        "SetVolume"
    }

    fn in_args(&self) -> Vec<ArgumentDefinition<&'static str, &'static str>> {
        let mut v: Vec<ArgumentDefinition<&'static str, &'static str>> = Vec::new();
        v.push(ArgumentDefinition { name: "InstanceID", direction: ArgumentDirection::IN, related_state_var: Some("A_ARG_TYPE_InstanceID") });
        v.push(ArgumentDefinition { name: "Channel", direction: ArgumentDirection::IN, related_state_var: Some("A_ARG_TYPE_Channel") });
        v.push(ArgumentDefinition { name: "DesiredVolume", direction: ArgumentDirection::IN, related_state_var: Some("Volume") });
        assert(v@.map_values(|a: ArgumentDefinition<&'static str, &'static str>| static_arg_view(a)) =~= seq![("InstanceID"@, ArgumentDirection::IN, Some("A_ARG_TYPE_InstanceID"@)), ("Channel"@, ArgumentDirection::IN, Some("A_ARG_TYPE_Channel"@)), ("DesiredVolume"@, ArgumentDirection::IN, Some("Volume"@))]);
        v
    }

    fn out_args(&self) -> Vec<ArgumentDefinition<&'static str, &'static str>> {
        let mut v: Vec<ArgumentDefinition<&'static str, &'static str>> = Vec::new();
        assert(v@.map_values(|a: ArgumentDefinition<&'static str, &'static str>| static_arg_view(a)) =~= Seq::<ArgView>::empty());
        v
    }

    fn execute(&self, args: &ActionArgs) -> Result<ActionArgs, Error> {
        let input = match set_volume_request(args) { Ok(i) => i, Err(e) => return Err(e) };
        let instance_id = input.instance_id;
        let desired = input.desired_volume;
        let ghost handed = input;
        let res = self.trait_impl.set_volume(input);
        assert(call_ensures(T::set_volume, (&self.implementation(), handed), res));
        match res { Ok(_) => {}, Err(_) => return Err(Error::ActionFailed) }
        self.service.set_state_var(instance_id, StateVariableName::Volume, DataType::Ui2(desired));
        Ok(ActionArgs::new())
    }
}

pub struct ActionGetVolumeDB<T: GetVolumeDB> {
    trait_impl: Arc<T>,
}

impl<T: GetVolumeDB> ActionGetVolumeDB<T> {
    /// The application's implementation of the action.
    pub closed spec fn implementation(&self) -> T {
        *self.trait_impl
    }

    pub fn new(trait_impl: T) -> (r: Self)
        ensures
            r.implementation() == trait_impl,
    {
        ActionGetVolumeDB { trait_impl: Arc::new(trait_impl) }
    }
}

impl<T: GetVolumeDB> Action for ActionGetVolumeDB<T> {
    open spec fn action_name(&self) -> Seq<char> {
        "GetVolumeDB"@
    }

    open spec fn in_arg_views(&self) -> Seq<ArgView> {
        seq![("InstanceID"@, ArgumentDirection::IN, Some("A_ARG_TYPE_InstanceID"@)), ("Channel"@, ArgumentDirection::IN, Some("A_ARG_TYPE_Channel"@))]
    }

    open spec fn out_arg_views(&self) -> Seq<ArgView> {
        seq![("CurrentVolume"@, ArgumentDirection::OUT, Some("VolumeDB"@))]
    }

    open spec fn outcome(&self, args: Seq<(Seq<char>, Seq<char>)>, r: Result<ActionArgs, Error>) -> bool {
        &&& r is Err ==> (r->Err_0 == Error::ActionFailed)
        &&& exists|input: super::traits::GetVolumeDBInput, res: Result<super::traits::GetVolumeDBOutput, T::Error>|
            get_volume_db_input(args, input) && #[trigger] call_ensures(T::get_volume_db, (&self.implementation(), input), res) && (r is Ok
                <==> res is Ok) && (res matches Ok(o) ==> r->Ok_0@ == get_volume_db_reply_pairs(o))
    }

    fn name(&self) -> &'static str {
        "GetVolumeDB"
    }

    fn in_args(&self) -> Vec<ArgumentDefinition<&'static str, &'static str>> {
        let mut v: Vec<ArgumentDefinition<&'static str, &'static str>> = Vec::new();
        v.push(ArgumentDefinition { name: "InstanceID", direction: ArgumentDirection::IN, related_state_var: Some("A_ARG_TYPE_InstanceID") });
        v.push(ArgumentDefinition { name: "Channel", direction: ArgumentDirection::IN, related_state_var: Some("A_ARG_TYPE_Channel") });
        assert(v@.map_values(|a: ArgumentDefinition<&'static str, &'static str>| static_arg_view(a)) =~= seq![("InstanceID"@, ArgumentDirection::IN, Some("A_ARG_TYPE_InstanceID"@)), ("Channel"@, ArgumentDirection::IN, Some("A_ARG_TYPE_Channel"@))]);
        v
    }

    fn out_args(&self) -> Vec<ArgumentDefinition<&'static str, &'static str>> {
        let mut v: Vec<ArgumentDefinition<&'static str, &'static str>> = Vec::new();
        v.push(ArgumentDefinition { name: "CurrentVolume", direction: ArgumentDirection::OUT, related_state_var: Some("VolumeDB") });
        assert(v@.map_values(|a: ArgumentDefinition<&'static str, &'static str>| static_arg_view(a)) =~= seq![("CurrentVolume"@, ArgumentDirection::OUT, Some("VolumeDB"@))]);
        v
    }

    fn execute(&self, args: &ActionArgs) -> Result<ActionArgs, Error> {
        let input = match get_volume_db_request(args) { Ok(i) => i, Err(e) => return Err(e) };
        let ghost handed = input;
        let res = self.trait_impl.get_volume_db(input);
        assert(call_ensures(T::get_volume_db, (&self.implementation(), handed), res));
        let output = match res { Ok(o) => o, Err(_) => return Err(Error::ActionFailed) };
        Ok(get_volume_db_reply(output))
    }
}

pub struct ActionSetVolumeDB<T: SetVolumeDB> {
    trait_impl: Arc<T>,
}

impl<T: SetVolumeDB> ActionSetVolumeDB<T> {
    /// The application's implementation of the action.
    pub closed spec fn implementation(&self) -> T {
        *self.trait_impl
    }

    pub fn new(trait_impl: T) -> (r: Self)
        ensures
            r.implementation() == trait_impl,
    {
        ActionSetVolumeDB { trait_impl: Arc::new(trait_impl) }
    }
}

impl<T: SetVolumeDB> Action for ActionSetVolumeDB<T> {
    open spec fn action_name(&self) -> Seq<char> {
        "SetVolumeDB"@
    }

    open spec fn in_arg_views(&self) -> Seq<ArgView> {
        seq![("InstanceID"@, ArgumentDirection::IN, Some("A_ARG_TYPE_InstanceID"@)), ("Channel"@, ArgumentDirection::IN, Some("A_ARG_TYPE_Channel"@)), ("DesiredVolumeDB"@, ArgumentDirection::IN, Some("VolumeDB"@))]
    }

    open spec fn out_arg_views(&self) -> Seq<ArgView> {
        Seq::<ArgView>::empty()
    }

    open spec fn outcome(&self, args: Seq<(Seq<char>, Seq<char>)>, r: Result<ActionArgs, Error>) -> bool {
        &&& r is Err ==> (r->Err_0 == Error::ActionFailed || r->Err_0 == Error::ArgumentValueInvalid || r->Err_0 == Error::ArgumentValueOutOfRange)
        &&& r is Ok ==> r->Ok_0@ == Seq::<(Seq<char>, Seq<char>)>::empty()
        &&& set_volume_db_refusal(args) matches Some(e) ==> r == Err::<ActionArgs, Error>(e)
        &&& set_volume_db_refusal(args) is None ==> (r is Err ==> r->Err_0 == Error::ActionFailed)
        &&& set_volume_db_refusal(args) is None ==> exists|input: super::traits::SetVolumeDBInput, res: Result<super::traits::SetVolumeDBOutput, T::Error>|
            set_volume_db_input(args, input) && #[trigger] call_ensures(T::set_volume_db, (&self.implementation(), input), res) && (r is Ok
                <==> res is Ok)
    }

    fn name(&self) -> &'static str {
        "SetVolumeDB"
    }

    fn in_args(&self) -> Vec<ArgumentDefinition<&'static str, &'static str>> {
        let mut v: Vec<ArgumentDefinition<&'static str, &'static str>> = Vec::new();
        v.push(ArgumentDefinition { name: "InstanceID", direction: ArgumentDirection::IN, related_state_var: Some("A_ARG_TYPE_InstanceID") });
        v.push(ArgumentDefinition { name: "Channel", direction: ArgumentDirection::IN, related_state_var: Some("A_ARG_TYPE_Channel") });
        v.push(ArgumentDefinition { name: "DesiredVolumeDB", direction: ArgumentDirection::IN, related_state_var: Some("VolumeDB") });
        assert(v@.map_values(|a: ArgumentDefinition<&'static str, &'static str>| static_arg_view(a)) =~= seq![("InstanceID"@, ArgumentDirection::IN, Some("A_ARG_TYPE_InstanceID"@)), ("Channel"@, ArgumentDirection::IN, Some("A_ARG_TYPE_Channel"@)), ("DesiredVolumeDB"@, ArgumentDirection::IN, Some("VolumeDB"@))]);
        v
    }

    fn out_args(&self) -> Vec<ArgumentDefinition<&'static str, &'static str>> {
        let mut v: Vec<ArgumentDefinition<&'static str, &'static str>> = Vec::new();
        assert(v@.map_values(|a: ArgumentDefinition<&'static str, &'static str>| static_arg_view(a)) =~= Seq::<ArgView>::empty());
        v
    }

    fn execute(&self, args: &ActionArgs) -> Result<ActionArgs, Error> {
        let input = match set_volume_db_request(args) { Ok(i) => i, Err(e) => return Err(e) };
        let ghost handed = input;
        let res = self.trait_impl.set_volume_db(input);
        assert(call_ensures(T::set_volume_db, (&self.implementation(), handed), res));
        match res { Ok(_) => {}, Err(_) => return Err(Error::ActionFailed) }
        Ok(ActionArgs::new())
    }
}

pub struct ActionGetVolumeDBRange<T: GetVolumeDBRange> {
    trait_impl: Arc<T>,
}

impl<T: GetVolumeDBRange> ActionGetVolumeDBRange<T> {
    /// The application's implementation of the action.
    pub closed spec fn implementation(&self) -> T {
        *self.trait_impl
    }

    pub fn new(trait_impl: T) -> (r: Self)
        ensures
            r.implementation() == trait_impl,
    {
        ActionGetVolumeDBRange { trait_impl: Arc::new(trait_impl) }
    }
}

impl<T: GetVolumeDBRange> Action for ActionGetVolumeDBRange<T> {
    open spec fn action_name(&self) -> Seq<char> {
        "GetVolumeDBRange"@
    }

    open spec fn in_arg_views(&self) -> Seq<ArgView> {
        seq![("InstanceID"@, ArgumentDirection::IN, Some("A_ARG_TYPE_InstanceID"@)), ("Channel"@, ArgumentDirection::IN, Some("A_ARG_TYPE_Channel"@))]
    }

    open spec fn out_arg_views(&self) -> Seq<ArgView> {
        seq![("MinValue"@, ArgumentDirection::OUT, Some("VolumeDB"@)), ("MaxValue"@, ArgumentDirection::OUT, Some("VolumeDB"@))]
    }

    open spec fn outcome(&self, args: Seq<(Seq<char>, Seq<char>)>, r: Result<ActionArgs, Error>) -> bool {
        &&& r is Err ==> (r->Err_0 == Error::ActionFailed)
        &&& exists|input: super::traits::GetVolumeDBRangeInput, res: Result<super::traits::GetVolumeDBRangeOutput, T::Error>|
            get_volume_db_range_input(args, input) && #[trigger] call_ensures(T::get_volume_db_range, (&self.implementation(), input), res) && (r is Ok
                <==> res is Ok) && (res matches Ok(o) ==> r->Ok_0@ == get_volume_db_range_reply_pairs(o))
    }

    fn name(&self) -> &'static str {
        "GetVolumeDBRange"
    }

    fn in_args(&self) -> Vec<ArgumentDefinition<&'static str, &'static str>> {
        let mut v: Vec<ArgumentDefinition<&'static str, &'static str>> = Vec::new();
        v.push(ArgumentDefinition { name: "InstanceID", direction: ArgumentDirection::IN, related_state_var: Some("A_ARG_TYPE_InstanceID") });
        v.push(ArgumentDefinition { name: "Channel", direction: ArgumentDirection::IN, related_state_var: Some("A_ARG_TYPE_Channel") });
        assert(v@.map_values(|a: ArgumentDefinition<&'static str, &'static str>| static_arg_view(a)) =~= seq![("InstanceID"@, ArgumentDirection::IN, Some("A_ARG_TYPE_InstanceID"@)), ("Channel"@, ArgumentDirection::IN, Some("A_ARG_TYPE_Channel"@))]);
        v
    }

    fn out_args(&self) -> Vec<ArgumentDefinition<&'static str, &'static str>> {
        let mut v: Vec<ArgumentDefinition<&'static str, &'static str>> = Vec::new();
        v.push(ArgumentDefinition { name: "MinValue", direction: ArgumentDirection::OUT, related_state_var: Some("VolumeDB") });
        v.push(ArgumentDefinition { name: "MaxValue", direction: ArgumentDirection::OUT, related_state_var: Some("VolumeDB") });
        assert(v@.map_values(|a: ArgumentDefinition<&'static str, &'static str>| static_arg_view(a)) =~= seq![("MinValue"@, ArgumentDirection::OUT, Some("VolumeDB"@)), ("MaxValue"@, ArgumentDirection::OUT, Some("VolumeDB"@))]);
        v
    }

    fn execute(&self, args: &ActionArgs) -> Result<ActionArgs, Error> {
        let input = match get_volume_db_range_request(args) { Ok(i) => i, Err(e) => return Err(e) };
        let ghost handed = input;
        let res = self.trait_impl.get_volume_db_range(input);
        assert(call_ensures(T::get_volume_db_range, (&self.implementation(), handed), res));
        let output = match res { Ok(o) => o, Err(_) => return Err(Error::ActionFailed) };
        Ok(get_volume_db_range_reply(output))
    }
}

pub struct ActionGetLoudness<T: GetLoudness> {
    trait_impl: Arc<T>,
}

impl<T: GetLoudness> ActionGetLoudness<T> {
    /// The application's implementation of the action.
    pub closed spec fn implementation(&self) -> T {
        *self.trait_impl
    }

    pub fn new(trait_impl: T) -> (r: Self)
        ensures
            r.implementation() == trait_impl,
    {
        ActionGetLoudness { trait_impl: Arc::new(trait_impl) }
    }
}

impl<T: GetLoudness> Action for ActionGetLoudness<T> {
    open spec fn action_name(&self) -> Seq<char> {
        "GetLoudness"@
    }

    open spec fn in_arg_views(&self) -> Seq<ArgView> {
        seq![("InstanceID"@, ArgumentDirection::IN, Some("A_ARG_TYPE_InstanceID"@)), ("Channel"@, ArgumentDirection::IN, Some("A_ARG_TYPE_Channel"@))]
    }

    open spec fn out_arg_views(&self) -> Seq<ArgView> {
        seq![("CurrentLoudness"@, ArgumentDirection::OUT, Some("Loudness"@))]
    }

    open spec fn outcome(&self, args: Seq<(Seq<char>, Seq<char>)>, r: Result<ActionArgs, Error>) -> bool {
        &&& r is Err ==> (r->Err_0 == Error::ActionFailed)
        &&& exists|input: super::traits::GetLoudnessInput, res: Result<super::traits::GetLoudnessOutput, T::Error>|
            get_loudness_input(args, input) && #[trigger] call_ensures(T::get_loudness, (&self.implementation(), input), res) && (r is Ok
                <==> res is Ok) && (res matches Ok(o) ==> r->Ok_0@ == get_loudness_reply_pairs(o))
    }

    fn name(&self) -> &'static str {
        "GetLoudness"
    }

    fn in_args(&self) -> Vec<ArgumentDefinition<&'static str, &'static str>> {
        let mut v: Vec<ArgumentDefinition<&'static str, &'static str>> = Vec::new();
        v.push(ArgumentDefinition { name: "InstanceID", direction: ArgumentDirection::IN, related_state_var: Some("A_ARG_TYPE_InstanceID") });
        v.push(ArgumentDefinition { name: "Channel", direction: ArgumentDirection::IN, related_state_var: Some("A_ARG_TYPE_Channel") });
        assert(v@.map_values(|a: ArgumentDefinition<&'static str, &'static str>| static_arg_view(a)) =~= seq![("InstanceID"@, ArgumentDirection::IN, Some("A_ARG_TYPE_InstanceID"@)), ("Channel"@, ArgumentDirection::IN, Some("A_ARG_TYPE_Channel"@))]);
        v
    }

    fn out_args(&self) -> Vec<ArgumentDefinition<&'static str, &'static str>> {
        let mut v: Vec<ArgumentDefinition<&'static str, &'static str>> = Vec::new();
        v.push(ArgumentDefinition { name: "CurrentLoudness", direction: ArgumentDirection::OUT, related_state_var: Some("Loudness") });
        assert(v@.map_values(|a: ArgumentDefinition<&'static str, &'static str>| static_arg_view(a)) =~= seq![("CurrentLoudness"@, ArgumentDirection::OUT, Some("Loudness"@))]);
        v
    }

    fn execute(&self, args: &ActionArgs) -> Result<ActionArgs, Error> {
        let input = match get_loudness_request(args) { Ok(i) => i, Err(e) => return Err(e) };
        let ghost handed = input;
        let res = self.trait_impl.get_loudness(input);
        assert(call_ensures(T::get_loudness, (&self.implementation(), handed), res));
        let output = match res { Ok(o) => o, Err(_) => return Err(Error::ActionFailed) };
        Ok(get_loudness_reply(output))
    }
}

pub struct ActionSetLoudness<T: SetLoudness> {
    trait_impl: Arc<T>,
}

impl<T: SetLoudness> ActionSetLoudness<T> {
    /// The application's implementation of the action.
    pub closed spec fn implementation(&self) -> T {
        *self.trait_impl
    }

    pub fn new(trait_impl: T) -> (r: Self)
        ensures
            r.implementation() == trait_impl,
    {
        ActionSetLoudness { trait_impl: Arc::new(trait_impl) }
    }
}

impl<T: SetLoudness> Action for ActionSetLoudness<T> {
    open spec fn action_name(&self) -> Seq<char> {
        "SetLoudness"@
    }

    open spec fn in_arg_views(&self) -> Seq<ArgView> {
        seq![("InstanceID"@, ArgumentDirection::IN, Some("A_ARG_TYPE_InstanceID"@)), ("Channel"@, ArgumentDirection::IN, Some("A_ARG_TYPE_Channel"@)), ("DesiredLoudness"@, ArgumentDirection::IN, Some("Loudness"@))]
    }

    open spec fn out_arg_views(&self) -> Seq<ArgView> {
        Seq::<ArgView>::empty()
    }

    open spec fn outcome(&self, args: Seq<(Seq<char>, Seq<char>)>, r: Result<ActionArgs, Error>) -> bool {
        &&& r is Err ==> (r->Err_0 == Error::ActionFailed || r->Err_0 == Error::ArgumentValueInvalid)
        &&& r is Ok ==> r->Ok_0@ == Seq::<(Seq<char>, Seq<char>)>::empty()
        &&& set_loudness_refusal(args) matches Some(e) ==> r == Err::<ActionArgs, Error>(e)
        &&& set_loudness_refusal(args) is None ==> (r is Err ==> r->Err_0 == Error::ActionFailed)
        &&& set_loudness_refusal(args) is None ==> exists|input: super::traits::SetLoudnessInput, res: Result<super::traits::SetLoudnessOutput, T::Error>|
            set_loudness_input(args, input) && #[trigger] call_ensures(T::set_loudness, (&self.implementation(), input), res) && (r is Ok
                <==> res is Ok)
    }

    fn name(&self) -> &'static str {
        "SetLoudness"
    }

    fn in_args(&self) -> Vec<ArgumentDefinition<&'static str, &'static str>> {
        let mut v: Vec<ArgumentDefinition<&'static str, &'static str>> = Vec::new();
        v.push(ArgumentDefinition { name: "InstanceID", direction: ArgumentDirection::IN, related_state_var: Some("A_ARG_TYPE_InstanceID") });
        v.push(ArgumentDefinition { name: "Channel", direction: ArgumentDirection::IN, related_state_var: Some("A_ARG_TYPE_Channel") });
        v.push(ArgumentDefinition { name: "DesiredLoudness", direction: ArgumentDirection::IN, related_state_var: Some("Loudness") });
        assert(v@.map_values(|a: ArgumentDefinition<&'static str, &'static str>| static_arg_view(a)) =~= seq![("InstanceID"@, ArgumentDirection::IN, Some("A_ARG_TYPE_InstanceID"@)), ("Channel"@, ArgumentDirection::IN, Some("A_ARG_TYPE_Channel"@)), ("DesiredLoudness"@, ArgumentDirection::IN, Some("Loudness"@))]);
        v
    }

    fn out_args(&self) -> Vec<ArgumentDefinition<&'static str, &'static str>> {
        let mut v: Vec<ArgumentDefinition<&'static str, &'static str>> = Vec::new();
        assert(v@.map_values(|a: ArgumentDefinition<&'static str, &'static str>| static_arg_view(a)) =~= Seq::<ArgView>::empty());
        v
    }

    fn execute(&self, args: &ActionArgs) -> Result<ActionArgs, Error> {
        let input = match set_loudness_request(args) { Ok(i) => i, Err(e) => return Err(e) };
        let ghost handed = input;
        let res = self.trait_impl.set_loudness(input);
        assert(call_ensures(T::set_loudness, (&self.implementation(), handed), res));
        match res { Ok(_) => {}, Err(_) => return Err(Error::ActionFailed) }
        Ok(ActionArgs::new())
    }
}

pub struct ActionGetAllowedTransforms<T: GetAllowedTransforms> {
    trait_impl: Arc<T>,
}

impl<T: GetAllowedTransforms> ActionGetAllowedTransforms<T> {
    /// The application's implementation of the action.
    pub closed spec fn implementation(&self) -> T {
        *self.trait_impl
    }

    pub fn new(trait_impl: T) -> (r: Self)
        ensures
            r.implementation() == trait_impl,
    {
        ActionGetAllowedTransforms { trait_impl: Arc::new(trait_impl) }
    }
}

impl<T: GetAllowedTransforms> Action for ActionGetAllowedTransforms<T> {
    open spec fn action_name(&self) -> Seq<char> {
        "GetAllowedTransforms"@
    }

    open spec fn in_arg_views(&self) -> Seq<ArgView> {
        seq![("InstanceID"@, ArgumentDirection::IN, Some("A_ARG_TYPE_InstanceID"@))]
    }

    open spec fn out_arg_views(&self) -> Seq<ArgView> {
        seq![("CurrentAllowedTransformSettings"@, ArgumentDirection::OUT, Some("AllowedTransformSettings"@))]
    }

    open spec fn outcome(&self, args: Seq<(Seq<char>, Seq<char>)>, r: Result<ActionArgs, Error>) -> bool {
        &&& r is Err ==> (r->Err_0 == Error::ActionFailed)
        &&& exists|res: Result<super::traits::GetAllowedTransformsOutput, T::Error>|
            #[trigger] call_ensures(
                T::get_allowed_transforms,
                (&self.implementation(), super::traits::GetAllowedTransformsInput { instance_id: instance_arg(args) }),
                res,
            ) && (r is Ok <==> res is Ok) && (res matches Ok(o) ==> r->Ok_0@ == get_allowed_transforms_reply_pairs(o))
    }

    fn name(&self) -> &'static str {
        "GetAllowedTransforms"
    }

    fn in_args(&self) -> Vec<ArgumentDefinition<&'static str, &'static str>> {
        let mut v: Vec<ArgumentDefinition<&'static str, &'static str>> = Vec::new();
        v.push(ArgumentDefinition { name: "InstanceID", direction: ArgumentDirection::IN, related_state_var: Some("A_ARG_TYPE_InstanceID") });
        assert(v@.map_values(|a: ArgumentDefinition<&'static str, &'static str>| static_arg_view(a)) =~= seq![("InstanceID"@, ArgumentDirection::IN, Some("A_ARG_TYPE_InstanceID"@))]);
        v
    }

    fn out_args(&self) -> Vec<ArgumentDefinition<&'static str, &'static str>> {
        let mut v: Vec<ArgumentDefinition<&'static str, &'static str>> = Vec::new();
        v.push(ArgumentDefinition { name: "CurrentAllowedTransformSettings", direction: ArgumentDirection::OUT, related_state_var: Some("AllowedTransformSettings") });
        assert(v@.map_values(|a: ArgumentDefinition<&'static str, &'static str>| static_arg_view(a)) =~= seq![("CurrentAllowedTransformSettings"@, ArgumentDirection::OUT, Some("AllowedTransformSettings"@))]);
        v
    }

    fn execute(&self, args: &ActionArgs) -> Result<ActionArgs, Error> {
        let input = match get_allowed_transforms_request(args) { Ok(i) => i, Err(e) => return Err(e) };
        let ghost handed = input;
        let res = self.trait_impl.get_allowed_transforms(input);
        assert(call_ensures(T::get_allowed_transforms, (&self.implementation(), handed), res));
        let output = match res { Ok(o) => o, Err(_) => return Err(Error::ActionFailed) };
        Ok(get_allowed_transforms_reply(output))
    }
}

pub struct ActionGetTransforms<T: GetTransforms> {
    trait_impl: Arc<T>,
}

impl<T: GetTransforms> ActionGetTransforms<T> {
    /// The application's implementation of the action.
    pub closed spec fn implementation(&self) -> T {
        *self.trait_impl
    }

    pub fn new(trait_impl: T) -> (r: Self)
        ensures
            r.implementation() == trait_impl,
    {
        ActionGetTransforms { trait_impl: Arc::new(trait_impl) }
    }
}

impl<T: GetTransforms> Action for ActionGetTransforms<T> {
    open spec fn action_name(&self) -> Seq<char> {
        "GetTransforms"@
    }

    open spec fn in_arg_views(&self) -> Seq<ArgView> {
        seq![("InstanceID"@, ArgumentDirection::IN, Some("A_ARG_TYPE_InstanceID"@))]
    }

    open spec fn out_arg_views(&self) -> Seq<ArgView> {
        seq![("CurrentTransformValues"@, ArgumentDirection::OUT, Some("TransformSettings"@))]
    }

    open spec fn outcome(&self, args: Seq<(Seq<char>, Seq<char>)>, r: Result<ActionArgs, Error>) -> bool {
        &&& r is Err ==> (r->Err_0 == Error::ActionFailed)
        &&& exists|input: super::traits::GetTransformsInput, res: Result<super::traits::GetTransformsOutput, T::Error>|
            get_transforms_input(args, input) && #[trigger] call_ensures(T::get_transforms, (&self.implementation(), input), res) && (r is Ok
                <==> res is Ok) && (res matches Ok(o) ==> r->Ok_0@ == get_transforms_reply_pairs(o))
    }

    fn name(&self) -> &'static str {
        "GetTransforms"
    }

    fn in_args(&self) -> Vec<ArgumentDefinition<&'static str, &'static str>> {
        let mut v: Vec<ArgumentDefinition<&'static str, &'static str>> = Vec::new();
        v.push(ArgumentDefinition { name: "InstanceID", direction: ArgumentDirection::IN, related_state_var: Some("A_ARG_TYPE_InstanceID") });
        assert(v@.map_values(|a: ArgumentDefinition<&'static str, &'static str>| static_arg_view(a)) =~= seq![("InstanceID"@, ArgumentDirection::IN, Some("A_ARG_TYPE_InstanceID"@))]);
        v
    }

    fn out_args(&self) -> Vec<ArgumentDefinition<&'static str, &'static str>> {
        let mut v: Vec<ArgumentDefinition<&'static str, &'static str>> = Vec::new();
        v.push(ArgumentDefinition { name: "CurrentTransformValues", direction: ArgumentDirection::OUT, related_state_var: Some("TransformSettings") });
        assert(v@.map_values(|a: ArgumentDefinition<&'static str, &'static str>| static_arg_view(a)) =~= seq![("CurrentTransformValues"@, ArgumentDirection::OUT, Some("TransformSettings"@))]);
        v
    }

    fn execute(&self, args: &ActionArgs) -> Result<ActionArgs, Error> {
        let input = match get_transforms_request(args) { Ok(i) => i, Err(e) => return Err(e) };
        let ghost handed = input;
        let res = self.trait_impl.get_transforms(input);
        assert(call_ensures(T::get_transforms, (&self.implementation(), handed), res));
        let output = match res { Ok(o) => o, Err(_) => return Err(Error::ActionFailed) };
        Ok(get_transforms_reply(output))
    }
}

pub struct ActionSetTransforms<T: SetTransforms> {
    trait_impl: Arc<T>,
}

impl<T: SetTransforms> ActionSetTransforms<T> {
    /// The application's implementation of the action.
    pub closed spec fn implementation(&self) -> T {
        *self.trait_impl
    }

    pub fn new(trait_impl: T) -> (r: Self)
        ensures
            r.implementation() == trait_impl,
    {
        ActionSetTransforms { trait_impl: Arc::new(trait_impl) }
    }
}

impl<T: SetTransforms> Action for ActionSetTransforms<T> {
    open spec fn action_name(&self) -> Seq<char> {
        "SetTransforms"@
    }

    open spec fn in_arg_views(&self) -> Seq<ArgView> {
        seq![("InstanceID"@, ArgumentDirection::IN, Some("A_ARG_TYPE_InstanceID"@)), ("DesiredTransformValues"@, ArgumentDirection::IN, Some("TransformSettings"@))]
    }

    open spec fn out_arg_views(&self) -> Seq<ArgView> {
        Seq::<ArgView>::empty()
    }

    open spec fn outcome(&self, args: Seq<(Seq<char>, Seq<char>)>, r: Result<ActionArgs, Error>) -> bool {
        &&& r is Err ==> (r->Err_0 == Error::ActionFailed || r->Err_0 == Error::ArgumentValueInvalid)
        &&& r is Ok ==> r->Ok_0@ == Seq::<(Seq<char>, Seq<char>)>::empty()
        &&& set_transforms_refusal(args) matches Some(e) ==> r == Err::<ActionArgs, Error>(e)
        &&& set_transforms_refusal(args) is None ==> (r is Err ==> r->Err_0 == Error::ActionFailed)
        &&& set_transforms_refusal(args) is None ==> exists|input: super::traits::SetTransformsInput, res: Result<super::traits::SetTransformsOutput, T::Error>|
            set_transforms_input(args, input) && #[trigger] call_ensures(T::set_transforms, (&self.implementation(), input), res) && (r is Ok
                <==> res is Ok)
    }

    fn name(&self) -> &'static str {
        "SetTransforms"
    }

    fn in_args(&self) -> Vec<ArgumentDefinition<&'static str, &'static str>> {
        let mut v: Vec<ArgumentDefinition<&'static str, &'static str>> = Vec::new();
        v.push(ArgumentDefinition { name: "InstanceID", direction: ArgumentDirection::IN, related_state_var: Some("A_ARG_TYPE_InstanceID") });
        v.push(ArgumentDefinition { name: "DesiredTransformValues", direction: ArgumentDirection::IN, related_state_var: Some("TransformSettings") });
        assert(v@.map_values(|a: ArgumentDefinition<&'static str, &'static str>| static_arg_view(a)) =~= seq![("InstanceID"@, ArgumentDirection::IN, Some("A_ARG_TYPE_InstanceID"@)), ("DesiredTransformValues"@, ArgumentDirection::IN, Some("TransformSettings"@))]);
        v
    }

    fn out_args(&self) -> Vec<ArgumentDefinition<&'static str, &'static str>> {
        let mut v: Vec<ArgumentDefinition<&'static str, &'static str>> = Vec::new();
        assert(v@.map_values(|a: ArgumentDefinition<&'static str, &'static str>| static_arg_view(a)) =~= Seq::<ArgView>::empty());
        v
    }

    fn execute(&self, args: &ActionArgs) -> Result<ActionArgs, Error> {
        let input = match set_transforms_request(args) { Ok(i) => i, Err(e) => return Err(e) };
        let ghost handed = input;
        let res = self.trait_impl.set_transforms(input);
        assert(call_ensures(T::set_transforms, (&self.implementation(), handed), res));
        match res { Ok(_) => {}, Err(_) => return Err(Error::ActionFailed) }
        Ok(ActionArgs::new())
    }
}

pub struct ActionGetAllAvailableTransforms<T: GetAllAvailableTransforms> {
    trait_impl: Arc<T>,
}

impl<T: GetAllAvailableTransforms> ActionGetAllAvailableTransforms<T> {
    /// The application's implementation of the action.
    pub closed spec fn implementation(&self) -> T {
        *self.trait_impl
    }

    pub fn new(trait_impl: T) -> (r: Self)
        ensures
            r.implementation() == trait_impl,
    {
        ActionGetAllAvailableTransforms { trait_impl: Arc::new(trait_impl) }
    }
}

impl<T: GetAllAvailableTransforms> Action for ActionGetAllAvailableTransforms<T> {
    open spec fn action_name(&self) -> Seq<char> {
        "GetAllAvailableTransforms"@
    }

    open spec fn in_arg_views(&self) -> Seq<ArgView> {
        Seq::<ArgView>::empty()
    }

    open spec fn out_arg_views(&self) -> Seq<ArgView> {
        seq![("AllAllowedTransformSettings"@, ArgumentDirection::OUT, Some("AllowedTransformSettings"@))]
    }

    open spec fn outcome(&self, args: Seq<(Seq<char>, Seq<char>)>, r: Result<ActionArgs, Error>) -> bool {
        &&& r is Err ==> (r->Err_0 == Error::ActionFailed)
        &&& exists|res: Result<super::traits::GetAllAvailableTransformsOutput, T::Error>|
            #[trigger] call_ensures(
                T::get_all_available_transforms,
                (&self.implementation(), super::traits::GetAllAvailableTransformsInput { instance_id: instance_arg(args) }),
                res,
            ) && (r is Ok <==> res is Ok) && (res matches Ok(o) ==> r->Ok_0@ == get_all_available_transforms_reply_pairs(o))
    }

    fn name(&self) -> &'static str {
        "GetAllAvailableTransforms"
    }

    fn in_args(&self) -> Vec<ArgumentDefinition<&'static str, &'static str>> {
        let mut v: Vec<ArgumentDefinition<&'static str, &'static str>> = Vec::new();
        assert(v@.map_values(|a: ArgumentDefinition<&'static str, &'static str>| static_arg_view(a)) =~= Seq::<ArgView>::empty());
        v
    }

    fn out_args(&self) -> Vec<ArgumentDefinition<&'static str, &'static str>> {
        let mut v: Vec<ArgumentDefinition<&'static str, &'static str>> = Vec::new();
        v.push(ArgumentDefinition { name: "AllAllowedTransformSettings", direction: ArgumentDirection::OUT, related_state_var: Some("AllowedTransformSettings") });
        assert(v@.map_values(|a: ArgumentDefinition<&'static str, &'static str>| static_arg_view(a)) =~= seq![("AllAllowedTransformSettings"@, ArgumentDirection::OUT, Some("AllowedTransformSettings"@))]);
        v
    }

    fn execute(&self, args: &ActionArgs) -> Result<ActionArgs, Error> {
        let input = match get_all_available_transforms_request(args) { Ok(i) => i, Err(e) => return Err(e) };
        let ghost handed = input;
        let res = self.trait_impl.get_all_available_transforms(input);
        assert(call_ensures(T::get_all_available_transforms, (&self.implementation(), handed), res));
        let output = match res { Ok(o) => o, Err(_) => return Err(Error::ActionFailed) };
        Ok(get_all_available_transforms_reply(output))
    }
}

pub struct ActionGetAllowedDefaultTransforms<T: GetAllowedDefaultTransforms> {
    trait_impl: Arc<T>,
}

impl<T: GetAllowedDefaultTransforms> ActionGetAllowedDefaultTransforms<T> {
    /// The application's implementation of the action.
    pub closed spec fn implementation(&self) -> T {
        *self.trait_impl
    }

    pub fn new(trait_impl: T) -> (r: Self)
        ensures
            r.implementation() == trait_impl,
    {
        ActionGetAllowedDefaultTransforms { trait_impl: Arc::new(trait_impl) }
    }
}

impl<T: GetAllowedDefaultTransforms> Action for ActionGetAllowedDefaultTransforms<T> {
    open spec fn action_name(&self) -> Seq<char> {
        "GetAllowedDefaultTransforms"@
    }

    open spec fn in_arg_views(&self) -> Seq<ArgView> {
        Seq::<ArgView>::empty()
    }

    open spec fn out_arg_views(&self) -> Seq<ArgView> {
        seq![("AllowedDefaultTransformSettings"@, ArgumentDirection::OUT, Some("AllowedDefaultTransformSettings"@))]
    }

    open spec fn outcome(&self, args: Seq<(Seq<char>, Seq<char>)>, r: Result<ActionArgs, Error>) -> bool {
        &&& r is Err ==> (r->Err_0 == Error::ActionFailed)
        &&& exists|res: Result<super::traits::GetAllowedDefaultTransformsOutput, T::Error>|
            #[trigger] call_ensures(
                T::get_allowed_default_transforms,
                (&self.implementation(), super::traits::GetAllowedDefaultTransformsInput { instance_id: instance_arg(args) }),
                res,
            ) && (r is Ok <==> res is Ok) && (res matches Ok(o) ==> r->Ok_0@ == get_allowed_default_transforms_reply_pairs(o))
    }

    fn name(&self) -> &'static str {
        "GetAllowedDefaultTransforms"
    }

    fn in_args(&self) -> Vec<ArgumentDefinition<&'static str, &'static str>> {
        let mut v: Vec<ArgumentDefinition<&'static str, &'static str>> = Vec::new();
        assert(v@.map_values(|a: ArgumentDefinition<&'static str, &'static str>| static_arg_view(a)) =~= Seq::<ArgView>::empty());
        v
    }

    fn out_args(&self) -> Vec<ArgumentDefinition<&'static str, &'static str>> {
        let mut v: Vec<ArgumentDefinition<&'static str, &'static str>> = Vec::new();
        v.push(ArgumentDefinition { name: "AllowedDefaultTransformSettings", direction: ArgumentDirection::OUT, related_state_var: Some("AllowedDefaultTransformSettings") });
        assert(v@.map_values(|a: ArgumentDefinition<&'static str, &'static str>| static_arg_view(a)) =~= seq![("AllowedDefaultTransformSettings"@, ArgumentDirection::OUT, Some("AllowedDefaultTransformSettings"@))]);
        v
    }

    fn execute(&self, args: &ActionArgs) -> Result<ActionArgs, Error> {
        let input = match get_allowed_default_transforms_request(args) { Ok(i) => i, Err(e) => return Err(e) };
        let ghost handed = input;
        let res = self.trait_impl.get_allowed_default_transforms(input);
        assert(call_ensures(T::get_allowed_default_transforms, (&self.implementation(), handed), res));
        let output = match res { Ok(o) => o, Err(_) => return Err(Error::ActionFailed) };
        Ok(get_allowed_default_transforms_reply(output))
    }
}

pub struct ActionGetDefaultTransforms<T: GetDefaultTransforms> {
    trait_impl: Arc<T>,
}

impl<T: GetDefaultTransforms> ActionGetDefaultTransforms<T> {
    /// The application's implementation of the action.
    pub closed spec fn implementation(&self) -> T {
        *self.trait_impl
    }

    pub fn new(trait_impl: T) -> (r: Self)
        ensures
            r.implementation() == trait_impl,
    {
        ActionGetDefaultTransforms { trait_impl: Arc::new(trait_impl) }
    }
}

impl<T: GetDefaultTransforms> Action for ActionGetDefaultTransforms<T> {
    open spec fn action_name(&self) -> Seq<char> {
        "GetDefaultTransforms"@
    }

    open spec fn in_arg_views(&self) -> Seq<ArgView> {
        Seq::<ArgView>::empty()
    }

    open spec fn out_arg_views(&self) -> Seq<ArgView> {
        seq![("CurrentDefaultTransforms"@, ArgumentDirection::OUT, Some("DefaultTransformSettings"@))]
    }

    open spec fn outcome(&self, args: Seq<(Seq<char>, Seq<char>)>, r: Result<ActionArgs, Error>) -> bool {
        &&& r is Err ==> (r->Err_0 == Error::ActionFailed)
        &&& exists|res: Result<super::traits::GetDefaultTransformsOutput, T::Error>|
            #[trigger] call_ensures(
                T::get_default_transforms,
                (&self.implementation(), super::traits::GetDefaultTransformsInput { instance_id: instance_arg(args) }),
                res,
            ) && (r is Ok <==> res is Ok) && (res matches Ok(o) ==> r->Ok_0@ == get_default_transforms_reply_pairs(o))
    }

    fn name(&self) -> &'static str {
        "GetDefaultTransforms"
    }

    fn in_args(&self) -> Vec<ArgumentDefinition<&'static str, &'static str>> {
        let mut v: Vec<ArgumentDefinition<&'static str, &'static str>> = Vec::new();
        assert(v@.map_values(|a: ArgumentDefinition<&'static str, &'static str>| static_arg_view(a)) =~= Seq::<ArgView>::empty());
        v
    }

    fn out_args(&self) -> Vec<ArgumentDefinition<&'static str, &'static str>> {
        let mut v: Vec<ArgumentDefinition<&'static str, &'static str>> = Vec::new();
        v.push(ArgumentDefinition { name: "CurrentDefaultTransforms", direction: ArgumentDirection::OUT, related_state_var: Some("DefaultTransformSettings") });
        assert(v@.map_values(|a: ArgumentDefinition<&'static str, &'static str>| static_arg_view(a)) =~= seq![("CurrentDefaultTransforms"@, ArgumentDirection::OUT, Some("DefaultTransformSettings"@))]);
        v
    }

    fn execute(&self, args: &ActionArgs) -> Result<ActionArgs, Error> {
        let input = match get_default_transforms_request(args) { Ok(i) => i, Err(e) => return Err(e) };
        let ghost handed = input;
        let res = self.trait_impl.get_default_transforms(input);
        assert(call_ensures(T::get_default_transforms, (&self.implementation(), handed), res));
        let output = match res { Ok(o) => o, Err(_) => return Err(Error::ActionFailed) };
        Ok(get_default_transforms_reply(output))
    }
}

pub struct ActionSetDefaultTransforms<T: SetDefaultTransforms> {
    trait_impl: Arc<T>,
}

impl<T: SetDefaultTransforms> ActionSetDefaultTransforms<T> {
    /// The application's implementation of the action.
    pub closed spec fn implementation(&self) -> T {
        *self.trait_impl
    }

    pub fn new(trait_impl: T) -> (r: Self)
        ensures
            r.implementation() == trait_impl,
    {
        ActionSetDefaultTransforms { trait_impl: Arc::new(trait_impl) }
    }
}

impl<T: SetDefaultTransforms> Action for ActionSetDefaultTransforms<T> {
    open spec fn action_name(&self) -> Seq<char> {
        "SetDefaultTransforms"@
    }

    open spec fn in_arg_views(&self) -> Seq<ArgView> {
        seq![("InstanceID"@, ArgumentDirection::IN, Some("A_ARG_TYPE_InstanceID"@)), ("DesiredDefaultTransforms"@, ArgumentDirection::IN, Some("DefaultTransformSettings"@))]
    }

    open spec fn out_arg_views(&self) -> Seq<ArgView> {
        Seq::<ArgView>::empty()
    }

    open spec fn outcome(&self, args: Seq<(Seq<char>, Seq<char>)>, r: Result<ActionArgs, Error>) -> bool {
        &&& r is Err ==> (r->Err_0 == Error::ActionFailed || r->Err_0 == Error::ArgumentValueInvalid)
        &&& r is Ok ==> r->Ok_0@ == Seq::<(Seq<char>, Seq<char>)>::empty()
        &&& set_default_transforms_refusal(args) matches Some(e) ==> r == Err::<ActionArgs, Error>(e)
        &&& set_default_transforms_refusal(args) is None ==> (r is Err ==> r->Err_0 == Error::ActionFailed)
        &&& set_default_transforms_refusal(args) is None ==> exists|input: super::traits::SetDefaultTransformsInput, res: Result<super::traits::SetDefaultTransformsOutput, T::Error>|
            set_default_transforms_input(args, input) && #[trigger] call_ensures(T::set_default_transforms, (&self.implementation(), input), res) && (r is Ok
                <==> res is Ok)
    }

    fn name(&self) -> &'static str {
        "SetDefaultTransforms"
    }

    fn in_args(&self) -> Vec<ArgumentDefinition<&'static str, &'static str>> {
        let mut v: Vec<ArgumentDefinition<&'static str, &'static str>> = Vec::new();
        v.push(ArgumentDefinition { name: "InstanceID", direction: ArgumentDirection::IN, related_state_var: Some("A_ARG_TYPE_InstanceID") });
        v.push(ArgumentDefinition { name: "DesiredDefaultTransforms", direction: ArgumentDirection::IN, related_state_var: Some("DefaultTransformSettings") });
        assert(v@.map_values(|a: ArgumentDefinition<&'static str, &'static str>| static_arg_view(a)) =~= seq![("InstanceID"@, ArgumentDirection::IN, Some("A_ARG_TYPE_InstanceID"@)), ("DesiredDefaultTransforms"@, ArgumentDirection::IN, Some("DefaultTransformSettings"@))]);
        v
    }

    fn out_args(&self) -> Vec<ArgumentDefinition<&'static str, &'static str>> {
        let mut v: Vec<ArgumentDefinition<&'static str, &'static str>> = Vec::new();
        assert(v@.map_values(|a: ArgumentDefinition<&'static str, &'static str>| static_arg_view(a)) =~= Seq::<ArgView>::empty());
        v
    }

    fn execute(&self, args: &ActionArgs) -> Result<ActionArgs, Error> {
        let input = match set_default_transforms_request(args) { Ok(i) => i, Err(e) => return Err(e) };
        let ghost handed = input;
        let res = self.trait_impl.set_default_transforms(input);
        assert(call_ensures(T::set_default_transforms, (&self.implementation(), handed), res));
        match res { Ok(_) => {}, Err(_) => return Err(Error::ActionFailed) }
        Ok(ActionArgs::new())
    }
}

pub struct ActionGetStateVariables<T: GetStateVariables> {
    trait_impl: Arc<T>,
}

impl<T: GetStateVariables> ActionGetStateVariables<T> {
    /// The application's implementation of the action.
    pub closed spec fn implementation(&self) -> T {
        *self.trait_impl
    }

    pub fn new(trait_impl: T) -> (r: Self)
        ensures
            r.implementation() == trait_impl,
    {
        ActionGetStateVariables { trait_impl: Arc::new(trait_impl) }
    }
}

impl<T: GetStateVariables> Action for ActionGetStateVariables<T> {
    open spec fn action_name(&self) -> Seq<char> {
        "GetStateVariables"@
    }

    open spec fn in_arg_views(&self) -> Seq<ArgView> {
        seq![("InstanceID"@, ArgumentDirection::IN, Some("A_ARG_TYPE_InstanceID"@)), ("StateVariableList"@, ArgumentDirection::IN, Some("A_ARG_TYPE_StateVariableList"@))]
    }

    open spec fn out_arg_views(&self) -> Seq<ArgView> {
        seq![("StateVariableValuePairs"@, ArgumentDirection::OUT, Some("A_ARG_TYPE_StateVariableValuePairs"@))]
    }

    open spec fn outcome(&self, args: Seq<(Seq<char>, Seq<char>)>, r: Result<ActionArgs, Error>) -> bool {
        &&& r is Err ==> (r->Err_0 == Error::ActionFailed)
        &&& exists|input: super::traits::GetStateVariablesInput, res: Result<super::traits::GetStateVariablesOutput, T::Error>|
            input.instance_id == instance_arg(args) && input.var_list@.map_values(|x: String| x@) == requested_vars(
                crate::services::args::arg_text(args, "StateVariableList"@, "*"@),
            ) && #[trigger] call_ensures(T::get_state_variables, (&self.implementation(), input), res) && (r is Ok
                <==> res is Ok) && (res matches Ok(o) ==> r->Ok_0@ == get_state_variables_reply_pairs(o))
    }

    fn name(&self) -> &'static str {
        "GetStateVariables"
    }

    fn in_args(&self) -> Vec<ArgumentDefinition<&'static str, &'static str>> {
        let mut v: Vec<ArgumentDefinition<&'static str, &'static str>> = Vec::new();
        v.push(ArgumentDefinition { name: "InstanceID", direction: ArgumentDirection::IN, related_state_var: Some("A_ARG_TYPE_InstanceID") });
        v.push(ArgumentDefinition { name: "StateVariableList", direction: ArgumentDirection::IN, related_state_var: Some("A_ARG_TYPE_StateVariableList") });
        assert(v@.map_values(|a: ArgumentDefinition<&'static str, &'static str>| static_arg_view(a)) =~= seq![("InstanceID"@, ArgumentDirection::IN, Some("A_ARG_TYPE_InstanceID"@)), ("StateVariableList"@, ArgumentDirection::IN, Some("A_ARG_TYPE_StateVariableList"@))]);
        v
    }

    fn out_args(&self) -> Vec<ArgumentDefinition<&'static str, &'static str>> {
        let mut v: Vec<ArgumentDefinition<&'static str, &'static str>> = Vec::new();
        v.push(ArgumentDefinition { name: "StateVariableValuePairs", direction: ArgumentDirection::OUT, related_state_var: Some("A_ARG_TYPE_StateVariableValuePairs") });
        assert(v@.map_values(|a: ArgumentDefinition<&'static str, &'static str>| static_arg_view(a)) =~= seq![("StateVariableValuePairs"@, ArgumentDirection::OUT, Some("A_ARG_TYPE_StateVariableValuePairs"@))]);
        v
    }

    fn execute(&self, args: &ActionArgs) -> Result<ActionArgs, Error> {
        let input = get_state_variables_request(args);
        let ghost handed = input;
        let res = self.trait_impl.get_state_variables(input);
        assert(call_ensures(T::get_state_variables, (&self.implementation(), handed), res));
        let output = match res { Ok(o) => o, Err(_) => return Err(Error::ActionFailed) };
        Ok(get_state_variables_reply(output))
    }
}

pub struct ActionSetStateVariables<T: SetStateVariables> {
    trait_impl: Arc<T>,
}

impl<T: SetStateVariables> ActionSetStateVariables<T> {
    /// The application's implementation of the action.
    pub closed spec fn implementation(&self) -> T {
        *self.trait_impl
    }

    pub fn new(trait_impl: T) -> (r: Self)
        ensures
            r.implementation() == trait_impl,
    {
        ActionSetStateVariables { trait_impl: Arc::new(trait_impl) }
    }
}

impl<T: SetStateVariables> Action for ActionSetStateVariables<T> {
    open spec fn action_name(&self) -> Seq<char> {
        "SetStateVariables"@
    }

    open spec fn in_arg_views(&self) -> Seq<ArgView> {
        seq![("InstanceID"@, ArgumentDirection::IN, Some("A_ARG_TYPE_InstanceID"@)), ("RenderingControlUDN"@, ArgumentDirection::IN, Some("A_ARG_TYPE_DeviceUDN"@)), ("ServiceType"@, ArgumentDirection::IN, Some("A_ARG_TYPE_ServiceType"@)), ("ServiceId"@, ArgumentDirection::IN, Some("A_ARG_TYPE_ServiceID"@)), ("StateVariableValuePairs"@, ArgumentDirection::IN, Some("A_ARG_TYPE_StateVariableValuePairs"@))]
    }

    open spec fn out_arg_views(&self) -> Seq<ArgView> {
        seq![("StateVariableList"@, ArgumentDirection::OUT, Some("A_ARG_TYPE_StateVariableList"@))]
    }

    open spec fn outcome(&self, args: Seq<(Seq<char>, Seq<char>)>, r: Result<ActionArgs, Error>) -> bool {
        &&& r is Err ==> (r->Err_0 == Error::ActionFailed || r->Err_0 == Error::ArgumentValueInvalid)
        &&& set_state_variables_refusal(args) matches Some(e) ==> r == Err::<ActionArgs, Error>(e)
        &&& r is Ok ==> r->Ok_0@ == Seq::<(Seq<char>, Seq<char>)>::empty()
        &&& set_state_variables_refusal(args) is None ==> (r is Err ==> r->Err_0 == Error::ActionFailed)
        &&& set_state_variables_refusal(args) is None ==> exists|input: super::traits::SetStateVariablesInput, res: Result<super::traits::SetStateVariablesOutput, T::Error>|
            set_state_variables_input(args, input) && #[trigger] call_ensures(T::set_state_variables, (&self.implementation(), input), res) && (r is Ok
                <==> res is Ok)
    }

    fn name(&self) -> &'static str {
        "SetStateVariables"
    }

    fn in_args(&self) -> Vec<ArgumentDefinition<&'static str, &'static str>> {
        let mut v: Vec<ArgumentDefinition<&'static str, &'static str>> = Vec::new();
        v.push(ArgumentDefinition { name: "InstanceID", direction: ArgumentDirection::IN, related_state_var: Some("A_ARG_TYPE_InstanceID") });
        v.push(ArgumentDefinition { name: "RenderingControlUDN", direction: ArgumentDirection::IN, related_state_var: Some("A_ARG_TYPE_DeviceUDN") });
        v.push(ArgumentDefinition { name: "ServiceType", direction: ArgumentDirection::IN, related_state_var: Some("A_ARG_TYPE_ServiceType") });
        v.push(ArgumentDefinition { name: "ServiceId", direction: ArgumentDirection::IN, related_state_var: Some("A_ARG_TYPE_ServiceID") });
        v.push(ArgumentDefinition { name: "StateVariableValuePairs", direction: ArgumentDirection::IN, related_state_var: Some("A_ARG_TYPE_StateVariableValuePairs") });
        assert(v@.map_values(|a: ArgumentDefinition<&'static str, &'static str>| static_arg_view(a)) =~= seq![("InstanceID"@, ArgumentDirection::IN, Some("A_ARG_TYPE_InstanceID"@)), ("RenderingControlUDN"@, ArgumentDirection::IN, Some("A_ARG_TYPE_DeviceUDN"@)), ("ServiceType"@, ArgumentDirection::IN, Some("A_ARG_TYPE_ServiceType"@)), ("ServiceId"@, ArgumentDirection::IN, Some("A_ARG_TYPE_ServiceID"@)), ("StateVariableValuePairs"@, ArgumentDirection::IN, Some("A_ARG_TYPE_StateVariableValuePairs"@))]);
        v
    }

    fn out_args(&self) -> Vec<ArgumentDefinition<&'static str, &'static str>> {
        let mut v: Vec<ArgumentDefinition<&'static str, &'static str>> = Vec::new();
        v.push(ArgumentDefinition { name: "StateVariableList", direction: ArgumentDirection::OUT, related_state_var: Some("A_ARG_TYPE_StateVariableList") });
        assert(v@.map_values(|a: ArgumentDefinition<&'static str, &'static str>| static_arg_view(a)) =~= seq![("StateVariableList"@, ArgumentDirection::OUT, Some("A_ARG_TYPE_StateVariableList"@))]);
        v
    }

    fn execute(&self, args: &ActionArgs) -> Result<ActionArgs, Error> {
        let input = match set_state_variables_request(args) { Ok(i) => i, Err(e) => return Err(e) };
        let ghost handed = input;
        let res = self.trait_impl.set_state_variables(input);
        assert(call_ensures(T::set_state_variables, (&self.implementation(), handed), res));
        match res { Ok(_) => {}, Err(_) => return Err(Error::ActionFailed) }
        Ok(ActionArgs::new())
    }
}

// ---------------------------------------------------------------------------
// OUT arguments
// ---------------------------------------------------------------------------

/// The OUT arguments of ListPresets for the application's output, in order.
pub open spec fn list_presets_reply_pairs(o: super::traits::ListPresetsOutput) -> Seq<(Seq<char>, Seq<char>)> {
    seq![("CurrentPresetNameList"@, o.current_preset_name_list@)]
}

/// The OUT arguments of ListPresets for the application's output.
pub fn list_presets_reply(o: super::traits::ListPresetsOutput) -> (r: ActionArgs)
    ensures
        r@ == list_presets_reply_pairs(o),
{
    let ghost target = list_presets_reply_pairs(o);
    let mut pairs: Vec<(String, String)> = Vec::new();
    pairs.push((to_owned_string("CurrentPresetNameList"), o.current_preset_name_list));
    assert(crate::types::upnp::pairs_view(pairs@) =~= target);
    ActionArgs::from_pairs(pairs)
}

/// The OUT arguments of GetBrightness for the application's output, in order.
pub open spec fn get_brightness_reply_pairs(o: super::traits::GetBrightnessOutput) -> Seq<(Seq<char>, Seq<char>)> {
    seq![("CurrentBrightness"@, crate::text::nat_to_decimal(o.current_brightness as nat))]
}

/// The OUT arguments of GetBrightness for the application's output.
pub fn get_brightness_reply(o: super::traits::GetBrightnessOutput) -> (r: ActionArgs)
    ensures
        r@ == get_brightness_reply_pairs(o),
        crate::types::upnp::lookup(r@, "CurrentBrightness"@) matches Some(v) && crate::text::parse_unsigned(v, u16::MAX as nat)
            == Some(o.current_brightness as nat),
{
    proof {
        crate::services::args::lemma_single_reply("CurrentBrightness"@, crate::text::nat_to_decimal(o.current_brightness as nat));
        crate::text::lemma_decimal_round_trip(o.current_brightness as nat, u16::MAX as nat);
    }
    let ghost target = get_brightness_reply_pairs(o);
    let mut pairs: Vec<(String, String)> = Vec::new();
    pairs.push((to_owned_string("CurrentBrightness"), u64_to_string(o.current_brightness as u64)));
    assert(crate::types::upnp::pairs_view(pairs@) =~= target);
    ActionArgs::from_pairs(pairs)
}

/// The OUT arguments of GetContrast for the application's output, in order.
pub open spec fn get_contrast_reply_pairs(o: super::traits::GetContrastOutput) -> Seq<(Seq<char>, Seq<char>)> {
    seq![("CurrentContrast"@, crate::text::nat_to_decimal(o.current_contrast as nat))]
}

/// The OUT arguments of GetContrast for the application's output.
pub fn get_contrast_reply(o: super::traits::GetContrastOutput) -> (r: ActionArgs)
    ensures
        r@ == get_contrast_reply_pairs(o),
        crate::types::upnp::lookup(r@, "CurrentContrast"@) matches Some(v) && crate::text::parse_unsigned(v, u16::MAX as nat)
            == Some(o.current_contrast as nat),
{
    proof {
        crate::services::args::lemma_single_reply("CurrentContrast"@, crate::text::nat_to_decimal(o.current_contrast as nat));
        crate::text::lemma_decimal_round_trip(o.current_contrast as nat, u16::MAX as nat);
    }
    let ghost target = get_contrast_reply_pairs(o);
    let mut pairs: Vec<(String, String)> = Vec::new();
    pairs.push((to_owned_string("CurrentContrast"), u64_to_string(o.current_contrast as u64)));
    assert(crate::types::upnp::pairs_view(pairs@) =~= target);
    ActionArgs::from_pairs(pairs)
}

/// The OUT arguments of GetSharpness for the application's output, in order.
pub open spec fn get_sharpness_reply_pairs(o: super::traits::GetSharpnessOutput) -> Seq<(Seq<char>, Seq<char>)> {
    seq![("CurrentSharpness"@, crate::text::nat_to_decimal(o.current_sharpness as nat))]
}

/// The OUT arguments of GetSharpness for the application's output.
pub fn get_sharpness_reply(o: super::traits::GetSharpnessOutput) -> (r: ActionArgs)
    ensures
        r@ == get_sharpness_reply_pairs(o),
        crate::types::upnp::lookup(r@, "CurrentSharpness"@) matches Some(v) && crate::text::parse_unsigned(v, u16::MAX as nat)
            == Some(o.current_sharpness as nat),
{
    proof {
        crate::services::args::lemma_single_reply("CurrentSharpness"@, crate::text::nat_to_decimal(o.current_sharpness as nat));
        crate::text::lemma_decimal_round_trip(o.current_sharpness as nat, u16::MAX as nat);
    }
    let ghost target = get_sharpness_reply_pairs(o);
    let mut pairs: Vec<(String, String)> = Vec::new();
    pairs.push((to_owned_string("CurrentSharpness"), u64_to_string(o.current_sharpness as u64)));
    assert(crate::types::upnp::pairs_view(pairs@) =~= target);
    ActionArgs::from_pairs(pairs)
}

/// The OUT arguments of GetRedVideoGain for the application's output, in order.
pub open spec fn get_red_video_gain_reply_pairs(o: super::traits::GetRedVideoGainOutput) -> Seq<(Seq<char>, Seq<char>)> {
    seq![("CurrentRedVideoGain"@, crate::text::nat_to_decimal(o.current_red_video_gain as nat))]
}

/// The OUT arguments of GetRedVideoGain for the application's output.
pub fn get_red_video_gain_reply(o: super::traits::GetRedVideoGainOutput) -> (r: ActionArgs)
    ensures
        r@ == get_red_video_gain_reply_pairs(o),
        crate::types::upnp::lookup(r@, "CurrentRedVideoGain"@) matches Some(v) && crate::text::parse_unsigned(v, u16::MAX as nat)
            == Some(o.current_red_video_gain as nat),
{
    proof {
        crate::services::args::lemma_single_reply("CurrentRedVideoGain"@, crate::text::nat_to_decimal(o.current_red_video_gain as nat));
        crate::text::lemma_decimal_round_trip(o.current_red_video_gain as nat, u16::MAX as nat);
    }
    let ghost target = get_red_video_gain_reply_pairs(o);
    let mut pairs: Vec<(String, String)> = Vec::new();
    pairs.push((to_owned_string("CurrentRedVideoGain"), u64_to_string(o.current_red_video_gain as u64)));
    assert(crate::types::upnp::pairs_view(pairs@) =~= target);
    ActionArgs::from_pairs(pairs)
}

/// The OUT arguments of GetGreenVideoGain for the application's output, in order.
pub open spec fn get_green_video_gain_reply_pairs(o: super::traits::GetGreenVideoGainOutput) -> Seq<(Seq<char>, Seq<char>)> {
    seq![("CurrentGreenVideoGain"@, crate::text::nat_to_decimal(o.current_green_video_gain as nat))]
}

/// The OUT arguments of GetGreenVideoGain for the application's output.
pub fn get_green_video_gain_reply(o: super::traits::GetGreenVideoGainOutput) -> (r: ActionArgs)
    ensures
        r@ == get_green_video_gain_reply_pairs(o),
        crate::types::upnp::lookup(r@, "CurrentGreenVideoGain"@) matches Some(v) && crate::text::parse_unsigned(v, u16::MAX as nat)
            == Some(o.current_green_video_gain as nat),
{
    proof {
        crate::services::args::lemma_single_reply("CurrentGreenVideoGain"@, crate::text::nat_to_decimal(o.current_green_video_gain as nat));
        crate::text::lemma_decimal_round_trip(o.current_green_video_gain as nat, u16::MAX as nat);
    }
    let ghost target = get_green_video_gain_reply_pairs(o);
    let mut pairs: Vec<(String, String)> = Vec::new();
    pairs.push((to_owned_string("CurrentGreenVideoGain"), u64_to_string(o.current_green_video_gain as u64)));
    assert(crate::types::upnp::pairs_view(pairs@) =~= target);
    ActionArgs::from_pairs(pairs)
}

/// The OUT arguments of GetBlueVideoGain for the application's output, in order.
pub open spec fn get_blue_video_gain_reply_pairs(o: super::traits::GetBlueVideoGainOutput) -> Seq<(Seq<char>, Seq<char>)> {
    seq![("CurrentBlueVideoGain"@, crate::text::nat_to_decimal(o.current_blue_video_gain as nat))]
}

/// The OUT arguments of GetBlueVideoGain for the application's output.
pub fn get_blue_video_gain_reply(o: super::traits::GetBlueVideoGainOutput) -> (r: ActionArgs)
    ensures
        r@ == get_blue_video_gain_reply_pairs(o),
        crate::types::upnp::lookup(r@, "CurrentBlueVideoGain"@) matches Some(v) && crate::text::parse_unsigned(v, u16::MAX as nat)
            == Some(o.current_blue_video_gain as nat),
{
    proof {
        crate::services::args::lemma_single_reply("CurrentBlueVideoGain"@, crate::text::nat_to_decimal(o.current_blue_video_gain as nat));
        crate::text::lemma_decimal_round_trip(o.current_blue_video_gain as nat, u16::MAX as nat);
    }
    let ghost target = get_blue_video_gain_reply_pairs(o);
    let mut pairs: Vec<(String, String)> = Vec::new();
    pairs.push((to_owned_string("CurrentBlueVideoGain"), u64_to_string(o.current_blue_video_gain as u64)));
    assert(crate::types::upnp::pairs_view(pairs@) =~= target);
    ActionArgs::from_pairs(pairs)
}

/// The OUT arguments of GetRedVideoBlackLevel for the application's output, in order.
pub open spec fn get_red_video_black_level_reply_pairs(o: super::traits::GetRedVideoBlackLevelOutput) -> Seq<(Seq<char>, Seq<char>)> {
    seq![("CurrentRedVideoBlackLevel"@, crate::text::nat_to_decimal(o.current_red_video_black_level as nat))]
}

/// The OUT arguments of GetRedVideoBlackLevel for the application's output.
pub fn get_red_video_black_level_reply(o: super::traits::GetRedVideoBlackLevelOutput) -> (r: ActionArgs)
    ensures
        r@ == get_red_video_black_level_reply_pairs(o),
        crate::types::upnp::lookup(r@, "CurrentRedVideoBlackLevel"@) matches Some(v) && crate::text::parse_unsigned(v, u16::MAX as nat)
            == Some(o.current_red_video_black_level as nat),
{
    proof {
        crate::services::args::lemma_single_reply("CurrentRedVideoBlackLevel"@, crate::text::nat_to_decimal(o.current_red_video_black_level as nat));
        crate::text::lemma_decimal_round_trip(o.current_red_video_black_level as nat, u16::MAX as nat);
    }
    let ghost target = get_red_video_black_level_reply_pairs(o);
    let mut pairs: Vec<(String, String)> = Vec::new();
    pairs.push((to_owned_string("CurrentRedVideoBlackLevel"), u64_to_string(o.current_red_video_black_level as u64)));
    assert(crate::types::upnp::pairs_view(pairs@) =~= target);
    ActionArgs::from_pairs(pairs)
}

/// The OUT arguments of GetGreenVideoBlackLevel for the application's output, in order.
pub open spec fn get_green_video_black_level_reply_pairs(o: super::traits::GetGreenVideoBlackLevelOutput) -> Seq<(Seq<char>, Seq<char>)> {
    seq![("CurrentGreenVideoBlackLevel"@, crate::text::nat_to_decimal(o.current_green_video_black_level as nat))]
}

/// The OUT arguments of GetGreenVideoBlackLevel for the application's output.
pub fn get_green_video_black_level_reply(o: super::traits::GetGreenVideoBlackLevelOutput) -> (r: ActionArgs)
    ensures
        r@ == get_green_video_black_level_reply_pairs(o),
        crate::types::upnp::lookup(r@, "CurrentGreenVideoBlackLevel"@) matches Some(v) && crate::text::parse_unsigned(v, u16::MAX as nat)
            == Some(o.current_green_video_black_level as nat),
{
    proof {
        crate::services::args::lemma_single_reply("CurrentGreenVideoBlackLevel"@, crate::text::nat_to_decimal(o.current_green_video_black_level as nat));
        crate::text::lemma_decimal_round_trip(o.current_green_video_black_level as nat, u16::MAX as nat);
    }
    let ghost target = get_green_video_black_level_reply_pairs(o);
    let mut pairs: Vec<(String, String)> = Vec::new();
    pairs.push((to_owned_string("CurrentGreenVideoBlackLevel"), u64_to_string(o.current_green_video_black_level as u64)));
    assert(crate::types::upnp::pairs_view(pairs@) =~= target);
    ActionArgs::from_pairs(pairs)
}

/// The OUT arguments of GetBlueVideoBlackLevel for the application's output, in order.
pub open spec fn get_blue_video_black_level_reply_pairs(o: super::traits::GetBlueVideoBlackLevelOutput) -> Seq<(Seq<char>, Seq<char>)> {
    seq![("CurrentBlueVideoBlackLevel"@, crate::text::nat_to_decimal(o.current_blue_video_black_level as nat))]
}

/// The OUT arguments of GetBlueVideoBlackLevel for the application's output.
pub fn get_blue_video_black_level_reply(o: super::traits::GetBlueVideoBlackLevelOutput) -> (r: ActionArgs)
    ensures
        r@ == get_blue_video_black_level_reply_pairs(o),
        crate::types::upnp::lookup(r@, "CurrentBlueVideoBlackLevel"@) matches Some(v) && crate::text::parse_unsigned(v, u16::MAX as nat)
            == Some(o.current_blue_video_black_level as nat),
{
    proof {
        crate::services::args::lemma_single_reply("CurrentBlueVideoBlackLevel"@, crate::text::nat_to_decimal(o.current_blue_video_black_level as nat));
        crate::text::lemma_decimal_round_trip(o.current_blue_video_black_level as nat, u16::MAX as nat);
    }
    let ghost target = get_blue_video_black_level_reply_pairs(o);
    let mut pairs: Vec<(String, String)> = Vec::new();
    pairs.push((to_owned_string("CurrentBlueVideoBlackLevel"), u64_to_string(o.current_blue_video_black_level as u64)));
    assert(crate::types::upnp::pairs_view(pairs@) =~= target);
    ActionArgs::from_pairs(pairs)
}

/// The OUT arguments of GetColorTemperature for the application's output, in order.
pub open spec fn get_color_temperature_reply_pairs(o: super::traits::GetColorTemperatureOutput) -> Seq<(Seq<char>, Seq<char>)> {
    seq![("CurrentColorTemperature"@, crate::text::nat_to_decimal(o.current_color_temperature as nat))]
}

/// The OUT arguments of GetColorTemperature for the application's output.
pub fn get_color_temperature_reply(o: super::traits::GetColorTemperatureOutput) -> (r: ActionArgs)
    ensures
        r@ == get_color_temperature_reply_pairs(o),
        crate::types::upnp::lookup(r@, "CurrentColorTemperature"@) matches Some(v) && crate::text::parse_unsigned(v, u16::MAX as nat)
            == Some(o.current_color_temperature as nat),
{
    proof {
        crate::services::args::lemma_single_reply("CurrentColorTemperature"@, crate::text::nat_to_decimal(o.current_color_temperature as nat));
        crate::text::lemma_decimal_round_trip(o.current_color_temperature as nat, u16::MAX as nat);
    }
    let ghost target = get_color_temperature_reply_pairs(o);
    let mut pairs: Vec<(String, String)> = Vec::new();
    pairs.push((to_owned_string("CurrentColorTemperature"), u64_to_string(o.current_color_temperature as u64)));
    assert(crate::types::upnp::pairs_view(pairs@) =~= target);
    ActionArgs::from_pairs(pairs)
}

/// The OUT arguments of GetHorizontalKeystone for the application's output, in order.
pub open spec fn get_horizontal_keystone_reply_pairs(o: super::traits::GetHorizontalKeystoneOutput) -> Seq<(Seq<char>, Seq<char>)> {
    seq![("CurrentHorizontalKeystone"@, crate::text::int_to_decimal(o.current_horizontal_keystone as int))]
}

/// The OUT arguments of GetHorizontalKeystone for the application's output.
pub fn get_horizontal_keystone_reply(o: super::traits::GetHorizontalKeystoneOutput) -> (r: ActionArgs)
    ensures
        r@ == get_horizontal_keystone_reply_pairs(o),
        crate::types::upnp::lookup(r@, "CurrentHorizontalKeystone"@) matches Some(v) && crate::text::parse_signed(v, i16::MAX as nat, 32768)
            == Some(o.current_horizontal_keystone as int),
{
    proof {
        crate::services::args::lemma_single_reply("CurrentHorizontalKeystone"@, crate::text::int_to_decimal(o.current_horizontal_keystone as int));
        crate::text::lemma_signed_decimal_round_trip(o.current_horizontal_keystone as int, i16::MAX as nat, 32768);
    }
    let ghost target = get_horizontal_keystone_reply_pairs(o);
    let mut pairs: Vec<(String, String)> = Vec::new();
    pairs.push((to_owned_string("CurrentHorizontalKeystone"), i64_to_string(o.current_horizontal_keystone as i64)));
    assert(crate::types::upnp::pairs_view(pairs@) =~= target);
    ActionArgs::from_pairs(pairs)
}

/// The OUT arguments of GetVerticalKeystone for the application's output, in order.
pub open spec fn get_vertical_keystone_reply_pairs(o: super::traits::GetVerticalKeystoneOutput) -> Seq<(Seq<char>, Seq<char>)> {
    seq![("CurrentVerticalKeystone"@, crate::text::int_to_decimal(o.current_vertical_keystone as int))]
}

/// The OUT arguments of GetVerticalKeystone for the application's output.
pub fn get_vertical_keystone_reply(o: super::traits::GetVerticalKeystoneOutput) -> (r: ActionArgs)
    ensures
        r@ == get_vertical_keystone_reply_pairs(o),
        crate::types::upnp::lookup(r@, "CurrentVerticalKeystone"@) matches Some(v) && crate::text::parse_signed(v, i16::MAX as nat, 32768)
            == Some(o.current_vertical_keystone as int),
{
    proof {
        crate::services::args::lemma_single_reply("CurrentVerticalKeystone"@, crate::text::int_to_decimal(o.current_vertical_keystone as int));
        crate::text::lemma_signed_decimal_round_trip(o.current_vertical_keystone as int, i16::MAX as nat, 32768);
    }
    let ghost target = get_vertical_keystone_reply_pairs(o);
    let mut pairs: Vec<(String, String)> = Vec::new();
    pairs.push((to_owned_string("CurrentVerticalKeystone"), i64_to_string(o.current_vertical_keystone as i64)));
    assert(crate::types::upnp::pairs_view(pairs@) =~= target);
    ActionArgs::from_pairs(pairs)
}

/// The OUT arguments of GetMute for the application's output, in order.
pub open spec fn get_mute_reply_pairs(o: super::traits::GetMuteOutput) -> Seq<(Seq<char>, Seq<char>)> {
    seq![("CurrentMute"@, if o.current_mute { "true"@ } else { "false"@ })]
}

/// GetMute answers with the renderer's mute state: its one OUT argument is
/// `CurrentMute`, and read as a UPnP boolean it is `current_mute`.
pub proof fn lemma_get_mute_reply_reads_back(o: super::traits::GetMuteOutput)
    ensures
        get_mute_reply_pairs(o).len() == 1,
        crate::types::upnp::lookup(get_mute_reply_pairs(o), "CurrentMute"@) matches Some(v)
            && crate::services::args::boolean_text_value(v) == Some(o.current_mute),
{
    crate::services::args::lemma_boolean_words();
    let p = get_mute_reply_pairs(o);
    assert(p[0].0 == "CurrentMute"@);
    assert(crate::types::upnp::is_first_key(p, "CurrentMute"@, 0));
    crate::types::upnp::lemma_first_key(p, "CurrentMute"@);
}

/// The OUT arguments of GetMute for the application's output.
pub fn get_mute_reply(o: super::traits::GetMuteOutput) -> (r: ActionArgs)
    ensures
        r@ == get_mute_reply_pairs(o),
        crate::types::upnp::lookup(r@, "CurrentMute"@) matches Some(v)
            && crate::services::args::boolean_text_value(v) == Some(o.current_mute),
{
    proof {
        lemma_get_mute_reply_reads_back(o);
    }
    let ghost target = get_mute_reply_pairs(o);
    let mut pairs: Vec<(String, String)> = Vec::new();
    pairs.push((to_owned_string("CurrentMute"), if o.current_mute { to_owned_string("true") } else { to_owned_string("false") }));
    assert(crate::types::upnp::pairs_view(pairs@) =~= target);
    ActionArgs::from_pairs(pairs)
}

/// The OUT arguments of GetVolume for the application's output, in order.
pub open spec fn get_volume_reply_pairs(o: super::traits::GetVolumeOutput) -> Seq<(Seq<char>, Seq<char>)> {
    seq![("CurrentVolume"@, crate::text::nat_to_decimal(o.current_volume as nat))]
}

/// The OUT arguments of GetVolume for the application's output.
pub fn get_volume_reply(o: super::traits::GetVolumeOutput) -> (r: ActionArgs)
    ensures
        r@ == get_volume_reply_pairs(o),
        crate::types::upnp::lookup(r@, "CurrentVolume"@) matches Some(v) && crate::text::parse_unsigned(v, u16::MAX as nat)
            == Some(o.current_volume as nat),
{
    proof {
        crate::services::args::lemma_single_reply("CurrentVolume"@, crate::text::nat_to_decimal(o.current_volume as nat));
        crate::text::lemma_decimal_round_trip(o.current_volume as nat, u16::MAX as nat);
    }
    let ghost target = get_volume_reply_pairs(o);
    let mut pairs: Vec<(String, String)> = Vec::new();
    pairs.push((to_owned_string("CurrentVolume"), u64_to_string(o.current_volume as u64)));
    assert(crate::types::upnp::pairs_view(pairs@) =~= target);
    ActionArgs::from_pairs(pairs)
}

/// The OUT arguments of GetVolumeDB for the application's output, in order.
pub open spec fn get_volume_db_reply_pairs(o: super::traits::GetVolumeDBOutput) -> Seq<(Seq<char>, Seq<char>)> {
    seq![("CurrentVolume"@, crate::text::int_to_decimal(o.current_volume_db as int))]
}

/// The OUT arguments of GetVolumeDB for the application's output.
pub fn get_volume_db_reply(o: super::traits::GetVolumeDBOutput) -> (r: ActionArgs)
    ensures
        r@ == get_volume_db_reply_pairs(o),
        crate::types::upnp::lookup(r@, "CurrentVolume"@) matches Some(v) && crate::text::parse_signed(v, i16::MAX as nat, 32768)
            == Some(o.current_volume_db as int),
{
    proof {
        crate::services::args::lemma_single_reply("CurrentVolume"@, crate::text::int_to_decimal(o.current_volume_db as int));
        crate::text::lemma_signed_decimal_round_trip(o.current_volume_db as int, i16::MAX as nat, 32768);
    }
    let ghost target = get_volume_db_reply_pairs(o);
    let mut pairs: Vec<(String, String)> = Vec::new();
    pairs.push((to_owned_string("CurrentVolume"), i64_to_string(o.current_volume_db as i64)));
    assert(crate::types::upnp::pairs_view(pairs@) =~= target);
    ActionArgs::from_pairs(pairs)
}

/// The OUT arguments of GetVolumeDBRange for the application's output, in order.
pub open spec fn get_volume_db_range_reply_pairs(o: super::traits::GetVolumeDBRangeOutput) -> Seq<(Seq<char>, Seq<char>)> {
    seq![("MinValue"@, crate::text::int_to_decimal(o.minimum_value as int)), ("MaxValue"@, crate::text::int_to_decimal(o.maximum_value as int))]
}

/// The OUT arguments of GetVolumeDBRange for the application's output.
pub fn get_volume_db_range_reply(o: super::traits::GetVolumeDBRangeOutput) -> (r: ActionArgs)
    ensures
        r@ == get_volume_db_range_reply_pairs(o),
{
    let ghost target = get_volume_db_range_reply_pairs(o);
    let mut pairs: Vec<(String, String)> = Vec::new();
    pairs.push((to_owned_string("MinValue"), i64_to_string(o.minimum_value as i64)));
    pairs.push((to_owned_string("MaxValue"), i64_to_string(o.maximum_value as i64)));
    assert(crate::types::upnp::pairs_view(pairs@) =~= target);
    ActionArgs::from_pairs(pairs)
}

/// The OUT arguments of GetLoudness for the application's output, in order.
pub open spec fn get_loudness_reply_pairs(o: super::traits::GetLoudnessOutput) -> Seq<(Seq<char>, Seq<char>)> {
    seq![("CurrentLoudness"@, if o.current_loudness { "true"@ } else { "false"@ })]
}

/// GetLoudness answers with the loudness setting: its one OUT argument is
/// `CurrentLoudness`, and read as a UPnP boolean it is `current_loudness`.
pub proof fn lemma_get_loudness_reply_reads_back(o: super::traits::GetLoudnessOutput)
    ensures
        get_loudness_reply_pairs(o).len() == 1,
        crate::types::upnp::lookup(get_loudness_reply_pairs(o), "CurrentLoudness"@) matches Some(v)
            && crate::services::args::boolean_text_value(v) == Some(o.current_loudness),
{
    crate::services::args::lemma_boolean_words();
    let p = get_loudness_reply_pairs(o);
    assert(p[0].0 == "CurrentLoudness"@);
    assert(crate::types::upnp::is_first_key(p, "CurrentLoudness"@, 0));
    crate::types::upnp::lemma_first_key(p, "CurrentLoudness"@);
}

/// The OUT arguments of GetLoudness for the application's output.
pub fn get_loudness_reply(o: super::traits::GetLoudnessOutput) -> (r: ActionArgs)
    ensures
        r@ == get_loudness_reply_pairs(o),
        crate::types::upnp::lookup(r@, "CurrentLoudness"@) matches Some(v)
            && crate::services::args::boolean_text_value(v) == Some(o.current_loudness),
{
    proof {
        lemma_get_loudness_reply_reads_back(o);
    }
    let ghost target = get_loudness_reply_pairs(o);
    let mut pairs: Vec<(String, String)> = Vec::new();
    pairs.push((to_owned_string("CurrentLoudness"), if o.current_loudness { to_owned_string("true") } else { to_owned_string("false") }));
    assert(crate::types::upnp::pairs_view(pairs@) =~= target);
    ActionArgs::from_pairs(pairs)
}

/// The OUT arguments of GetAllowedTransforms for the application's output, in order.
pub open spec fn get_allowed_transforms_reply_pairs(o: super::traits::GetAllowedTransformsOutput) -> Seq<(Seq<char>, Seq<char>)> {
    seq![("CurrentAllowedTransforms"@, o.current_allowed_transforms@)]
}

/// The OUT arguments of GetAllowedTransforms for the application's output.
pub fn get_allowed_transforms_reply(o: super::traits::GetAllowedTransformsOutput) -> (r: ActionArgs)
    ensures
        r@ == get_allowed_transforms_reply_pairs(o),
{
    let ghost target = get_allowed_transforms_reply_pairs(o);
    let mut pairs: Vec<(String, String)> = Vec::new();
    pairs.push((to_owned_string("CurrentAllowedTransforms"), o.current_allowed_transforms));
    assert(crate::types::upnp::pairs_view(pairs@) =~= target);
    ActionArgs::from_pairs(pairs)
}

/// The OUT arguments of GetTransforms for the application's output, in order.
pub open spec fn get_transforms_reply_pairs(o: super::traits::GetTransformsOutput) -> Seq<(Seq<char>, Seq<char>)> {
    seq![("CurrentTransforms"@, o.current_transforms@)]
}

/// The OUT arguments of GetTransforms for the application's output.
pub fn get_transforms_reply(o: super::traits::GetTransformsOutput) -> (r: ActionArgs)
    ensures
        r@ == get_transforms_reply_pairs(o),
{
    let ghost target = get_transforms_reply_pairs(o);
    let mut pairs: Vec<(String, String)> = Vec::new();
    pairs.push((to_owned_string("CurrentTransforms"), o.current_transforms));
    assert(crate::types::upnp::pairs_view(pairs@) =~= target);
    ActionArgs::from_pairs(pairs)
}

/// The OUT arguments of GetAllAvailableTransforms for the application's output, in order.
pub open spec fn get_all_available_transforms_reply_pairs(o: super::traits::GetAllAvailableTransformsOutput) -> Seq<(Seq<char>, Seq<char>)> {
    seq![("AllAvailableTransforms"@, o.all_available_transforms@)]
}

/// The OUT arguments of GetAllAvailableTransforms for the application's output.
pub fn get_all_available_transforms_reply(o: super::traits::GetAllAvailableTransformsOutput) -> (r: ActionArgs)
    ensures
        r@ == get_all_available_transforms_reply_pairs(o),
{
    let ghost target = get_all_available_transforms_reply_pairs(o);
    let mut pairs: Vec<(String, String)> = Vec::new();
    pairs.push((to_owned_string("AllAvailableTransforms"), o.all_available_transforms));
    assert(crate::types::upnp::pairs_view(pairs@) =~= target);
    ActionArgs::from_pairs(pairs)
}

/// The OUT arguments of GetAllowedDefaultTransforms for the application's output, in order.
pub open spec fn get_allowed_default_transforms_reply_pairs(o: super::traits::GetAllowedDefaultTransformsOutput) -> Seq<(Seq<char>, Seq<char>)> {
    seq![("CurrentAllowedDefaultTransforms"@, o.current_allowed_default_transforms@)]
}

/// The OUT arguments of GetAllowedDefaultTransforms for the application's output.
pub fn get_allowed_default_transforms_reply(o: super::traits::GetAllowedDefaultTransformsOutput) -> (r: ActionArgs)
    ensures
        r@ == get_allowed_default_transforms_reply_pairs(o),
{
    let ghost target = get_allowed_default_transforms_reply_pairs(o);
    let mut pairs: Vec<(String, String)> = Vec::new();
    pairs.push((to_owned_string("CurrentAllowedDefaultTransforms"), o.current_allowed_default_transforms));
    assert(crate::types::upnp::pairs_view(pairs@) =~= target);
    ActionArgs::from_pairs(pairs)
}

/// The OUT arguments of GetDefaultTransforms for the application's output, in order.
pub open spec fn get_default_transforms_reply_pairs(o: super::traits::GetDefaultTransformsOutput) -> Seq<(Seq<char>, Seq<char>)> {
    seq![("CurrentDefaultTransforms"@, o.current_default_transforms@)]
}

/// The OUT arguments of GetDefaultTransforms for the application's output.
pub fn get_default_transforms_reply(o: super::traits::GetDefaultTransformsOutput) -> (r: ActionArgs)
    ensures
        r@ == get_default_transforms_reply_pairs(o),
{
    let ghost target = get_default_transforms_reply_pairs(o);
    let mut pairs: Vec<(String, String)> = Vec::new();
    pairs.push((to_owned_string("CurrentDefaultTransforms"), o.current_default_transforms));
    assert(crate::types::upnp::pairs_view(pairs@) =~= target);
    ActionArgs::from_pairs(pairs)
}

/// The OUT arguments of GetStateVariables for the application's output, in order.
pub open spec fn get_state_variables_reply_pairs(o: super::traits::GetStateVariablesOutput) -> Seq<(Seq<char>, Seq<char>)> {
    seq![("StateVariableValuePairs"@, crate::services::args::state_pairs_document(crate::types::upnp::pairs_view(o.values@)))]
}

/// The OUT arguments of GetStateVariables for the application's output.
pub fn get_state_variables_reply(o: super::traits::GetStateVariablesOutput) -> (r: ActionArgs)
    ensures
        r@ == get_state_variables_reply_pairs(o),
{
    let ghost target = get_state_variables_reply_pairs(o);
    let mut pairs: Vec<(String, String)> = Vec::new();
    pairs.push((to_owned_string("StateVariableValuePairs"), state_pairs_xml(&o.values)));
    assert(crate::types::upnp::pairs_view(pairs@) =~= target);
    ActionArgs::from_pairs(pairs)
}

// ---------------------------------------------------------------------------
// IN arguments
// ---------------------------------------------------------------------------

/// The error with which SelectPreset refuses its IN arguments, if any.
pub open spec fn select_preset_refusal(a: Seq<(Seq<char>, Seq<char>)>) -> Option<Error> {
    if crate::types::upnp::lookup(a, "PresetName"@) is None {
        Some(Error::ArgumentValueInvalid)
    } else {
        None
    }
}

/// The input SelectPreset hands to the application, read from its IN arguments.
/// The input the request hands to the application.
pub open spec fn select_preset_input(args: Seq<(Seq<char>, Seq<char>)>, i: super::traits::SelectPresetInput) -> bool {
    i.instance_id == (match crate::text::parse_unsigned(crate::services::args::arg_text(args, "InstanceID"@, "0"@), u32::MAX as nat) { Some(n) => n as u32, None => (0) as u32 }) && i.preset_name@ == crate::types::upnp::lookup(args, "PresetName"@)->0
}

pub fn select_preset_request(args: &ActionArgs) -> (r: Result<super::traits::SelectPresetInput, Error>)
    ensures
        match select_preset_refusal(args@) {
            Some(e) => r == Err::<super::traits::SelectPresetInput, Error>(e),
            None => r matches Ok(i) && select_preset_input(args@, i),
        },
{
    let instance_id_text = arg_or(args, "InstanceID", "0");
    let instance_id: u32 = match parse_u32(instance_id_text.as_str()) { Some(x) => x, None => 0 };
    let preset_name = match arg_required(args, "PresetName", Error::ArgumentValueInvalid) { Ok(x) => x, Err(err) => return Err(err) };
    let r = SelectPresetInput { instance_id, preset_name };
    Ok(r)
}

/// The input GetBrightness hands to the application, read from its IN arguments.
/// The input the request hands to the application.
pub open spec fn get_brightness_input(args: Seq<(Seq<char>, Seq<char>)>, i: super::traits::GetBrightnessInput) -> bool {
    i.instance_id == (match crate::text::parse_unsigned(crate::services::args::arg_text(args, "InstanceID"@, "0"@), u32::MAX as nat) { Some(n) => n as u32, None => (0) as u32 })
}

pub fn get_brightness_request(args: &ActionArgs) -> (r: Result<super::traits::GetBrightnessInput, Error>)
    ensures
        r matches Ok(i) && get_brightness_input(args@, i),
{
    let instance_id_text = arg_or(args, "InstanceID", "0");
    let instance_id: u32 = match parse_u32(instance_id_text.as_str()) { Some(x) => x, None => 0 };
    let r = GetBrightnessInput { instance_id };
    Ok(r)
}

/// The error with which SetBrightness refuses its IN arguments, if any.
pub open spec fn set_brightness_refusal(a: Seq<(Seq<char>, Seq<char>)>) -> Option<Error> {
    if crate::types::upnp::lookup(a, "DesiredBrightness"@) is None {
        Some(Error::ArgumentValueInvalid)
    } else if (crate::text::parse_unsigned(crate::types::upnp::lookup(a, "DesiredBrightness"@)->0, u16::MAX as nat)) is None {
        Some(Error::ArgumentValueOutOfRange)
    } else {
        None
    }
}

/// The input SetBrightness hands to the application, read from its IN arguments.
/// The input the request hands to the application.
pub open spec fn set_brightness_input(args: Seq<(Seq<char>, Seq<char>)>, i: super::traits::SetBrightnessInput) -> bool {
    i.instance_id == (match crate::text::parse_unsigned(crate::services::args::arg_text(args, "InstanceID"@, "0"@), u32::MAX as nat) { Some(n) => n as u32, None => (0) as u32 }) && i.desired_brightness == ((crate::text::parse_unsigned(crate::types::upnp::lookup(args, "DesiredBrightness"@)->0, u16::MAX as nat))->0 as u16)
}

pub fn set_brightness_request(args: &ActionArgs) -> (r: Result<super::traits::SetBrightnessInput, Error>)
    ensures
        match set_brightness_refusal(args@) {
            Some(e) => r == Err::<super::traits::SetBrightnessInput, Error>(e),
            None => r matches Ok(i) && set_brightness_input(args@, i),
        },
{
    let instance_id_text = arg_or(args, "InstanceID", "0");
    let instance_id: u32 = match parse_u32(instance_id_text.as_str()) { Some(x) => x, None => 0 };
    let desired_brightness_text = match arg_required(args, "DesiredBrightness", Error::ArgumentValueInvalid) { Ok(x) => x, Err(err) => return Err(err) };
    let desired_brightness: u16 = match parse_u16(desired_brightness_text.as_str()) { Some(x) => x, None => return Err(Error::ArgumentValueOutOfRange) };
    let r = SetBrightnessInput { instance_id, desired_brightness };
    Ok(r)
}

/// The input GetContrast hands to the application, read from its IN arguments.
/// The input the request hands to the application.
pub open spec fn get_contrast_input(args: Seq<(Seq<char>, Seq<char>)>, i: super::traits::GetContrastInput) -> bool {
    i.instance_id == (match crate::text::parse_unsigned(crate::services::args::arg_text(args, "InstanceID"@, "0"@), u32::MAX as nat) { Some(n) => n as u32, None => (0) as u32 })
}

pub fn get_contrast_request(args: &ActionArgs) -> (r: Result<super::traits::GetContrastInput, Error>)
    ensures
        r matches Ok(i) && get_contrast_input(args@, i),
{
    let instance_id_text = arg_or(args, "InstanceID", "0");
    let instance_id: u32 = match parse_u32(instance_id_text.as_str()) { Some(x) => x, None => 0 };
    let r = GetContrastInput { instance_id };
    Ok(r)
}

/// The error with which SetContrast refuses its IN arguments, if any.
pub open spec fn set_contrast_refusal(a: Seq<(Seq<char>, Seq<char>)>) -> Option<Error> {
    if crate::types::upnp::lookup(a, "DesiredContrast"@) is None {
        Some(Error::ArgumentValueInvalid)
    } else if (crate::text::parse_unsigned(crate::types::upnp::lookup(a, "DesiredContrast"@)->0, u16::MAX as nat)) is None {
        Some(Error::ArgumentValueOutOfRange)
    } else {
        None
    }
}

/// The input SetContrast hands to the application, read from its IN arguments.
/// The input the request hands to the application.
pub open spec fn set_contrast_input(args: Seq<(Seq<char>, Seq<char>)>, i: super::traits::SetContrastInput) -> bool {
    i.instance_id == (match crate::text::parse_unsigned(crate::services::args::arg_text(args, "InstanceID"@, "0"@), u32::MAX as nat) { Some(n) => n as u32, None => (0) as u32 }) && i.desired_contrast == ((crate::text::parse_unsigned(crate::types::upnp::lookup(args, "DesiredContrast"@)->0, u16::MAX as nat))->0 as u16)
}

pub fn set_contrast_request(args: &ActionArgs) -> (r: Result<super::traits::SetContrastInput, Error>)
    ensures
        match set_contrast_refusal(args@) {
            Some(e) => r == Err::<super::traits::SetContrastInput, Error>(e),
            None => r matches Ok(i) && set_contrast_input(args@, i),
        },
{
    let instance_id_text = arg_or(args, "InstanceID", "0");
    let instance_id: u32 = match parse_u32(instance_id_text.as_str()) { Some(x) => x, None => 0 };
    let desired_contrast_text = match arg_required(args, "DesiredContrast", Error::ArgumentValueInvalid) { Ok(x) => x, Err(err) => return Err(err) };
    let desired_contrast: u16 = match parse_u16(desired_contrast_text.as_str()) { Some(x) => x, None => return Err(Error::ArgumentValueOutOfRange) };
    let r = SetContrastInput { instance_id, desired_contrast };
    Ok(r)
}

/// The input GetSharpness hands to the application, read from its IN arguments.
/// The input the request hands to the application.
pub open spec fn get_sharpness_input(args: Seq<(Seq<char>, Seq<char>)>, i: super::traits::GetSharpnessInput) -> bool {
    i.instance_id == (match crate::text::parse_unsigned(crate::services::args::arg_text(args, "InstanceID"@, "0"@), u32::MAX as nat) { Some(n) => n as u32, None => (0) as u32 })
}

pub fn get_sharpness_request(args: &ActionArgs) -> (r: Result<super::traits::GetSharpnessInput, Error>)
    ensures
        r matches Ok(i) && get_sharpness_input(args@, i),
{
    let instance_id_text = arg_or(args, "InstanceID", "0");
    let instance_id: u32 = match parse_u32(instance_id_text.as_str()) { Some(x) => x, None => 0 };
    let r = GetSharpnessInput { instance_id };
    Ok(r)
}

/// The error with which SetSharpness refuses its IN arguments, if any.
pub open spec fn set_sharpness_refusal(a: Seq<(Seq<char>, Seq<char>)>) -> Option<Error> {
    if crate::types::upnp::lookup(a, "DesiredSharpness"@) is None {
        Some(Error::ArgumentValueInvalid)
    } else if (crate::text::parse_unsigned(crate::types::upnp::lookup(a, "DesiredSharpness"@)->0, u16::MAX as nat)) is None {
        Some(Error::ArgumentValueOutOfRange)
    } else {
        None
    }
}

/// The input SetSharpness hands to the application, read from its IN arguments.
/// The input the request hands to the application.
pub open spec fn set_sharpness_input(args: Seq<(Seq<char>, Seq<char>)>, i: super::traits::SetSharpnessInput) -> bool {
    i.instance_id == (match crate::text::parse_unsigned(crate::services::args::arg_text(args, "InstanceID"@, "0"@), u32::MAX as nat) { Some(n) => n as u32, None => (0) as u32 }) && i.desired_sharpness == ((crate::text::parse_unsigned(crate::types::upnp::lookup(args, "DesiredSharpness"@)->0, u16::MAX as nat))->0 as u16)
}

pub fn set_sharpness_request(args: &ActionArgs) -> (r: Result<super::traits::SetSharpnessInput, Error>)
    ensures
        match set_sharpness_refusal(args@) {
            Some(e) => r == Err::<super::traits::SetSharpnessInput, Error>(e),
            None => r matches Ok(i) && set_sharpness_input(args@, i),
        },
{
    let instance_id_text = arg_or(args, "InstanceID", "0");
    let instance_id: u32 = match parse_u32(instance_id_text.as_str()) { Some(x) => x, None => 0 };
    let desired_sharpness_text = match arg_required(args, "DesiredSharpness", Error::ArgumentValueInvalid) { Ok(x) => x, Err(err) => return Err(err) };
    let desired_sharpness: u16 = match parse_u16(desired_sharpness_text.as_str()) { Some(x) => x, None => return Err(Error::ArgumentValueOutOfRange) };
    let r = SetSharpnessInput { instance_id, desired_sharpness };
    Ok(r)
}

/// The input GetRedVideoGain hands to the application, read from its IN arguments.
/// The input the request hands to the application.
pub open spec fn get_red_video_gain_input(args: Seq<(Seq<char>, Seq<char>)>, i: super::traits::GetRedVideoGainInput) -> bool {
    i.instance_id == (match crate::text::parse_unsigned(crate::services::args::arg_text(args, "InstanceID"@, "0"@), u32::MAX as nat) { Some(n) => n as u32, None => (0) as u32 })
}

pub fn get_red_video_gain_request(args: &ActionArgs) -> (r: Result<super::traits::GetRedVideoGainInput, Error>)
    ensures
        r matches Ok(i) && get_red_video_gain_input(args@, i),
{
    let instance_id_text = arg_or(args, "InstanceID", "0");
    let instance_id: u32 = match parse_u32(instance_id_text.as_str()) { Some(x) => x, None => 0 };
    let r = GetRedVideoGainInput { instance_id };
    Ok(r)
}

/// The error with which SetRedVideoGain refuses its IN arguments, if any.
pub open spec fn set_red_video_gain_refusal(a: Seq<(Seq<char>, Seq<char>)>) -> Option<Error> {
    if crate::types::upnp::lookup(a, "DesiredVideoGain"@) is None {
        Some(Error::ArgumentValueInvalid)
    } else if (crate::text::parse_unsigned(crate::types::upnp::lookup(a, "DesiredVideoGain"@)->0, u16::MAX as nat)) is None {
        Some(Error::ArgumentValueOutOfRange)
    } else {
        None
    }
}

/// The input SetRedVideoGain hands to the application, read from its IN arguments.
/// The input the request hands to the application.
pub open spec fn set_red_video_gain_input(args: Seq<(Seq<char>, Seq<char>)>, i: super::traits::SetRedVideoGainInput) -> bool {
    i.instance_id == (match crate::text::parse_unsigned(crate::services::args::arg_text(args, "InstanceID"@, "0"@), u32::MAX as nat) { Some(n) => n as u32, None => (0) as u32 }) && i.desired_red_video_gain == ((crate::text::parse_unsigned(crate::types::upnp::lookup(args, "DesiredVideoGain"@)->0, u16::MAX as nat))->0 as u16)
}

pub fn set_red_video_gain_request(args: &ActionArgs) -> (r: Result<super::traits::SetRedVideoGainInput, Error>)
    ensures
        match set_red_video_gain_refusal(args@) {
            Some(e) => r == Err::<super::traits::SetRedVideoGainInput, Error>(e),
            None => r matches Ok(i) && set_red_video_gain_input(args@, i),
        },
{
    let instance_id_text = arg_or(args, "InstanceID", "0");
    let instance_id: u32 = match parse_u32(instance_id_text.as_str()) { Some(x) => x, None => 0 };
    let desired_text = match arg_required(args, "DesiredVideoGain", Error::ArgumentValueInvalid) { Ok(x) => x, Err(err) => return Err(err) };
    let desired: u16 = match parse_u16(desired_text.as_str()) { Some(x) => x, None => return Err(Error::ArgumentValueOutOfRange) };
    let r = SetRedVideoGainInput { instance_id, desired_red_video_gain: desired };
    Ok(r)
}

/// The input GetGreenVideoGain hands to the application, read from its IN arguments.
/// The input the request hands to the application.
pub open spec fn get_green_video_gain_input(args: Seq<(Seq<char>, Seq<char>)>, i: super::traits::GetGreenVideoGainInput) -> bool {
    i.instance_id == (match crate::text::parse_unsigned(crate::services::args::arg_text(args, "InstanceID"@, "0"@), u32::MAX as nat) { Some(n) => n as u32, None => (0) as u32 })
}

pub fn get_green_video_gain_request(args: &ActionArgs) -> (r: Result<super::traits::GetGreenVideoGainInput, Error>)
    ensures
        r matches Ok(i) && get_green_video_gain_input(args@, i),
{
    let instance_id_text = arg_or(args, "InstanceID", "0");
    let instance_id: u32 = match parse_u32(instance_id_text.as_str()) { Some(x) => x, None => 0 };
    let r = GetGreenVideoGainInput { instance_id };
    Ok(r)
}

/// The error with which SetGreenVideoGain refuses its IN arguments, if any.
pub open spec fn set_green_video_gain_refusal(a: Seq<(Seq<char>, Seq<char>)>) -> Option<Error> {
    if crate::types::upnp::lookup(a, "DesiredVideoGain"@) is None {
        Some(Error::ArgumentValueInvalid)
    } else if (crate::text::parse_unsigned(crate::types::upnp::lookup(a, "DesiredVideoGain"@)->0, u16::MAX as nat)) is None {
        Some(Error::ArgumentValueOutOfRange)
    } else {
        None
    }
}

/// The input SetGreenVideoGain hands to the application, read from its IN arguments.
/// The input the request hands to the application.
pub open spec fn set_green_video_gain_input(args: Seq<(Seq<char>, Seq<char>)>, i: super::traits::SetGreenVideoGainInput) -> bool {
    i.instance_id == (match crate::text::parse_unsigned(crate::services::args::arg_text(args, "InstanceID"@, "0"@), u32::MAX as nat) { Some(n) => n as u32, None => (0) as u32 }) && i.desired_green_video_gain == ((crate::text::parse_unsigned(crate::types::upnp::lookup(args, "DesiredVideoGain"@)->0, u16::MAX as nat))->0 as u16)
}

pub fn set_green_video_gain_request(args: &ActionArgs) -> (r: Result<super::traits::SetGreenVideoGainInput, Error>)
    ensures
        match set_green_video_gain_refusal(args@) {
            Some(e) => r == Err::<super::traits::SetGreenVideoGainInput, Error>(e),
            None => r matches Ok(i) && set_green_video_gain_input(args@, i),
        },
{
    let instance_id_text = arg_or(args, "InstanceID", "0");
    let instance_id: u32 = match parse_u32(instance_id_text.as_str()) { Some(x) => x, None => 0 };
    let desired_text = match arg_required(args, "DesiredVideoGain", Error::ArgumentValueInvalid) { Ok(x) => x, Err(err) => return Err(err) };
    let desired: u16 = match parse_u16(desired_text.as_str()) { Some(x) => x, None => return Err(Error::ArgumentValueOutOfRange) };
    let r = SetGreenVideoGainInput { instance_id, desired_green_video_gain: desired };
    Ok(r)
}

/// The input GetBlueVideoGain hands to the application, read from its IN arguments.
/// The input the request hands to the application.
pub open spec fn get_blue_video_gain_input(args: Seq<(Seq<char>, Seq<char>)>, i: super::traits::GetBlueVideoGainInput) -> bool {
    i.instance_id == (match crate::text::parse_unsigned(crate::services::args::arg_text(args, "InstanceID"@, "0"@), u32::MAX as nat) { Some(n) => n as u32, None => (0) as u32 })
}

pub fn get_blue_video_gain_request(args: &ActionArgs) -> (r: Result<super::traits::GetBlueVideoGainInput, Error>)
    ensures
        r matches Ok(i) && get_blue_video_gain_input(args@, i),
{
    let instance_id_text = arg_or(args, "InstanceID", "0");
    let instance_id: u32 = match parse_u32(instance_id_text.as_str()) { Some(x) => x, None => 0 };
    let r = GetBlueVideoGainInput { instance_id };
    Ok(r)
}

/// The error with which SetBlueVideoGain refuses its IN arguments, if any.
pub open spec fn set_blue_video_gain_refusal(a: Seq<(Seq<char>, Seq<char>)>) -> Option<Error> {
    if crate::types::upnp::lookup(a, "DesiredVideoGain"@) is None {
        Some(Error::ArgumentValueInvalid)
    } else if (crate::text::parse_unsigned(crate::types::upnp::lookup(a, "DesiredVideoGain"@)->0, u16::MAX as nat)) is None {
        Some(Error::ArgumentValueOutOfRange)
    } else {
        None
    }
}

/// The input SetBlueVideoGain hands to the application, read from its IN arguments.
/// The input the request hands to the application.
pub open spec fn set_blue_video_gain_input(args: Seq<(Seq<char>, Seq<char>)>, i: super::traits::SetBlueVideoGainInput) -> bool {
    i.instance_id == (match crate::text::parse_unsigned(crate::services::args::arg_text(args, "InstanceID"@, "0"@), u32::MAX as nat) { Some(n) => n as u32, None => (0) as u32 }) && i.desired_blue_video_gain == ((crate::text::parse_unsigned(crate::types::upnp::lookup(args, "DesiredVideoGain"@)->0, u16::MAX as nat))->0 as u16)
}

pub fn set_blue_video_gain_request(args: &ActionArgs) -> (r: Result<super::traits::SetBlueVideoGainInput, Error>)
    ensures
        match set_blue_video_gain_refusal(args@) {
            Some(e) => r == Err::<super::traits::SetBlueVideoGainInput, Error>(e),
            None => r matches Ok(i) && set_blue_video_gain_input(args@, i),
        },
{
    let instance_id_text = arg_or(args, "InstanceID", "0");
    let instance_id: u32 = match parse_u32(instance_id_text.as_str()) { Some(x) => x, None => 0 };
    let desired_text = match arg_required(args, "DesiredVideoGain", Error::ArgumentValueInvalid) { Ok(x) => x, Err(err) => return Err(err) };
    let desired: u16 = match parse_u16(desired_text.as_str()) { Some(x) => x, None => return Err(Error::ArgumentValueOutOfRange) };
    let r = SetBlueVideoGainInput { instance_id, desired_blue_video_gain: desired };
    Ok(r)
}

/// The input GetRedVideoBlackLevel hands to the application, read from its IN arguments.
/// The input the request hands to the application.
pub open spec fn get_red_video_black_level_input(args: Seq<(Seq<char>, Seq<char>)>, i: super::traits::GetRedVideoBlackLevelInput) -> bool {
    i.instance_id == (match crate::text::parse_unsigned(crate::services::args::arg_text(args, "InstanceID"@, "0"@), u32::MAX as nat) { Some(n) => n as u32, None => (0) as u32 })
}

pub fn get_red_video_black_level_request(args: &ActionArgs) -> (r: Result<super::traits::GetRedVideoBlackLevelInput, Error>)
    ensures
        r matches Ok(i) && get_red_video_black_level_input(args@, i),
{
    let instance_id_text = arg_or(args, "InstanceID", "0");
    let instance_id: u32 = match parse_u32(instance_id_text.as_str()) { Some(x) => x, None => 0 };
    let r = GetRedVideoBlackLevelInput { instance_id };
    Ok(r)
}

/// The error with which SetRedVideoBlackLevel refuses its IN arguments, if any.
pub open spec fn set_red_video_black_level_refusal(a: Seq<(Seq<char>, Seq<char>)>) -> Option<Error> {
    if crate::types::upnp::lookup(a, "DesiredVideoBlackLevel"@) is None {
        Some(Error::ArgumentValueInvalid)
    } else if (crate::text::parse_unsigned(crate::types::upnp::lookup(a, "DesiredVideoBlackLevel"@)->0, u16::MAX as nat)) is None {
        Some(Error::ArgumentValueOutOfRange)
    } else {
        None
    }
}

/// The input SetRedVideoBlackLevel hands to the application, read from its IN arguments.
/// The input the request hands to the application.
pub open spec fn set_red_video_black_level_input(args: Seq<(Seq<char>, Seq<char>)>, i: super::traits::SetRedVideoBlackLevelInput) -> bool {
    i.instance_id == (match crate::text::parse_unsigned(crate::services::args::arg_text(args, "InstanceID"@, "0"@), u32::MAX as nat) { Some(n) => n as u32, None => (0) as u32 }) && i.desired_red_video_black_level == ((crate::text::parse_unsigned(crate::types::upnp::lookup(args, "DesiredVideoBlackLevel"@)->0, u16::MAX as nat))->0 as u16)
}

pub fn set_red_video_black_level_request(args: &ActionArgs) -> (r: Result<super::traits::SetRedVideoBlackLevelInput, Error>)
    ensures
        match set_red_video_black_level_refusal(args@) {
            Some(e) => r == Err::<super::traits::SetRedVideoBlackLevelInput, Error>(e),
            None => r matches Ok(i) && set_red_video_black_level_input(args@, i),
        },
{
    let instance_id_text = arg_or(args, "InstanceID", "0");
    let instance_id: u32 = match parse_u32(instance_id_text.as_str()) { Some(x) => x, None => 0 };
    let desired_text = match arg_required(args, "DesiredVideoBlackLevel", Error::ArgumentValueInvalid) { Ok(x) => x, Err(err) => return Err(err) };
    let desired: u16 = match parse_u16(desired_text.as_str()) { Some(x) => x, None => return Err(Error::ArgumentValueOutOfRange) };
    let r = SetRedVideoBlackLevelInput { instance_id, desired_red_video_black_level: desired };
    Ok(r)
}

/// The input GetGreenVideoBlackLevel hands to the application, read from its IN arguments.
/// The input the request hands to the application.
pub open spec fn get_green_video_black_level_input(args: Seq<(Seq<char>, Seq<char>)>, i: super::traits::GetGreenVideoBlackLevelInput) -> bool {
    i.instance_id == (match crate::text::parse_unsigned(crate::services::args::arg_text(args, "InstanceID"@, "0"@), u32::MAX as nat) { Some(n) => n as u32, None => (0) as u32 })
}

pub fn get_green_video_black_level_request(args: &ActionArgs) -> (r: Result<super::traits::GetGreenVideoBlackLevelInput, Error>)
    ensures
        r matches Ok(i) && get_green_video_black_level_input(args@, i),
{
    let instance_id_text = arg_or(args, "InstanceID", "0");
    let instance_id: u32 = match parse_u32(instance_id_text.as_str()) { Some(x) => x, None => 0 };
    let r = GetGreenVideoBlackLevelInput { instance_id };
    Ok(r)
}

/// The error with which SetGreenVideoBlackLevel refuses its IN arguments, if any.
pub open spec fn set_green_video_black_level_refusal(a: Seq<(Seq<char>, Seq<char>)>) -> Option<Error> {
    if crate::types::upnp::lookup(a, "DesiredVideoBlackLevel"@) is None {
        Some(Error::ArgumentValueInvalid)
    } else if (crate::text::parse_unsigned(crate::types::upnp::lookup(a, "DesiredVideoBlackLevel"@)->0, u16::MAX as nat)) is None {
        Some(Error::ArgumentValueOutOfRange)
    } else {
        None
    }
}

/// The input SetGreenVideoBlackLevel hands to the application, read from its IN arguments.
/// The input the request hands to the application.
pub open spec fn set_green_video_black_level_input(args: Seq<(Seq<char>, Seq<char>)>, i: super::traits::SetGreenVideoBlackLevelInput) -> bool {
    i.instance_id == (match crate::text::parse_unsigned(crate::services::args::arg_text(args, "InstanceID"@, "0"@), u32::MAX as nat) { Some(n) => n as u32, None => (0) as u32 }) && i.desired_green_video_black_level == ((crate::text::parse_unsigned(crate::types::upnp::lookup(args, "DesiredVideoBlackLevel"@)->0, u16::MAX as nat))->0 as u16)
}

pub fn set_green_video_black_level_request(args: &ActionArgs) -> (r: Result<super::traits::SetGreenVideoBlackLevelInput, Error>)
    ensures
        match set_green_video_black_level_refusal(args@) {
            Some(e) => r == Err::<super::traits::SetGreenVideoBlackLevelInput, Error>(e),
            None => r matches Ok(i) && set_green_video_black_level_input(args@, i),
        },
{
    let instance_id_text = arg_or(args, "InstanceID", "0");
    let instance_id: u32 = match parse_u32(instance_id_text.as_str()) { Some(x) => x, None => 0 };
    let desired_text = match arg_required(args, "DesiredVideoBlackLevel", Error::ArgumentValueInvalid) { Ok(x) => x, Err(err) => return Err(err) };
    let desired: u16 = match parse_u16(desired_text.as_str()) { Some(x) => x, None => return Err(Error::ArgumentValueOutOfRange) };
    let r = SetGreenVideoBlackLevelInput { instance_id, desired_green_video_black_level: desired };
    Ok(r)
}

/// The input GetBlueVideoBlackLevel hands to the application, read from its IN arguments.
/// The input the request hands to the application.
pub open spec fn get_blue_video_black_level_input(args: Seq<(Seq<char>, Seq<char>)>, i: super::traits::GetBlueVideoBlackLevelInput) -> bool {
    i.instance_id == (match crate::text::parse_unsigned(crate::services::args::arg_text(args, "InstanceID"@, "0"@), u32::MAX as nat) { Some(n) => n as u32, None => (0) as u32 })
}

pub fn get_blue_video_black_level_request(args: &ActionArgs) -> (r: Result<super::traits::GetBlueVideoBlackLevelInput, Error>)
    ensures
        r matches Ok(i) && get_blue_video_black_level_input(args@, i),
{
    let instance_id_text = arg_or(args, "InstanceID", "0");
    let instance_id: u32 = match parse_u32(instance_id_text.as_str()) { Some(x) => x, None => 0 };
    let r = GetBlueVideoBlackLevelInput { instance_id };
    Ok(r)
}

/// The error with which SetBlueVideoBlackLevel refuses its IN arguments, if any.
pub open spec fn set_blue_video_black_level_refusal(a: Seq<(Seq<char>, Seq<char>)>) -> Option<Error> {
    if crate::types::upnp::lookup(a, "DesiredVideoBlackLevel"@) is None {
        Some(Error::ArgumentValueInvalid)
    } else if (crate::text::parse_unsigned(crate::types::upnp::lookup(a, "DesiredVideoBlackLevel"@)->0, u16::MAX as nat)) is None {
        Some(Error::ArgumentValueOutOfRange)
    } else {
        None
    }
}

/// The input SetBlueVideoBlackLevel hands to the application, read from its IN arguments.
/// The input the request hands to the application.
pub open spec fn set_blue_video_black_level_input(args: Seq<(Seq<char>, Seq<char>)>, i: super::traits::SetBlueVideoBlackLevelInput) -> bool {
    i.instance_id == (match crate::text::parse_unsigned(crate::services::args::arg_text(args, "InstanceID"@, "0"@), u32::MAX as nat) { Some(n) => n as u32, None => (0) as u32 }) && i.desired_blue_video_black_level == ((crate::text::parse_unsigned(crate::types::upnp::lookup(args, "DesiredVideoBlackLevel"@)->0, u16::MAX as nat))->0 as u16)
}

pub fn set_blue_video_black_level_request(args: &ActionArgs) -> (r: Result<super::traits::SetBlueVideoBlackLevelInput, Error>)
    ensures
        match set_blue_video_black_level_refusal(args@) {
            Some(e) => r == Err::<super::traits::SetBlueVideoBlackLevelInput, Error>(e),
            None => r matches Ok(i) && set_blue_video_black_level_input(args@, i),
        },
{
    let instance_id_text = arg_or(args, "InstanceID", "0");
    let instance_id: u32 = match parse_u32(instance_id_text.as_str()) { Some(x) => x, None => 0 };
    let desired_text = match arg_required(args, "DesiredVideoBlackLevel", Error::ArgumentValueInvalid) { Ok(x) => x, Err(err) => return Err(err) };
    let desired: u16 = match parse_u16(desired_text.as_str()) { Some(x) => x, None => return Err(Error::ArgumentValueOutOfRange) };
    let r = SetBlueVideoBlackLevelInput { instance_id, desired_blue_video_black_level: desired };
    Ok(r)
}

/// The input GetColorTemperature hands to the application, read from its IN arguments.
/// The input the request hands to the application.
pub open spec fn get_color_temperature_input(args: Seq<(Seq<char>, Seq<char>)>, i: super::traits::GetColorTemperatureInput) -> bool {
    i.instance_id == (match crate::text::parse_unsigned(crate::services::args::arg_text(args, "InstanceID"@, "0"@), u32::MAX as nat) { Some(n) => n as u32, None => (0) as u32 })
}

pub fn get_color_temperature_request(args: &ActionArgs) -> (r: Result<super::traits::GetColorTemperatureInput, Error>)
    ensures
        r matches Ok(i) && get_color_temperature_input(args@, i),
{
    let instance_id_text = arg_or(args, "InstanceID", "0");
    let instance_id: u32 = match parse_u32(instance_id_text.as_str()) { Some(x) => x, None => 0 };
    let r = GetColorTemperatureInput { instance_id };
    Ok(r)
}

/// The error with which SetColorTemperature refuses its IN arguments, if any.
pub open spec fn set_color_temperature_refusal(a: Seq<(Seq<char>, Seq<char>)>) -> Option<Error> {
    if crate::types::upnp::lookup(a, "DesiredColorTemperature"@) is None {
        Some(Error::ArgumentValueInvalid)
    } else if (crate::text::parse_unsigned(crate::types::upnp::lookup(a, "DesiredColorTemperature"@)->0, u16::MAX as nat)) is None {
        Some(Error::ArgumentValueOutOfRange)
    } else {
        None
    }
}

/// The input SetColorTemperature hands to the application, read from its IN arguments.
/// The input the request hands to the application.
pub open spec fn set_color_temperature_input(args: Seq<(Seq<char>, Seq<char>)>, i: super::traits::SetColorTemperatureInput) -> bool {
    i.instance_id == (match crate::text::parse_unsigned(crate::services::args::arg_text(args, "InstanceID"@, "0"@), u32::MAX as nat) { Some(n) => n as u32, None => (0) as u32 }) && i.desired_color_temperature == ((crate::text::parse_unsigned(crate::types::upnp::lookup(args, "DesiredColorTemperature"@)->0, u16::MAX as nat))->0 as u16)
}

pub fn set_color_temperature_request(args: &ActionArgs) -> (r: Result<super::traits::SetColorTemperatureInput, Error>)
    ensures
        match set_color_temperature_refusal(args@) {
            Some(e) => r == Err::<super::traits::SetColorTemperatureInput, Error>(e),
            None => r matches Ok(i) && set_color_temperature_input(args@, i),
        },
{
    let instance_id_text = arg_or(args, "InstanceID", "0");
    let instance_id: u32 = match parse_u32(instance_id_text.as_str()) { Some(x) => x, None => 0 };
    let desired_text = match arg_required(args, "DesiredColorTemperature", Error::ArgumentValueInvalid) { Ok(x) => x, Err(err) => return Err(err) };
    let desired: u16 = match parse_u16(desired_text.as_str()) { Some(x) => x, None => return Err(Error::ArgumentValueOutOfRange) };
    let r = SetColorTemperatureInput { instance_id, desired_color_temperature: desired };
    Ok(r)
}

/// The input GetHorizontalKeystone hands to the application, read from its IN arguments.
/// The input the request hands to the application.
pub open spec fn get_horizontal_keystone_input(args: Seq<(Seq<char>, Seq<char>)>, i: super::traits::GetHorizontalKeystoneInput) -> bool {
    i.instance_id == (match crate::text::parse_unsigned(crate::services::args::arg_text(args, "InstanceID"@, "0"@), u32::MAX as nat) { Some(n) => n as u32, None => (0) as u32 })
}

pub fn get_horizontal_keystone_request(args: &ActionArgs) -> (r: Result<super::traits::GetHorizontalKeystoneInput, Error>)
    ensures
        r matches Ok(i) && get_horizontal_keystone_input(args@, i),
{
    let instance_id_text = arg_or(args, "InstanceID", "0");
    let instance_id: u32 = match parse_u32(instance_id_text.as_str()) { Some(x) => x, None => 0 };
    let r = GetHorizontalKeystoneInput { instance_id };
    Ok(r)
}

/// The error with which SetHorizontalKeystone refuses its IN arguments, if any.
pub open spec fn set_horizontal_keystone_refusal(a: Seq<(Seq<char>, Seq<char>)>) -> Option<Error> {
    if crate::types::upnp::lookup(a, "DesiredHorizontalKeystone"@) is None {
        Some(Error::ArgumentValueInvalid)
    } else if (crate::text::parse_signed(crate::types::upnp::lookup(a, "DesiredHorizontalKeystone"@)->0, i16::MAX as nat, 32768)) is None {
        Some(Error::ArgumentValueOutOfRange)
    } else {
        None
    }
}

/// The input SetHorizontalKeystone hands to the application, read from its IN arguments.
/// The input the request hands to the application.
pub open spec fn set_horizontal_keystone_input(args: Seq<(Seq<char>, Seq<char>)>, i: super::traits::SetHorizontalKeystoneInput) -> bool {
    i.instance_id == (match crate::text::parse_unsigned(crate::services::args::arg_text(args, "InstanceID"@, "0"@), u32::MAX as nat) { Some(n) => n as u32, None => (0) as u32 }) && i.desired_horizontal_keystone == ((crate::text::parse_signed(crate::types::upnp::lookup(args, "DesiredHorizontalKeystone"@)->0, i16::MAX as nat, 32768))->0 as i16)
}

pub fn set_horizontal_keystone_request(args: &ActionArgs) -> (r: Result<super::traits::SetHorizontalKeystoneInput, Error>)
    ensures
        match set_horizontal_keystone_refusal(args@) {
            Some(e) => r == Err::<super::traits::SetHorizontalKeystoneInput, Error>(e),
            None => r matches Ok(i) && set_horizontal_keystone_input(args@, i),
        },
{
    let instance_id_text = arg_or(args, "InstanceID", "0");
    let instance_id: u32 = match parse_u32(instance_id_text.as_str()) { Some(x) => x, None => 0 };
    let desired_text = match arg_required(args, "DesiredHorizontalKeystone", Error::ArgumentValueInvalid) { Ok(x) => x, Err(err) => return Err(err) };
    let desired: i16 = match parse_i16(desired_text.as_str()) { Some(x) => x, None => return Err(Error::ArgumentValueOutOfRange) };
    let r = SetHorizontalKeystoneInput { instance_id, desired_horizontal_keystone: desired };
    Ok(r)
}

/// The input GetVerticalKeystone hands to the application, read from its IN arguments.
/// The input the request hands to the application.
pub open spec fn get_vertical_keystone_input(args: Seq<(Seq<char>, Seq<char>)>, i: super::traits::GetVerticalKeystoneInput) -> bool {
    i.instance_id == (match crate::text::parse_unsigned(crate::services::args::arg_text(args, "InstanceID"@, "0"@), u32::MAX as nat) { Some(n) => n as u32, None => (0) as u32 })
}

pub fn get_vertical_keystone_request(args: &ActionArgs) -> (r: Result<super::traits::GetVerticalKeystoneInput, Error>)
    ensures
        r matches Ok(i) && get_vertical_keystone_input(args@, i),
{
    let instance_id_text = arg_or(args, "InstanceID", "0");
    let instance_id: u32 = match parse_u32(instance_id_text.as_str()) { Some(x) => x, None => 0 };
    let r = GetVerticalKeystoneInput { instance_id };
    Ok(r)
}

/// The error with which SetVerticalKeystone refuses its IN arguments, if any.
pub open spec fn set_vertical_keystone_refusal(a: Seq<(Seq<char>, Seq<char>)>) -> Option<Error> {
    if crate::types::upnp::lookup(a, "DesiredVerticalKeystone"@) is None {
        Some(Error::ArgumentValueInvalid)
    } else if (crate::text::parse_signed(crate::types::upnp::lookup(a, "DesiredVerticalKeystone"@)->0, i16::MAX as nat, 32768)) is None {
        Some(Error::ArgumentValueOutOfRange)
    } else {
        None
    }
}

/// The input SetVerticalKeystone hands to the application, read from its IN arguments.
/// The input the request hands to the application.
pub open spec fn set_vertical_keystone_input(args: Seq<(Seq<char>, Seq<char>)>, i: super::traits::SetVerticalKeystoneInput) -> bool {
    i.instance_id == (match crate::text::parse_unsigned(crate::services::args::arg_text(args, "InstanceID"@, "0"@), u32::MAX as nat) { Some(n) => n as u32, None => (0) as u32 }) && i.desired_vertical_keystone == ((crate::text::parse_signed(crate::types::upnp::lookup(args, "DesiredVerticalKeystone"@)->0, i16::MAX as nat, 32768))->0 as i16)
}

pub fn set_vertical_keystone_request(args: &ActionArgs) -> (r: Result<super::traits::SetVerticalKeystoneInput, Error>)
    ensures
        match set_vertical_keystone_refusal(args@) {
            Some(e) => r == Err::<super::traits::SetVerticalKeystoneInput, Error>(e),
            None => r matches Ok(i) && set_vertical_keystone_input(args@, i),
        },
{
    let instance_id_text = arg_or(args, "InstanceID", "0");
    let instance_id: u32 = match parse_u32(instance_id_text.as_str()) { Some(x) => x, None => 0 };
    let desired_text = match arg_required(args, "DesiredVerticalKeystone", Error::ArgumentValueInvalid) { Ok(x) => x, Err(err) => return Err(err) };
    let desired: i16 = match parse_i16(desired_text.as_str()) { Some(x) => x, None => return Err(Error::ArgumentValueOutOfRange) };
    let r = SetVerticalKeystoneInput { instance_id, desired_vertical_keystone: desired };
    Ok(r)
}

/// The input GetMute hands to the application, read from its IN arguments.
/// The input the request hands to the application.
pub open spec fn get_mute_input(args: Seq<(Seq<char>, Seq<char>)>, i: super::traits::GetMuteInput) -> bool {
    i.instance_id == (match crate::text::parse_unsigned(crate::services::args::arg_text(args, "InstanceID"@, "0"@), u32::MAX as nat) { Some(n) => n as u32, None => (0) as u32 }) && i.channel == (match super::statics::channel_from_str(crate::services::args::arg_text(args, "Channel"@, "Master"@)) { Some(x) => x, None => Channel::Master })
}

pub fn get_mute_request(args: &ActionArgs) -> (r: Result<super::traits::GetMuteInput, Error>)
    ensures
        r matches Ok(i) && get_mute_input(args@, i),
{
    let instance_id_text = arg_or(args, "InstanceID", "0");
    let instance_id: u32 = match parse_u32(instance_id_text.as_str()) { Some(x) => x, None => 0 };
    let channel_str = arg_or(args, "Channel", "Master");
    let channel = match Channel::from_str(channel_str.as_str()) { Some(x) => x, None => Channel::Master };
    let r = GetMuteInput { instance_id, channel };
    Ok(r)
}

/// The error with which SetMute refuses its IN arguments, if any.
pub open spec fn set_mute_refusal(a: Seq<(Seq<char>, Seq<char>)>) -> Option<Error> {
    if crate::services::args::soap_bool(crate::types::upnp::lookup(a, "DesiredMute"@)) is None {
        Some(Error::ArgumentValueInvalid)
    } else {
        None
    }
}

/// The input SetMute hands to the application, read from its IN arguments.
/// The input the request hands to the application.
pub open spec fn set_mute_input(args: Seq<(Seq<char>, Seq<char>)>, i: super::traits::SetMuteInput) -> bool {
    i.instance_id == (match crate::text::parse_unsigned(crate::services::args::arg_text(args, "InstanceID"@, "0"@), u32::MAX as nat) { Some(n) => n as u32, None => (0) as u32 }) && i.channel == (match super::statics::channel_from_str(crate::services::args::arg_text(args, "Channel"@, "Master"@)) { Some(x) => x, None => Channel::Master }) && i.desired_mute == crate::services::args::soap_bool(crate::types::upnp::lookup(args, "DesiredMute"@))->0
}

pub fn set_mute_request(args: &ActionArgs) -> (r: Result<super::traits::SetMuteInput, Error>)
    ensures
        match set_mute_refusal(args@) {
            Some(e) => r == Err::<super::traits::SetMuteInput, Error>(e),
            None => r matches Ok(i) && set_mute_input(args@, i),
        },
{
    let instance_id_text = arg_or(args, "InstanceID", "0");
    let instance_id: u32 = match parse_u32(instance_id_text.as_str()) { Some(x) => x, None => 0 };
    let channel_str = arg_or(args, "Channel", "Master");
    let channel = match Channel::from_str(channel_str.as_str()) { Some(x) => x, None => Channel::Master };
    let desired = match arg_bool(args, "DesiredMute") { Some(b) => b, None => return Err(Error::ArgumentValueInvalid) };
    let r = SetMuteInput { instance_id, channel, desired_mute: desired };
    Ok(r)
}

/// The input GetVolume hands to the application, read from its IN arguments.
/// The input the request hands to the application.
pub open spec fn get_volume_input(args: Seq<(Seq<char>, Seq<char>)>, i: super::traits::GetVolumeInput) -> bool {
    i.instance_id == (match crate::text::parse_unsigned(crate::services::args::arg_text(args, "InstanceID"@, "0"@), u32::MAX as nat) { Some(n) => n as u32, None => (0) as u32 }) && i.channel == (match super::statics::channel_from_str(crate::services::args::arg_text(args, "Channel"@, "Master"@)) { Some(x) => x, None => Channel::Master })
}

pub fn get_volume_request(args: &ActionArgs) -> (r: Result<super::traits::GetVolumeInput, Error>)
    ensures
        r matches Ok(i) && get_volume_input(args@, i),
{
    let instance_id_text = arg_or(args, "InstanceID", "0");
    let instance_id: u32 = match parse_u32(instance_id_text.as_str()) { Some(x) => x, None => 0 };
    let channel_str = arg_or(args, "Channel", "Master");
    let channel = match Channel::from_str(channel_str.as_str()) { Some(x) => x, None => Channel::Master };
    let r = GetVolumeInput { instance_id, channel };
    Ok(r)
}

/// The error with which SetVolume refuses its IN arguments, if any.
pub open spec fn set_volume_refusal(a: Seq<(Seq<char>, Seq<char>)>) -> Option<Error> {
    if crate::types::upnp::lookup(a, "DesiredVolume"@) is None {
        Some(Error::ArgumentValueInvalid)
    } else if (crate::text::parse_unsigned(crate::types::upnp::lookup(a, "DesiredVolume"@)->0, u16::MAX as nat)) is None {
        Some(Error::ArgumentValueOutOfRange)
    } else {
        None
    }
}

/// The input SetVolume hands to the application, read from its IN arguments.
/// The input the request hands to the application.
pub open spec fn set_volume_input(args: Seq<(Seq<char>, Seq<char>)>, i: super::traits::SetVolumeInput) -> bool {
    i.instance_id == (match crate::text::parse_unsigned(crate::services::args::arg_text(args, "InstanceID"@, "0"@), u32::MAX as nat) { Some(n) => n as u32, None => (0) as u32 }) && i.channel == (match super::statics::channel_from_str(crate::services::args::arg_text(args, "Channel"@, "Master"@)) { Some(x) => x, None => Channel::Master }) && i.desired_volume == ((crate::text::parse_unsigned(crate::types::upnp::lookup(args, "DesiredVolume"@)->0, u16::MAX as nat))->0 as u16)
}

pub fn set_volume_request(args: &ActionArgs) -> (r: Result<super::traits::SetVolumeInput, Error>)
    ensures
        match set_volume_refusal(args@) {
            Some(e) => r == Err::<super::traits::SetVolumeInput, Error>(e),
            None => r matches Ok(i) && set_volume_input(args@, i),
        },
{
    let instance_id_text = arg_or(args, "InstanceID", "0");
    let instance_id: u32 = match parse_u32(instance_id_text.as_str()) { Some(x) => x, None => 0 };
    let channel_str = arg_or(args, "Channel", "Master");
    let channel = match Channel::from_str(channel_str.as_str()) { Some(x) => x, None => Channel::Master };
    let desired_text = match arg_required(args, "DesiredVolume", Error::ArgumentValueInvalid) { Ok(x) => x, Err(err) => return Err(err) };
    let desired: u16 = match parse_u16(desired_text.as_str()) { Some(x) => x, None => return Err(Error::ArgumentValueOutOfRange) };
    let r = SetVolumeInput { instance_id, channel, desired_volume: desired };
    Ok(r)
}

/// The input GetVolumeDB hands to the application, read from its IN arguments.
/// The input the request hands to the application.
pub open spec fn get_volume_db_input(args: Seq<(Seq<char>, Seq<char>)>, i: super::traits::GetVolumeDBInput) -> bool {
    i.instance_id == (match crate::text::parse_unsigned(crate::services::args::arg_text(args, "InstanceID"@, "0"@), u32::MAX as nat) { Some(n) => n as u32, None => (0) as u32 }) && i.channel == (match super::statics::channel_from_str(crate::services::args::arg_text(args, "Channel"@, "Master"@)) { Some(x) => x, None => Channel::Master })
}

pub fn get_volume_db_request(args: &ActionArgs) -> (r: Result<super::traits::GetVolumeDBInput, Error>)
    ensures
        r matches Ok(i) && get_volume_db_input(args@, i),
{
    let instance_id_text = arg_or(args, "InstanceID", "0");
    let instance_id: u32 = match parse_u32(instance_id_text.as_str()) { Some(x) => x, None => 0 };
    let channel_str = arg_or(args, "Channel", "Master");
    let channel = match Channel::from_str(channel_str.as_str()) { Some(x) => x, None => Channel::Master };
    let r = GetVolumeDBInput { instance_id, channel };
    Ok(r)
}

/// The error with which SetVolumeDB refuses its IN arguments, if any.
pub open spec fn set_volume_db_refusal(a: Seq<(Seq<char>, Seq<char>)>) -> Option<Error> {
    if crate::types::upnp::lookup(a, "DesiredVolumeDB"@) is None {
        Some(Error::ArgumentValueInvalid)
    } else if (crate::text::parse_signed(crate::types::upnp::lookup(a, "DesiredVolumeDB"@)->0, i16::MAX as nat, 32768)) is None {
        Some(Error::ArgumentValueOutOfRange)
    } else {
        None
    }
}

/// The input SetVolumeDB hands to the application, read from its IN arguments.
/// The input the request hands to the application.
pub open spec fn set_volume_db_input(args: Seq<(Seq<char>, Seq<char>)>, i: super::traits::SetVolumeDBInput) -> bool {
    i.instance_id == (match crate::text::parse_unsigned(crate::services::args::arg_text(args, "InstanceID"@, "0"@), u32::MAX as nat) { Some(n) => n as u32, None => (0) as u32 }) && i.channel == (match super::statics::channel_from_str(crate::services::args::arg_text(args, "Channel"@, "Master"@)) { Some(x) => x, None => Channel::Master }) && i.desired_volume_db == ((crate::text::parse_signed(crate::types::upnp::lookup(args, "DesiredVolumeDB"@)->0, i16::MAX as nat, 32768))->0 as i16)
}

pub fn set_volume_db_request(args: &ActionArgs) -> (r: Result<super::traits::SetVolumeDBInput, Error>)
    ensures
        match set_volume_db_refusal(args@) {
            Some(e) => r == Err::<super::traits::SetVolumeDBInput, Error>(e),
            None => r matches Ok(i) && set_volume_db_input(args@, i),
        },
{
    let instance_id_text = arg_or(args, "InstanceID", "0");
    let instance_id: u32 = match parse_u32(instance_id_text.as_str()) { Some(x) => x, None => 0 };
    let channel_str = arg_or(args, "Channel", "Master");
    let channel = match Channel::from_str(channel_str.as_str()) { Some(x) => x, None => Channel::Master };
    let desired_text = match arg_required(args, "DesiredVolumeDB", Error::ArgumentValueInvalid) { Ok(x) => x, Err(err) => return Err(err) };
    let desired: i16 = match parse_i16(desired_text.as_str()) { Some(x) => x, None => return Err(Error::ArgumentValueOutOfRange) };
    let r = SetVolumeDBInput { instance_id, channel, desired_volume_db: desired };
    Ok(r)
}

/// The input GetVolumeDBRange hands to the application, read from its IN arguments.
/// The input the request hands to the application.
pub open spec fn get_volume_db_range_input(args: Seq<(Seq<char>, Seq<char>)>, i: super::traits::GetVolumeDBRangeInput) -> bool {
    i.instance_id == (match crate::text::parse_unsigned(crate::services::args::arg_text(args, "InstanceID"@, "0"@), u32::MAX as nat) { Some(n) => n as u32, None => (0) as u32 }) && i.channel == (match super::statics::channel_from_str(crate::services::args::arg_text(args, "Channel"@, "Master"@)) { Some(x) => x, None => Channel::Master })
}

pub fn get_volume_db_range_request(args: &ActionArgs) -> (r: Result<super::traits::GetVolumeDBRangeInput, Error>)
    ensures
        r matches Ok(i) && get_volume_db_range_input(args@, i),
{
    let instance_id_text = arg_or(args, "InstanceID", "0");
    let instance_id: u32 = match parse_u32(instance_id_text.as_str()) { Some(x) => x, None => 0 };
    let channel_str = arg_or(args, "Channel", "Master");
    let channel = match Channel::from_str(channel_str.as_str()) { Some(x) => x, None => Channel::Master };
    let r = GetVolumeDBRangeInput { instance_id, channel };
    Ok(r)
}

/// The input GetLoudness hands to the application, read from its IN arguments.
/// The input the request hands to the application.
pub open spec fn get_loudness_input(args: Seq<(Seq<char>, Seq<char>)>, i: super::traits::GetLoudnessInput) -> bool {
    i.instance_id == (match crate::text::parse_unsigned(crate::services::args::arg_text(args, "InstanceID"@, "0"@), u32::MAX as nat) { Some(n) => n as u32, None => (0) as u32 }) && i.channel == (match super::statics::channel_from_str(crate::services::args::arg_text(args, "Channel"@, "Master"@)) { Some(x) => x, None => Channel::Master })
}

pub fn get_loudness_request(args: &ActionArgs) -> (r: Result<super::traits::GetLoudnessInput, Error>)
    ensures
        r matches Ok(i) && get_loudness_input(args@, i),
{
    let instance_id_text = arg_or(args, "InstanceID", "0");
    let instance_id: u32 = match parse_u32(instance_id_text.as_str()) { Some(x) => x, None => 0 };
    let channel_str = arg_or(args, "Channel", "Master");
    let channel = match Channel::from_str(channel_str.as_str()) { Some(x) => x, None => Channel::Master };
    let r = GetLoudnessInput { instance_id, channel };
    Ok(r)
}

/// The error with which SetLoudness refuses its IN arguments, if any.
pub open spec fn set_loudness_refusal(a: Seq<(Seq<char>, Seq<char>)>) -> Option<Error> {
    if crate::services::args::soap_bool(crate::types::upnp::lookup(a, "DesiredLoudness"@)) is None {
        Some(Error::ArgumentValueInvalid)
    } else {
        None
    }
}

/// The input SetLoudness hands to the application, read from its IN arguments.
/// The input the request hands to the application.
pub open spec fn set_loudness_input(args: Seq<(Seq<char>, Seq<char>)>, i: super::traits::SetLoudnessInput) -> bool {
    i.instance_id == (match crate::text::parse_unsigned(crate::services::args::arg_text(args, "InstanceID"@, "0"@), u32::MAX as nat) { Some(n) => n as u32, None => (0) as u32 }) && i.channel == (match super::statics::channel_from_str(crate::services::args::arg_text(args, "Channel"@, "Master"@)) { Some(x) => x, None => Channel::Master }) && i.desired_loudness == crate::services::args::soap_bool(crate::types::upnp::lookup(args, "DesiredLoudness"@))->0
}

pub fn set_loudness_request(args: &ActionArgs) -> (r: Result<super::traits::SetLoudnessInput, Error>)
    ensures
        match set_loudness_refusal(args@) {
            Some(e) => r == Err::<super::traits::SetLoudnessInput, Error>(e),
            None => r matches Ok(i) && set_loudness_input(args@, i),
        },
{
    let instance_id_text = arg_or(args, "InstanceID", "0");
    let instance_id: u32 = match parse_u32(instance_id_text.as_str()) { Some(x) => x, None => 0 };
    let channel_str = arg_or(args, "Channel", "Master");
    let channel = match Channel::from_str(channel_str.as_str()) { Some(x) => x, None => Channel::Master };
    let desired = match arg_bool(args, "DesiredLoudness") { Some(b) => b, None => return Err(Error::ArgumentValueInvalid) };
    let r = SetLoudnessInput { instance_id, channel, desired_loudness: desired };
    Ok(r)
}

/// The input GetAllowedTransforms hands to the application, read from its IN arguments.
/// The input the request hands to the application.
pub open spec fn get_allowed_transforms_input(args: Seq<(Seq<char>, Seq<char>)>, i: super::traits::GetAllowedTransformsInput) -> bool {
    i.instance_id == (match crate::text::parse_unsigned(crate::services::args::arg_text(args, "InstanceID"@, "0"@), u32::MAX as nat) { Some(n) => n as u32, None => (0) as u32 })
}

pub fn get_allowed_transforms_request(args: &ActionArgs) -> (r: Result<super::traits::GetAllowedTransformsInput, Error>)
    ensures
        r matches Ok(i) && get_allowed_transforms_input(args@, i),
{
    let instance_id_text = arg_or(args, "InstanceID", "0");
    let instance_id: u32 = match parse_u32(instance_id_text.as_str()) { Some(x) => x, None => 0 };
    let r = GetAllowedTransformsInput { instance_id };
    Ok(r)
}

/// The input GetTransforms hands to the application, read from its IN arguments.
/// The input the request hands to the application.
pub open spec fn get_transforms_input(args: Seq<(Seq<char>, Seq<char>)>, i: super::traits::GetTransformsInput) -> bool {
    i.instance_id == (match crate::text::parse_unsigned(crate::services::args::arg_text(args, "InstanceID"@, "0"@), u32::MAX as nat) { Some(n) => n as u32, None => (0) as u32 })
}

pub fn get_transforms_request(args: &ActionArgs) -> (r: Result<super::traits::GetTransformsInput, Error>)
    ensures
        r matches Ok(i) && get_transforms_input(args@, i),
{
    let instance_id_text = arg_or(args, "InstanceID", "0");
    let instance_id: u32 = match parse_u32(instance_id_text.as_str()) { Some(x) => x, None => 0 };
    let r = GetTransformsInput { instance_id };
    Ok(r)
}

/// The error with which SetTransforms refuses its IN arguments, if any.
pub open spec fn set_transforms_refusal(a: Seq<(Seq<char>, Seq<char>)>) -> Option<Error> {
    if crate::types::upnp::lookup(a, "DesiredTransforms"@) is None {
        Some(Error::ArgumentValueInvalid)
    } else {
        None
    }
}

/// The input SetTransforms hands to the application, read from its IN arguments.
/// The input the request hands to the application.
pub open spec fn set_transforms_input(args: Seq<(Seq<char>, Seq<char>)>, i: super::traits::SetTransformsInput) -> bool {
    i.instance_id == (match crate::text::parse_unsigned(crate::services::args::arg_text(args, "InstanceID"@, "0"@), u32::MAX as nat) { Some(n) => n as u32, None => (0) as u32 }) && i.desired_transforms@ == crate::types::upnp::lookup(args, "DesiredTransforms"@)->0
}

pub fn set_transforms_request(args: &ActionArgs) -> (r: Result<super::traits::SetTransformsInput, Error>)
    ensures
        match set_transforms_refusal(args@) {
            Some(e) => r == Err::<super::traits::SetTransformsInput, Error>(e),
            None => r matches Ok(i) && set_transforms_input(args@, i),
        },
{
    let instance_id_text = arg_or(args, "InstanceID", "0");
    let instance_id: u32 = match parse_u32(instance_id_text.as_str()) { Some(x) => x, None => 0 };
    let desired_transforms = match arg_required(args, "DesiredTransforms", Error::ArgumentValueInvalid) { Ok(x) => x, Err(err) => return Err(err) };
    let r = SetTransformsInput { instance_id, desired_transforms };
    Ok(r)
}

/// The input GetAllAvailableTransforms hands to the application, read from its IN arguments.
/// The input the request hands to the application.
pub open spec fn get_all_available_transforms_input(args: Seq<(Seq<char>, Seq<char>)>, i: super::traits::GetAllAvailableTransformsInput) -> bool {
    i.instance_id == (match crate::text::parse_unsigned(crate::services::args::arg_text(args, "InstanceID"@, "0"@), u32::MAX as nat) { Some(n) => n as u32, None => (0) as u32 })
}

pub fn get_all_available_transforms_request(args: &ActionArgs) -> (r: Result<super::traits::GetAllAvailableTransformsInput, Error>)
    ensures
        r matches Ok(i) && get_all_available_transforms_input(args@, i),
{
    let instance_id_text = arg_or(args, "InstanceID", "0");
    let instance_id: u32 = match parse_u32(instance_id_text.as_str()) { Some(x) => x, None => 0 };
    let r = GetAllAvailableTransformsInput { instance_id };
    Ok(r)
}

/// The input GetAllowedDefaultTransforms hands to the application, read from its IN arguments.
/// The input the request hands to the application.
pub open spec fn get_allowed_default_transforms_input(args: Seq<(Seq<char>, Seq<char>)>, i: super::traits::GetAllowedDefaultTransformsInput) -> bool {
    i.instance_id == (match crate::text::parse_unsigned(crate::services::args::arg_text(args, "InstanceID"@, "0"@), u32::MAX as nat) { Some(n) => n as u32, None => (0) as u32 })
}

pub fn get_allowed_default_transforms_request(args: &ActionArgs) -> (r: Result<super::traits::GetAllowedDefaultTransformsInput, Error>)
    ensures
        r matches Ok(i) && get_allowed_default_transforms_input(args@, i),
{
    let instance_id_text = arg_or(args, "InstanceID", "0");
    let instance_id: u32 = match parse_u32(instance_id_text.as_str()) { Some(x) => x, None => 0 };
    let r = GetAllowedDefaultTransformsInput { instance_id };
    Ok(r)
}

/// The input GetDefaultTransforms hands to the application, read from its IN arguments.
/// The input the request hands to the application.
pub open spec fn get_default_transforms_input(args: Seq<(Seq<char>, Seq<char>)>, i: super::traits::GetDefaultTransformsInput) -> bool {
    i.instance_id == (match crate::text::parse_unsigned(crate::services::args::arg_text(args, "InstanceID"@, "0"@), u32::MAX as nat) { Some(n) => n as u32, None => (0) as u32 })
}

pub fn get_default_transforms_request(args: &ActionArgs) -> (r: Result<super::traits::GetDefaultTransformsInput, Error>)
    ensures
        r matches Ok(i) && get_default_transforms_input(args@, i),
{
    let instance_id_text = arg_or(args, "InstanceID", "0");
    let instance_id: u32 = match parse_u32(instance_id_text.as_str()) { Some(x) => x, None => 0 };
    let r = GetDefaultTransformsInput { instance_id };
    Ok(r)
}

/// The error with which SetDefaultTransforms refuses its IN arguments, if any.
pub open spec fn set_default_transforms_refusal(a: Seq<(Seq<char>, Seq<char>)>) -> Option<Error> {
    if crate::types::upnp::lookup(a, "DesiredDefaultTransforms"@) is None {
        Some(Error::ArgumentValueInvalid)
    } else {
        None
    }
}

/// The input SetDefaultTransforms hands to the application, read from its IN arguments.
/// The input the request hands to the application.
pub open spec fn set_default_transforms_input(args: Seq<(Seq<char>, Seq<char>)>, i: super::traits::SetDefaultTransformsInput) -> bool {
    i.instance_id == (match crate::text::parse_unsigned(crate::services::args::arg_text(args, "InstanceID"@, "0"@), u32::MAX as nat) { Some(n) => n as u32, None => (0) as u32 }) && i.desired_transforms@ == crate::types::upnp::lookup(args, "DesiredDefaultTransforms"@)->0
}

pub fn set_default_transforms_request(args: &ActionArgs) -> (r: Result<super::traits::SetDefaultTransformsInput, Error>)
    ensures
        match set_default_transforms_refusal(args@) {
            Some(e) => r == Err::<super::traits::SetDefaultTransformsInput, Error>(e),
            None => r matches Ok(i) && set_default_transforms_input(args@, i),
        },
{
    let instance_id_text = arg_or(args, "InstanceID", "0");
    let instance_id: u32 = match parse_u32(instance_id_text.as_str()) { Some(x) => x, None => 0 };
    let desired_transforms = match arg_required(args, "DesiredDefaultTransforms", Error::ArgumentValueInvalid) { Ok(x) => x, Err(err) => return Err(err) };
    let r = SetDefaultTransformsInput { instance_id, desired_transforms };
    Ok(r)
}

/// The variables GetStateVariables asks for: `*` itself for `*`, else the
/// non-empty names of the comma-separated list.
pub open spec fn requested_vars(list: Seq<char>) -> Seq<Seq<char>> {
    if list == "*"@ {
        seq!["*"@]
    } else {
        crate::services::args::non_empty_items(crate::services::args::csv_items(list))
    }
}

/// The input GetStateVariables hands to the application, read from its IN arguments.
pub fn get_state_variables_request(args: &ActionArgs) -> (r: super::traits::GetStateVariablesInput)
    ensures
        r.instance_id == (match crate::text::parse_unsigned(crate::services::args::arg_text(args@, "InstanceID"@, "0"@), u32::MAX as nat) { Some(n) => n as u32, None => 0u32 }),
        r.var_list@.map_values(|x: String| x@) == requested_vars(
            crate::services::args::arg_text(args@, "StateVariableList"@, "*"@),
        ),
{
    let instance_id_text = arg_or(args, "InstanceID", "0");
    let instance_id: u32 = match parse_u32(instance_id_text.as_str()) { Some(x) => x, None => 0 };
    let state_var_list_csv = arg_or(args, "StateVariableList", "*");
    let var_list: Vec<String> = if str_eq(state_var_list_csv.as_str(), "*") {
        let mut v: Vec<String> = Vec::new();
        v.push(to_owned_string("*"));
        assert(v@.map_values(|x: String| x@) =~= seq!["*"@]);
        v
    } else {
        drop_empty(split_csv(state_var_list_csv.as_str()))
    };
    GetStateVariablesInput { instance_id, var_list }
}

/// The error with which SetStateVariables refuses its IN arguments, if any.
pub open spec fn set_state_variables_refusal(a: Seq<(Seq<char>, Seq<char>)>) -> Option<Error> {
    if crate::types::upnp::lookup(a, "StateVariableValuePairs"@) is None {
        Some(Error::ArgumentValueInvalid)
    } else {
        None
    }
}

/// The input SetStateVariables hands to the application: the (name, value)
/// pairs read from the value-pairs document.
/// The input the request hands to the application.
pub open spec fn set_state_variables_input(args: Seq<(Seq<char>, Seq<char>)>, i: super::traits::SetStateVariablesInput) -> bool {
    i.instance_id == (match crate::text::parse_unsigned(crate::services::args::arg_text(args, "InstanceID"@, "0"@), u32::MAX as nat) { Some(n) => n as u32, None => 0u32 })
                && crate::types::upnp::pairs_view(i.pairs@) == pairs_scan(
                crate::xml::xml_read_events(crate::types::upnp::lookup(args, "StateVariableValuePairs"@)->0),
                0,
                PairScan { in_var: false, name: None, value: None },
            )
}

pub fn set_state_variables_request(args: &ActionArgs) -> (r: Result<super::traits::SetStateVariablesInput, Error>)
    ensures
        match set_state_variables_refusal(args@) {
            Some(e) => r == Err::<super::traits::SetStateVariablesInput, Error>(e),
            None => r matches Ok(i) && set_state_variables_input(args@, i),
        },
{
    let instance_id_text = arg_or(args, "InstanceID", "0");
    let instance_id: u32 = match parse_u32(instance_id_text.as_str()) { Some(x) => x, None => 0 };
    let state_var_xml = match arg_required(args, "StateVariableValuePairs", Error::ArgumentValueInvalid) { Ok(x) => x, Err(err) => return Err(err) };
    let pairs = parse_state_variable_pairs(state_var_xml.as_str());
    Ok(SetStateVariablesInput { instance_id, pairs })
}

} // verus!
