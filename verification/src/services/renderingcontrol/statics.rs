//! RenderingControl domain enums, action and argument names, error codes and
//! state variable names.
use vstd::prelude::*;

use crate::text::{chars_eq_str, chars_of, nat_to_decimal, push_decimal, push_str, to_owned_string};
use crate::types::upnp::ServiceVersion;

verus! {

broadcast use vstd::string::group_string_axioms;

/// RenderingControl service version
pub const V3: ServiceVersion = ServiceVersion::V3;

/// Audio channel per UPnP-av-RenderingControl-v3 spec §3.1.
#[derive(Debug, Clone, Copy, PartialEq, Eq, Structural, Hash)]
pub enum Channel {
    Master,
    LF,
    RF,
    CF,
    LFE,
    LS,
    RS,
    LFC,
    RFC,
    SD,
    SL,
    SR,
    T,
    B,
    BC,
    BL,
    BR,
}

/// The wire name of each `Channel` value.
pub open spec fn channel_str(x: Channel) -> Seq<char> {
    match x {
        Channel::Master => "Master"@,
        Channel::LF => "LF"@,
        Channel::RF => "RF"@,
        Channel::CF => "CF"@,
        Channel::LFE => "LFE"@,
        Channel::LS => "LS"@,
        Channel::RS => "RS"@,
        Channel::LFC => "LFC"@,
        Channel::RFC => "RFC"@,
        Channel::SD => "SD"@,
        Channel::SL => "SL"@,
        Channel::SR => "SR"@,
        Channel::T => "T"@,
        Channel::B => "B"@,
        Channel::BC => "BC"@,
        Channel::BL => "BL"@,
        Channel::BR => "BR"@,
    }
}

/// The `Channel` value whose wire name is `s`, if any.
pub open spec fn channel_from_str(s: Seq<char>) -> Option<Channel> {
    if s == "Master"@ {
        Some(Channel::Master)
    } else if s == "LF"@ {
        Some(Channel::LF)
    } else if s == "RF"@ {
        Some(Channel::RF)
    } else if s == "CF"@ {
        Some(Channel::CF)
    } else if s == "LFE"@ {
        Some(Channel::LFE)
    } else if s == "LS"@ {
        Some(Channel::LS)
    } else if s == "RS"@ {
        Some(Channel::RS)
    } else if s == "LFC"@ {
        Some(Channel::LFC)
    } else if s == "RFC"@ {
        Some(Channel::RFC)
    } else if s == "SD"@ {
        Some(Channel::SD)
    } else if s == "SL"@ {
        Some(Channel::SL)
    } else if s == "SR"@ {
        Some(Channel::SR)
    } else if s == "T"@ {
        Some(Channel::T)
    } else if s == "B"@ {
        Some(Channel::B)
    } else if s == "BC"@ {
        Some(Channel::BC)
    } else if s == "BL"@ {
        Some(Channel::BL)
    } else if s == "BR"@ {
        Some(Channel::BR)
    } else {
        None
    }
}

impl Channel {
    /// The wire name of this value.
    pub fn as_str(&self) -> (r: &'static str)
        ensures
            r@ == channel_str(*self),
    {
        match self {
            Channel::Master => "Master",
            Channel::LF => "LF",
            Channel::RF => "RF",
            Channel::CF => "CF",
            Channel::LFE => "LFE",
            Channel::LS => "LS",
            Channel::RS => "RS",
            Channel::LFC => "LFC",
            Channel::RFC => "RFC",
            Channel::SD => "SD",
            Channel::SL => "SL",
            Channel::SR => "SR",
            Channel::T => "T",
            Channel::B => "B",
            Channel::BC => "BC",
            Channel::BL => "BL",
            Channel::BR => "BR",
        }
    }

    /// The value whose wire name is `s`, if any.
    pub fn from_str(s: &str) -> (r: Option<Self>)
        ensures
            r == channel_from_str(s@),
    {
        let cs = chars_of(s);
        if chars_eq_str(&cs, "Master") {
            Some(Channel::Master)
        } else if chars_eq_str(&cs, "LF") {
            Some(Channel::LF)
        } else if chars_eq_str(&cs, "RF") {
            Some(Channel::RF)
        } else if chars_eq_str(&cs, "CF") {
            Some(Channel::CF)
        } else if chars_eq_str(&cs, "LFE") {
            Some(Channel::LFE)
        } else if chars_eq_str(&cs, "LS") {
            Some(Channel::LS)
        } else if chars_eq_str(&cs, "RS") {
            Some(Channel::RS)
        } else if chars_eq_str(&cs, "LFC") {
            Some(Channel::LFC)
        } else if chars_eq_str(&cs, "RFC") {
            Some(Channel::RFC)
        } else if chars_eq_str(&cs, "SD") {
            Some(Channel::SD)
        } else if chars_eq_str(&cs, "SL") {
            Some(Channel::SL)
        } else if chars_eq_str(&cs, "SR") {
            Some(Channel::SR)
        } else if chars_eq_str(&cs, "T") {
            Some(Channel::T)
        } else if chars_eq_str(&cs, "B") {
            Some(Channel::B)
        } else if chars_eq_str(&cs, "BC") {
            Some(Channel::BC)
        } else if chars_eq_str(&cs, "BL") {
            Some(Channel::BL)
        } else if chars_eq_str(&cs, "BR") {
            Some(Channel::BR)
        } else {
            None
        }
    }
}

/// Reading back the wire name of a `Channel` gives that value.
/// The channel parser accepts exactly the wire names of the channels: it
/// gives `c` for `s` if and only if `s` is the wire name of `c`.
pub proof fn lemma_channel_parse_exact(s: Seq<char>, c: Channel)
    ensures
        channel_from_str(s) == Some(c) <==> channel_str(c) == s,
{
    lemma_channel_roundtrip(c);
}

pub proof fn lemma_channel_roundtrip(x: Channel)
    ensures
        channel_from_str(channel_str(x)) == Some(x),
{
    reveal_strlit("B");
    reveal_strlit("BC");
    reveal_strlit("BL");
    reveal_strlit("BR");
    reveal_strlit("CF");
    reveal_strlit("LF");
    reveal_strlit("LFC");
    reveal_strlit("LFE");
    reveal_strlit("LS");
    reveal_strlit("Master");
    reveal_strlit("RF");
    reveal_strlit("RFC");
    reveal_strlit("RS");
    reveal_strlit("SD");
    reveal_strlit("SL");
    reveal_strlit("SR");
    reveal_strlit("T");
    match x {
        Channel::Master => {},
        Channel::LF => {
            assert("LF"@.len() != "Master"@.len());
        },
        Channel::RF => {
            assert("RF"@.len() != "Master"@.len());
            assert("RF"@[0] != "LF"@[0]);
        },
        Channel::CF => {
            assert("CF"@.len() != "Master"@.len());
            assert("CF"@[0] != "LF"@[0]);
            assert("CF"@[0] != "RF"@[0]);
        },
        Channel::LFE => {
            assert("LFE"@.len() != "Master"@.len());
            assert("LFE"@.len() != "LF"@.len());
            assert("LFE"@.len() != "RF"@.len());
            assert("LFE"@.len() != "CF"@.len());
        },
        Channel::LS => {
            assert("LS"@.len() != "Master"@.len());
            assert("LS"@[1] != "LF"@[1]);
            assert("LS"@[0] != "RF"@[0]);
            assert("LS"@[0] != "CF"@[0]);
            assert("LS"@.len() != "LFE"@.len());
        },
        Channel::RS => {
            assert("RS"@.len() != "Master"@.len());
            assert("RS"@[0] != "LF"@[0]);
            assert("RS"@[1] != "RF"@[1]);
            assert("RS"@[0] != "CF"@[0]);
            assert("RS"@.len() != "LFE"@.len());
            assert("RS"@[0] != "LS"@[0]);
        },
        Channel::LFC => {
            assert("LFC"@.len() != "Master"@.len());
            assert("LFC"@.len() != "LF"@.len());
            assert("LFC"@.len() != "RF"@.len());
            assert("LFC"@.len() != "CF"@.len());
            assert("LFC"@[2] != "LFE"@[2]);
            assert("LFC"@.len() != "LS"@.len());
            assert("LFC"@.len() != "RS"@.len());
        },
        Channel::RFC => {
            assert("RFC"@.len() != "Master"@.len());
            assert("RFC"@.len() != "LF"@.len());
            assert("RFC"@.len() != "RF"@.len());
            assert("RFC"@.len() != "CF"@.len());
            assert("RFC"@[0] != "LFE"@[0]);
            assert("RFC"@.len() != "LS"@.len());
            assert("RFC"@.len() != "RS"@.len());
            assert("RFC"@[0] != "LFC"@[0]);
        },
        Channel::SD => {
            assert("SD"@.len() != "Master"@.len());
            assert("SD"@[0] != "LF"@[0]);
            assert("SD"@[0] != "RF"@[0]);
            assert("SD"@[0] != "CF"@[0]);
            assert("SD"@.len() != "LFE"@.len());
            assert("SD"@[0] != "LS"@[0]);
            assert("SD"@[0] != "RS"@[0]);
            assert("SD"@.len() != "LFC"@.len());
            assert("SD"@.len() != "RFC"@.len());
        },
        Channel::SL => {
            assert("SL"@.len() != "Master"@.len());
            assert("SL"@[0] != "LF"@[0]);
            assert("SL"@[0] != "RF"@[0]);
            assert("SL"@[0] != "CF"@[0]);
            assert("SL"@.len() != "LFE"@.len());
            assert("SL"@[0] != "LS"@[0]);
            assert("SL"@[0] != "RS"@[0]);
            assert("SL"@.len() != "LFC"@.len());
            assert("SL"@.len() != "RFC"@.len());
            assert("SL"@[1] != "SD"@[1]);
        },
        Channel::SR => {
            assert("SR"@.len() != "Master"@.len());
            assert("SR"@[0] != "LF"@[0]);
            assert("SR"@[0] != "RF"@[0]);
            assert("SR"@[0] != "CF"@[0]);
            assert("SR"@.len() != "LFE"@.len());
            assert("SR"@[0] != "LS"@[0]);
            assert("SR"@[0] != "RS"@[0]);
            assert("SR"@.len() != "LFC"@.len());
            assert("SR"@.len() != "RFC"@.len());
            assert("SR"@[1] != "SD"@[1]);
            assert("SR"@[1] != "SL"@[1]);
        },
        Channel::T => {
            assert("T"@.len() != "Master"@.len());
            assert("T"@.len() != "LF"@.len());
            assert("T"@.len() != "RF"@.len());
            assert("T"@.len() != "CF"@.len());
            assert("T"@.len() != "LFE"@.len());
            assert("T"@.len() != "LS"@.len());
            assert("T"@.len() != "RS"@.len());
            assert("T"@.len() != "LFC"@.len());
            assert("T"@.len() != "RFC"@.len());
            assert("T"@.len() != "SD"@.len());
            assert("T"@.len() != "SL"@.len());
            assert("T"@.len() != "SR"@.len());
        },
        Channel::B => {
            assert("B"@.len() != "Master"@.len());
            assert("B"@.len() != "LF"@.len());
            assert("B"@.len() != "RF"@.len());
            assert("B"@.len() != "CF"@.len());
            assert("B"@.len() != "LFE"@.len());
            assert("B"@.len() != "LS"@.len());
            assert("B"@.len() != "RS"@.len());
            assert("B"@.len() != "LFC"@.len());
            assert("B"@.len() != "RFC"@.len());
            assert("B"@.len() != "SD"@.len());
            assert("B"@.len() != "SL"@.len());
            assert("B"@.len() != "SR"@.len());
            assert("B"@[0] != "T"@[0]);
        },
        Channel::BC => {
            assert("BC"@.len() != "Master"@.len());
            assert("BC"@[0] != "LF"@[0]);
            assert("BC"@[0] != "RF"@[0]);
            assert("BC"@[0] != "CF"@[0]);
            assert("BC"@.len() != "LFE"@.len());
            assert("BC"@[0] != "LS"@[0]);
            assert("BC"@[0] != "RS"@[0]);
            assert("BC"@.len() != "LFC"@.len());
            assert("BC"@.len() != "RFC"@.len());
            assert("BC"@[0] != "SD"@[0]);
            assert("BC"@[0] != "SL"@[0]);
            assert("BC"@[0] != "SR"@[0]);
            assert("BC"@.len() != "T"@.len());
            assert("BC"@.len() != "B"@.len());
        },
        Channel::BL => {
            assert("BL"@.len() != "Master"@.len());
            assert("BL"@[0] != "LF"@[0]);
            assert("BL"@[0] != "RF"@[0]);
            assert("BL"@[0] != "CF"@[0]);
            assert("BL"@.len() != "LFE"@.len());
            assert("BL"@[0] != "LS"@[0]);
            assert("BL"@[0] != "RS"@[0]);
            assert("BL"@.len() != "LFC"@.len());
            assert("BL"@.len() != "RFC"@.len());
            assert("BL"@[0] != "SD"@[0]);
            assert("BL"@[0] != "SL"@[0]);
            assert("BL"@[0] != "SR"@[0]);
            assert("BL"@.len() != "T"@.len());
            assert("BL"@.len() != "B"@.len());
            assert("BL"@[1] != "BC"@[1]);
        },
        Channel::BR => {
            assert("BR"@.len() != "Master"@.len());
            assert("BR"@[0] != "LF"@[0]);
            assert("BR"@[0] != "RF"@[0]);
            assert("BR"@[0] != "CF"@[0]);
            assert("BR"@.len() != "LFE"@.len());
            assert("BR"@[0] != "LS"@[0]);
            assert("BR"@[0] != "RS"@[0]);
            assert("BR"@.len() != "LFC"@.len());
            assert("BR"@.len() != "RFC"@.len());
            assert("BR"@[0] != "SD"@[0]);
            assert("BR"@[0] != "SL"@[0]);
            assert("BR"@[0] != "SR"@[0]);
            assert("BR"@.len() != "T"@.len());
            assert("BR"@.len() != "B"@.len());
            assert("BR"@[1] != "BC"@[1]);
            assert("BR"@[1] != "BL"@[1]);
        },
    }
}

/// Returns true if this is a required action.
pub open spec fn action_required(x: ActionName) -> bool {
    match x {
        ActionName::ListPresets => true,
        ActionName::SelectPreset => true,
        ActionName::GetBrightness => false,
        ActionName::SetBrightness => false,
        ActionName::GetContrast => false,
        ActionName::SetContrast => false,
        ActionName::GetSharpness => false,
        ActionName::SetSharpness => false,
        ActionName::GetRedVideoGain => false,
        ActionName::SetRedVideoGain => false,
        ActionName::GetGreenVideoGain => false,
        ActionName::SetGreenVideoGain => false,
        ActionName::GetBlueVideoGain => false,
        ActionName::SetBlueVideoGain => false,
        ActionName::GetRedVideoBlackLevel => false,
        ActionName::SetRedVideoBlackLevel => false,
        ActionName::GetGreenVideoBlackLevel => false,
        ActionName::SetGreenVideoBlackLevel => false,
        ActionName::GetBlueVideoBlackLevel => false,
        ActionName::SetBlueVideoBlackLevel => false,
        ActionName::GetColorTemperature => false,
        ActionName::SetColorTemperature => false,
        ActionName::GetHorizontalKeystone => false,
        ActionName::SetHorizontalKeystone => false,
        ActionName::GetVerticalKeystone => false,
        ActionName::SetVerticalKeystone => false,
        ActionName::GetMute => false,
        ActionName::SetMute => false,
        ActionName::GetVolume => false,
        ActionName::SetVolume => false,
        ActionName::GetVolumeDB => false,
        ActionName::SetVolumeDB => false,
        ActionName::GetLoudness => false,
        ActionName::SetLoudness => false,
        ActionName::GetStateVariables => false,
        ActionName::SetStateVariables => false,
        ActionName::GetVolumeDBRange => false,
        ActionName::GetAllowedTransforms => false,
        ActionName::GetTransforms => false,
        ActionName::SetTransforms => false,
        ActionName::GetAllowedDefaultTransforms => false,
        ActionName::GetDefaultTransforms => false,
        ActionName::SetDefaultTransforms => false,
        ActionName::GetAllAvailableTransforms => false,
    }
}

/// Returns true if this is an optional action.
pub open spec fn action_optional(x: ActionName) -> bool {
    match x {
        ActionName::ListPresets => false,
        ActionName::SelectPreset => false,
        ActionName::GetBrightness => true,
        ActionName::SetBrightness => true,
        ActionName::GetContrast => true,
        ActionName::SetContrast => true,
        ActionName::GetSharpness => true,
        ActionName::SetSharpness => true,
        ActionName::GetRedVideoGain => true,
        ActionName::SetRedVideoGain => true,
        ActionName::GetGreenVideoGain => true,
        ActionName::SetGreenVideoGain => true,
        ActionName::GetBlueVideoGain => true,
        ActionName::SetBlueVideoGain => true,
        ActionName::GetRedVideoBlackLevel => true,
        ActionName::SetRedVideoBlackLevel => true,
        ActionName::GetGreenVideoBlackLevel => true,
        ActionName::SetGreenVideoBlackLevel => true,
        ActionName::GetBlueVideoBlackLevel => true,
        ActionName::SetBlueVideoBlackLevel => true,
        ActionName::GetColorTemperature => true,
        ActionName::SetColorTemperature => true,
        ActionName::GetHorizontalKeystone => true,
        ActionName::SetHorizontalKeystone => true,
        ActionName::GetVerticalKeystone => true,
        ActionName::SetVerticalKeystone => true,
        ActionName::GetMute => false,
        ActionName::SetMute => false,
        ActionName::GetVolume => false,
        ActionName::SetVolume => false,
        ActionName::GetVolumeDB => false,
        ActionName::SetVolumeDB => false,
        ActionName::GetLoudness => true,
        ActionName::SetLoudness => true,
        ActionName::GetStateVariables => true,
        ActionName::SetStateVariables => true,
        ActionName::GetVolumeDBRange => false,
        ActionName::GetAllowedTransforms => false,
        ActionName::GetTransforms => false,
        ActionName::SetTransforms => false,
        ActionName::GetAllowedDefaultTransforms => false,
        ActionName::GetDefaultTransforms => false,
        ActionName::SetDefaultTransforms => false,
        ActionName::GetAllAvailableTransforms => false,
    }
}

/// Returns true if this is a conditionally required action.
pub open spec fn action_conditionally_required(x: ActionName) -> bool {
    match x {
        ActionName::ListPresets => false,
        ActionName::SelectPreset => false,
        ActionName::GetBrightness => false,
        ActionName::SetBrightness => false,
        ActionName::GetContrast => false,
        ActionName::SetContrast => false,
        ActionName::GetSharpness => false,
        ActionName::SetSharpness => false,
        ActionName::GetRedVideoGain => false,
        ActionName::SetRedVideoGain => false,
        ActionName::GetGreenVideoGain => false,
        ActionName::SetGreenVideoGain => false,
        ActionName::GetBlueVideoGain => false,
        ActionName::SetBlueVideoGain => false,
        ActionName::GetRedVideoBlackLevel => false,
        ActionName::SetRedVideoBlackLevel => false,
        ActionName::GetGreenVideoBlackLevel => false,
        ActionName::SetGreenVideoBlackLevel => false,
        ActionName::GetBlueVideoBlackLevel => false,
        ActionName::SetBlueVideoBlackLevel => false,
        ActionName::GetColorTemperature => false,
        ActionName::SetColorTemperature => false,
        ActionName::GetHorizontalKeystone => false,
        ActionName::SetHorizontalKeystone => false,
        ActionName::GetVerticalKeystone => false,
        ActionName::SetVerticalKeystone => false,
        ActionName::GetMute => true,
        ActionName::SetMute => true,
        ActionName::GetVolume => true,
        ActionName::SetVolume => true,
        ActionName::GetVolumeDB => true,
        ActionName::SetVolumeDB => true,
        ActionName::GetLoudness => false,
        ActionName::SetLoudness => false,
        ActionName::GetStateVariables => false,
        ActionName::SetStateVariables => false,
        ActionName::GetVolumeDBRange => true,
        ActionName::GetAllowedTransforms => true,
        ActionName::GetTransforms => true,
        ActionName::SetTransforms => true,
        ActionName::GetAllowedDefaultTransforms => true,
        ActionName::GetDefaultTransforms => true,
        ActionName::SetDefaultTransforms => true,
        ActionName::GetAllAvailableTransforms => true,
    }
}

/// ActionName values.
#[derive(Debug, Clone, Copy, PartialEq, Eq, Structural, Hash)]
pub enum ActionName {
    ListPresets,
    SelectPreset,
    GetBrightness,
    SetBrightness,
    GetContrast,
    SetContrast,
    GetSharpness,
    SetSharpness,
    GetRedVideoGain,
    SetRedVideoGain,
    GetGreenVideoGain,
    SetGreenVideoGain,
    GetBlueVideoGain,
    SetBlueVideoGain,
    GetRedVideoBlackLevel,
    SetRedVideoBlackLevel,
    GetGreenVideoBlackLevel,
    SetGreenVideoBlackLevel,
    GetBlueVideoBlackLevel,
    SetBlueVideoBlackLevel,
    GetColorTemperature,
    SetColorTemperature,
    GetHorizontalKeystone,
    SetHorizontalKeystone,
    GetVerticalKeystone,
    SetVerticalKeystone,
    GetMute,
    SetMute,
    GetVolume,
    SetVolume,
    GetVolumeDB,
    SetVolumeDB,
    GetLoudness,
    SetLoudness,
    GetStateVariables,
    SetStateVariables,
    GetVolumeDBRange,
    GetAllowedTransforms,
    GetTransforms,
    SetTransforms,
    GetAllowedDefaultTransforms,
    GetDefaultTransforms,
    SetDefaultTransforms,
    GetAllAvailableTransforms,
}

/// The wire name of each `ActionName` value.
pub open spec fn action_name_str(x: ActionName) -> Seq<char> {
    match x {
        ActionName::ListPresets => "ListPresets"@,
        ActionName::SelectPreset => "SelectPreset"@,
        ActionName::GetBrightness => "GetBrightness"@,
        ActionName::SetBrightness => "SetBrightness"@,
        ActionName::GetContrast => "GetContrast"@,
        ActionName::SetContrast => "SetContrast"@,
        ActionName::GetSharpness => "GetSharpness"@,
        ActionName::SetSharpness => "SetSharpness"@,
        ActionName::GetRedVideoGain => "GetRedVideoGain"@,
        ActionName::SetRedVideoGain => "SetRedVideoGain"@,
        ActionName::GetGreenVideoGain => "GetGreenVideoGain"@,
        ActionName::SetGreenVideoGain => "SetGreenVideoGain"@,
        ActionName::GetBlueVideoGain => "GetBlueVideoGain"@,
        ActionName::SetBlueVideoGain => "SetBlueVideoGain"@,
        ActionName::GetRedVideoBlackLevel => "GetRedVideoBlackLevel"@,
        ActionName::SetRedVideoBlackLevel => "SetRedVideoBlackLevel"@,
        ActionName::GetGreenVideoBlackLevel => "GetGreenVideoBlackLevel"@,
        ActionName::SetGreenVideoBlackLevel => "SetGreenVideoBlackLevel"@,
        ActionName::GetBlueVideoBlackLevel => "GetBlueVideoBlackLevel"@,
        ActionName::SetBlueVideoBlackLevel => "SetBlueVideoBlackLevel"@,
        ActionName::GetColorTemperature => "GetColorTemperature"@,
        ActionName::SetColorTemperature => "SetColorTemperature"@,
        ActionName::GetHorizontalKeystone => "GetHorizontalKeystone"@,
        ActionName::SetHorizontalKeystone => "SetHorizontalKeystone"@,
        ActionName::GetVerticalKeystone => "GetVerticalKeystone"@,
        ActionName::SetVerticalKeystone => "SetVerticalKeystone"@,
        ActionName::GetMute => "GetMute"@,
        ActionName::SetMute => "SetMute"@,
        ActionName::GetVolume => "GetVolume"@,
        ActionName::SetVolume => "SetVolume"@,
        ActionName::GetVolumeDB => "GetVolumeDB"@,
        ActionName::SetVolumeDB => "SetVolumeDB"@,
        ActionName::GetLoudness => "GetLoudness"@,
        ActionName::SetLoudness => "SetLoudness"@,
        ActionName::GetStateVariables => "GetStateVariables"@,
        ActionName::SetStateVariables => "SetStateVariables"@,
        ActionName::GetVolumeDBRange => "GetVolumeDBRange"@,
        ActionName::GetAllowedTransforms => "GetAllowedTransforms"@,
        ActionName::GetTransforms => "GetTransforms"@,
        ActionName::SetTransforms => "SetTransforms"@,
        ActionName::GetAllowedDefaultTransforms => "GetAllowedDefaultTransforms"@,
        ActionName::GetDefaultTransforms => "GetDefaultTransforms"@,
        ActionName::SetDefaultTransforms => "SetDefaultTransforms"@,
        ActionName::GetAllAvailableTransforms => "GetAllAvailableTransforms"@,
    }
}

impl ActionName {
    /// Returns true if this is a required action.
    pub fn is_required(&self) -> (r: bool)
        ensures
            r == action_required(*self),
    {
        match self {
            ActionName::ListPresets => true,
            ActionName::SelectPreset => true,
            ActionName::GetBrightness => false,
            ActionName::SetBrightness => false,
            ActionName::GetContrast => false,
            ActionName::SetContrast => false,
            ActionName::GetSharpness => false,
            ActionName::SetSharpness => false,
            ActionName::GetRedVideoGain => false,
            ActionName::SetRedVideoGain => false,
            ActionName::GetGreenVideoGain => false,
            ActionName::SetGreenVideoGain => false,
            ActionName::GetBlueVideoGain => false,
            ActionName::SetBlueVideoGain => false,
            ActionName::GetRedVideoBlackLevel => false,
            ActionName::SetRedVideoBlackLevel => false,
            ActionName::GetGreenVideoBlackLevel => false,
            ActionName::SetGreenVideoBlackLevel => false,
            ActionName::GetBlueVideoBlackLevel => false,
            ActionName::SetBlueVideoBlackLevel => false,
            ActionName::GetColorTemperature => false,
            ActionName::SetColorTemperature => false,
            ActionName::GetHorizontalKeystone => false,
            ActionName::SetHorizontalKeystone => false,
            ActionName::GetVerticalKeystone => false,
            ActionName::SetVerticalKeystone => false,
            ActionName::GetMute => false,
            ActionName::SetMute => false,
            ActionName::GetVolume => false,
            ActionName::SetVolume => false,
            ActionName::GetVolumeDB => false,
            ActionName::SetVolumeDB => false,
            ActionName::GetLoudness => false,
            ActionName::SetLoudness => false,
            ActionName::GetStateVariables => false,
            ActionName::SetStateVariables => false,
            ActionName::GetVolumeDBRange => false,
            ActionName::GetAllowedTransforms => false,
            ActionName::GetTransforms => false,
            ActionName::SetTransforms => false,
            ActionName::GetAllowedDefaultTransforms => false,
            ActionName::GetDefaultTransforms => false,
            ActionName::SetDefaultTransforms => false,
            ActionName::GetAllAvailableTransforms => false,
        }
    }

    /// Returns true if this is an optional action.
    pub fn is_optional(&self) -> (r: bool)
        ensures
            r == action_optional(*self),
    {
        match self {
            ActionName::ListPresets => false,
            ActionName::SelectPreset => false,
            ActionName::GetBrightness => true,
            ActionName::SetBrightness => true,
            ActionName::GetContrast => true,
            ActionName::SetContrast => true,
            ActionName::GetSharpness => true,
            ActionName::SetSharpness => true,
            ActionName::GetRedVideoGain => true,
            ActionName::SetRedVideoGain => true,
            ActionName::GetGreenVideoGain => true,
            ActionName::SetGreenVideoGain => true,
            ActionName::GetBlueVideoGain => true,
            ActionName::SetBlueVideoGain => true,
            ActionName::GetRedVideoBlackLevel => true,
            ActionName::SetRedVideoBlackLevel => true,
            ActionName::GetGreenVideoBlackLevel => true,
            ActionName::SetGreenVideoBlackLevel => true,
            ActionName::GetBlueVideoBlackLevel => true,
            ActionName::SetBlueVideoBlackLevel => true,
            ActionName::GetColorTemperature => true,
            ActionName::SetColorTemperature => true,
            ActionName::GetHorizontalKeystone => true,
            ActionName::SetHorizontalKeystone => true,
            ActionName::GetVerticalKeystone => true,
            ActionName::SetVerticalKeystone => true,
            ActionName::GetMute => false,
            ActionName::SetMute => false,
            ActionName::GetVolume => false,
            ActionName::SetVolume => false,
            ActionName::GetVolumeDB => false,
            ActionName::SetVolumeDB => false,
            ActionName::GetLoudness => true,
            ActionName::SetLoudness => true,
            ActionName::GetStateVariables => true,
            ActionName::SetStateVariables => true,
            ActionName::GetVolumeDBRange => false,
            ActionName::GetAllowedTransforms => false,
            ActionName::GetTransforms => false,
            ActionName::SetTransforms => false,
            ActionName::GetAllowedDefaultTransforms => false,
            ActionName::GetDefaultTransforms => false,
            ActionName::SetDefaultTransforms => false,
            ActionName::GetAllAvailableTransforms => false,
        }
    }

    /// Returns true if this is a conditionally required action.
    pub fn is_conditionally_required(&self) -> (r: bool)
        ensures
            r == action_conditionally_required(*self),
    {
        match self {
            ActionName::ListPresets => false,
            ActionName::SelectPreset => false,
            ActionName::GetBrightness => false,
            ActionName::SetBrightness => false,
            ActionName::GetContrast => false,
            ActionName::SetContrast => false,
            ActionName::GetSharpness => false,
            ActionName::SetSharpness => false,
            ActionName::GetRedVideoGain => false,
            ActionName::SetRedVideoGain => false,
            ActionName::GetGreenVideoGain => false,
            ActionName::SetGreenVideoGain => false,
            ActionName::GetBlueVideoGain => false,
            ActionName::SetBlueVideoGain => false,
            ActionName::GetRedVideoBlackLevel => false,
            ActionName::SetRedVideoBlackLevel => false,
            ActionName::GetGreenVideoBlackLevel => false,
            ActionName::SetGreenVideoBlackLevel => false,
            ActionName::GetBlueVideoBlackLevel => false,
            ActionName::SetBlueVideoBlackLevel => false,
            ActionName::GetColorTemperature => false,
            ActionName::SetColorTemperature => false,
            ActionName::GetHorizontalKeystone => false,
            ActionName::SetHorizontalKeystone => false,
            ActionName::GetVerticalKeystone => false,
            ActionName::SetVerticalKeystone => false,
            ActionName::GetMute => true,
            ActionName::SetMute => true,
            ActionName::GetVolume => true,
            ActionName::SetVolume => true,
            ActionName::GetVolumeDB => true,
            ActionName::SetVolumeDB => true,
            ActionName::GetLoudness => false,
            ActionName::SetLoudness => false,
            ActionName::GetStateVariables => false,
            ActionName::SetStateVariables => false,
            ActionName::GetVolumeDBRange => true,
            ActionName::GetAllowedTransforms => true,
            ActionName::GetTransforms => true,
            ActionName::SetTransforms => true,
            ActionName::GetAllowedDefaultTransforms => true,
            ActionName::GetDefaultTransforms => true,
            ActionName::SetDefaultTransforms => true,
            ActionName::GetAllAvailableTransforms => true,
        }
    }

    /// The wire name of this value.
    pub fn as_str(&self) -> (r: &'static str)
        ensures
            r@ == action_name_str(*self),
    {
        match self {
            ActionName::ListPresets => "ListPresets",
            ActionName::SelectPreset => "SelectPreset",
            ActionName::GetBrightness => "GetBrightness",
            ActionName::SetBrightness => "SetBrightness",
            ActionName::GetContrast => "GetContrast",
            ActionName::SetContrast => "SetContrast",
            ActionName::GetSharpness => "GetSharpness",
            ActionName::SetSharpness => "SetSharpness",
            ActionName::GetRedVideoGain => "GetRedVideoGain",
            ActionName::SetRedVideoGain => "SetRedVideoGain",
            ActionName::GetGreenVideoGain => "GetGreenVideoGain",
            ActionName::SetGreenVideoGain => "SetGreenVideoGain",
            ActionName::GetBlueVideoGain => "GetBlueVideoGain",
            ActionName::SetBlueVideoGain => "SetBlueVideoGain",
            ActionName::GetRedVideoBlackLevel => "GetRedVideoBlackLevel",
            ActionName::SetRedVideoBlackLevel => "SetRedVideoBlackLevel",
            ActionName::GetGreenVideoBlackLevel => "GetGreenVideoBlackLevel",
            ActionName::SetGreenVideoBlackLevel => "SetGreenVideoBlackLevel",
            ActionName::GetBlueVideoBlackLevel => "GetBlueVideoBlackLevel",
            ActionName::SetBlueVideoBlackLevel => "SetBlueVideoBlackLevel",
            ActionName::GetColorTemperature => "GetColorTemperature",
            ActionName::SetColorTemperature => "SetColorTemperature",
            ActionName::GetHorizontalKeystone => "GetHorizontalKeystone",
            ActionName::SetHorizontalKeystone => "SetHorizontalKeystone",
            ActionName::GetVerticalKeystone => "GetVerticalKeystone",
            ActionName::SetVerticalKeystone => "SetVerticalKeystone",
            ActionName::GetMute => "GetMute",
            ActionName::SetMute => "SetMute",
            ActionName::GetVolume => "GetVolume",
            ActionName::SetVolume => "SetVolume",
            ActionName::GetVolumeDB => "GetVolumeDB",
            ActionName::SetVolumeDB => "SetVolumeDB",
            ActionName::GetLoudness => "GetLoudness",
            ActionName::SetLoudness => "SetLoudness",
            ActionName::GetStateVariables => "GetStateVariables",
            ActionName::SetStateVariables => "SetStateVariables",
            ActionName::GetVolumeDBRange => "GetVolumeDBRange",
            ActionName::GetAllowedTransforms => "GetAllowedTransforms",
            ActionName::GetTransforms => "GetTransforms",
            ActionName::SetTransforms => "SetTransforms",
            ActionName::GetAllowedDefaultTransforms => "GetAllowedDefaultTransforms",
            ActionName::GetDefaultTransforms => "GetDefaultTransforms",
            ActionName::SetDefaultTransforms => "SetDefaultTransforms",
            ActionName::GetAllAvailableTransforms => "GetAllAvailableTransforms",
        }
    }
}

/// Every action falls in exactly one of the categories.
pub proof fn lemma_action_category_partition(a: ActionName)
    ensures
        action_required(a) ==> !action_optional(a) && !action_conditionally_required(a),
        action_optional(a) ==> !action_required(a) && !action_conditionally_required(a),
        action_conditionally_required(a) ==> !action_required(a) && !action_optional(a),
        action_required(a) || action_optional(a) || action_conditionally_required(a),
{
}

/// RenderingControl argument names.
#[derive(Debug, Clone, Copy, PartialEq, Eq, Structural, Hash)]
pub enum ArgumentName {
    InstanceID,
    Channel,
    DesiredVolume,
    PresetName,
    CurrentPresetNameList,
    CurrentBrightness,
    DesiredBrightness,
    CurrentContrast,
    DesiredContrast,
    CurrentSharpness,
    DesiredSharpness,
    CurrentRedVideoGain,
    DesiredRedVideoGain,
    CurrentGreenVideoGain,
    DesiredGreenVideoGain,
    CurrentBlueVideoGain,
    DesiredBlueVideoGain,
    CurrentRedVideoBlackLevel,
    DesiredRedVideoBlackLevel,
    CurrentGreenVideoBlackLevel,
    DesiredGreenVideoBlackLevel,
    CurrentBlueVideoBlackLevel,
    DesiredBlueVideoBlackLevel,
    CurrentColorTemperature,
    DesiredColorTemperature,
    CurrentHorizontalKeystone,
    DesiredHorizontalKeystone,
    CurrentVerticalKeystone,
    DesiredVerticalKeystone,
    CurrentMute,
    DesiredMute,
    CurrentVolume,
    CurrentVolumeDB,
    DesiredVolumeDB,
    CurrentLoudness,
    DesiredLoudness,
    CurrentVolumeDBRange,
    CurrentAllowedTransforms,
    DesiredTransforms,
    CurrentAllowedDefaultTransforms,
    CurrentDefaultTransforms,
    AllAvailableTransforms,
}

/// The wire name of each `ArgumentName` value.
pub open spec fn argument_name_str(x: ArgumentName) -> Seq<char> {
    match x {
        ArgumentName::InstanceID => "InstanceID"@,
        ArgumentName::Channel => "Channel"@,
        ArgumentName::DesiredVolume => "DesiredVolume"@,
        ArgumentName::PresetName => "PresetName"@,
        ArgumentName::CurrentPresetNameList => "CurrentPresetNameList"@,
        ArgumentName::CurrentBrightness => "CurrentBrightness"@,
        ArgumentName::DesiredBrightness => "DesiredBrightness"@,
        ArgumentName::CurrentContrast => "CurrentContrast"@,
        ArgumentName::DesiredContrast => "DesiredContrast"@,
        ArgumentName::CurrentSharpness => "CurrentSharpness"@,
        ArgumentName::DesiredSharpness => "DesiredSharpness"@,
        ArgumentName::CurrentRedVideoGain => "CurrentRedVideoGain"@,
        ArgumentName::DesiredRedVideoGain => "DesiredRedVideoGain"@,
        ArgumentName::CurrentGreenVideoGain => "CurrentGreenVideoGain"@,
        ArgumentName::DesiredGreenVideoGain => "DesiredGreenVideoGain"@,
        ArgumentName::CurrentBlueVideoGain => "CurrentBlueVideoGain"@,
        ArgumentName::DesiredBlueVideoGain => "DesiredBlueVideoGain"@,
        ArgumentName::CurrentRedVideoBlackLevel => "CurrentRedVideoBlackLevel"@,
        ArgumentName::DesiredRedVideoBlackLevel => "DesiredRedVideoBlackLevel"@,
        ArgumentName::CurrentGreenVideoBlackLevel => "CurrentGreenVideoBlackLevel"@,
        ArgumentName::DesiredGreenVideoBlackLevel => "DesiredGreenVideoBlackLevel"@,
        ArgumentName::CurrentBlueVideoBlackLevel => "CurrentBlueVideoBlackLevel"@,
        ArgumentName::DesiredBlueVideoBlackLevel => "DesiredBlueVideoBlackLevel"@,
        ArgumentName::CurrentColorTemperature => "CurrentColorTemperature"@,
        ArgumentName::DesiredColorTemperature => "DesiredColorTemperature"@,
        ArgumentName::CurrentHorizontalKeystone => "CurrentHorizontalKeystone"@,
        ArgumentName::DesiredHorizontalKeystone => "DesiredHorizontalKeystone"@,
        ArgumentName::CurrentVerticalKeystone => "CurrentVerticalKeystone"@,
        ArgumentName::DesiredVerticalKeystone => "DesiredVerticalKeystone"@,
        ArgumentName::CurrentMute => "CurrentMute"@,
        ArgumentName::DesiredMute => "DesiredMute"@,
        ArgumentName::CurrentVolume => "CurrentVolume"@,
        ArgumentName::CurrentVolumeDB => "CurrentVolumeDB"@,
        ArgumentName::DesiredVolumeDB => "DesiredVolumeDB"@,
        ArgumentName::CurrentLoudness => "CurrentLoudness"@,
        ArgumentName::DesiredLoudness => "DesiredLoudness"@,
        ArgumentName::CurrentVolumeDBRange => "CurrentVolumeDBRange"@,
        ArgumentName::CurrentAllowedTransforms => "CurrentAllowedTransforms"@,
        ArgumentName::DesiredTransforms => "DesiredTransforms"@,
        ArgumentName::CurrentAllowedDefaultTransforms => "CurrentAllowedDefaultTransforms"@,
        ArgumentName::CurrentDefaultTransforms => "CurrentDefaultTransforms"@,
        ArgumentName::AllAvailableTransforms => "AllAvailableTransforms"@,
    }
}

impl ArgumentName {
    /// The wire name of this value.
    pub fn as_str(&self) -> (r: &'static str)
        ensures
            r@ == argument_name_str(*self),
    {
        match self {
            ArgumentName::InstanceID => "InstanceID",
            ArgumentName::Channel => "Channel",
            ArgumentName::DesiredVolume => "DesiredVolume",
            ArgumentName::PresetName => "PresetName",
            ArgumentName::CurrentPresetNameList => "CurrentPresetNameList",
            ArgumentName::CurrentBrightness => "CurrentBrightness",
            ArgumentName::DesiredBrightness => "DesiredBrightness",
            ArgumentName::CurrentContrast => "CurrentContrast",
            ArgumentName::DesiredContrast => "DesiredContrast",
            ArgumentName::CurrentSharpness => "CurrentSharpness",
            ArgumentName::DesiredSharpness => "DesiredSharpness",
            ArgumentName::CurrentRedVideoGain => "CurrentRedVideoGain",
            ArgumentName::DesiredRedVideoGain => "DesiredRedVideoGain",
            ArgumentName::CurrentGreenVideoGain => "CurrentGreenVideoGain",
            ArgumentName::DesiredGreenVideoGain => "DesiredGreenVideoGain",
            ArgumentName::CurrentBlueVideoGain => "CurrentBlueVideoGain",
            ArgumentName::DesiredBlueVideoGain => "DesiredBlueVideoGain",
            ArgumentName::CurrentRedVideoBlackLevel => "CurrentRedVideoBlackLevel",
            ArgumentName::DesiredRedVideoBlackLevel => "DesiredRedVideoBlackLevel",
            ArgumentName::CurrentGreenVideoBlackLevel => "CurrentGreenVideoBlackLevel",
            ArgumentName::DesiredGreenVideoBlackLevel => "DesiredGreenVideoBlackLevel",
            ArgumentName::CurrentBlueVideoBlackLevel => "CurrentBlueVideoBlackLevel",
            ArgumentName::DesiredBlueVideoBlackLevel => "DesiredBlueVideoBlackLevel",
            ArgumentName::CurrentColorTemperature => "CurrentColorTemperature",
            ArgumentName::DesiredColorTemperature => "DesiredColorTemperature",
            ArgumentName::CurrentHorizontalKeystone => "CurrentHorizontalKeystone",
            ArgumentName::DesiredHorizontalKeystone => "DesiredHorizontalKeystone",
            ArgumentName::CurrentVerticalKeystone => "CurrentVerticalKeystone",
            ArgumentName::DesiredVerticalKeystone => "DesiredVerticalKeystone",
            ArgumentName::CurrentMute => "CurrentMute",
            ArgumentName::DesiredMute => "DesiredMute",
            ArgumentName::CurrentVolume => "CurrentVolume",
            ArgumentName::CurrentVolumeDB => "CurrentVolumeDB",
            ArgumentName::DesiredVolumeDB => "DesiredVolumeDB",
            ArgumentName::CurrentLoudness => "CurrentLoudness",
            ArgumentName::DesiredLoudness => "DesiredLoudness",
            ArgumentName::CurrentVolumeDBRange => "CurrentVolumeDBRange",
            ArgumentName::CurrentAllowedTransforms => "CurrentAllowedTransforms",
            ArgumentName::DesiredTransforms => "DesiredTransforms",
            ArgumentName::CurrentAllowedDefaultTransforms => "CurrentAllowedDefaultTransforms",
            ArgumentName::CurrentDefaultTransforms => "CurrentDefaultTransforms",
            ArgumentName::AllAvailableTransforms => "AllAvailableTransforms",
        }
    }
}

/// UPnP RenderingControl service error codes.
///
/// Per UPnP-av-RenderingControl-v3-Service specification.
/// Error codes 400-699 are defined by the UPnP Device Architecture.
/// Error codes 700-799 are service-specific.
/// Error codes 800-899 are reserved for vendor extensions (not permitted for standard actions).
#[derive(Debug, Clone, Copy, PartialEq, Eq, Structural, Hash)]
pub enum Error {
    InvalidName,
    InvalidInstanceID,
    InvalidChannel,
    InvalidStateVariableList,
    IllFormedCsvList,
    InvalidStateVariableValue,
    InvalidMediaRendererUdn,
    InvalidServiceType,
    InvalidServiceId,
    StateVariablesSpecifiedImproperly,
    TransformsNotAllowed,
    UnsupportedValuesForTransforms,
    InternalError,
}

/// The numeric code of each `Error` value.
pub open spec fn service_error_code(e: Error) -> u16 {
    match e {
        Error::InvalidName => 701,
        Error::InvalidInstanceID => 702,
        Error::InvalidChannel => 703,
        Error::InvalidStateVariableList => 704,
        Error::IllFormedCsvList => 705,
        Error::InvalidStateVariableValue => 706,
        Error::InvalidMediaRendererUdn => 707,
        Error::InvalidServiceType => 708,
        Error::InvalidServiceId => 709,
        Error::StateVariablesSpecifiedImproperly => 710,
        Error::TransformsNotAllowed => 711,
        Error::UnsupportedValuesForTransforms => 712,
        Error::InternalError => 713,
    }
}

/// The human-readable description of each `Error` value.
pub open spec fn service_error_description(e: Error) -> Seq<char> {
    match e {
        Error::InvalidName => "The specified name is not a valid preset name"@,
        Error::InvalidInstanceID => "The specified InstanceID is invalid"@,
        Error::InvalidChannel => "The specified Channel is invalid"@,
        Error::InvalidStateVariableList => "Some of the variables are invalid"@,
        Error::IllFormedCsvList => "The CSV list is not well formed"@,
        Error::InvalidStateVariableValue => "One of the StateVariableValuePairs contains an invalid value"@,
        Error::InvalidMediaRendererUdn => "The specified MediaRenderer's UDN is different from the UDN value of the MediaRenderer"@,
        Error::InvalidServiceType => "The specified ServiceType is invalid"@,
        Error::InvalidServiceId => "The specified ServiceId is invalid"@,
        Error::StateVariablesSpecifiedImproperly => "StateVariableValuePairs includes variables that are not allowed to be set (for example, LastChange and/or PresetNameList must not be included)"@,
        Error::TransformsNotAllowed => "The specified transforms are not in the allowed list of transforms"@,
        Error::UnsupportedValuesForTransforms => "The specified transforms cannot be applied because the input value for each specified transforms is not supported"@,
        Error::InternalError => "The specified transform cannot be applied because an internal error occurred in the rendering device"@,
    }
}

/// The `Error` value with the given numeric code, if any.
pub open spec fn service_error_from_code(code: u16) -> Option<Error> {
    match code {
        701 => Some(Error::InvalidName),
        702 => Some(Error::InvalidInstanceID),
        703 => Some(Error::InvalidChannel),
        704 => Some(Error::InvalidStateVariableList),
        705 => Some(Error::IllFormedCsvList),
        706 => Some(Error::InvalidStateVariableValue),
        707 => Some(Error::InvalidMediaRendererUdn),
        708 => Some(Error::InvalidServiceType),
        709 => Some(Error::InvalidServiceId),
        710 => Some(Error::StateVariablesSpecifiedImproperly),
        711 => Some(Error::TransformsNotAllowed),
        712 => Some(Error::UnsupportedValuesForTransforms),
        713 => Some(Error::InternalError),
        _ => None,
    }
}

impl Error {
    /// Returns the numeric error code.
    pub fn code(&self) -> (r: u16)
        ensures
            r == service_error_code(*self),
    {
        match self {
            Error::InvalidName => 701,
            Error::InvalidInstanceID => 702,
            Error::InvalidChannel => 703,
            Error::InvalidStateVariableList => 704,
            Error::IllFormedCsvList => 705,
            Error::InvalidStateVariableValue => 706,
            Error::InvalidMediaRendererUdn => 707,
            Error::InvalidServiceType => 708,
            Error::InvalidServiceId => 709,
            Error::StateVariablesSpecifiedImproperly => 710,
            Error::TransformsNotAllowed => 711,
            Error::UnsupportedValuesForTransforms => 712,
            Error::InternalError => 713,
        }
    }

    /// Returns the human-readable error description.
    pub fn description(&self) -> (r: &'static str)
        ensures
            r@ == service_error_description(*self),
    {
        match self {
            Error::InvalidName => "The specified name is not a valid preset name",
            Error::InvalidInstanceID => "The specified InstanceID is invalid",
            Error::InvalidChannel => "The specified Channel is invalid",
            Error::InvalidStateVariableList => "Some of the variables are invalid",
            Error::IllFormedCsvList => "The CSV list is not well formed",
            Error::InvalidStateVariableValue => "One of the StateVariableValuePairs contains an invalid value",
            Error::InvalidMediaRendererUdn => "The specified MediaRenderer's UDN is different from the UDN value of the MediaRenderer",
            Error::InvalidServiceType => "The specified ServiceType is invalid",
            Error::InvalidServiceId => "The specified ServiceId is invalid",
            Error::StateVariablesSpecifiedImproperly => "StateVariableValuePairs includes variables that are not allowed to be set (for example, LastChange and/or PresetNameList must not be included)",
            Error::TransformsNotAllowed => "The specified transforms are not in the allowed list of transforms",
            Error::UnsupportedValuesForTransforms => "The specified transforms cannot be applied because the input value for each specified transforms is not supported",
            Error::InternalError => "The specified transform cannot be applied because an internal error occurred in the rendering device",
        }
    }

    /// Lookup an error by its numeric code.
    pub fn from_code(code: u16) -> (r: Option<Self>)
        ensures
            r == service_error_from_code(code),
    {
        match code {
            701 => Some(Error::InvalidName),
            702 => Some(Error::InvalidInstanceID),
            703 => Some(Error::InvalidChannel),
            704 => Some(Error::InvalidStateVariableList),
            705 => Some(Error::IllFormedCsvList),
            706 => Some(Error::InvalidStateVariableValue),
            707 => Some(Error::InvalidMediaRendererUdn),
            708 => Some(Error::InvalidServiceType),
            709 => Some(Error::InvalidServiceId),
            710 => Some(Error::StateVariablesSpecifiedImproperly),
            711 => Some(Error::TransformsNotAllowed),
            712 => Some(Error::UnsupportedValuesForTransforms),
            713 => Some(Error::InternalError),
            _ => None,
        }
    }

    /// The display text: `RenderingControl Error <code>: <description>`.
    pub fn message(&self) -> (r: String)
        ensures
            r@ == "RenderingControl Error "@ + nat_to_decimal(service_error_code(*self) as nat) + ": "@ + service_error_description(*self),
    {
        let mut s = to_owned_string("RenderingControl Error ");
        push_decimal(&mut s, self.code() as u64);
        push_str(&mut s, ": ");
        push_str(&mut s, self.description());
        s
    }
}

/// Looking an error up by its own code gives that error back.
pub proof fn lemma_service_error_code_roundtrip(e: Error)
    ensures
        service_error_from_code(service_error_code(e)) == Some(e),
{
}

/// A code that names an error is that error's code.
pub proof fn lemma_service_error_from_code_inverse(code: u16)
    ensures
        service_error_from_code(code) matches Some(e) ==> service_error_code(e) == code,
{
}

/// RenderingControl state variable names.
///
/// 21 standard state variables + 8 A_ARG_TYPE_* pseudo-state-variables.
#[allow(non_camel_case_types)]
#[derive(Debug, Clone, Copy, PartialEq, Eq, Structural, Hash, Default)]
pub enum StateVariableName {
    #[default]
    LastChange,
    PresetNameList,
    Brightness,
    Contrast,
    Sharpness,
    RedVideoGain,
    GreenVideoGain,
    BlueVideoGain,
    RedVideoBlackLevel,
    GreenVideoBlackLevel,
    BlueVideoBlackLevel,
    ColorTemperature,
    HorizontalKeystone,
    VerticalKeystone,
    Mute,
    Volume,
    VolumeDB,
    Loudness,
    AllowedTransformSettings,
    TransformSettings,
    AllowedDefaultTransformSettings,
    DefaultTransformSettings,
    A_ARG_TYPE_InstanceID,
    A_ARG_TYPE_Channel,
    A_ARG_TYPE_PresetName,
    A_ARG_TYPE_DeviceUDN,
    A_ARG_TYPE_ServiceType,
    A_ARG_TYPE_ServiceID,
    A_ARG_TYPE_StateVariableValuePairs,
    A_ARG_TYPE_StateVariableList,
}

/// The wire name of each state variable.
pub open spec fn state_var_str(x: StateVariableName) -> Seq<char> {
    match x {
        StateVariableName::LastChange => "LastChange"@,
        StateVariableName::PresetNameList => "PresetNameList"@,
        StateVariableName::Brightness => "Brightness"@,
        StateVariableName::Contrast => "Contrast"@,
        StateVariableName::Sharpness => "Sharpness"@,
        StateVariableName::RedVideoGain => "RedVideoGain"@,
        StateVariableName::GreenVideoGain => "GreenVideoGain"@,
        StateVariableName::BlueVideoGain => "BlueVideoGain"@,
        StateVariableName::RedVideoBlackLevel => "RedVideoBlackLevel"@,
        StateVariableName::GreenVideoBlackLevel => "GreenVideoBlackLevel"@,
        StateVariableName::BlueVideoBlackLevel => "BlueVideoBlackLevel"@,
        StateVariableName::ColorTemperature => "ColorTemperature"@,
        StateVariableName::HorizontalKeystone => "HorizontalKeystone"@,
        StateVariableName::VerticalKeystone => "VerticalKeystone"@,
        StateVariableName::Mute => "Mute"@,
        StateVariableName::Volume => "Volume"@,
        StateVariableName::VolumeDB => "VolumeDB"@,
        StateVariableName::Loudness => "Loudness"@,
        StateVariableName::AllowedTransformSettings => "AllowedTransformSettings"@,
        StateVariableName::TransformSettings => "TransformSettings"@,
        StateVariableName::AllowedDefaultTransformSettings => "AllowedDefaultTransformSettings"@,
        StateVariableName::DefaultTransformSettings => "DefaultTransformSettings"@,
        StateVariableName::A_ARG_TYPE_InstanceID => "A_ARG_TYPE_InstanceID"@,
        StateVariableName::A_ARG_TYPE_Channel => "A_ARG_TYPE_Channel"@,
        StateVariableName::A_ARG_TYPE_PresetName => "A_ARG_TYPE_PresetName"@,
        StateVariableName::A_ARG_TYPE_DeviceUDN => "A_ARG_TYPE_DeviceUDN"@,
        StateVariableName::A_ARG_TYPE_ServiceType => "A_ARG_TYPE_ServiceType"@,
        StateVariableName::A_ARG_TYPE_ServiceID => "A_ARG_TYPE_ServiceID"@,
        StateVariableName::A_ARG_TYPE_StateVariableValuePairs => "A_ARG_TYPE_StateVariableValuePairs"@,
        StateVariableName::A_ARG_TYPE_StateVariableList => "A_ARG_TYPE_StateVariableList"@,
    }
}

/// The state variables that send events (is_evented=YES).
pub open spec fn state_var_evented(x: StateVariableName) -> bool {
    match x {
        StateVariableName::LastChange => true,
        StateVariableName::PresetNameList => false,
        StateVariableName::Brightness => false,
        StateVariableName::Contrast => false,
        StateVariableName::Sharpness => false,
        StateVariableName::RedVideoGain => false,
        StateVariableName::GreenVideoGain => false,
        StateVariableName::BlueVideoGain => false,
        StateVariableName::RedVideoBlackLevel => false,
        StateVariableName::GreenVideoBlackLevel => false,
        StateVariableName::BlueVideoBlackLevel => false,
        StateVariableName::ColorTemperature => false,
        StateVariableName::HorizontalKeystone => false,
        StateVariableName::VerticalKeystone => false,
        StateVariableName::Mute => false,
        StateVariableName::Volume => false,
        StateVariableName::VolumeDB => false,
        StateVariableName::Loudness => false,
        StateVariableName::AllowedTransformSettings => false,
        StateVariableName::TransformSettings => false,
        StateVariableName::AllowedDefaultTransformSettings => false,
        StateVariableName::DefaultTransformSettings => false,
        StateVariableName::A_ARG_TYPE_InstanceID => false,
        StateVariableName::A_ARG_TYPE_Channel => false,
        StateVariableName::A_ARG_TYPE_PresetName => false,
        StateVariableName::A_ARG_TYPE_DeviceUDN => false,
        StateVariableName::A_ARG_TYPE_ServiceType => false,
        StateVariableName::A_ARG_TYPE_ServiceID => false,
        StateVariableName::A_ARG_TYPE_StateVariableValuePairs => false,
        StateVariableName::A_ARG_TYPE_StateVariableList => false,
    }
}

/// The state variables collated into the LastChange document.
pub open spec fn state_var_via_lastchange(x: StateVariableName) -> bool {
    match x {
        StateVariableName::LastChange => false,
        StateVariableName::PresetNameList => true,
        StateVariableName::Brightness => true,
        StateVariableName::Contrast => true,
        StateVariableName::Sharpness => true,
        StateVariableName::RedVideoGain => true,
        StateVariableName::GreenVideoGain => true,
        StateVariableName::BlueVideoGain => true,
        StateVariableName::RedVideoBlackLevel => true,
        StateVariableName::GreenVideoBlackLevel => true,
        StateVariableName::BlueVideoBlackLevel => true,
        StateVariableName::ColorTemperature => true,
        StateVariableName::HorizontalKeystone => true,
        StateVariableName::VerticalKeystone => true,
        StateVariableName::Mute => true,
        StateVariableName::Volume => true,
        StateVariableName::VolumeDB => true,
        StateVariableName::Loudness => true,
        StateVariableName::AllowedTransformSettings => true,
        StateVariableName::TransformSettings => true,
        StateVariableName::AllowedDefaultTransformSettings => true,
        StateVariableName::DefaultTransformSettings => true,
        StateVariableName::A_ARG_TYPE_InstanceID => false,
        StateVariableName::A_ARG_TYPE_Channel => false,
        StateVariableName::A_ARG_TYPE_PresetName => false,
        StateVariableName::A_ARG_TYPE_DeviceUDN => false,
        StateVariableName::A_ARG_TYPE_ServiceType => false,
        StateVariableName::A_ARG_TYPE_ServiceID => false,
        StateVariableName::A_ARG_TYPE_StateVariableValuePairs => false,
        StateVariableName::A_ARG_TYPE_StateVariableList => false,
    }
}

/// The state variables kept per InstanceID.
pub open spec fn state_var_instance_scoped(x: StateVariableName) -> bool {
    match x {
        StateVariableName::LastChange => false,
        StateVariableName::PresetNameList => false,
        StateVariableName::Brightness => true,
        StateVariableName::Contrast => true,
        StateVariableName::Sharpness => true,
        StateVariableName::RedVideoGain => true,
        StateVariableName::GreenVideoGain => true,
        StateVariableName::BlueVideoGain => true,
        StateVariableName::RedVideoBlackLevel => true,
        StateVariableName::GreenVideoBlackLevel => true,
        StateVariableName::BlueVideoBlackLevel => true,
        StateVariableName::ColorTemperature => true,
        StateVariableName::HorizontalKeystone => true,
        StateVariableName::VerticalKeystone => true,
        StateVariableName::Mute => true,
        StateVariableName::Volume => true,
        StateVariableName::VolumeDB => true,
        StateVariableName::Loudness => true,
        StateVariableName::AllowedTransformSettings => true,
        StateVariableName::TransformSettings => true,
        StateVariableName::AllowedDefaultTransformSettings => true,
        StateVariableName::DefaultTransformSettings => true,
        StateVariableName::A_ARG_TYPE_InstanceID => false,
        StateVariableName::A_ARG_TYPE_Channel => false,
        StateVariableName::A_ARG_TYPE_PresetName => false,
        StateVariableName::A_ARG_TYPE_DeviceUDN => false,
        StateVariableName::A_ARG_TYPE_ServiceType => false,
        StateVariableName::A_ARG_TYPE_ServiceID => false,
        StateVariableName::A_ARG_TYPE_StateVariableValuePairs => false,
        StateVariableName::A_ARG_TYPE_StateVariableList => false,
    }
}

/// The SCPD data type name of each state variable.
pub open spec fn state_var_type_name(x: StateVariableName) -> Seq<char> {
    match x {
        StateVariableName::LastChange => "string"@,
        StateVariableName::PresetNameList => "string"@,
        StateVariableName::Brightness => "ui2"@,
        StateVariableName::Contrast => "ui2"@,
        StateVariableName::Sharpness => "ui2"@,
        StateVariableName::RedVideoGain => "ui2"@,
        StateVariableName::GreenVideoGain => "ui2"@,
        StateVariableName::BlueVideoGain => "ui2"@,
        StateVariableName::RedVideoBlackLevel => "ui2"@,
        StateVariableName::GreenVideoBlackLevel => "ui2"@,
        StateVariableName::BlueVideoBlackLevel => "ui2"@,
        StateVariableName::ColorTemperature => "ui2"@,
        StateVariableName::HorizontalKeystone => "i2"@,
        StateVariableName::VerticalKeystone => "i2"@,
        StateVariableName::Mute => "boolean"@,
        StateVariableName::Volume => "ui2"@,
        StateVariableName::VolumeDB => "i2"@,
        StateVariableName::Loudness => "boolean"@,
        StateVariableName::AllowedTransformSettings => "string"@,
        StateVariableName::TransformSettings => "string"@,
        StateVariableName::AllowedDefaultTransformSettings => "string"@,
        StateVariableName::DefaultTransformSettings => "string"@,
        StateVariableName::A_ARG_TYPE_InstanceID => "ui4"@,
        StateVariableName::A_ARG_TYPE_Channel => "string"@,
        StateVariableName::A_ARG_TYPE_PresetName => "string"@,
        StateVariableName::A_ARG_TYPE_DeviceUDN => "string"@,
        StateVariableName::A_ARG_TYPE_ServiceType => "string"@,
        StateVariableName::A_ARG_TYPE_ServiceID => "string"@,
        StateVariableName::A_ARG_TYPE_StateVariableValuePairs => "string"@,
        StateVariableName::A_ARG_TYPE_StateVariableList => "string"@,
    }
}

impl crate::state::StateVariableName for StateVariableName {
    open spec fn wire_name(&self) -> Seq<char> {
        state_var_str(*self)
    }

    open spec fn evented(&self) -> bool {
        state_var_evented(*self)
    }

    open spec fn in_last_change(&self) -> bool {
        state_var_via_lastchange(*self)
    }

    open spec fn instance_scoped(&self) -> bool {
        state_var_instance_scoped(*self)
    }

    open spec fn data_type_text(&self) -> Seq<char> {
        state_var_type_name(*self)
    }

    open spec fn registered(&self) -> bool {
        crate::services::renderingcontrol::registered_name(*self)
    }

    /// Returns the UPnP wire format name.
    fn as_str(&self) -> (r: &'static str) {
        match self {
            StateVariableName::LastChange => "LastChange",
            StateVariableName::PresetNameList => "PresetNameList",
            StateVariableName::Brightness => "Brightness",
            StateVariableName::Contrast => "Contrast",
            StateVariableName::Sharpness => "Sharpness",
            StateVariableName::RedVideoGain => "RedVideoGain",
            StateVariableName::GreenVideoGain => "GreenVideoGain",
            StateVariableName::BlueVideoGain => "BlueVideoGain",
            StateVariableName::RedVideoBlackLevel => "RedVideoBlackLevel",
            StateVariableName::GreenVideoBlackLevel => "GreenVideoBlackLevel",
            StateVariableName::BlueVideoBlackLevel => "BlueVideoBlackLevel",
            StateVariableName::ColorTemperature => "ColorTemperature",
            StateVariableName::HorizontalKeystone => "HorizontalKeystone",
            StateVariableName::VerticalKeystone => "VerticalKeystone",
            StateVariableName::Mute => "Mute",
            StateVariableName::Volume => "Volume",
            StateVariableName::VolumeDB => "VolumeDB",
            StateVariableName::Loudness => "Loudness",
            StateVariableName::AllowedTransformSettings => "AllowedTransformSettings",
            StateVariableName::TransformSettings => "TransformSettings",
            StateVariableName::AllowedDefaultTransformSettings => "AllowedDefaultTransformSettings",
            StateVariableName::DefaultTransformSettings => "DefaultTransformSettings",
            StateVariableName::A_ARG_TYPE_InstanceID => "A_ARG_TYPE_InstanceID",
            StateVariableName::A_ARG_TYPE_Channel => "A_ARG_TYPE_Channel",
            StateVariableName::A_ARG_TYPE_PresetName => "A_ARG_TYPE_PresetName",
            StateVariableName::A_ARG_TYPE_DeviceUDN => "A_ARG_TYPE_DeviceUDN",
            StateVariableName::A_ARG_TYPE_ServiceType => "A_ARG_TYPE_ServiceType",
            StateVariableName::A_ARG_TYPE_ServiceID => "A_ARG_TYPE_ServiceID",
            StateVariableName::A_ARG_TYPE_StateVariableValuePairs => "A_ARG_TYPE_StateVariableValuePairs",
            StateVariableName::A_ARG_TYPE_StateVariableList => "A_ARG_TYPE_StateVariableList",
        }
    }

    /// Returns true if this variable is evented per UPnP spec (is_evented=YES column).
    fn is_evented(&self) -> (r: bool) {
        match self {
            StateVariableName::LastChange => true,
            StateVariableName::PresetNameList => false,
            StateVariableName::Brightness => false,
            StateVariableName::Contrast => false,
            StateVariableName::Sharpness => false,
            StateVariableName::RedVideoGain => false,
            StateVariableName::GreenVideoGain => false,
            StateVariableName::BlueVideoGain => false,
            StateVariableName::RedVideoBlackLevel => false,
            StateVariableName::GreenVideoBlackLevel => false,
            StateVariableName::BlueVideoBlackLevel => false,
            StateVariableName::ColorTemperature => false,
            StateVariableName::HorizontalKeystone => false,
            StateVariableName::VerticalKeystone => false,
            StateVariableName::Mute => false,
            StateVariableName::Volume => false,
            StateVariableName::VolumeDB => false,
            StateVariableName::Loudness => false,
            StateVariableName::AllowedTransformSettings => false,
            StateVariableName::TransformSettings => false,
            StateVariableName::AllowedDefaultTransformSettings => false,
            StateVariableName::DefaultTransformSettings => false,
            StateVariableName::A_ARG_TYPE_InstanceID => false,
            StateVariableName::A_ARG_TYPE_Channel => false,
            StateVariableName::A_ARG_TYPE_PresetName => false,
            StateVariableName::A_ARG_TYPE_DeviceUDN => false,
            StateVariableName::A_ARG_TYPE_ServiceType => false,
            StateVariableName::A_ARG_TYPE_ServiceID => false,
            StateVariableName::A_ARG_TYPE_StateVariableValuePairs => false,
            StateVariableName::A_ARG_TYPE_StateVariableList => false,
        }
    }

    /// Returns true if this variable is indirectly evented via the LastChange XML payload.
    fn via_lastchange(&self) -> (r: bool) {
        match self {
            StateVariableName::LastChange => false,
            StateVariableName::PresetNameList => true,
            StateVariableName::Brightness => true,
            StateVariableName::Contrast => true,
            StateVariableName::Sharpness => true,
            StateVariableName::RedVideoGain => true,
            StateVariableName::GreenVideoGain => true,
            StateVariableName::BlueVideoGain => true,
            StateVariableName::RedVideoBlackLevel => true,
            StateVariableName::GreenVideoBlackLevel => true,
            StateVariableName::BlueVideoBlackLevel => true,
            StateVariableName::ColorTemperature => true,
            StateVariableName::HorizontalKeystone => true,
            StateVariableName::VerticalKeystone => true,
            StateVariableName::Mute => true,
            StateVariableName::Volume => true,
            StateVariableName::VolumeDB => true,
            StateVariableName::Loudness => true,
            StateVariableName::AllowedTransformSettings => true,
            StateVariableName::TransformSettings => true,
            StateVariableName::AllowedDefaultTransformSettings => true,
            StateVariableName::DefaultTransformSettings => true,
            StateVariableName::A_ARG_TYPE_InstanceID => false,
            StateVariableName::A_ARG_TYPE_Channel => false,
            StateVariableName::A_ARG_TYPE_PresetName => false,
            StateVariableName::A_ARG_TYPE_DeviceUDN => false,
            StateVariableName::A_ARG_TYPE_ServiceType => false,
            StateVariableName::A_ARG_TYPE_ServiceID => false,
            StateVariableName::A_ARG_TYPE_StateVariableValuePairs => false,
            StateVariableName::A_ARG_TYPE_StateVariableList => false,
        }
    }

    /// Returns true if this variable is scoped per InstanceID.
    fn is_instance_scoped(&self) -> (r: bool) {
        match self {
            StateVariableName::LastChange => false,
            StateVariableName::PresetNameList => false,
            StateVariableName::Brightness => true,
            StateVariableName::Contrast => true,
            StateVariableName::Sharpness => true,
            StateVariableName::RedVideoGain => true,
            StateVariableName::GreenVideoGain => true,
            StateVariableName::BlueVideoGain => true,
            StateVariableName::RedVideoBlackLevel => true,
            StateVariableName::GreenVideoBlackLevel => true,
            StateVariableName::BlueVideoBlackLevel => true,
            StateVariableName::ColorTemperature => true,
            StateVariableName::HorizontalKeystone => true,
            StateVariableName::VerticalKeystone => true,
            StateVariableName::Mute => true,
            StateVariableName::Volume => true,
            StateVariableName::VolumeDB => true,
            StateVariableName::Loudness => true,
            StateVariableName::AllowedTransformSettings => true,
            StateVariableName::TransformSettings => true,
            StateVariableName::AllowedDefaultTransformSettings => true,
            StateVariableName::DefaultTransformSettings => true,
            StateVariableName::A_ARG_TYPE_InstanceID => false,
            StateVariableName::A_ARG_TYPE_Channel => false,
            StateVariableName::A_ARG_TYPE_PresetName => false,
            StateVariableName::A_ARG_TYPE_DeviceUDN => false,
            StateVariableName::A_ARG_TYPE_ServiceType => false,
            StateVariableName::A_ARG_TYPE_ServiceID => false,
            StateVariableName::A_ARG_TYPE_StateVariableValuePairs => false,
            StateVariableName::A_ARG_TYPE_StateVariableList => false,
        }
    }

    /// Returns the UPnP wire type name for SCPD XML generation.
    fn data_type_name(&self) -> (r: &'static str) {
        match self {
            StateVariableName::LastChange => "string",
            StateVariableName::PresetNameList => "string",
            StateVariableName::Brightness => "ui2",
            StateVariableName::Contrast => "ui2",
            StateVariableName::Sharpness => "ui2",
            StateVariableName::RedVideoGain => "ui2",
            StateVariableName::GreenVideoGain => "ui2",
            StateVariableName::BlueVideoGain => "ui2",
            StateVariableName::RedVideoBlackLevel => "ui2",
            StateVariableName::GreenVideoBlackLevel => "ui2",
            StateVariableName::BlueVideoBlackLevel => "ui2",
            StateVariableName::ColorTemperature => "ui2",
            StateVariableName::HorizontalKeystone => "i2",
            StateVariableName::VerticalKeystone => "i2",
            StateVariableName::Mute => "boolean",
            StateVariableName::Volume => "ui2",
            StateVariableName::VolumeDB => "i2",
            StateVariableName::Loudness => "boolean",
            StateVariableName::AllowedTransformSettings => "string",
            StateVariableName::TransformSettings => "string",
            StateVariableName::AllowedDefaultTransformSettings => "string",
            StateVariableName::DefaultTransformSettings => "string",
            StateVariableName::A_ARG_TYPE_InstanceID => "ui4",
            StateVariableName::A_ARG_TYPE_Channel => "string",
            StateVariableName::A_ARG_TYPE_PresetName => "string",
            StateVariableName::A_ARG_TYPE_DeviceUDN => "string",
            StateVariableName::A_ARG_TYPE_ServiceType => "string",
            StateVariableName::A_ARG_TYPE_ServiceID => "string",
            StateVariableName::A_ARG_TYPE_StateVariableValuePairs => "string",
            StateVariableName::A_ARG_TYPE_StateVariableList => "string",
        }
    }

}

} // verus!
