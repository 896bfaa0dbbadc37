//! AVTransport domain enums, action and argument names, error codes and
//! state variable names.
use vstd::prelude::*;

use crate::text::{chars_eq_str, chars_of, nat_to_decimal, push_decimal, push_str, to_owned_string};
use crate::types::upnp::ServiceVersion;

verus! {

broadcast use vstd::string::group_string_axioms;

/// AVTransport service version
pub const V3: ServiceVersion = ServiceVersion::V3;

/// Transport state per UPnP-av-AVTransport-v3 spec §4.1.
#[derive(Debug, Clone, Copy, PartialEq, Eq, Structural, Hash)]
pub enum TransportState {
    Stopped,
    Playing,
    Transitioning,
    PausedPlayback,
    NoMediaPresent,
}

/// The wire name of each `TransportState` value.
pub open spec fn transport_state_str(x: TransportState) -> Seq<char> {
    match x {
        TransportState::Stopped => "STOPPED"@,
        TransportState::Playing => "PLAYING"@,
        TransportState::Transitioning => "TRANSITIONING"@,
        TransportState::PausedPlayback => "PAUSED_PLAYBACK"@,
        TransportState::NoMediaPresent => "NO_MEDIA_PRESENT"@,
    }
}

/// The `TransportState` value whose wire name is `s`, if any.
pub open spec fn transport_state_from_str(s: Seq<char>) -> Option<TransportState> {
    if s == "STOPPED"@ {
        Some(TransportState::Stopped)
    } else if s == "PLAYING"@ {
        Some(TransportState::Playing)
    } else if s == "TRANSITIONING"@ {
        Some(TransportState::Transitioning)
    } else if s == "PAUSED_PLAYBACK"@ {
        Some(TransportState::PausedPlayback)
    } else if s == "NO_MEDIA_PRESENT"@ {
        Some(TransportState::NoMediaPresent)
    } else {
        None
    }
}

impl TransportState {
    /// The wire name of this value.
    pub fn as_str(&self) -> (r: &'static str)
        ensures
            r@ == transport_state_str(*self),
    {
        match self {
            TransportState::Stopped => "STOPPED",
            TransportState::Playing => "PLAYING",
            TransportState::Transitioning => "TRANSITIONING",
            TransportState::PausedPlayback => "PAUSED_PLAYBACK",
            TransportState::NoMediaPresent => "NO_MEDIA_PRESENT",
        }
    }

    /// The value whose wire name is `s`, if any.
    pub fn from_str(s: &str) -> (r: Option<Self>)
        ensures
            r == transport_state_from_str(s@),
    {
        let cs = chars_of(s);
        if chars_eq_str(&cs, "STOPPED") {
            Some(TransportState::Stopped)
        } else if chars_eq_str(&cs, "PLAYING") {
            Some(TransportState::Playing)
        } else if chars_eq_str(&cs, "TRANSITIONING") {
            Some(TransportState::Transitioning)
        } else if chars_eq_str(&cs, "PAUSED_PLAYBACK") {
            Some(TransportState::PausedPlayback)
        } else if chars_eq_str(&cs, "NO_MEDIA_PRESENT") {
            Some(TransportState::NoMediaPresent)
        } else {
            None
        }
    }
}

/// Reading back the wire name of a `TransportState` gives that value.
pub proof fn lemma_transport_state_roundtrip(x: TransportState)
    ensures
        transport_state_from_str(transport_state_str(x)) == Some(x),
{
    reveal_strlit("NO_MEDIA_PRESENT");
    reveal_strlit("PAUSED_PLAYBACK");
    reveal_strlit("PLAYING");
    reveal_strlit("STOPPED");
    reveal_strlit("TRANSITIONING");
    match x {
        TransportState::Stopped => {},
        TransportState::Playing => {
            assert("PLAYING"@[0] != "STOPPED"@[0]);
        },
        TransportState::Transitioning => {
            assert("TRANSITIONING"@.len() != "STOPPED"@.len());
            assert("TRANSITIONING"@.len() != "PLAYING"@.len());
        },
        TransportState::PausedPlayback => {
            assert("PAUSED_PLAYBACK"@.len() != "STOPPED"@.len());
            assert("PAUSED_PLAYBACK"@.len() != "PLAYING"@.len());
            assert("PAUSED_PLAYBACK"@.len() != "TRANSITIONING"@.len());
        },
        TransportState::NoMediaPresent => {
            assert("NO_MEDIA_PRESENT"@.len() != "STOPPED"@.len());
            assert("NO_MEDIA_PRESENT"@.len() != "PLAYING"@.len());
            assert("NO_MEDIA_PRESENT"@.len() != "TRANSITIONING"@.len());
            assert("NO_MEDIA_PRESENT"@.len() != "PAUSED_PLAYBACK"@.len());
        },
    }
}

/// Transport status per UPnP-av-AVTransport-v3 spec §4.1.
#[derive(Debug, Clone, Copy, PartialEq, Eq, Structural, Hash)]
pub enum TransportStatus {
    OK,
    ErrorOccurred,
}

/// The wire name of each `TransportStatus` value.
pub open spec fn transport_status_str(x: TransportStatus) -> Seq<char> {
    match x {
        TransportStatus::OK => "OK"@,
        TransportStatus::ErrorOccurred => "ERROR_OCCURRED"@,
    }
}

/// The `TransportStatus` value whose wire name is `s`, if any.
pub open spec fn transport_status_from_str(s: Seq<char>) -> Option<TransportStatus> {
    if s == "OK"@ {
        Some(TransportStatus::OK)
    } else if s == "ERROR_OCCURRED"@ {
        Some(TransportStatus::ErrorOccurred)
    } else {
        None
    }
}

impl TransportStatus {
    /// The wire name of this value.
    pub fn as_str(&self) -> (r: &'static str)
        ensures
            r@ == transport_status_str(*self),
    {
        match self {
            TransportStatus::OK => "OK",
            TransportStatus::ErrorOccurred => "ERROR_OCCURRED",
        }
    }

    /// The value whose wire name is `s`, if any.
    pub fn from_str(s: &str) -> (r: Option<Self>)
        ensures
            r == transport_status_from_str(s@),
    {
        let cs = chars_of(s);
        if chars_eq_str(&cs, "OK") {
            Some(TransportStatus::OK)
        } else if chars_eq_str(&cs, "ERROR_OCCURRED") {
            Some(TransportStatus::ErrorOccurred)
        } else {
            None
        }
    }
}

/// Reading back the wire name of a `TransportStatus` gives that value.
pub proof fn lemma_transport_status_roundtrip(x: TransportStatus)
    ensures
        transport_status_from_str(transport_status_str(x)) == Some(x),
{
    reveal_strlit("ERROR_OCCURRED");
    reveal_strlit("OK");
    match x {
        TransportStatus::OK => {},
        TransportStatus::ErrorOccurred => {
            assert("ERROR_OCCURRED"@.len() != "OK"@.len());
        },
    }
}

/// Current play mode per UPnP-av-AVTransport-v3 spec §4.1.
#[derive(Debug, Clone, Copy, PartialEq, Eq, Structural, Hash)]
pub enum PlayMode {
    Normal,
    Shuffle,
    RepeatOne,
    RepeatAll,
    Random,
    Direct1,
    Intro,
}

/// The wire name of each `PlayMode` value.
pub open spec fn play_mode_str(x: PlayMode) -> Seq<char> {
    match x {
        PlayMode::Normal => "NORMAL"@,
        PlayMode::Shuffle => "SHUFFLE"@,
        PlayMode::RepeatOne => "REPEAT_ONE"@,
        PlayMode::RepeatAll => "REPEAT_ALL"@,
        PlayMode::Random => "RANDOM"@,
        PlayMode::Direct1 => "DIRECT_1"@,
        PlayMode::Intro => "INTRO"@,
    }
}

/// The `PlayMode` value whose wire name is `s`, if any.
pub open spec fn play_mode_from_str(s: Seq<char>) -> Option<PlayMode> {
    if s == "NORMAL"@ {
        Some(PlayMode::Normal)
    } else if s == "SHUFFLE"@ {
        Some(PlayMode::Shuffle)
    } else if s == "REPEAT_ONE"@ {
        Some(PlayMode::RepeatOne)
    } else if s == "REPEAT_ALL"@ {
        Some(PlayMode::RepeatAll)
    } else if s == "RANDOM"@ {
        Some(PlayMode::Random)
    } else if s == "DIRECT_1"@ {
        Some(PlayMode::Direct1)
    } else if s == "INTRO"@ {
        Some(PlayMode::Intro)
    } else {
        None
    }
}

impl PlayMode {
    /// The wire name of this value.
    pub fn as_str(&self) -> (r: &'static str)
        ensures
            r@ == play_mode_str(*self),
    {
        match self {
            PlayMode::Normal => "NORMAL",
            PlayMode::Shuffle => "SHUFFLE",
            PlayMode::RepeatOne => "REPEAT_ONE",
            PlayMode::RepeatAll => "REPEAT_ALL",
            PlayMode::Random => "RANDOM",
            PlayMode::Direct1 => "DIRECT_1",
            PlayMode::Intro => "INTRO",
        }
    }

    /// The value whose wire name is `s`, if any.
    pub fn from_str(s: &str) -> (r: Option<Self>)
        ensures
            r == play_mode_from_str(s@),
    {
        let cs = chars_of(s);
        if chars_eq_str(&cs, "NORMAL") {
            Some(PlayMode::Normal)
        } else if chars_eq_str(&cs, "SHUFFLE") {
            Some(PlayMode::Shuffle)
        } else if chars_eq_str(&cs, "REPEAT_ONE") {
            Some(PlayMode::RepeatOne)
        } else if chars_eq_str(&cs, "REPEAT_ALL") {
            Some(PlayMode::RepeatAll)
        } else if chars_eq_str(&cs, "RANDOM") {
            Some(PlayMode::Random)
        } else if chars_eq_str(&cs, "DIRECT_1") {
            Some(PlayMode::Direct1)
        } else if chars_eq_str(&cs, "INTRO") {
            Some(PlayMode::Intro)
        } else {
            None
        }
    }
}

/// Reading back the wire name of a `PlayMode` gives that value.
pub proof fn lemma_play_mode_roundtrip(x: PlayMode)
    ensures
        play_mode_from_str(play_mode_str(x)) == Some(x),
{
    reveal_strlit("DIRECT_1");
    reveal_strlit("INTRO");
    reveal_strlit("NORMAL");
    reveal_strlit("RANDOM");
    reveal_strlit("REPEAT_ALL");
    reveal_strlit("REPEAT_ONE");
    reveal_strlit("SHUFFLE");
    match x {
        PlayMode::Normal => {},
        PlayMode::Shuffle => {
            assert("SHUFFLE"@.len() != "NORMAL"@.len());
        },
        PlayMode::RepeatOne => {
            assert("REPEAT_ONE"@.len() != "NORMAL"@.len());
            assert("REPEAT_ONE"@.len() != "SHUFFLE"@.len());
        },
        PlayMode::RepeatAll => {
            assert("REPEAT_ALL"@.len() != "NORMAL"@.len());
            assert("REPEAT_ALL"@.len() != "SHUFFLE"@.len());
            assert("REPEAT_ALL"@[7] != "REPEAT_ONE"@[7]);
        },
        PlayMode::Random => {
            assert("RANDOM"@[0] != "NORMAL"@[0]);
            assert("RANDOM"@.len() != "SHUFFLE"@.len());
            assert("RANDOM"@.len() != "REPEAT_ONE"@.len());
            assert("RANDOM"@.len() != "REPEAT_ALL"@.len());
        },
        PlayMode::Direct1 => {
            assert("DIRECT_1"@.len() != "NORMAL"@.len());
            assert("DIRECT_1"@.len() != "SHUFFLE"@.len());
            assert("DIRECT_1"@.len() != "REPEAT_ONE"@.len());
            assert("DIRECT_1"@.len() != "REPEAT_ALL"@.len());
            assert("DIRECT_1"@.len() != "RANDOM"@.len());
        },
        PlayMode::Intro => {
            assert("INTRO"@.len() != "NORMAL"@.len());
            assert("INTRO"@.len() != "SHUFFLE"@.len());
            assert("INTRO"@.len() != "REPEAT_ONE"@.len());
            assert("INTRO"@.len() != "REPEAT_ALL"@.len());
            assert("INTRO"@.len() != "RANDOM"@.len());
            assert("INTRO"@.len() != "DIRECT_1"@.len());
        },
    }
}

/// Playback/record storage medium per UPnP-av-AVTransport-v3 spec §4.1.
#[derive(Debug, Clone, Copy, PartialEq, Eq, Structural, Hash)]
pub enum StorageMedium {
    Unknown,
    Dv,
    MiniDv,
    Vhs,
    WVhs,
    SVhs,
    DVhs,
    VHSC,
    Video8,
    Hi8,
    CdRom,
    CdDa,
    CdR,
    CdRW,
    VideoCd,
    Sacd,
    MdAudio,
    MdPicture,
    DvdRom,
    DvdVideo,
    DvdPlusR,
    DvdMinusR,
    DvdPlusRW,
    DvdMinusRW,
    DvdRAM,
    DdAudio,
    Dat,
    Ld,
    Hdd,
    MicroMv,
    Network,
    NONE,
    NotImplemented,
    Sd,
    PcCard,
    MMC,
    CF,
    BD,
    MS,
    HDDVD,
}

/// The wire name of each `StorageMedium` value.
pub open spec fn storage_medium_str(x: StorageMedium) -> Seq<char> {
    match x {
        StorageMedium::Unknown => "UNKNOWN"@,
        StorageMedium::Dv => "DV"@,
        StorageMedium::MiniDv => "MINI-DV"@,
        StorageMedium::Vhs => "VHS"@,
        StorageMedium::WVhs => "W-VHS"@,
        StorageMedium::SVhs => "S-VHS"@,
        StorageMedium::DVhs => "D-VHS"@,
        StorageMedium::VHSC => "VHSC"@,
        StorageMedium::Video8 => "VIDEO8"@,
        StorageMedium::Hi8 => "HI8"@,
        StorageMedium::CdRom => "CD-ROM"@,
        StorageMedium::CdDa => "CD-DA"@,
        StorageMedium::CdR => "CD-R"@,
        StorageMedium::CdRW => "CD-RW"@,
        StorageMedium::VideoCd => "VIDEO-CD"@,
        StorageMedium::Sacd => "SACD"@,
        StorageMedium::MdAudio => "MD-AUDIO"@,
        StorageMedium::MdPicture => "MD-PICTURE"@,
        StorageMedium::DvdRom => "DVD-ROM"@,
        StorageMedium::DvdVideo => "DVD-VIDEO"@,
        StorageMedium::DvdPlusR => "DVD+R"@,
        StorageMedium::DvdMinusR => "DVD-R"@,
        StorageMedium::DvdPlusRW => "DVD+RW"@,
        StorageMedium::DvdMinusRW => "DVD-RW"@,
        StorageMedium::DvdRAM => "DVD-RAM"@,
        StorageMedium::DdAudio => "DVD-AUDIO"@,
        StorageMedium::Dat => "DAT"@,
        StorageMedium::Ld => "LD"@,
        StorageMedium::Hdd => "HDD"@,
        StorageMedium::MicroMv => "MICRO-MV"@,
        StorageMedium::Network => "NETWORK"@,
        StorageMedium::NONE => "NONE"@,
        StorageMedium::NotImplemented => "NOT_IMPLEMENTED"@,
        StorageMedium::Sd => "SD"@,
        StorageMedium::PcCard => "PC-CARD"@,
        StorageMedium::MMC => "MMC"@,
        StorageMedium::CF => "CF"@,
        StorageMedium::BD => "BD"@,
        StorageMedium::MS => "MS"@,
        StorageMedium::HDDVD => "HD_DVD"@,
    }
}

/// The `StorageMedium` value whose wire name is `s`, if any.
pub open spec fn storage_medium_from_str(s: Seq<char>) -> Option<StorageMedium> {
    if s == "UNKNOWN"@ {
        Some(StorageMedium::Unknown)
    } else if s == "DV"@ {
        Some(StorageMedium::Dv)
    } else if s == "MINI-DV"@ {
        Some(StorageMedium::MiniDv)
    } else if s == "VHS"@ {
        Some(StorageMedium::Vhs)
    } else if s == "W-VHS"@ {
        Some(StorageMedium::WVhs)
    } else if s == "S-VHS"@ {
        Some(StorageMedium::SVhs)
    } else if s == "D-VHS"@ {
        Some(StorageMedium::DVhs)
    } else if s == "VHSC"@ {
        Some(StorageMedium::VHSC)
    } else if s == "VIDEO8"@ {
        Some(StorageMedium::Video8)
    } else if s == "HI8"@ {
        Some(StorageMedium::Hi8)
    } else if s == "CD-ROM"@ {
        Some(StorageMedium::CdRom)
    } else if s == "CD-DA"@ {
        Some(StorageMedium::CdDa)
    } else if s == "CD-R"@ {
        Some(StorageMedium::CdR)
    } else if s == "CD-RW"@ {
        Some(StorageMedium::CdRW)
    } else if s == "VIDEO-CD"@ {
        Some(StorageMedium::VideoCd)
    } else if s == "SACD"@ {
        Some(StorageMedium::Sacd)
    } else if s == "MD-AUDIO"@ {
        Some(StorageMedium::MdAudio)
    } else if s == "MD-PICTURE"@ {
        Some(StorageMedium::MdPicture)
    } else if s == "DVD-ROM"@ {
        Some(StorageMedium::DvdRom)
    } else if s == "DVD-VIDEO"@ {
        Some(StorageMedium::DvdVideo)
    } else if s == "DVD+R"@ {
        Some(StorageMedium::DvdPlusR)
    } else if s == "DVD-R"@ {
        Some(StorageMedium::DvdMinusR)
    } else if s == "DVD+RW"@ {
        Some(StorageMedium::DvdPlusRW)
    } else if s == "DVD-RW"@ {
        Some(StorageMedium::DvdMinusRW)
    } else if s == "DVD-RAM"@ {
        Some(StorageMedium::DvdRAM)
    } else if s == "DVD-AUDIO"@ {
        Some(StorageMedium::DdAudio)
    } else if s == "DAT"@ {
        Some(StorageMedium::Dat)
    } else if s == "LD"@ {
        Some(StorageMedium::Ld)
    } else if s == "HDD"@ {
        Some(StorageMedium::Hdd)
    } else if s == "MICRO-MV"@ {
        Some(StorageMedium::MicroMv)
    } else if s == "NETWORK"@ {
        Some(StorageMedium::Network)
    } else if s == "NONE"@ {
        Some(StorageMedium::NONE)
    } else if s == "NOT_IMPLEMENTED"@ {
        Some(StorageMedium::NotImplemented)
    } else if s == "SD"@ {
        Some(StorageMedium::Sd)
    } else if s == "PC-CARD"@ {
        Some(StorageMedium::PcCard)
    } else if s == "MMC"@ {
        Some(StorageMedium::MMC)
    } else if s == "CF"@ {
        Some(StorageMedium::CF)
    } else if s == "BD"@ {
        Some(StorageMedium::BD)
    } else if s == "MS"@ {
        Some(StorageMedium::MS)
    } else if s == "HD_DVD"@ {
        Some(StorageMedium::HDDVD)
    } else {
        None
    }
}

impl StorageMedium {
    /// The wire name of this value.
    pub fn as_str(&self) -> (r: &'static str)
        ensures
            r@ == storage_medium_str(*self),
    {
        match self {
            StorageMedium::Unknown => "UNKNOWN",
            StorageMedium::Dv => "DV",
            StorageMedium::MiniDv => "MINI-DV",
            StorageMedium::Vhs => "VHS",
            StorageMedium::WVhs => "W-VHS",
            StorageMedium::SVhs => "S-VHS",
            StorageMedium::DVhs => "D-VHS",
            StorageMedium::VHSC => "VHSC",
            StorageMedium::Video8 => "VIDEO8",
            StorageMedium::Hi8 => "HI8",
            StorageMedium::CdRom => "CD-ROM",
            StorageMedium::CdDa => "CD-DA",
            StorageMedium::CdR => "CD-R",
            StorageMedium::CdRW => "CD-RW",
            StorageMedium::VideoCd => "VIDEO-CD",
            StorageMedium::Sacd => "SACD",
            StorageMedium::MdAudio => "MD-AUDIO",
            StorageMedium::MdPicture => "MD-PICTURE",
            StorageMedium::DvdRom => "DVD-ROM",
            StorageMedium::DvdVideo => "DVD-VIDEO",
            StorageMedium::DvdPlusR => "DVD+R",
            StorageMedium::DvdMinusR => "DVD-R",
            StorageMedium::DvdPlusRW => "DVD+RW",
            StorageMedium::DvdMinusRW => "DVD-RW",
            StorageMedium::DvdRAM => "DVD-RAM",
            StorageMedium::DdAudio => "DVD-AUDIO",
            StorageMedium::Dat => "DAT",
            StorageMedium::Ld => "LD",
            StorageMedium::Hdd => "HDD",
            StorageMedium::MicroMv => "MICRO-MV",
            StorageMedium::Network => "NETWORK",
            StorageMedium::NONE => "NONE",
            StorageMedium::NotImplemented => "NOT_IMPLEMENTED",
            StorageMedium::Sd => "SD",
            StorageMedium::PcCard => "PC-CARD",
            StorageMedium::MMC => "MMC",
            StorageMedium::CF => "CF",
            StorageMedium::BD => "BD",
            StorageMedium::MS => "MS",
            StorageMedium::HDDVD => "HD_DVD",
        }
    }

    /// The value whose wire name is `s`, if any.
    pub fn from_str(s: &str) -> (r: Option<Self>)
        ensures
            r == storage_medium_from_str(s@),
    {
        let cs = chars_of(s);
        if chars_eq_str(&cs, "UNKNOWN") {
            Some(StorageMedium::Unknown)
        } else if chars_eq_str(&cs, "DV") {
            Some(StorageMedium::Dv)
        } else if chars_eq_str(&cs, "MINI-DV") {
            Some(StorageMedium::MiniDv)
        } else if chars_eq_str(&cs, "VHS") {
            Some(StorageMedium::Vhs)
        } else if chars_eq_str(&cs, "W-VHS") {
            Some(StorageMedium::WVhs)
        } else if chars_eq_str(&cs, "S-VHS") {
            Some(StorageMedium::SVhs)
        } else if chars_eq_str(&cs, "D-VHS") {
            Some(StorageMedium::DVhs)
        } else if chars_eq_str(&cs, "VHSC") {
            Some(StorageMedium::VHSC)
        } else if chars_eq_str(&cs, "VIDEO8") {
            Some(StorageMedium::Video8)
        } else if chars_eq_str(&cs, "HI8") {
            Some(StorageMedium::Hi8)
        } else if chars_eq_str(&cs, "CD-ROM") {
            Some(StorageMedium::CdRom)
        } else if chars_eq_str(&cs, "CD-DA") {
            Some(StorageMedium::CdDa)
        } else if chars_eq_str(&cs, "CD-R") {
            Some(StorageMedium::CdR)
        } else if chars_eq_str(&cs, "CD-RW") {
            Some(StorageMedium::CdRW)
        } else if chars_eq_str(&cs, "VIDEO-CD") {
            Some(StorageMedium::VideoCd)
        } else if chars_eq_str(&cs, "SACD") {
            Some(StorageMedium::Sacd)
        } else if chars_eq_str(&cs, "MD-AUDIO") {
            Some(StorageMedium::MdAudio)
        } else if chars_eq_str(&cs, "MD-PICTURE") {
            Some(StorageMedium::MdPicture)
        } else if chars_eq_str(&cs, "DVD-ROM") {
            Some(StorageMedium::DvdRom)
        } else if chars_eq_str(&cs, "DVD-VIDEO") {
            Some(StorageMedium::DvdVideo)
        } else if chars_eq_str(&cs, "DVD+R") {
            Some(StorageMedium::DvdPlusR)
        } else if chars_eq_str(&cs, "DVD-R") {
            Some(StorageMedium::DvdMinusR)
        } else if chars_eq_str(&cs, "DVD+RW") {
            Some(StorageMedium::DvdPlusRW)
        } else if chars_eq_str(&cs, "DVD-RW") {
            Some(StorageMedium::DvdMinusRW)
        } else if chars_eq_str(&cs, "DVD-RAM") {
            Some(StorageMedium::DvdRAM)
        } else if chars_eq_str(&cs, "DVD-AUDIO") {
            Some(StorageMedium::DdAudio)
        } else if chars_eq_str(&cs, "DAT") {
            Some(StorageMedium::Dat)
        } else if chars_eq_str(&cs, "LD") {
            Some(StorageMedium::Ld)
        } else if chars_eq_str(&cs, "HDD") {
            Some(StorageMedium::Hdd)
        } else if chars_eq_str(&cs, "MICRO-MV") {
            Some(StorageMedium::MicroMv)
        } else if chars_eq_str(&cs, "NETWORK") {
            Some(StorageMedium::Network)
        } else if chars_eq_str(&cs, "NONE") {
            Some(StorageMedium::NONE)
        } else if chars_eq_str(&cs, "NOT_IMPLEMENTED") {
            Some(StorageMedium::NotImplemented)
        } else if chars_eq_str(&cs, "SD") {
            Some(StorageMedium::Sd)
        } else if chars_eq_str(&cs, "PC-CARD") {
            Some(StorageMedium::PcCard)
        } else if chars_eq_str(&cs, "MMC") {
            Some(StorageMedium::MMC)
        } else if chars_eq_str(&cs, "CF") {
            Some(StorageMedium::CF)
        } else if chars_eq_str(&cs, "BD") {
            Some(StorageMedium::BD)
        } else if chars_eq_str(&cs, "MS") {
            Some(StorageMedium::MS)
        } else if chars_eq_str(&cs, "HD_DVD") {
            Some(StorageMedium::HDDVD)
        } else {
            None
        }
    }
}

/// Reading back the wire name of a `StorageMedium` gives that value.
pub proof fn lemma_storage_medium_roundtrip(x: StorageMedium)
    ensures
        storage_medium_from_str(storage_medium_str(x)) == Some(x),
{
    reveal_strlit("BD");
    reveal_strlit("CD-DA");
    reveal_strlit("CD-R");
    reveal_strlit("CD-ROM");
    reveal_strlit("CD-RW");
    reveal_strlit("CF");
    reveal_strlit("D-VHS");
    reveal_strlit("DAT");
    reveal_strlit("DV");
    reveal_strlit("DVD+R");
    reveal_strlit("DVD+RW");
    reveal_strlit("DVD-AUDIO");
    reveal_strlit("DVD-R");
    reveal_strlit("DVD-RAM");
    reveal_strlit("DVD-ROM");
    reveal_strlit("DVD-RW");
    reveal_strlit("DVD-VIDEO");
    reveal_strlit("HDD");
    reveal_strlit("HD_DVD");
    reveal_strlit("HI8");
    reveal_strlit("LD");
    reveal_strlit("MD-AUDIO");
    reveal_strlit("MD-PICTURE");
    reveal_strlit("MICRO-MV");
    reveal_strlit("MINI-DV");
    reveal_strlit("MMC");
    reveal_strlit("MS");
    reveal_strlit("NETWORK");
    reveal_strlit("NONE");
    reveal_strlit("NOT_IMPLEMENTED");
    reveal_strlit("PC-CARD");
    reveal_strlit("S-VHS");
    reveal_strlit("SACD");
    reveal_strlit("SD");
    reveal_strlit("UNKNOWN");
    reveal_strlit("VHS");
    reveal_strlit("VHSC");
    reveal_strlit("VIDEO-CD");
    reveal_strlit("VIDEO8");
    reveal_strlit("W-VHS");
    match x {
        StorageMedium::Unknown => {},
        StorageMedium::Dv => {
            assert("DV"@.len() != "UNKNOWN"@.len());
        },
        StorageMedium::MiniDv => {
            assert("MINI-DV"@[0] != "UNKNOWN"@[0]);
            assert("MINI-DV"@.len() != "DV"@.len());
        },
        StorageMedium::Vhs => {
            assert("VHS"@.len() != "UNKNOWN"@.len());
            assert("VHS"@.len() != "DV"@.len());
            assert("VHS"@.len() != "MINI-DV"@.len());
        },
        StorageMedium::WVhs => {
            assert("W-VHS"@.len() != "UNKNOWN"@.len());
            assert("W-VHS"@.len() != "DV"@.len());
            assert("W-VHS"@.len() != "MINI-DV"@.len());
            assert("W-VHS"@.len() != "VHS"@.len());
        },
        StorageMedium::SVhs => {
            assert("S-VHS"@.len() != "UNKNOWN"@.len());
            assert("S-VHS"@.len() != "DV"@.len());
            assert("S-VHS"@.len() != "MINI-DV"@.len());
            assert("S-VHS"@.len() != "VHS"@.len());
            assert("S-VHS"@[0] != "W-VHS"@[0]);
        },
        StorageMedium::DVhs => {
            assert("D-VHS"@.len() != "UNKNOWN"@.len());
            assert("D-VHS"@.len() != "DV"@.len());
            assert("D-VHS"@.len() != "MINI-DV"@.len());
            assert("D-VHS"@.len() != "VHS"@.len());
            assert("D-VHS"@[0] != "W-VHS"@[0]);
            assert("D-VHS"@[0] != "S-VHS"@[0]);
        },
        StorageMedium::VHSC => {
            assert("VHSC"@.len() != "UNKNOWN"@.len());
            assert("VHSC"@.len() != "DV"@.len());
            assert("VHSC"@.len() != "MINI-DV"@.len());
            assert("VHSC"@.len() != "VHS"@.len());
            assert("VHSC"@.len() != "W-VHS"@.len());
            assert("VHSC"@.len() != "S-VHS"@.len());
            assert("VHSC"@.len() != "D-VHS"@.len());
        },
        StorageMedium::Video8 => {
            assert("VIDEO8"@.len() != "UNKNOWN"@.len());
            assert("VIDEO8"@.len() != "DV"@.len());
            assert("VIDEO8"@.len() != "MINI-DV"@.len());
            assert("VIDEO8"@.len() != "VHS"@.len());
            assert("VIDEO8"@.len() != "W-VHS"@.len());
            assert("VIDEO8"@.len() != "S-VHS"@.len());
            assert("VIDEO8"@.len() != "D-VHS"@.len());
            assert("VIDEO8"@.len() != "VHSC"@.len());
        },
        StorageMedium::Hi8 => {
            assert("HI8"@.len() != "UNKNOWN"@.len());
            assert("HI8"@.len() != "DV"@.len());
            assert("HI8"@.len() != "MINI-DV"@.len());
            assert("HI8"@[0] != "VHS"@[0]);
            assert("HI8"@.len() != "W-VHS"@.len());
            assert("HI8"@.len() != "S-VHS"@.len());
            assert("HI8"@.len() != "D-VHS"@.len());
            assert("HI8"@.len() != "VHSC"@.len());
            assert("HI8"@.len() != "VIDEO8"@.len());
        },
        StorageMedium::CdRom => {
            assert("CD-ROM"@.len() != "UNKNOWN"@.len());
            assert("CD-ROM"@.len() != "DV"@.len());
            assert("CD-ROM"@.len() != "MINI-DV"@.len());
            assert("CD-ROM"@.len() != "VHS"@.len());
            assert("CD-ROM"@.len() != "W-VHS"@.len());
            assert("CD-ROM"@.len() != "S-VHS"@.len());
            assert("CD-ROM"@.len() != "D-VHS"@.len());
            assert("CD-ROM"@.len() != "VHSC"@.len());
            assert("CD-ROM"@[0] != "VIDEO8"@[0]);
            assert("CD-ROM"@.len() != "HI8"@.len());
        },
        StorageMedium::CdDa => {
            assert("CD-DA"@.len() != "UNKNOWN"@.len());
            assert("CD-DA"@.len() != "DV"@.len());
            assert("CD-DA"@.len() != "MINI-DV"@.len());
            assert("CD-DA"@.len() != "VHS"@.len());
            assert("CD-DA"@[0] != "W-VHS"@[0]);
            assert("CD-DA"@[0] != "S-VHS"@[0]);
            assert("CD-DA"@[0] != "D-VHS"@[0]);
            assert("CD-DA"@.len() != "VHSC"@.len());
            assert("CD-DA"@.len() != "VIDEO8"@.len());
            assert("CD-DA"@.len() != "HI8"@.len());
            assert("CD-DA"@.len() != "CD-ROM"@.len());
        },
        StorageMedium::CdR => {
            assert("CD-R"@.len() != "UNKNOWN"@.len());
            assert("CD-R"@.len() != "DV"@.len());
            assert("CD-R"@.len() != "MINI-DV"@.len());
            assert("CD-R"@.len() != "VHS"@.len());
            assert("CD-R"@.len() != "W-VHS"@.len());
            assert("CD-R"@.len() != "S-VHS"@.len());
            assert("CD-R"@.len() != "D-VHS"@.len());
            assert("CD-R"@[0] != "VHSC"@[0]);
            assert("CD-R"@.len() != "VIDEO8"@.len());
            assert("CD-R"@.len() != "HI8"@.len());
            assert("CD-R"@.len() != "CD-ROM"@.len());
            assert("CD-R"@.len() != "CD-DA"@.len());
        },
        StorageMedium::CdRW => {
            assert("CD-RW"@.len() != "UNKNOWN"@.len());
            assert("CD-RW"@.len() != "DV"@.len());
            assert("CD-RW"@.len() != "MINI-DV"@.len());
            assert("CD-RW"@.len() != "VHS"@.len());
            assert("CD-RW"@[0] != "W-VHS"@[0]);
            assert("CD-RW"@[0] != "S-VHS"@[0]);
            assert("CD-RW"@[0] != "D-VHS"@[0]);
            assert("CD-RW"@.len() != "VHSC"@.len());
            assert("CD-RW"@.len() != "VIDEO8"@.len());
            assert("CD-RW"@.len() != "HI8"@.len());
            assert("CD-RW"@.len() != "CD-ROM"@.len());
            assert("CD-RW"@[3] != "CD-DA"@[3]);
            assert("CD-RW"@.len() != "CD-R"@.len());
        },
        StorageMedium::VideoCd => {
            assert("VIDEO-CD"@.len() != "UNKNOWN"@.len());
            assert("VIDEO-CD"@.len() != "DV"@.len());
            assert("VIDEO-CD"@.len() != "MINI-DV"@.len());
            assert("VIDEO-CD"@.len() != "VHS"@.len());
            assert("VIDEO-CD"@.len() != "W-VHS"@.len());
            assert("VIDEO-CD"@.len() != "S-VHS"@.len());
            assert("VIDEO-CD"@.len() != "D-VHS"@.len());
            assert("VIDEO-CD"@.len() != "VHSC"@.len());
            assert("VIDEO-CD"@.len() != "VIDEO8"@.len());
            assert("VIDEO-CD"@.len() != "HI8"@.len());
            assert("VIDEO-CD"@.len() != "CD-ROM"@.len());
            assert("VIDEO-CD"@.len() != "CD-DA"@.len());
            assert("VIDEO-CD"@.len() != "CD-R"@.len());
            assert("VIDEO-CD"@.len() != "CD-RW"@.len());
        },
        StorageMedium::Sacd => {
            assert("SACD"@.len() != "UNKNOWN"@.len());
            assert("SACD"@.len() != "DV"@.len());
            assert("SACD"@.len() != "MINI-DV"@.len());
            assert("SACD"@.len() != "VHS"@.len());
            assert("SACD"@.len() != "W-VHS"@.len());
            assert("SACD"@.len() != "S-VHS"@.len());
            assert("SACD"@.len() != "D-VHS"@.len());
            assert("SACD"@[0] != "VHSC"@[0]);
            assert("SACD"@.len() != "VIDEO8"@.len());
            assert("SACD"@.len() != "HI8"@.len());
            assert("SACD"@.len() != "CD-ROM"@.len());
            assert("SACD"@.len() != "CD-DA"@.len());
            assert("SACD"@[0] != "CD-R"@[0]);
            assert("SACD"@.len() != "CD-RW"@.len());
            assert("SACD"@.len() != "VIDEO-CD"@.len());
        },
        StorageMedium::MdAudio => {
            assert("MD-AUDIO"@.len() != "UNKNOWN"@.len());
            assert("MD-AUDIO"@.len() != "DV"@.len());
            assert("MD-AUDIO"@.len() != "MINI-DV"@.len());
            assert("MD-AUDIO"@.len() != "VHS"@.len());
            assert("MD-AUDIO"@.len() != "W-VHS"@.len());
            assert("MD-AUDIO"@.len() != "S-VHS"@.len());
            assert("MD-AUDIO"@.len() != "D-VHS"@.len());
            assert("MD-AUDIO"@.len() != "VHSC"@.len());
            assert("MD-AUDIO"@.len() != "VIDEO8"@.len());
            assert("MD-AUDIO"@.len() != "HI8"@.len());
            assert("MD-AUDIO"@.len() != "CD-ROM"@.len());
            assert("MD-AUDIO"@.len() != "CD-DA"@.len());
            assert("MD-AUDIO"@.len() != "CD-R"@.len());
            assert("MD-AUDIO"@.len() != "CD-RW"@.len());
            assert("MD-AUDIO"@[0] != "VIDEO-CD"@[0]);
            assert("MD-AUDIO"@.len() != "SACD"@.len());
        },
        StorageMedium::MdPicture => {
            assert("MD-PICTURE"@.len() != "UNKNOWN"@.len());
            assert("MD-PICTURE"@.len() != "DV"@.len());
            assert("MD-PICTURE"@.len() != "MINI-DV"@.len());
            assert("MD-PICTURE"@.len() != "VHS"@.len());
            assert("MD-PICTURE"@.len() != "W-VHS"@.len());
            assert("MD-PICTURE"@.len() != "S-VHS"@.len());
            assert("MD-PICTURE"@.len() != "D-VHS"@.len());
            assert("MD-PICTURE"@.len() != "VHSC"@.len());
            assert("MD-PICTURE"@.len() != "VIDEO8"@.len());
            assert("MD-PICTURE"@.len() != "HI8"@.len());
            assert("MD-PICTURE"@.len() != "CD-ROM"@.len());
            assert("MD-PICTURE"@.len() != "CD-DA"@.len());
            assert("MD-PICTURE"@.len() != "CD-R"@.len());
            assert("MD-PICTURE"@.len() != "CD-RW"@.len());
            assert("MD-PICTURE"@.len() != "VIDEO-CD"@.len());
            assert("MD-PICTURE"@.len() != "SACD"@.len());
            assert("MD-PICTURE"@.len() != "MD-AUDIO"@.len());
        },
        StorageMedium::DvdRom => {
            assert("DVD-ROM"@[0] != "UNKNOWN"@[0]);
            assert("DVD-ROM"@.len() != "DV"@.len());
            assert("DVD-ROM"@[0] != "MINI-DV"@[0]);
            assert("DVD-ROM"@.len() != "VHS"@.len());
            assert("DVD-ROM"@.len() != "W-VHS"@.len());
            assert("DVD-ROM"@.len() != "S-VHS"@.len());
            assert("DVD-ROM"@.len() != "D-VHS"@.len());
            assert("DVD-ROM"@.len() != "VHSC"@.len());
            assert("DVD-ROM"@.len() != "VIDEO8"@.len());
            assert("DVD-ROM"@.len() != "HI8"@.len());
            assert("DVD-ROM"@.len() != "CD-ROM"@.len());
            assert("DVD-ROM"@.len() != "CD-DA"@.len());
            assert("DVD-ROM"@.len() != "CD-R"@.len());
            assert("DVD-ROM"@.len() != "CD-RW"@.len());
            assert("DVD-ROM"@.len() != "VIDEO-CD"@.len());
            assert("DVD-ROM"@.len() != "SACD"@.len());
            assert("DVD-ROM"@.len() != "MD-AUDIO"@.len());
            assert("DVD-ROM"@.len() != "MD-PICTURE"@.len());
        },
        StorageMedium::DvdVideo => {
            assert("DVD-VIDEO"@.len() != "UNKNOWN"@.len());
            assert("DVD-VIDEO"@.len() != "DV"@.len());
            assert("DVD-VIDEO"@.len() != "MINI-DV"@.len());
            assert("DVD-VIDEO"@.len() != "VHS"@.len());
            assert("DVD-VIDEO"@.len() != "W-VHS"@.len());
            assert("DVD-VIDEO"@.len() != "S-VHS"@.len());
            assert("DVD-VIDEO"@.len() != "D-VHS"@.len());
            assert("DVD-VIDEO"@.len() != "VHSC"@.len());
            assert("DVD-VIDEO"@.len() != "VIDEO8"@.len());
            assert("DVD-VIDEO"@.len() != "HI8"@.len());
            assert("DVD-VIDEO"@.len() != "CD-ROM"@.len());
            assert("DVD-VIDEO"@.len() != "CD-DA"@.len());
            assert("DVD-VIDEO"@.len() != "CD-R"@.len());
            assert("DVD-VIDEO"@.len() != "CD-RW"@.len());
            assert("DVD-VIDEO"@.len() != "VIDEO-CD"@.len());
            assert("DVD-VIDEO"@.len() != "SACD"@.len());
            assert("DVD-VIDEO"@.len() != "MD-AUDIO"@.len());
            assert("DVD-VIDEO"@.len() != "MD-PICTURE"@.len());
            assert("DVD-VIDEO"@.len() != "DVD-ROM"@.len());
        },
        StorageMedium::DvdPlusR => {
            assert("DVD+R"@.len() != "UNKNOWN"@.len());
            assert("DVD+R"@.len() != "DV"@.len());
            assert("DVD+R"@.len() != "MINI-DV"@.len());
            assert("DVD+R"@.len() != "VHS"@.len());
            assert("DVD+R"@[0] != "W-VHS"@[0]);
            assert("DVD+R"@[0] != "S-VHS"@[0]);
            assert("DVD+R"@[1] != "D-VHS"@[1]);
            assert("DVD+R"@.len() != "VHSC"@.len());
            assert("DVD+R"@.len() != "VIDEO8"@.len());
            assert("DVD+R"@.len() != "HI8"@.len());
            assert("DVD+R"@.len() != "CD-ROM"@.len());
            assert("DVD+R"@[0] != "CD-DA"@[0]);
            assert("DVD+R"@.len() != "CD-R"@.len());
            assert("DVD+R"@[0] != "CD-RW"@[0]);
            assert("DVD+R"@.len() != "VIDEO-CD"@.len());
            assert("DVD+R"@.len() != "SACD"@.len());
            assert("DVD+R"@.len() != "MD-AUDIO"@.len());
            assert("DVD+R"@.len() != "MD-PICTURE"@.len());
            assert("DVD+R"@.len() != "DVD-ROM"@.len());
            assert("DVD+R"@.len() != "DVD-VIDEO"@.len());
        },
        StorageMedium::DvdMinusR => {
            assert("DVD-R"@.len() != "UNKNOWN"@.len());
            assert("DVD-R"@.len() != "DV"@.len());
            assert("DVD-R"@.len() != "MINI-DV"@.len());
            assert("DVD-R"@.len() != "VHS"@.len());
            assert("DVD-R"@[0] != "W-VHS"@[0]);
            assert("DVD-R"@[0] != "S-VHS"@[0]);
            assert("DVD-R"@[1] != "D-VHS"@[1]);
            assert("DVD-R"@.len() != "VHSC"@.len());
            assert("DVD-R"@.len() != "VIDEO8"@.len());
            assert("DVD-R"@.len() != "HI8"@.len());
            assert("DVD-R"@.len() != "CD-ROM"@.len());
            assert("DVD-R"@[0] != "CD-DA"@[0]);
            assert("DVD-R"@.len() != "CD-R"@.len());
            assert("DVD-R"@[0] != "CD-RW"@[0]);
            assert("DVD-R"@.len() != "VIDEO-CD"@.len());
            assert("DVD-R"@.len() != "SACD"@.len());
            assert("DVD-R"@.len() != "MD-AUDIO"@.len());
            assert("DVD-R"@.len() != "MD-PICTURE"@.len());
            assert("DVD-R"@.len() != "DVD-ROM"@.len());
            assert("DVD-R"@.len() != "DVD-VIDEO"@.len());
            assert("DVD-R"@[3] != "DVD+R"@[3]);
        },
        StorageMedium::DvdPlusRW => {
            assert("DVD+RW"@.len() != "UNKNOWN"@.len());
            assert("DVD+RW"@.len() != "DV"@.len());
            assert("DVD+RW"@.len() != "MINI-DV"@.len());
            assert("DVD+RW"@.len() != "VHS"@.len());
            assert("DVD+RW"@.len() != "W-VHS"@.len());
            assert("DVD+RW"@.len() != "S-VHS"@.len());
            assert("DVD+RW"@.len() != "D-VHS"@.len());
            assert("DVD+RW"@.len() != "VHSC"@.len());
            assert("DVD+RW"@[0] != "VIDEO8"@[0]);
            assert("DVD+RW"@.len() != "HI8"@.len());
            assert("DVD+RW"@[0] != "CD-ROM"@[0]);
            assert("DVD+RW"@.len() != "CD-DA"@.len());
            assert("DVD+RW"@.len() != "CD-R"@.len());
            assert("DVD+RW"@.len() != "CD-RW"@.len());
            assert("DVD+RW"@.len() != "VIDEO-CD"@.len());
            assert("DVD+RW"@.len() != "SACD"@.len());
            assert("DVD+RW"@.len() != "MD-AUDIO"@.len());
            assert("DVD+RW"@.len() != "MD-PICTURE"@.len());
            assert("DVD+RW"@.len() != "DVD-ROM"@.len());
            assert("DVD+RW"@.len() != "DVD-VIDEO"@.len());
            assert("DVD+RW"@.len() != "DVD+R"@.len());
            assert("DVD+RW"@.len() != "DVD-R"@.len());
        },
        StorageMedium::DvdMinusRW => {
            assert("DVD-RW"@.len() != "UNKNOWN"@.len());
            assert("DVD-RW"@.len() != "DV"@.len());
            assert("DVD-RW"@.len() != "MINI-DV"@.len());
            assert("DVD-RW"@.len() != "VHS"@.len());
            assert("DVD-RW"@.len() != "W-VHS"@.len());
            assert("DVD-RW"@.len() != "S-VHS"@.len());
            assert("DVD-RW"@.len() != "D-VHS"@.len());
            assert("DVD-RW"@.len() != "VHSC"@.len());
            assert("DVD-RW"@[0] != "VIDEO8"@[0]);
            assert("DVD-RW"@.len() != "HI8"@.len());
            assert("DVD-RW"@[0] != "CD-ROM"@[0]);
            assert("DVD-RW"@.len() != "CD-DA"@.len());
            assert("DVD-RW"@.len() != "CD-R"@.len());
            assert("DVD-RW"@.len() != "CD-RW"@.len());
            assert("DVD-RW"@.len() != "VIDEO-CD"@.len());
            assert("DVD-RW"@.len() != "SACD"@.len());
            assert("DVD-RW"@.len() != "MD-AUDIO"@.len());
            assert("DVD-RW"@.len() != "MD-PICTURE"@.len());
            assert("DVD-RW"@.len() != "DVD-ROM"@.len());
            assert("DVD-RW"@.len() != "DVD-VIDEO"@.len());
            assert("DVD-RW"@.len() != "DVD+R"@.len());
            assert("DVD-RW"@.len() != "DVD-R"@.len());
            assert("DVD-RW"@[3] != "DVD+RW"@[3]);
        },
        StorageMedium::DvdRAM => {
            assert("DVD-RAM"@[0] != "UNKNOWN"@[0]);
            assert("DVD-RAM"@.len() != "DV"@.len());
            assert("DVD-RAM"@[0] != "MINI-DV"@[0]);
            assert("DVD-RAM"@.len() != "VHS"@.len());
            assert("DVD-RAM"@.len() != "W-VHS"@.len());
            assert("DVD-RAM"@.len() != "S-VHS"@.len());
            assert("DVD-RAM"@.len() != "D-VHS"@.len());
            assert("DVD-RAM"@.len() != "VHSC"@.len());
            assert("DVD-RAM"@.len() != "VIDEO8"@.len());
            assert("DVD-RAM"@.len() != "HI8"@.len());
            assert("DVD-RAM"@.len() != "CD-ROM"@.len());
            assert("DVD-RAM"@.len() != "CD-DA"@.len());
            assert("DVD-RAM"@.len() != "CD-R"@.len());
            assert("DVD-RAM"@.len() != "CD-RW"@.len());
            assert("DVD-RAM"@.len() != "VIDEO-CD"@.len());
            assert("DVD-RAM"@.len() != "SACD"@.len());
            assert("DVD-RAM"@.len() != "MD-AUDIO"@.len());
            assert("DVD-RAM"@.len() != "MD-PICTURE"@.len());
            assert("DVD-RAM"@[5] != "DVD-ROM"@[5]);
            assert("DVD-RAM"@.len() != "DVD-VIDEO"@.len());
            assert("DVD-RAM"@.len() != "DVD+R"@.len());
            assert("DVD-RAM"@.len() != "DVD-R"@.len());
            assert("DVD-RAM"@.len() != "DVD+RW"@.len());
            assert("DVD-RAM"@.len() != "DVD-RW"@.len());
        },
        StorageMedium::DdAudio => {
            assert("DVD-AUDIO"@.len() != "UNKNOWN"@.len());
            assert("DVD-AUDIO"@.len() != "DV"@.len());
            assert("DVD-AUDIO"@.len() != "MINI-DV"@.len());
            assert("DVD-AUDIO"@.len() != "VHS"@.len());
            assert("DVD-AUDIO"@.len() != "W-VHS"@.len());
            assert("DVD-AUDIO"@.len() != "S-VHS"@.len());
            assert("DVD-AUDIO"@.len() != "D-VHS"@.len());
            assert("DVD-AUDIO"@.len() != "VHSC"@.len());
            assert("DVD-AUDIO"@.len() != "VIDEO8"@.len());
            assert("DVD-AUDIO"@.len() != "HI8"@.len());
            assert("DVD-AUDIO"@.len() != "CD-ROM"@.len());
            assert("DVD-AUDIO"@.len() != "CD-DA"@.len());
            assert("DVD-AUDIO"@.len() != "CD-R"@.len());
            assert("DVD-AUDIO"@.len() != "CD-RW"@.len());
            assert("DVD-AUDIO"@.len() != "VIDEO-CD"@.len());
            assert("DVD-AUDIO"@.len() != "SACD"@.len());
            assert("DVD-AUDIO"@.len() != "MD-AUDIO"@.len());
            assert("DVD-AUDIO"@.len() != "MD-PICTURE"@.len());
            assert("DVD-AUDIO"@.len() != "DVD-ROM"@.len());
            assert("DVD-AUDIO"@[4] != "DVD-VIDEO"@[4]);
            assert("DVD-AUDIO"@.len() != "DVD+R"@.len());
            assert("DVD-AUDIO"@.len() != "DVD-R"@.len());
            assert("DVD-AUDIO"@.len() != "DVD+RW"@.len());
            assert("DVD-AUDIO"@.len() != "DVD-RW"@.len());
            assert("DVD-AUDIO"@.len() != "DVD-RAM"@.len());
        },
        StorageMedium::Dat => {
            assert("DAT"@.len() != "UNKNOWN"@.len());
            assert("DAT"@.len() != "DV"@.len());
            assert("DAT"@.len() != "MINI-DV"@.len());
            assert("DAT"@[0] != "VHS"@[0]);
            assert("DAT"@.len() != "W-VHS"@.len());
            assert("DAT"@.len() != "S-VHS"@.len());
            assert("DAT"@.len() != "D-VHS"@.len());
            assert("DAT"@.len() != "VHSC"@.len());
            assert("DAT"@.len() != "VIDEO8"@.len());
            assert("DAT"@[0] != "HI8"@[0]);
            assert("DAT"@.len() != "CD-ROM"@.len());
            assert("DAT"@.len() != "CD-DA"@.len());
            assert("DAT"@.len() != "CD-R"@.len());
            assert("DAT"@.len() != "CD-RW"@.len());
            assert("DAT"@.len() != "VIDEO-CD"@.len());
            assert("DAT"@.len() != "SACD"@.len());
            assert("DAT"@.len() != "MD-AUDIO"@.len());
            assert("DAT"@.len() != "MD-PICTURE"@.len());
            assert("DAT"@.len() != "DVD-ROM"@.len());
            assert("DAT"@.len() != "DVD-VIDEO"@.len());
            assert("DAT"@.len() != "DVD+R"@.len());
            assert("DAT"@.len() != "DVD-R"@.len());
            assert("DAT"@.len() != "DVD+RW"@.len());
            assert("DAT"@.len() != "DVD-RW"@.len());
            assert("DAT"@.len() != "DVD-RAM"@.len());
            assert("DAT"@.len() != "DVD-AUDIO"@.len());
        },
        StorageMedium::Ld => {
            assert("LD"@.len() != "UNKNOWN"@.len());
            assert("LD"@[0] != "DV"@[0]);
            assert("LD"@.len() != "MINI-DV"@.len());
            assert("LD"@.len() != "VHS"@.len());
            assert("LD"@.len() != "W-VHS"@.len());
            assert("LD"@.len() != "S-VHS"@.len());
            assert("LD"@.len() != "D-VHS"@.len());
            assert("LD"@.len() != "VHSC"@.len());
            assert("LD"@.len() != "VIDEO8"@.len());
            assert("LD"@.len() != "HI8"@.len());
            assert("LD"@.len() != "CD-ROM"@.len());
            assert("LD"@.len() != "CD-DA"@.len());
            assert("LD"@.len() != "CD-R"@.len());
            assert("LD"@.len() != "CD-RW"@.len());
            assert("LD"@.len() != "VIDEO-CD"@.len());
            assert("LD"@.len() != "SACD"@.len());
            assert("LD"@.len() != "MD-AUDIO"@.len());
            assert("LD"@.len() != "MD-PICTURE"@.len());
            assert("LD"@.len() != "DVD-ROM"@.len());
            assert("LD"@.len() != "DVD-VIDEO"@.len());
            assert("LD"@.len() != "DVD+R"@.len());
            assert("LD"@.len() != "DVD-R"@.len());
            assert("LD"@.len() != "DVD+RW"@.len());
            assert("LD"@.len() != "DVD-RW"@.len());
            assert("LD"@.len() != "DVD-RAM"@.len());
            assert("LD"@.len() != "DVD-AUDIO"@.len());
            assert("LD"@.len() != "DAT"@.len());
        },
        StorageMedium::Hdd => {
            assert("HDD"@.len() != "UNKNOWN"@.len());
            assert("HDD"@.len() != "DV"@.len());
            assert("HDD"@.len() != "MINI-DV"@.len());
            assert("HDD"@[0] != "VHS"@[0]);
            assert("HDD"@.len() != "W-VHS"@.len());
            assert("HDD"@.len() != "S-VHS"@.len());
            assert("HDD"@.len() != "D-VHS"@.len());
            assert("HDD"@.len() != "VHSC"@.len());
            assert("HDD"@.len() != "VIDEO8"@.len());
            assert("HDD"@[1] != "HI8"@[1]);
            assert("HDD"@.len() != "CD-ROM"@.len());
            assert("HDD"@.len() != "CD-DA"@.len());
            assert("HDD"@.len() != "CD-R"@.len());
            assert("HDD"@.len() != "CD-RW"@.len());
            assert("HDD"@.len() != "VIDEO-CD"@.len());
            assert("HDD"@.len() != "SACD"@.len());
            assert("HDD"@.len() != "MD-AUDIO"@.len());
            assert("HDD"@.len() != "MD-PICTURE"@.len());
            assert("HDD"@.len() != "DVD-ROM"@.len());
            assert("HDD"@.len() != "DVD-VIDEO"@.len());
            assert("HDD"@.len() != "DVD+R"@.len());
            assert("HDD"@.len() != "DVD-R"@.len());
            assert("HDD"@.len() != "DVD+RW"@.len());
            assert("HDD"@.len() != "DVD-RW"@.len());
            assert("HDD"@.len() != "DVD-RAM"@.len());
            assert("HDD"@.len() != "DVD-AUDIO"@.len());
            assert("HDD"@[0] != "DAT"@[0]);
            assert("HDD"@.len() != "LD"@.len());
        },
        StorageMedium::MicroMv => {
            assert("MICRO-MV"@.len() != "UNKNOWN"@.len());
            assert("MICRO-MV"@.len() != "DV"@.len());
            assert("MICRO-MV"@.len() != "MINI-DV"@.len());
            assert("MICRO-MV"@.len() != "VHS"@.len());
            assert("MICRO-MV"@.len() != "W-VHS"@.len());
            assert("MICRO-MV"@.len() != "S-VHS"@.len());
            assert("MICRO-MV"@.len() != "D-VHS"@.len());
            assert("MICRO-MV"@.len() != "VHSC"@.len());
            assert("MICRO-MV"@.len() != "VIDEO8"@.len());
            assert("MICRO-MV"@.len() != "HI8"@.len());
            assert("MICRO-MV"@.len() != "CD-ROM"@.len());
            assert("MICRO-MV"@.len() != "CD-DA"@.len());
            assert("MICRO-MV"@.len() != "CD-R"@.len());
            assert("MICRO-MV"@.len() != "CD-RW"@.len());
            assert("MICRO-MV"@[0] != "VIDEO-CD"@[0]);
            assert("MICRO-MV"@.len() != "SACD"@.len());
            assert("MICRO-MV"@[1] != "MD-AUDIO"@[1]);
            assert("MICRO-MV"@.len() != "MD-PICTURE"@.len());
            assert("MICRO-MV"@.len() != "DVD-ROM"@.len());
            assert("MICRO-MV"@.len() != "DVD-VIDEO"@.len());
            assert("MICRO-MV"@.len() != "DVD+R"@.len());
            assert("MICRO-MV"@.len() != "DVD-R"@.len());
            assert("MICRO-MV"@.len() != "DVD+RW"@.len());
            assert("MICRO-MV"@.len() != "DVD-RW"@.len());
            assert("MICRO-MV"@.len() != "DVD-RAM"@.len());
            assert("MICRO-MV"@.len() != "DVD-AUDIO"@.len());
            assert("MICRO-MV"@.len() != "DAT"@.len());
            assert("MICRO-MV"@.len() != "LD"@.len());
            assert("MICRO-MV"@.len() != "HDD"@.len());
        },
        StorageMedium::Network => {
            assert("NETWORK"@[0] != "UNKNOWN"@[0]);
            assert("NETWORK"@.len() != "DV"@.len());
            assert("NETWORK"@[0] != "MINI-DV"@[0]);
            assert("NETWORK"@.len() != "VHS"@.len());
            assert("NETWORK"@.len() != "W-VHS"@.len());
            assert("NETWORK"@.len() != "S-VHS"@.len());
            assert("NETWORK"@.len() != "D-VHS"@.len());
            assert("NETWORK"@.len() != "VHSC"@.len());
            assert("NETWORK"@.len() != "VIDEO8"@.len());
            assert("NETWORK"@.len() != "HI8"@.len());
            assert("NETWORK"@.len() != "CD-ROM"@.len());
            assert("NETWORK"@.len() != "CD-DA"@.len());
            assert("NETWORK"@.len() != "CD-R"@.len());
            assert("NETWORK"@.len() != "CD-RW"@.len());
            assert("NETWORK"@.len() != "VIDEO-CD"@.len());
            assert("NETWORK"@.len() != "SACD"@.len());
            assert("NETWORK"@.len() != "MD-AUDIO"@.len());
            assert("NETWORK"@.len() != "MD-PICTURE"@.len());
            assert("NETWORK"@[0] != "DVD-ROM"@[0]);
            assert("NETWORK"@.len() != "DVD-VIDEO"@.len());
            assert("NETWORK"@.len() != "DVD+R"@.len());
            assert("NETWORK"@.len() != "DVD-R"@.len());
            assert("NETWORK"@.len() != "DVD+RW"@.len());
            assert("NETWORK"@.len() != "DVD-RW"@.len());
            assert("NETWORK"@[0] != "DVD-RAM"@[0]);
            assert("NETWORK"@.len() != "DVD-AUDIO"@.len());
            assert("NETWORK"@.len() != "DAT"@.len());
            assert("NETWORK"@.len() != "LD"@.len());
            assert("NETWORK"@.len() != "HDD"@.len());
            assert("NETWORK"@.len() != "MICRO-MV"@.len());
        },
        StorageMedium::NONE => {
            assert("NONE"@.len() != "UNKNOWN"@.len());
            assert("NONE"@.len() != "DV"@.len());
            assert("NONE"@.len() != "MINI-DV"@.len());
            assert("NONE"@.len() != "VHS"@.len());
            assert("NONE"@.len() != "W-VHS"@.len());
            assert("NONE"@.len() != "S-VHS"@.len());
            assert("NONE"@.len() != "D-VHS"@.len());
            assert("NONE"@[0] != "VHSC"@[0]);
            assert("NONE"@.len() != "VIDEO8"@.len());
            assert("NONE"@.len() != "HI8"@.len());
            assert("NONE"@.len() != "CD-ROM"@.len());
            assert("NONE"@.len() != "CD-DA"@.len());
            assert("NONE"@[0] != "CD-R"@[0]);
            assert("NONE"@.len() != "CD-RW"@.len());
            assert("NONE"@.len() != "VIDEO-CD"@.len());
            assert("NONE"@[0] != "SACD"@[0]);
            assert("NONE"@.len() != "MD-AUDIO"@.len());
            assert("NONE"@.len() != "MD-PICTURE"@.len());
            assert("NONE"@.len() != "DVD-ROM"@.len());
            assert("NONE"@.len() != "DVD-VIDEO"@.len());
            assert("NONE"@.len() != "DVD+R"@.len());
            assert("NONE"@.len() != "DVD-R"@.len());
            assert("NONE"@.len() != "DVD+RW"@.len());
            assert("NONE"@.len() != "DVD-RW"@.len());
            assert("NONE"@.len() != "DVD-RAM"@.len());
            assert("NONE"@.len() != "DVD-AUDIO"@.len());
            assert("NONE"@.len() != "DAT"@.len());
            assert("NONE"@.len() != "LD"@.len());
            assert("NONE"@.len() != "HDD"@.len());
            assert("NONE"@.len() != "MICRO-MV"@.len());
            assert("NONE"@.len() != "NETWORK"@.len());
        },
        StorageMedium::NotImplemented => {
            assert("NOT_IMPLEMENTED"@.len() != "UNKNOWN"@.len());
            assert("NOT_IMPLEMENTED"@.len() != "DV"@.len());
            assert("NOT_IMPLEMENTED"@.len() != "MINI-DV"@.len());
            assert("NOT_IMPLEMENTED"@.len() != "VHS"@.len());
            assert("NOT_IMPLEMENTED"@.len() != "W-VHS"@.len());
            assert("NOT_IMPLEMENTED"@.len() != "S-VHS"@.len());
            assert("NOT_IMPLEMENTED"@.len() != "D-VHS"@.len());
            assert("NOT_IMPLEMENTED"@.len() != "VHSC"@.len());
            assert("NOT_IMPLEMENTED"@.len() != "VIDEO8"@.len());
            assert("NOT_IMPLEMENTED"@.len() != "HI8"@.len());
            assert("NOT_IMPLEMENTED"@.len() != "CD-ROM"@.len());
            assert("NOT_IMPLEMENTED"@.len() != "CD-DA"@.len());
            assert("NOT_IMPLEMENTED"@.len() != "CD-R"@.len());
            assert("NOT_IMPLEMENTED"@.len() != "CD-RW"@.len());
            assert("NOT_IMPLEMENTED"@.len() != "VIDEO-CD"@.len());
            assert("NOT_IMPLEMENTED"@.len() != "SACD"@.len());
            assert("NOT_IMPLEMENTED"@.len() != "MD-AUDIO"@.len());
            assert("NOT_IMPLEMENTED"@.len() != "MD-PICTURE"@.len());
            assert("NOT_IMPLEMENTED"@.len() != "DVD-ROM"@.len());
            assert("NOT_IMPLEMENTED"@.len() != "DVD-VIDEO"@.len());
            assert("NOT_IMPLEMENTED"@.len() != "DVD+R"@.len());
            assert("NOT_IMPLEMENTED"@.len() != "DVD-R"@.len());
            assert("NOT_IMPLEMENTED"@.len() != "DVD+RW"@.len());
            assert("NOT_IMPLEMENTED"@.len() != "DVD-RW"@.len());
            assert("NOT_IMPLEMENTED"@.len() != "DVD-RAM"@.len());
            assert("NOT_IMPLEMENTED"@.len() != "DVD-AUDIO"@.len());
            assert("NOT_IMPLEMENTED"@.len() != "DAT"@.len());
            assert("NOT_IMPLEMENTED"@.len() != "LD"@.len());
            assert("NOT_IMPLEMENTED"@.len() != "HDD"@.len());
            assert("NOT_IMPLEMENTED"@.len() != "MICRO-MV"@.len());
            assert("NOT_IMPLEMENTED"@.len() != "NETWORK"@.len());
            assert("NOT_IMPLEMENTED"@.len() != "NONE"@.len());
        },
        StorageMedium::Sd => {
            assert("SD"@.len() != "UNKNOWN"@.len());
            assert("SD"@[0] != "DV"@[0]);
            assert("SD"@.len() != "MINI-DV"@.len());
            assert("SD"@.len() != "VHS"@.len());
            assert("SD"@.len() != "W-VHS"@.len());
            assert("SD"@.len() != "S-VHS"@.len());
            assert("SD"@.len() != "D-VHS"@.len());
            assert("SD"@.len() != "VHSC"@.len());
            assert("SD"@.len() != "VIDEO8"@.len());
            assert("SD"@.len() != "HI8"@.len());
            assert("SD"@.len() != "CD-ROM"@.len());
            assert("SD"@.len() != "CD-DA"@.len());
            assert("SD"@.len() != "CD-R"@.len());
            assert("SD"@.len() != "CD-RW"@.len());
            assert("SD"@.len() != "VIDEO-CD"@.len());
            assert("SD"@.len() != "SACD"@.len());
            assert("SD"@.len() != "MD-AUDIO"@.len());
            assert("SD"@.len() != "MD-PICTURE"@.len());
            assert("SD"@.len() != "DVD-ROM"@.len());
            assert("SD"@.len() != "DVD-VIDEO"@.len());
            assert("SD"@.len() != "DVD+R"@.len());
            assert("SD"@.len() != "DVD-R"@.len());
            assert("SD"@.len() != "DVD+RW"@.len());
            assert("SD"@.len() != "DVD-RW"@.len());
            assert("SD"@.len() != "DVD-RAM"@.len());
            assert("SD"@.len() != "DVD-AUDIO"@.len());
            assert("SD"@.len() != "DAT"@.len());
            assert("SD"@[0] != "LD"@[0]);
            assert("SD"@.len() != "HDD"@.len());
            assert("SD"@.len() != "MICRO-MV"@.len());
            assert("SD"@.len() != "NETWORK"@.len());
            assert("SD"@.len() != "NONE"@.len());
            assert("SD"@.len() != "NOT_IMPLEMENTED"@.len());
        },
        StorageMedium::PcCard => {
            assert("PC-CARD"@[0] != "UNKNOWN"@[0]);
            assert("PC-CARD"@.len() != "DV"@.len());
            assert("PC-CARD"@[0] != "MINI-DV"@[0]);
            assert("PC-CARD"@.len() != "VHS"@.len());
            assert("PC-CARD"@.len() != "W-VHS"@.len());
            assert("PC-CARD"@.len() != "S-VHS"@.len());
            assert("PC-CARD"@.len() != "D-VHS"@.len());
            assert("PC-CARD"@.len() != "VHSC"@.len());
            assert("PC-CARD"@.len() != "VIDEO8"@.len());
            assert("PC-CARD"@.len() != "HI8"@.len());
            assert("PC-CARD"@.len() != "CD-ROM"@.len());
            assert("PC-CARD"@.len() != "CD-DA"@.len());
            assert("PC-CARD"@.len() != "CD-R"@.len());
            assert("PC-CARD"@.len() != "CD-RW"@.len());
            assert("PC-CARD"@.len() != "VIDEO-CD"@.len());
            assert("PC-CARD"@.len() != "SACD"@.len());
            assert("PC-CARD"@.len() != "MD-AUDIO"@.len());
            assert("PC-CARD"@.len() != "MD-PICTURE"@.len());
            assert("PC-CARD"@[0] != "DVD-ROM"@[0]);
            assert("PC-CARD"@.len() != "DVD-VIDEO"@.len());
            assert("PC-CARD"@.len() != "DVD+R"@.len());
            assert("PC-CARD"@.len() != "DVD-R"@.len());
            assert("PC-CARD"@.len() != "DVD+RW"@.len());
            assert("PC-CARD"@.len() != "DVD-RW"@.len());
            assert("PC-CARD"@[0] != "DVD-RAM"@[0]);
            assert("PC-CARD"@.len() != "DVD-AUDIO"@.len());
            assert("PC-CARD"@.len() != "DAT"@.len());
            assert("PC-CARD"@.len() != "LD"@.len());
            assert("PC-CARD"@.len() != "HDD"@.len());
            assert("PC-CARD"@.len() != "MICRO-MV"@.len());
            assert("PC-CARD"@[0] != "NETWORK"@[0]);
            assert("PC-CARD"@.len() != "NONE"@.len());
            assert("PC-CARD"@.len() != "NOT_IMPLEMENTED"@.len());
            assert("PC-CARD"@.len() != "SD"@.len());
        },
        StorageMedium::MMC => {
            assert("MMC"@.len() != "UNKNOWN"@.len());
            assert("MMC"@.len() != "DV"@.len());
            assert("MMC"@.len() != "MINI-DV"@.len());
            assert("MMC"@[0] != "VHS"@[0]);
            assert("MMC"@.len() != "W-VHS"@.len());
            assert("MMC"@.len() != "S-VHS"@.len());
            assert("MMC"@.len() != "D-VHS"@.len());
            assert("MMC"@.len() != "VHSC"@.len());
            assert("MMC"@.len() != "VIDEO8"@.len());
            assert("MMC"@[0] != "HI8"@[0]);
            assert("MMC"@.len() != "CD-ROM"@.len());
            assert("MMC"@.len() != "CD-DA"@.len());
            assert("MMC"@.len() != "CD-R"@.len());
            assert("MMC"@.len() != "CD-RW"@.len());
            assert("MMC"@.len() != "VIDEO-CD"@.len());
            assert("MMC"@.len() != "SACD"@.len());
            assert("MMC"@.len() != "MD-AUDIO"@.len());
            assert("MMC"@.len() != "MD-PICTURE"@.len());
            assert("MMC"@.len() != "DVD-ROM"@.len());
            assert("MMC"@.len() != "DVD-VIDEO"@.len());
            assert("MMC"@.len() != "DVD+R"@.len());
            assert("MMC"@.len() != "DVD-R"@.len());
            assert("MMC"@.len() != "DVD+RW"@.len());
            assert("MMC"@.len() != "DVD-RW"@.len());
            assert("MMC"@.len() != "DVD-RAM"@.len());
            assert("MMC"@.len() != "DVD-AUDIO"@.len());
            assert("MMC"@[0] != "DAT"@[0]);
            assert("MMC"@.len() != "LD"@.len());
            assert("MMC"@[0] != "HDD"@[0]);
            assert("MMC"@.len() != "MICRO-MV"@.len());
            assert("MMC"@.len() != "NETWORK"@.len());
            assert("MMC"@.len() != "NONE"@.len());
            assert("MMC"@.len() != "NOT_IMPLEMENTED"@.len());
            assert("MMC"@.len() != "SD"@.len());
            assert("MMC"@.len() != "PC-CARD"@.len());
        },
        StorageMedium::CF => {
            assert("CF"@.len() != "UNKNOWN"@.len());
            assert("CF"@[0] != "DV"@[0]);
            assert("CF"@.len() != "MINI-DV"@.len());
            assert("CF"@.len() != "VHS"@.len());
            assert("CF"@.len() != "W-VHS"@.len());
            assert("CF"@.len() != "S-VHS"@.len());
            assert("CF"@.len() != "D-VHS"@.len());
            assert("CF"@.len() != "VHSC"@.len());
            assert("CF"@.len() != "VIDEO8"@.len());
            assert("CF"@.len() != "HI8"@.len());
            assert("CF"@.len() != "CD-ROM"@.len());
            assert("CF"@.len() != "CD-DA"@.len());
            assert("CF"@.len() != "CD-R"@.len());
            assert("CF"@.len() != "CD-RW"@.len());
            assert("CF"@.len() != "VIDEO-CD"@.len());
            assert("CF"@.len() != "SACD"@.len());
            assert("CF"@.len() != "MD-AUDIO"@.len());
            assert("CF"@.len() != "MD-PICTURE"@.len());
            assert("CF"@.len() != "DVD-ROM"@.len());
            assert("CF"@.len() != "DVD-VIDEO"@.len());
            assert("CF"@.len() != "DVD+R"@.len());
            assert("CF"@.len() != "DVD-R"@.len());
            assert("CF"@.len() != "DVD+RW"@.len());
            assert("CF"@.len() != "DVD-RW"@.len());
            assert("CF"@.len() != "DVD-RAM"@.len());
            assert("CF"@.len() != "DVD-AUDIO"@.len());
            assert("CF"@.len() != "DAT"@.len());
            assert("CF"@[0] != "LD"@[0]);
            assert("CF"@.len() != "HDD"@.len());
            assert("CF"@.len() != "MICRO-MV"@.len());
            assert("CF"@.len() != "NETWORK"@.len());
            assert("CF"@.len() != "NONE"@.len());
            assert("CF"@.len() != "NOT_IMPLEMENTED"@.len());
            assert("CF"@[0] != "SD"@[0]);
            assert("CF"@.len() != "PC-CARD"@.len());
            assert("CF"@.len() != "MMC"@.len());
        },
        StorageMedium::BD => {
            assert("BD"@.len() != "UNKNOWN"@.len());
            assert("BD"@[0] != "DV"@[0]);
            assert("BD"@.len() != "MINI-DV"@.len());
            assert("BD"@.len() != "VHS"@.len());
            assert("BD"@.len() != "W-VHS"@.len());
            assert("BD"@.len() != "S-VHS"@.len());
            assert("BD"@.len() != "D-VHS"@.len());
            assert("BD"@.len() != "VHSC"@.len());
            assert("BD"@.len() != "VIDEO8"@.len());
            assert("BD"@.len() != "HI8"@.len());
            assert("BD"@.len() != "CD-ROM"@.len());
            assert("BD"@.len() != "CD-DA"@.len());
            assert("BD"@.len() != "CD-R"@.len());
            assert("BD"@.len() != "CD-RW"@.len());
            assert("BD"@.len() != "VIDEO-CD"@.len());
            assert("BD"@.len() != "SACD"@.len());
            assert("BD"@.len() != "MD-AUDIO"@.len());
            assert("BD"@.len() != "MD-PICTURE"@.len());
            assert("BD"@.len() != "DVD-ROM"@.len());
            assert("BD"@.len() != "DVD-VIDEO"@.len());
            assert("BD"@.len() != "DVD+R"@.len());
            assert("BD"@.len() != "DVD-R"@.len());
            assert("BD"@.len() != "DVD+RW"@.len());
            assert("BD"@.len() != "DVD-RW"@.len());
            assert("BD"@.len() != "DVD-RAM"@.len());
            assert("BD"@.len() != "DVD-AUDIO"@.len());
            assert("BD"@.len() != "DAT"@.len());
            assert("BD"@[0] != "LD"@[0]);
            assert("BD"@.len() != "HDD"@.len());
            assert("BD"@.len() != "MICRO-MV"@.len());
            assert("BD"@.len() != "NETWORK"@.len());
            assert("BD"@.len() != "NONE"@.len());
            assert("BD"@.len() != "NOT_IMPLEMENTED"@.len());
            assert("BD"@[0] != "SD"@[0]);
            assert("BD"@.len() != "PC-CARD"@.len());
            assert("BD"@.len() != "MMC"@.len());
            assert("BD"@[0] != "CF"@[0]);
        },
        StorageMedium::MS => {
            assert("MS"@.len() != "UNKNOWN"@.len());
            assert("MS"@[0] != "DV"@[0]);
            assert("MS"@.len() != "MINI-DV"@.len());
            assert("MS"@.len() != "VHS"@.len());
            assert("MS"@.len() != "W-VHS"@.len());
            assert("MS"@.len() != "S-VHS"@.len());
            assert("MS"@.len() != "D-VHS"@.len());
            assert("MS"@.len() != "VHSC"@.len());
            assert("MS"@.len() != "VIDEO8"@.len());
            assert("MS"@.len() != "HI8"@.len());
            assert("MS"@.len() != "CD-ROM"@.len());
            assert("MS"@.len() != "CD-DA"@.len());
            assert("MS"@.len() != "CD-R"@.len());
            assert("MS"@.len() != "CD-RW"@.len());
            assert("MS"@.len() != "VIDEO-CD"@.len());
            assert("MS"@.len() != "SACD"@.len());
            assert("MS"@.len() != "MD-AUDIO"@.len());
            assert("MS"@.len() != "MD-PICTURE"@.len());
            assert("MS"@.len() != "DVD-ROM"@.len());
            assert("MS"@.len() != "DVD-VIDEO"@.len());
            assert("MS"@.len() != "DVD+R"@.len());
            assert("MS"@.len() != "DVD-R"@.len());
            assert("MS"@.len() != "DVD+RW"@.len());
            assert("MS"@.len() != "DVD-RW"@.len());
            assert("MS"@.len() != "DVD-RAM"@.len());
            assert("MS"@.len() != "DVD-AUDIO"@.len());
            assert("MS"@.len() != "DAT"@.len());
            assert("MS"@[0] != "LD"@[0]);
            assert("MS"@.len() != "HDD"@.len());
            assert("MS"@.len() != "MICRO-MV"@.len());
            assert("MS"@.len() != "NETWORK"@.len());
            assert("MS"@.len() != "NONE"@.len());
            assert("MS"@.len() != "NOT_IMPLEMENTED"@.len());
            assert("MS"@[0] != "SD"@[0]);
            assert("MS"@.len() != "PC-CARD"@.len());
            assert("MS"@.len() != "MMC"@.len());
            assert("MS"@[0] != "CF"@[0]);
            assert("MS"@[0] != "BD"@[0]);
        },
        StorageMedium::HDDVD => {
            assert("HD_DVD"@.len() != "UNKNOWN"@.len());
            assert("HD_DVD"@.len() != "DV"@.len());
            assert("HD_DVD"@.len() != "MINI-DV"@.len());
            assert("HD_DVD"@.len() != "VHS"@.len());
            assert("HD_DVD"@.len() != "W-VHS"@.len());
            assert("HD_DVD"@.len() != "S-VHS"@.len());
            assert("HD_DVD"@.len() != "D-VHS"@.len());
            assert("HD_DVD"@.len() != "VHSC"@.len());
            assert("HD_DVD"@[0] != "VIDEO8"@[0]);
            assert("HD_DVD"@.len() != "HI8"@.len());
            assert("HD_DVD"@[0] != "CD-ROM"@[0]);
            assert("HD_DVD"@.len() != "CD-DA"@.len());
            assert("HD_DVD"@.len() != "CD-R"@.len());
            assert("HD_DVD"@.len() != "CD-RW"@.len());
            assert("HD_DVD"@.len() != "VIDEO-CD"@.len());
            assert("HD_DVD"@.len() != "SACD"@.len());
            assert("HD_DVD"@.len() != "MD-AUDIO"@.len());
            assert("HD_DVD"@.len() != "MD-PICTURE"@.len());
            assert("HD_DVD"@.len() != "DVD-ROM"@.len());
            assert("HD_DVD"@.len() != "DVD-VIDEO"@.len());
            assert("HD_DVD"@.len() != "DVD+R"@.len());
            assert("HD_DVD"@.len() != "DVD-R"@.len());
            assert("HD_DVD"@[0] != "DVD+RW"@[0]);
            assert("HD_DVD"@[0] != "DVD-RW"@[0]);
            assert("HD_DVD"@.len() != "DVD-RAM"@.len());
            assert("HD_DVD"@.len() != "DVD-AUDIO"@.len());
            assert("HD_DVD"@.len() != "DAT"@.len());
            assert("HD_DVD"@.len() != "LD"@.len());
            assert("HD_DVD"@.len() != "HDD"@.len());
            assert("HD_DVD"@.len() != "MICRO-MV"@.len());
            assert("HD_DVD"@.len() != "NETWORK"@.len());
            assert("HD_DVD"@.len() != "NONE"@.len());
            assert("HD_DVD"@.len() != "NOT_IMPLEMENTED"@.len());
            assert("HD_DVD"@.len() != "SD"@.len());
            assert("HD_DVD"@.len() != "PC-CARD"@.len());
            assert("HD_DVD"@.len() != "MMC"@.len());
            assert("HD_DVD"@.len() != "CF"@.len());
            assert("HD_DVD"@.len() != "BD"@.len());
            assert("HD_DVD"@.len() != "MS"@.len());
        },
    }
}

/// Record medium write status per UPnP-av-AVTransport-v3 spec §4.1.
#[derive(Debug, Clone, Copy, PartialEq, Eq, Structural, Hash)]
pub enum RecordMediumWriteStatus {
    Writable,
    Protected,
    NotWritable,
    Unknown,
    NotImplemented,
}

/// The wire name of each `RecordMediumWriteStatus` value.
pub open spec fn record_medium_write_status_str(x: RecordMediumWriteStatus) -> Seq<char> {
    match x {
        RecordMediumWriteStatus::Writable => "WRITABLE"@,
        RecordMediumWriteStatus::Protected => "PROTECTED"@,
        RecordMediumWriteStatus::NotWritable => "NOT_WRITABLE"@,
        RecordMediumWriteStatus::Unknown => "UNKNOWN"@,
        RecordMediumWriteStatus::NotImplemented => "NOT_IMPLEMENTED"@,
    }
}

/// The `RecordMediumWriteStatus` value whose wire name is `s`, if any.
pub open spec fn record_medium_write_status_from_str(s: Seq<char>) -> Option<RecordMediumWriteStatus> {
    if s == "WRITABLE"@ {
        Some(RecordMediumWriteStatus::Writable)
    } else if s == "PROTECTED"@ {
        Some(RecordMediumWriteStatus::Protected)
    } else if s == "NOT_WRITABLE"@ {
        Some(RecordMediumWriteStatus::NotWritable)
    } else if s == "UNKNOWN"@ {
        Some(RecordMediumWriteStatus::Unknown)
    } else if s == "NOT_IMPLEMENTED"@ {
        Some(RecordMediumWriteStatus::NotImplemented)
    } else {
        None
    }
}

impl RecordMediumWriteStatus {
    /// The wire name of this value.
    pub fn as_str(&self) -> (r: &'static str)
        ensures
            r@ == record_medium_write_status_str(*self),
    {
        match self {
            RecordMediumWriteStatus::Writable => "WRITABLE",
            RecordMediumWriteStatus::Protected => "PROTECTED",
            RecordMediumWriteStatus::NotWritable => "NOT_WRITABLE",
            RecordMediumWriteStatus::Unknown => "UNKNOWN",
            RecordMediumWriteStatus::NotImplemented => "NOT_IMPLEMENTED",
        }
    }

    /// The value whose wire name is `s`, if any.
    pub fn from_str(s: &str) -> (r: Option<Self>)
        ensures
            r == record_medium_write_status_from_str(s@),
    {
        let cs = chars_of(s);
        if chars_eq_str(&cs, "WRITABLE") {
            Some(RecordMediumWriteStatus::Writable)
        } else if chars_eq_str(&cs, "PROTECTED") {
            Some(RecordMediumWriteStatus::Protected)
        } else if chars_eq_str(&cs, "NOT_WRITABLE") {
            Some(RecordMediumWriteStatus::NotWritable)
        } else if chars_eq_str(&cs, "UNKNOWN") {
            Some(RecordMediumWriteStatus::Unknown)
        } else if chars_eq_str(&cs, "NOT_IMPLEMENTED") {
            Some(RecordMediumWriteStatus::NotImplemented)
        } else {
            None
        }
    }
}

/// Reading back the wire name of a `RecordMediumWriteStatus` gives that value.
pub proof fn lemma_record_medium_write_status_roundtrip(x: RecordMediumWriteStatus)
    ensures
        record_medium_write_status_from_str(record_medium_write_status_str(x)) == Some(x),
{
    reveal_strlit("NOT_IMPLEMENTED");
    reveal_strlit("NOT_WRITABLE");
    reveal_strlit("PROTECTED");
    reveal_strlit("UNKNOWN");
    reveal_strlit("WRITABLE");
    match x {
        RecordMediumWriteStatus::Writable => {},
        RecordMediumWriteStatus::Protected => {
            assert("PROTECTED"@.len() != "WRITABLE"@.len());
        },
        RecordMediumWriteStatus::NotWritable => {
            assert("NOT_WRITABLE"@.len() != "WRITABLE"@.len());
            assert("NOT_WRITABLE"@.len() != "PROTECTED"@.len());
        },
        RecordMediumWriteStatus::Unknown => {
            assert("UNKNOWN"@.len() != "WRITABLE"@.len());
            assert("UNKNOWN"@.len() != "PROTECTED"@.len());
            assert("UNKNOWN"@.len() != "NOT_WRITABLE"@.len());
        },
        RecordMediumWriteStatus::NotImplemented => {
            assert("NOT_IMPLEMENTED"@.len() != "WRITABLE"@.len());
            assert("NOT_IMPLEMENTED"@.len() != "PROTECTED"@.len());
            assert("NOT_IMPLEMENTED"@.len() != "NOT_WRITABLE"@.len());
            assert("NOT_IMPLEMENTED"@.len() != "UNKNOWN"@.len());
        },
    }
}

/// Seek mode per UPnP-av-AVTransport-v3 spec §4.2.1.
#[derive(Debug, Clone, Copy, PartialEq, Eq, Structural, Hash)]
pub enum SeekMode {
    AbsoluteTime,
    RelativeTime,
    TrackNumber,
    TrackAbsoluteTime,
    TimeSeconds,
    ChannelFreq,
    TMSH,
    SAIA,
    SAIB,
    Index,
}

/// The wire name of each `SeekMode` value.
pub open spec fn seek_mode_str(x: SeekMode) -> Seq<char> {
    match x {
        SeekMode::AbsoluteTime => "ABS_TIME"@,
        SeekMode::RelativeTime => "REL_TIME"@,
        SeekMode::TrackNumber => "TRACK_NR"@,
        SeekMode::TrackAbsoluteTime => "TRACK_TIME"@,
        SeekMode::TimeSeconds => "TIME+SECS"@,
        SeekMode::ChannelFreq => "CHANNEL-FREQ"@,
        SeekMode::TMSH => "TMSH"@,
        SeekMode::SAIA => "SAIA"@,
        SeekMode::SAIB => "SAIB"@,
        SeekMode::Index => "INDEX"@,
    }
}

/// The `SeekMode` value whose wire name is `s`, if any.
pub open spec fn seek_mode_from_str(s: Seq<char>) -> Option<SeekMode> {
    if s == "ABS_TIME"@ {
        Some(SeekMode::AbsoluteTime)
    } else if s == "REL_TIME"@ {
        Some(SeekMode::RelativeTime)
    } else if s == "TRACK_NR"@ {
        Some(SeekMode::TrackNumber)
    } else if s == "TRACK_TIME"@ {
        Some(SeekMode::TrackAbsoluteTime)
    } else if s == "TIME+SECS"@ {
        Some(SeekMode::TimeSeconds)
    } else if s == "CHANNEL-FREQ"@ {
        Some(SeekMode::ChannelFreq)
    } else if s == "TMSH"@ {
        Some(SeekMode::TMSH)
    } else if s == "SAIA"@ {
        Some(SeekMode::SAIA)
    } else if s == "SAIB"@ {
        Some(SeekMode::SAIB)
    } else if s == "INDEX"@ {
        Some(SeekMode::Index)
    } else {
        None
    }
}

impl SeekMode {
    /// The wire name of this value.
    pub fn as_str(&self) -> (r: &'static str)
        ensures
            r@ == seek_mode_str(*self),
    {
        match self {
            SeekMode::AbsoluteTime => "ABS_TIME",
            SeekMode::RelativeTime => "REL_TIME",
            SeekMode::TrackNumber => "TRACK_NR",
            SeekMode::TrackAbsoluteTime => "TRACK_TIME",
            SeekMode::TimeSeconds => "TIME+SECS",
            SeekMode::ChannelFreq => "CHANNEL-FREQ",
            SeekMode::TMSH => "TMSH",
            SeekMode::SAIA => "SAIA",
            SeekMode::SAIB => "SAIB",
            SeekMode::Index => "INDEX",
        }
    }

    /// The value whose wire name is `s`, if any.
    pub fn from_str(s: &str) -> (r: Option<Self>)
        ensures
            r == seek_mode_from_str(s@),
    {
        let cs = chars_of(s);
        if chars_eq_str(&cs, "ABS_TIME") {
            Some(SeekMode::AbsoluteTime)
        } else if chars_eq_str(&cs, "REL_TIME") {
            Some(SeekMode::RelativeTime)
        } else if chars_eq_str(&cs, "TRACK_NR") {
            Some(SeekMode::TrackNumber)
        } else if chars_eq_str(&cs, "TRACK_TIME") {
            Some(SeekMode::TrackAbsoluteTime)
        } else if chars_eq_str(&cs, "TIME+SECS") {
            Some(SeekMode::TimeSeconds)
        } else if chars_eq_str(&cs, "CHANNEL-FREQ") {
            Some(SeekMode::ChannelFreq)
        } else if chars_eq_str(&cs, "TMSH") {
            Some(SeekMode::TMSH)
        } else if chars_eq_str(&cs, "SAIA") {
            Some(SeekMode::SAIA)
        } else if chars_eq_str(&cs, "SAIB") {
            Some(SeekMode::SAIB)
        } else if chars_eq_str(&cs, "INDEX") {
            Some(SeekMode::Index)
        } else {
            None
        }
    }
}

/// Reading back the wire name of a `SeekMode` gives that value.
pub proof fn lemma_seek_mode_roundtrip(x: SeekMode)
    ensures
        seek_mode_from_str(seek_mode_str(x)) == Some(x),
{
    reveal_strlit("ABS_TIME");
    reveal_strlit("CHANNEL-FREQ");
    reveal_strlit("INDEX");
    reveal_strlit("REL_TIME");
    reveal_strlit("SAIA");
    reveal_strlit("SAIB");
    reveal_strlit("TIME+SECS");
    reveal_strlit("TMSH");
    reveal_strlit("TRACK_NR");
    reveal_strlit("TRACK_TIME");
    match x {
        SeekMode::AbsoluteTime => {},
        SeekMode::RelativeTime => {
            assert("REL_TIME"@[0] != "ABS_TIME"@[0]);
        },
        SeekMode::TrackNumber => {
            assert("TRACK_NR"@[0] != "ABS_TIME"@[0]);
            assert("TRACK_NR"@[0] != "REL_TIME"@[0]);
        },
        SeekMode::TrackAbsoluteTime => {
            assert("TRACK_TIME"@.len() != "ABS_TIME"@.len());
            assert("TRACK_TIME"@.len() != "REL_TIME"@.len());
            assert("TRACK_TIME"@.len() != "TRACK_NR"@.len());
        },
        SeekMode::TimeSeconds => {
            assert("TIME+SECS"@.len() != "ABS_TIME"@.len());
            assert("TIME+SECS"@.len() != "REL_TIME"@.len());
            assert("TIME+SECS"@.len() != "TRACK_NR"@.len());
            assert("TIME+SECS"@.len() != "TRACK_TIME"@.len());
        },
        SeekMode::ChannelFreq => {
            assert("CHANNEL-FREQ"@.len() != "ABS_TIME"@.len());
            assert("CHANNEL-FREQ"@.len() != "REL_TIME"@.len());
            assert("CHANNEL-FREQ"@.len() != "TRACK_NR"@.len());
            assert("CHANNEL-FREQ"@.len() != "TRACK_TIME"@.len());
            assert("CHANNEL-FREQ"@.len() != "TIME+SECS"@.len());
        },
        SeekMode::TMSH => {
            assert("TMSH"@.len() != "ABS_TIME"@.len());
            assert("TMSH"@.len() != "REL_TIME"@.len());
            assert("TMSH"@.len() != "TRACK_NR"@.len());
            assert("TMSH"@.len() != "TRACK_TIME"@.len());
            assert("TMSH"@.len() != "TIME+SECS"@.len());
            assert("TMSH"@.len() != "CHANNEL-FREQ"@.len());
        },
        SeekMode::SAIA => {
            assert("SAIA"@.len() != "ABS_TIME"@.len());
            assert("SAIA"@.len() != "REL_TIME"@.len());
            assert("SAIA"@.len() != "TRACK_NR"@.len());
            assert("SAIA"@.len() != "TRACK_TIME"@.len());
            assert("SAIA"@.len() != "TIME+SECS"@.len());
            assert("SAIA"@.len() != "CHANNEL-FREQ"@.len());
            assert("SAIA"@[0] != "TMSH"@[0]);
        },
        SeekMode::SAIB => {
            assert("SAIB"@.len() != "ABS_TIME"@.len());
            assert("SAIB"@.len() != "REL_TIME"@.len());
            assert("SAIB"@.len() != "TRACK_NR"@.len());
            assert("SAIB"@.len() != "TRACK_TIME"@.len());
            assert("SAIB"@.len() != "TIME+SECS"@.len());
            assert("SAIB"@.len() != "CHANNEL-FREQ"@.len());
            assert("SAIB"@[0] != "TMSH"@[0]);
            assert("SAIB"@[3] != "SAIA"@[3]);
        },
        SeekMode::Index => {
            assert("INDEX"@.len() != "ABS_TIME"@.len());
            assert("INDEX"@.len() != "REL_TIME"@.len());
            assert("INDEX"@.len() != "TRACK_NR"@.len());
            assert("INDEX"@.len() != "TRACK_TIME"@.len());
            assert("INDEX"@.len() != "TIME+SECS"@.len());
            assert("INDEX"@.len() != "CHANNEL-FREQ"@.len());
            assert("INDEX"@.len() != "TMSH"@.len());
            assert("INDEX"@.len() != "SAIA"@.len());
            assert("INDEX"@.len() != "SAIB"@.len());
        },
    }
}

/// Media category per UPnP-av-AVTransport-v3 spec §4.1.
#[derive(Debug, Clone, Copy, PartialEq, Eq, Structural, Hash)]
pub enum MediaCategory {
    NoMedia,
    TrackAware,
    TrackUnaware,
}

/// The wire name of each `MediaCategory` value.
pub open spec fn media_category_str(x: MediaCategory) -> Seq<char> {
    match x {
        MediaCategory::NoMedia => "NO_MEDIA"@,
        MediaCategory::TrackAware => "TRACK_AWARE"@,
        MediaCategory::TrackUnaware => "TRACK_UNAWARE"@,
    }
}

/// The `MediaCategory` value whose wire name is `s`, if any.
pub open spec fn media_category_from_str(s: Seq<char>) -> Option<MediaCategory> {
    if s == "NO_MEDIA"@ {
        Some(MediaCategory::NoMedia)
    } else if s == "TRACK_AWARE"@ {
        Some(MediaCategory::TrackAware)
    } else if s == "TRACK_UNAWARE"@ {
        Some(MediaCategory::TrackUnaware)
    } else {
        None
    }
}

impl MediaCategory {
    /// The wire name of this value.
    pub fn as_str(&self) -> (r: &'static str)
        ensures
            r@ == media_category_str(*self),
    {
        match self {
            MediaCategory::NoMedia => "NO_MEDIA",
            MediaCategory::TrackAware => "TRACK_AWARE",
            MediaCategory::TrackUnaware => "TRACK_UNAWARE",
        }
    }

    /// The value whose wire name is `s`, if any.
    pub fn from_str(s: &str) -> (r: Option<Self>)
        ensures
            r == media_category_from_str(s@),
    {
        let cs = chars_of(s);
        if chars_eq_str(&cs, "NO_MEDIA") {
            Some(MediaCategory::NoMedia)
        } else if chars_eq_str(&cs, "TRACK_AWARE") {
            Some(MediaCategory::TrackAware)
        } else if chars_eq_str(&cs, "TRACK_UNAWARE") {
            Some(MediaCategory::TrackUnaware)
        } else {
            None
        }
    }
}

/// Reading back the wire name of a `MediaCategory` gives that value.
pub proof fn lemma_media_category_roundtrip(x: MediaCategory)
    ensures
        media_category_from_str(media_category_str(x)) == Some(x),
{
    reveal_strlit("NO_MEDIA");
    reveal_strlit("TRACK_AWARE");
    reveal_strlit("TRACK_UNAWARE");
    match x {
        MediaCategory::NoMedia => {},
        MediaCategory::TrackAware => {
            assert("TRACK_AWARE"@.len() != "NO_MEDIA"@.len());
        },
        MediaCategory::TrackUnaware => {
            assert("TRACK_UNAWARE"@.len() != "NO_MEDIA"@.len());
            assert("TRACK_UNAWARE"@.len() != "TRACK_AWARE"@.len());
        },
    }
}

/// Returns true if this is a required action.
pub open spec fn action_required(x: ActionName) -> bool {
    match x {
        ActionName::SetAVTransportURI => true,
        ActionName::GetMediaInfo => true,
        ActionName::GetTransportInfo => true,
        ActionName::GetPositionInfo => true,
        ActionName::GetDeviceCapabilities => true,
        ActionName::GetTransportSettings => true,
        ActionName::Stop => true,
        ActionName::Play => true,
        ActionName::Seek => true,
        ActionName::Next => true,
        ActionName::Previous => true,
        ActionName::SetNextAVTransportURI => false,
        ActionName::GetMediaInfoExt => true,
        ActionName::Pause => false,
        ActionName::Record => false,
        ActionName::SetPlayMode => false,
        ActionName::SetRecordQualityMode => false,
        ActionName::GetCurrentTransportActions => false,
        ActionName::GetDRMState => true,
        ActionName::GetStateVariables => true,
        ActionName::SetStateVariables => true,
        ActionName::GetSyncOffset => false,
        ActionName::AdjustSyncOffset => false,
        ActionName::SetSyncOffset => false,
        ActionName::SyncPlay => false,
        ActionName::SyncStop => false,
        ActionName::SyncPause => false,
        ActionName::SetStaticPlaylist => true,
        ActionName::SetStreamingPlaylist => true,
        ActionName::GetPlaylistInfo => true,
    }
}

/// Returns true if this is an optional action.
pub open spec fn action_optional(x: ActionName) -> bool {
    match x {
        ActionName::SetAVTransportURI => false,
        ActionName::GetMediaInfo => false,
        ActionName::GetTransportInfo => false,
        ActionName::GetPositionInfo => false,
        ActionName::GetDeviceCapabilities => false,
        ActionName::GetTransportSettings => false,
        ActionName::Stop => false,
        ActionName::Play => false,
        ActionName::Seek => false,
        ActionName::Next => false,
        ActionName::Previous => false,
        ActionName::SetNextAVTransportURI => true,
        ActionName::GetMediaInfoExt => false,
        ActionName::Pause => true,
        ActionName::Record => true,
        ActionName::SetPlayMode => true,
        ActionName::SetRecordQualityMode => true,
        ActionName::GetCurrentTransportActions => true,
        ActionName::GetDRMState => false,
        ActionName::GetStateVariables => false,
        ActionName::SetStateVariables => false,
        ActionName::GetSyncOffset => false,
        ActionName::AdjustSyncOffset => false,
        ActionName::SetSyncOffset => false,
        ActionName::SyncPlay => false,
        ActionName::SyncStop => false,
        ActionName::SyncPause => false,
        ActionName::SetStaticPlaylist => false,
        ActionName::SetStreamingPlaylist => false,
        ActionName::GetPlaylistInfo => false,
    }
}

/// Returns true if this is a conditionally required action.
pub open spec fn action_conditionally_required(x: ActionName) -> bool {
    match x {
        ActionName::SetAVTransportURI => false,
        ActionName::GetMediaInfo => false,
        ActionName::GetTransportInfo => false,
        ActionName::GetPositionInfo => false,
        ActionName::GetDeviceCapabilities => false,
        ActionName::GetTransportSettings => false,
        ActionName::Stop => false,
        ActionName::Play => false,
        ActionName::Seek => false,
        ActionName::Next => false,
        ActionName::Previous => false,
        ActionName::SetNextAVTransportURI => false,
        ActionName::GetMediaInfoExt => false,
        ActionName::Pause => false,
        ActionName::Record => false,
        ActionName::SetPlayMode => false,
        ActionName::SetRecordQualityMode => false,
        ActionName::GetCurrentTransportActions => false,
        ActionName::GetDRMState => false,
        ActionName::GetStateVariables => false,
        ActionName::SetStateVariables => false,
        ActionName::GetSyncOffset => true,
        ActionName::AdjustSyncOffset => true,
        ActionName::SetSyncOffset => true,
        ActionName::SyncPlay => true,
        ActionName::SyncStop => true,
        ActionName::SyncPause => true,
        ActionName::SetStaticPlaylist => false,
        ActionName::SetStreamingPlaylist => false,
        ActionName::GetPlaylistInfo => false,
    }
}

/// ActionName values.
#[derive(Debug, Clone, Copy, PartialEq, Eq, Structural, Hash)]
pub enum ActionName {
    SetAVTransportURI,
    GetMediaInfo,
    GetTransportInfo,
    GetPositionInfo,
    GetDeviceCapabilities,
    GetTransportSettings,
    Stop,
    Play,
    Seek,
    Next,
    Previous,
    SetNextAVTransportURI,
    GetMediaInfoExt,
    Pause,
    Record,
    SetPlayMode,
    SetRecordQualityMode,
    GetCurrentTransportActions,
    GetDRMState,
    GetStateVariables,
    SetStateVariables,
    GetSyncOffset,
    AdjustSyncOffset,
    SetSyncOffset,
    SyncPlay,
    SyncStop,
    SyncPause,
    SetStaticPlaylist,
    SetStreamingPlaylist,
    GetPlaylistInfo,
}

/// The wire name of each `ActionName` value.
pub open spec fn action_name_str(x: ActionName) -> Seq<char> {
    match x {
        ActionName::SetAVTransportURI => "SetAVTransportURI"@,
        ActionName::GetMediaInfo => "GetMediaInfo"@,
        ActionName::GetTransportInfo => "GetTransportInfo"@,
        ActionName::GetPositionInfo => "GetPositionInfo"@,
        ActionName::GetDeviceCapabilities => "GetDeviceCapabilities"@,
        ActionName::GetTransportSettings => "GetTransportSettings"@,
        ActionName::Stop => "Stop"@,
        ActionName::Play => "Play"@,
        ActionName::Seek => "Seek"@,
        ActionName::Next => "Next"@,
        ActionName::Previous => "Previous"@,
        ActionName::SetNextAVTransportURI => "SetNextAVTransportURI"@,
        ActionName::GetMediaInfoExt => "GetMediaInfo_Ext"@,
        ActionName::Pause => "Pause"@,
        ActionName::Record => "Record"@,
        ActionName::SetPlayMode => "SetPlayMode"@,
        ActionName::SetRecordQualityMode => "SetRecordQualityMode"@,
        ActionName::GetCurrentTransportActions => "GetCurrentTransportActions"@,
        ActionName::GetDRMState => "GetDRMState"@,
        ActionName::GetStateVariables => "GetStateVariables"@,
        ActionName::SetStateVariables => "SetStateVariables"@,
        ActionName::GetSyncOffset => "GetSyncOffset"@,
        ActionName::AdjustSyncOffset => "AdjustSyncOffset"@,
        ActionName::SetSyncOffset => "SetSyncOffset"@,
        ActionName::SyncPlay => "SyncPlay"@,
        ActionName::SyncStop => "SyncStop"@,
        ActionName::SyncPause => "SyncPause"@,
        ActionName::SetStaticPlaylist => "SetStaticPlaylist"@,
        ActionName::SetStreamingPlaylist => "SetStreamingPlaylist"@,
        ActionName::GetPlaylistInfo => "GetPlaylistInfo"@,
    }
}

impl ActionName {
    /// Returns true if this is a required action.
    pub fn is_required(&self) -> (r: bool)
        ensures
            r == action_required(*self),
    {
        match self {
            ActionName::SetAVTransportURI => true,
            ActionName::GetMediaInfo => true,
            ActionName::GetTransportInfo => true,
            ActionName::GetPositionInfo => true,
            ActionName::GetDeviceCapabilities => true,
            ActionName::GetTransportSettings => true,
            ActionName::Stop => true,
            ActionName::Play => true,
            ActionName::Seek => true,
            ActionName::Next => true,
            ActionName::Previous => true,
            ActionName::SetNextAVTransportURI => false,
            ActionName::GetMediaInfoExt => true,
            ActionName::Pause => false,
            ActionName::Record => false,
            ActionName::SetPlayMode => false,
            ActionName::SetRecordQualityMode => false,
            ActionName::GetCurrentTransportActions => false,
            ActionName::GetDRMState => true,
            ActionName::GetStateVariables => true,
            ActionName::SetStateVariables => true,
            ActionName::GetSyncOffset => false,
            ActionName::AdjustSyncOffset => false,
            ActionName::SetSyncOffset => false,
            ActionName::SyncPlay => false,
            ActionName::SyncStop => false,
            ActionName::SyncPause => false,
            ActionName::SetStaticPlaylist => true,
            ActionName::SetStreamingPlaylist => true,
            ActionName::GetPlaylistInfo => true,
        }
    }

    /// Returns true if this is an optional action.
    pub fn is_optional(&self) -> (r: bool)
        ensures
            r == action_optional(*self),
    {
        match self {
            ActionName::SetAVTransportURI => false,
            ActionName::GetMediaInfo => false,
            ActionName::GetTransportInfo => false,
            ActionName::GetPositionInfo => false,
            ActionName::GetDeviceCapabilities => false,
            ActionName::GetTransportSettings => false,
            ActionName::Stop => false,
            ActionName::Play => false,
            ActionName::Seek => false,
            ActionName::Next => false,
            ActionName::Previous => false,
            ActionName::SetNextAVTransportURI => true,
            ActionName::GetMediaInfoExt => false,
            ActionName::Pause => true,
            ActionName::Record => true,
            ActionName::SetPlayMode => true,
            ActionName::SetRecordQualityMode => true,
            ActionName::GetCurrentTransportActions => true,
            ActionName::GetDRMState => false,
            ActionName::GetStateVariables => false,
            ActionName::SetStateVariables => false,
            ActionName::GetSyncOffset => false,
            ActionName::AdjustSyncOffset => false,
            ActionName::SetSyncOffset => false,
            ActionName::SyncPlay => false,
            ActionName::SyncStop => false,
            ActionName::SyncPause => false,
            ActionName::SetStaticPlaylist => false,
            ActionName::SetStreamingPlaylist => false,
            ActionName::GetPlaylistInfo => false,
        }
    }

    /// Returns true if this is a conditionally required action.
    pub fn is_conditionally_required(&self) -> (r: bool)
        ensures
            r == action_conditionally_required(*self),
    {
        match self {
            ActionName::SetAVTransportURI => false,
            ActionName::GetMediaInfo => false,
            ActionName::GetTransportInfo => false,
            ActionName::GetPositionInfo => false,
            ActionName::GetDeviceCapabilities => false,
            ActionName::GetTransportSettings => false,
            ActionName::Stop => false,
            ActionName::Play => false,
            ActionName::Seek => false,
            ActionName::Next => false,
            ActionName::Previous => false,
            ActionName::SetNextAVTransportURI => false,
            ActionName::GetMediaInfoExt => false,
            ActionName::Pause => false,
            ActionName::Record => false,
            ActionName::SetPlayMode => false,
            ActionName::SetRecordQualityMode => false,
            ActionName::GetCurrentTransportActions => false,
            ActionName::GetDRMState => false,
            ActionName::GetStateVariables => false,
            ActionName::SetStateVariables => false,
            ActionName::GetSyncOffset => true,
            ActionName::AdjustSyncOffset => true,
            ActionName::SetSyncOffset => true,
            ActionName::SyncPlay => true,
            ActionName::SyncStop => true,
            ActionName::SyncPause => true,
            ActionName::SetStaticPlaylist => false,
            ActionName::SetStreamingPlaylist => false,
            ActionName::GetPlaylistInfo => false,
        }
    }

    /// The wire name of this value.
    pub fn as_str(&self) -> (r: &'static str)
        ensures
            r@ == action_name_str(*self),
    {
        match self {
            ActionName::SetAVTransportURI => "SetAVTransportURI",
            ActionName::GetMediaInfo => "GetMediaInfo",
            ActionName::GetTransportInfo => "GetTransportInfo",
            ActionName::GetPositionInfo => "GetPositionInfo",
            ActionName::GetDeviceCapabilities => "GetDeviceCapabilities",
            ActionName::GetTransportSettings => "GetTransportSettings",
            ActionName::Stop => "Stop",
            ActionName::Play => "Play",
            ActionName::Seek => "Seek",
            ActionName::Next => "Next",
            ActionName::Previous => "Previous",
            ActionName::SetNextAVTransportURI => "SetNextAVTransportURI",
            ActionName::GetMediaInfoExt => "GetMediaInfo_Ext",
            ActionName::Pause => "Pause",
            ActionName::Record => "Record",
            ActionName::SetPlayMode => "SetPlayMode",
            ActionName::SetRecordQualityMode => "SetRecordQualityMode",
            ActionName::GetCurrentTransportActions => "GetCurrentTransportActions",
            ActionName::GetDRMState => "GetDRMState",
            ActionName::GetStateVariables => "GetStateVariables",
            ActionName::SetStateVariables => "SetStateVariables",
            ActionName::GetSyncOffset => "GetSyncOffset",
            ActionName::AdjustSyncOffset => "AdjustSyncOffset",
            ActionName::SetSyncOffset => "SetSyncOffset",
            ActionName::SyncPlay => "SyncPlay",
            ActionName::SyncStop => "SyncStop",
            ActionName::SyncPause => "SyncPause",
            ActionName::SetStaticPlaylist => "SetStaticPlaylist",
            ActionName::SetStreamingPlaylist => "SetStreamingPlaylist",
            ActionName::GetPlaylistInfo => "GetPlaylistInfo",
        }
    }
}

/// Every action falls in exactly one of the categories.
pub proof fn lemma_action_category_partition(a: ActionName)
    ensures
        action_required(a) ==> !action_optional(a) && !action_conditionally_required(a),
        action_optional(a) ==> !action_required(a) && !action_conditionally_required(a),
        action_conditionally_required(a) ==> !action_required(a) && !action_optional(a),
        action_required(a) || action_optional(a) || action_conditionally_required(a),
{
}

/// AVTransport argument names.
#[derive(Debug, Clone, Copy, PartialEq, Eq, Structural, Hash)]
pub enum ArgumentName {
    InstanceID,
    CurrentURI,
    CurrentURIMetaData,
    Speed,
    Unit,
    Target,
    NrTracks,
    MediaDuration,
    NextURI,
    NextURIMetaData,
    PlayMedium,
    RecordMedium,
    WriteStatus,
    CurrentTransportState,
    CurrentTransportStatus,
    CurrentSpeed,
    Track,
    TrackDuration,
    TrackMetaData,
    TrackURI,
    RelTime,
    AbsTime,
    RelCount,
    AbsCount,
    PlayMedia,
    RecMedia,
    RecQualityModes,
    PlayMode,
    RecQualityMode,
    Actions,
    DRMState,
    StateVariableList,
    StateVariableValuePairs,
    SyncOffset,
    SyncOffsetAdj,
    SyncPoint,
    PlaylistData,
    PlaylistDataLength,
    PlaylistOffset,
    PlaylistTotalLength,
    PlaylistMIMEType,
    PlaylistExtendedType,
    PlaylistStep,
    PlaylistType,
    PlaylistInfo,
}

/// The wire name of each `ArgumentName` value.
pub open spec fn argument_name_str(x: ArgumentName) -> Seq<char> {
    match x {
        ArgumentName::InstanceID => "InstanceID"@,
        ArgumentName::CurrentURI => "CurrentURI"@,
        ArgumentName::CurrentURIMetaData => "CurrentURIMetaData"@,
        ArgumentName::Speed => "Speed"@,
        ArgumentName::Unit => "Unit"@,
        ArgumentName::Target => "Target"@,
        ArgumentName::NrTracks => "NrTracks"@,
        ArgumentName::MediaDuration => "MediaDuration"@,
        ArgumentName::NextURI => "NextURI"@,
        ArgumentName::NextURIMetaData => "NextURIMetaData"@,
        ArgumentName::PlayMedium => "PlayMedium"@,
        ArgumentName::RecordMedium => "RecordMedium"@,
        ArgumentName::WriteStatus => "WriteStatus"@,
        ArgumentName::CurrentTransportState => "CurrentTransportState"@,
        ArgumentName::CurrentTransportStatus => "CurrentTransportStatus"@,
        ArgumentName::CurrentSpeed => "CurrentSpeed"@,
        ArgumentName::Track => "Track"@,
        ArgumentName::TrackDuration => "TrackDuration"@,
        ArgumentName::TrackMetaData => "TrackMetaData"@,
        ArgumentName::TrackURI => "TrackURI"@,
        ArgumentName::RelTime => "RelTime"@,
        ArgumentName::AbsTime => "AbsTime"@,
        ArgumentName::RelCount => "RelCount"@,
        ArgumentName::AbsCount => "AbsCount"@,
        ArgumentName::PlayMedia => "PlayMedia"@,
        ArgumentName::RecMedia => "RecMedia"@,
        ArgumentName::RecQualityModes => "RecQualityModes"@,
        ArgumentName::PlayMode => "PlayMode"@,
        ArgumentName::RecQualityMode => "RecQualityMode"@,
        ArgumentName::Actions => "Actions"@,
        ArgumentName::DRMState => "DRMState"@,
        ArgumentName::StateVariableList => "StateVariableList"@,
        ArgumentName::StateVariableValuePairs => "StateVariableValuePairs"@,
        ArgumentName::SyncOffset => "SyncOffset"@,
        ArgumentName::SyncOffsetAdj => "SyncOffsetAdj"@,
        ArgumentName::SyncPoint => "SyncPoint"@,
        ArgumentName::PlaylistData => "PlaylistData"@,
        ArgumentName::PlaylistDataLength => "PlaylistDataLength"@,
        ArgumentName::PlaylistOffset => "PlaylistOffset"@,
        ArgumentName::PlaylistTotalLength => "PlaylistTotalLength"@,
        ArgumentName::PlaylistMIMEType => "PlaylistMIMEType"@,
        ArgumentName::PlaylistExtendedType => "PlaylistExtendedType"@,
        ArgumentName::PlaylistStep => "PlaylistStep"@,
        ArgumentName::PlaylistType => "PlaylistType"@,
        ArgumentName::PlaylistInfo => "PlaylistInfo"@,
    }
}

/// The length, first and last character of a name: among the argument names
/// no two share all three.
pub open spec fn name_key(s: Seq<char>) -> (nat, char, char) {
    (s.len(), s[0], s[s.len() - 1])
}

/// Distinct argument names have distinct wire names.
#[verifier::rlimit(50)]
pub proof fn lemma_argument_name_injective(a: ArgumentName, b: ArgumentName)
    requires
        a != b,
    ensures
        argument_name_str(a) != argument_name_str(b),
{
    reveal_strlit("AbsCount");
    reveal_strlit("AbsTime");
    reveal_strlit("Actions");
    reveal_strlit("CurrentSpeed");
    reveal_strlit("CurrentTransportState");
    reveal_strlit("CurrentTransportStatus");
    reveal_strlit("CurrentURI");
    reveal_strlit("CurrentURIMetaData");
    reveal_strlit("DRMState");
    reveal_strlit("InstanceID");
    reveal_strlit("MediaDuration");
    reveal_strlit("NextURI");
    reveal_strlit("NextURIMetaData");
    reveal_strlit("NrTracks");
    reveal_strlit("PlayMedia");
    reveal_strlit("PlayMedium");
    reveal_strlit("PlayMode");
    reveal_strlit("PlaylistData");
    reveal_strlit("PlaylistDataLength");
    reveal_strlit("PlaylistExtendedType");
    reveal_strlit("PlaylistInfo");
    reveal_strlit("PlaylistMIMEType");
    reveal_strlit("PlaylistOffset");
    reveal_strlit("PlaylistStep");
    reveal_strlit("PlaylistTotalLength");
    reveal_strlit("PlaylistType");
    reveal_strlit("RecMedia");
    reveal_strlit("RecQualityMode");
    reveal_strlit("RecQualityModes");
    reveal_strlit("RecordMedium");
    reveal_strlit("RelCount");
    reveal_strlit("RelTime");
    reveal_strlit("Speed");
    reveal_strlit("StateVariableList");
    reveal_strlit("StateVariableValuePairs");
    reveal_strlit("SyncOffset");
    reveal_strlit("SyncOffsetAdj");
    reveal_strlit("SyncPoint");
    reveal_strlit("Target");
    reveal_strlit("Track");
    reveal_strlit("TrackDuration");
    reveal_strlit("TrackMetaData");
    reveal_strlit("TrackURI");
    reveal_strlit("Unit");
    reveal_strlit("WriteStatus");
    assert(name_key(argument_name_str(a)) != name_key(argument_name_str(b)));
}

impl ArgumentName {
    /// The wire name of this value.
    pub fn as_str(&self) -> (r: &'static str)
        ensures
            r@ == argument_name_str(*self),
    {
        match self {
            ArgumentName::InstanceID => "InstanceID",
            ArgumentName::CurrentURI => "CurrentURI",
            ArgumentName::CurrentURIMetaData => "CurrentURIMetaData",
            ArgumentName::Speed => "Speed",
            ArgumentName::Unit => "Unit",
            ArgumentName::Target => "Target",
            ArgumentName::NrTracks => "NrTracks",
            ArgumentName::MediaDuration => "MediaDuration",
            ArgumentName::NextURI => "NextURI",
            ArgumentName::NextURIMetaData => "NextURIMetaData",
            ArgumentName::PlayMedium => "PlayMedium",
            ArgumentName::RecordMedium => "RecordMedium",
            ArgumentName::WriteStatus => "WriteStatus",
            ArgumentName::CurrentTransportState => "CurrentTransportState",
            ArgumentName::CurrentTransportStatus => "CurrentTransportStatus",
            ArgumentName::CurrentSpeed => "CurrentSpeed",
            ArgumentName::Track => "Track",
            ArgumentName::TrackDuration => "TrackDuration",
            ArgumentName::TrackMetaData => "TrackMetaData",
            ArgumentName::TrackURI => "TrackURI",
            ArgumentName::RelTime => "RelTime",
            ArgumentName::AbsTime => "AbsTime",
            ArgumentName::RelCount => "RelCount",
            ArgumentName::AbsCount => "AbsCount",
            ArgumentName::PlayMedia => "PlayMedia",
            ArgumentName::RecMedia => "RecMedia",
            ArgumentName::RecQualityModes => "RecQualityModes",
            ArgumentName::PlayMode => "PlayMode",
            ArgumentName::RecQualityMode => "RecQualityMode",
            ArgumentName::Actions => "Actions",
            ArgumentName::DRMState => "DRMState",
            ArgumentName::StateVariableList => "StateVariableList",
            ArgumentName::StateVariableValuePairs => "StateVariableValuePairs",
            ArgumentName::SyncOffset => "SyncOffset",
            ArgumentName::SyncOffsetAdj => "SyncOffsetAdj",
            ArgumentName::SyncPoint => "SyncPoint",
            ArgumentName::PlaylistData => "PlaylistData",
            ArgumentName::PlaylistDataLength => "PlaylistDataLength",
            ArgumentName::PlaylistOffset => "PlaylistOffset",
            ArgumentName::PlaylistTotalLength => "PlaylistTotalLength",
            ArgumentName::PlaylistMIMEType => "PlaylistMIMEType",
            ArgumentName::PlaylistExtendedType => "PlaylistExtendedType",
            ArgumentName::PlaylistStep => "PlaylistStep",
            ArgumentName::PlaylistType => "PlaylistType",
            ArgumentName::PlaylistInfo => "PlaylistInfo",
        }
    }
}

/// UPnP AVTransport service error codes.
///
/// Per UPnP-av-AVTransport-v3-Service specification.
/// Error codes 400-699 are defined by the UPnP Device Architecture.
/// Error codes 700-799 are service-specific.
/// Error codes 800-899 are reserved for vendor extensions (not permitted for standard actions).
#[derive(Debug, Clone, Copy, PartialEq, Eq, Structural, Hash)]
pub enum Error {
    TransitionNotAvailable,
    NoContents,
    ReadError,
    FormatNotSupportedForPlayback,
    TransportLocked,
    WriteError,
    MediaProtectedOrNotWritable,
    FormatNotSupportedForRecording,
    MediaFull,
    SeekModeNotSupported,
    IllegalSeekTarget,
    PlayModeNotSupported,
    RecordQualityNotSupported,
    IllegalMime,
    ContentBusy,
    ResourceNotFound,
    PlaySpeedNotSupported,
    InvalidInstanceID,
    DrmError,
    ExpiredContent,
    NonAllowedUse,
    CantDetermineAllowedUses,
    ExhaustedAllowedUse,
    DeviceAuthenticationFailure,
    DeviceRevocation,
    InvalidStateVariableList,
    IllFormedCsvList,
    InvalidStateVariableValue,
    InvalidServiceType,
    InvalidServiceId,
    InvalidTimeOffsetOrPosition,
    UnableToCalculateSyncPoint,
    SyncPositionOrOffsetTooEarly,
    IllegalPlaylistOffset,
    IncorrectPlaylistLength,
    IllegalPlaylist,
    NoDnsServer,
    BadDomainName,
    ServerError,
}

/// The numeric code of each `Error` value.
pub open spec fn service_error_code(e: Error) -> u16 {
    match e {
        Error::TransitionNotAvailable => 701,
        Error::NoContents => 702,
        Error::ReadError => 703,
        Error::FormatNotSupportedForPlayback => 704,
        Error::TransportLocked => 705,
        Error::WriteError => 706,
        Error::MediaProtectedOrNotWritable => 707,
        Error::FormatNotSupportedForRecording => 708,
        Error::MediaFull => 709,
        Error::SeekModeNotSupported => 710,
        Error::IllegalSeekTarget => 706,
        Error::PlayModeNotSupported => 712,
        Error::RecordQualityNotSupported => 713,
        Error::IllegalMime => 714,
        Error::ContentBusy => 715,
        Error::ResourceNotFound => 716,
        Error::PlaySpeedNotSupported => 717,
        Error::InvalidInstanceID => 718,
        Error::DrmError => 719,
        Error::ExpiredContent => 720,
        Error::NonAllowedUse => 721,
        Error::CantDetermineAllowedUses => 722,
        Error::ExhaustedAllowedUse => 723,
        Error::DeviceAuthenticationFailure => 724,
        Error::DeviceRevocation => 725,
        Error::InvalidStateVariableList => 726,
        Error::IllFormedCsvList => 727,
        Error::InvalidStateVariableValue => 728,
        Error::InvalidServiceType => 729,
        Error::InvalidServiceId => 730,
        Error::InvalidTimeOffsetOrPosition => 731,
        Error::UnableToCalculateSyncPoint => 732,
        Error::SyncPositionOrOffsetTooEarly => 733,
        Error::IllegalPlaylistOffset => 734,
        Error::IncorrectPlaylistLength => 735,
        Error::IllegalPlaylist => 736,
        Error::NoDnsServer => 737,
        Error::BadDomainName => 738,
        Error::ServerError => 739,
    }
}

/// The human-readable description of each `Error` value.
pub open spec fn service_error_description(e: Error) -> Seq<char> {
    match e {
        Error::TransitionNotAvailable => "The immediate transition from current transport state to desired transport state is not supported by this device"@,
        Error::NoContents => "The media does not contain any contents that can be played"@,
        Error::ReadError => "The media cannot be read (for example, because of dust or a scratch)"@,
        Error::FormatNotSupportedForPlayback => "The storage format of the currently loaded media is not supported for playback by this device"@,
        Error::TransportLocked => "The transport is hold locked (for example, by a mechanical hold lock switch)"@,
        Error::WriteError => "The media cannot be written (for example, because of dust or a scratch)"@,
        Error::MediaProtectedOrNotWritable => "The media is write-protected or is of a not writable type"@,
        Error::FormatNotSupportedForRecording => "The storage format of the currently loaded media is not supported for recording by this device"@,
        Error::MediaFull => "There is no free space left on the loaded media"@,
        Error::SeekModeNotSupported => "The specified seek mode is not supported by the device"@,
        Error::IllegalSeekTarget => "The specified seek target is not present on the media or is not specified in terms of the seek mode"@,
        Error::PlayModeNotSupported => "The specified play mode is not supported by the device"@,
        Error::RecordQualityNotSupported => "The specified record quality is not supported by the device"@,
        Error::IllegalMime => "The specified resource has a MIME-type which is not supported by the AVTransport service"@,
        Error::ContentBusy => "This indicates that the resource is already in use at this time"@,
        Error::ResourceNotFound => "The specified resource cannot be found in the network"@,
        Error::PlaySpeedNotSupported => "The specified playback speed is not supported by the AVTransport service"@,
        Error::InvalidInstanceID => "The specified InstanceID is invalid for this AVTransport"@,
        Error::DrmError => "The action failed because an unspecified DRM error occurred"@,
        Error::ExpiredContent => "The action failed because the content use validity interval has expired"@,
        Error::NonAllowedUse => "The action failed because the requested content use is disallowed"@,
        Error::CantDetermineAllowedUses => "The action failed because the allowed content uses cannot be verified"@,
        Error::ExhaustedAllowedUse => "The action failed because the number of times this content has been used as requested has reached the maximum allowed number of uses"@,
        Error::DeviceAuthenticationFailure => "The action failed because of a device authentication failure between the media source device and the media sink device"@,
        Error::DeviceRevocation => "The action failed because either the media source device or the media sink device has been revoked"@,
        Error::InvalidStateVariableList => "Some of the variables are invalid"@,
        Error::IllFormedCsvList => "The CSV list is not well formed"@,
        Error::InvalidStateVariableValue => "One of the StateVariableValuePairs contains an invalid value"@,
        Error::InvalidServiceType => "The specified ServiceType is invalid"@,
        Error::InvalidServiceId => "The specified ServiceId is invalid"@,
        Error::InvalidTimeOffsetOrPosition => "The action failed because the supplied time, offset, or position value for an argument was not valid"@,
        Error::UnableToCalculateSyncPoint => "The action failed because the system was not able to calculate a synchronization point using the supplied time, offset, or position information"@,
        Error::SyncPositionOrOffsetTooEarly => "The action failed because the specified or calculated synchronization point, time, or position occurred too quickly (or in the past) for the device to complete the action"@,
        Error::IllegalPlaylistOffset => "The PlaylistOffset specified would result in a missing section of a playlist"@,
        Error::IncorrectPlaylistLength => "Playlist length is incorrect or exceeds storage capacity of device"@,
        Error::IllegalPlaylist => "The playlist delivered failed syntactic or semantic checks"@,
        Error::NoDnsServer => "The DNS Server is not available (HTTP error 503)"@,
        Error::BadDomainName => "Unable to resolve the Fully Qualified Domain Name (HTTP error 502)"@,
        Error::ServerError => "The server that hosts the resource is unreachable or unresponsive (HTTP error 404/410)"@,
    }
}

/// The `Error` value with the given numeric code, if any.
pub open spec fn service_error_from_code(code: u16) -> Option<Error> {
    match code {
        701 => Some(Error::TransitionNotAvailable),
        702 => Some(Error::NoContents),
        703 => Some(Error::ReadError),
        704 => Some(Error::FormatNotSupportedForPlayback),
        705 => Some(Error::TransportLocked),
        706 => Some(Error::IllegalSeekTarget),
        707 => Some(Error::MediaProtectedOrNotWritable),
        708 => Some(Error::FormatNotSupportedForRecording),
        709 => Some(Error::MediaFull),
        710 => Some(Error::SeekModeNotSupported),
        712 => Some(Error::PlayModeNotSupported),
        713 => Some(Error::RecordQualityNotSupported),
        714 => Some(Error::IllegalMime),
        715 => Some(Error::ContentBusy),
        716 => Some(Error::ResourceNotFound),
        717 => Some(Error::PlaySpeedNotSupported),
        718 => Some(Error::InvalidInstanceID),
        719 => Some(Error::DrmError),
        720 => Some(Error::ExpiredContent),
        721 => Some(Error::NonAllowedUse),
        722 => Some(Error::CantDetermineAllowedUses),
        723 => Some(Error::ExhaustedAllowedUse),
        724 => Some(Error::DeviceAuthenticationFailure),
        725 => Some(Error::DeviceRevocation),
        726 => Some(Error::InvalidStateVariableList),
        727 => Some(Error::IllFormedCsvList),
        728 => Some(Error::InvalidStateVariableValue),
        729 => Some(Error::InvalidServiceType),
        730 => Some(Error::InvalidServiceId),
        731 => Some(Error::InvalidTimeOffsetOrPosition),
        732 => Some(Error::UnableToCalculateSyncPoint),
        733 => Some(Error::SyncPositionOrOffsetTooEarly),
        734 => Some(Error::IllegalPlaylistOffset),
        735 => Some(Error::IncorrectPlaylistLength),
        736 => Some(Error::IllegalPlaylist),
        737 => Some(Error::NoDnsServer),
        738 => Some(Error::BadDomainName),
        739 => Some(Error::ServerError),
        _ => None,
    }
}

impl Error {
    /// Returns the numeric error code.
    pub fn code(&self) -> (r: u16)
        ensures
            r == service_error_code(*self),
    {
        match self {
            Error::TransitionNotAvailable => 701,
            Error::NoContents => 702,
            Error::ReadError => 703,
            Error::FormatNotSupportedForPlayback => 704,
            Error::TransportLocked => 705,
            Error::WriteError => 706,
            Error::MediaProtectedOrNotWritable => 707,
            Error::FormatNotSupportedForRecording => 708,
            Error::MediaFull => 709,
            Error::SeekModeNotSupported => 710,
            Error::IllegalSeekTarget => 706,
            Error::PlayModeNotSupported => 712,
            Error::RecordQualityNotSupported => 713,
            Error::IllegalMime => 714,
            Error::ContentBusy => 715,
            Error::ResourceNotFound => 716,
            Error::PlaySpeedNotSupported => 717,
            Error::InvalidInstanceID => 718,
            Error::DrmError => 719,
            Error::ExpiredContent => 720,
            Error::NonAllowedUse => 721,
            Error::CantDetermineAllowedUses => 722,
            Error::ExhaustedAllowedUse => 723,
            Error::DeviceAuthenticationFailure => 724,
            Error::DeviceRevocation => 725,
            Error::InvalidStateVariableList => 726,
            Error::IllFormedCsvList => 727,
            Error::InvalidStateVariableValue => 728,
            Error::InvalidServiceType => 729,
            Error::InvalidServiceId => 730,
            Error::InvalidTimeOffsetOrPosition => 731,
            Error::UnableToCalculateSyncPoint => 732,
            Error::SyncPositionOrOffsetTooEarly => 733,
            Error::IllegalPlaylistOffset => 734,
            Error::IncorrectPlaylistLength => 735,
            Error::IllegalPlaylist => 736,
            Error::NoDnsServer => 737,
            Error::BadDomainName => 738,
            Error::ServerError => 739,
        }
    }

    /// Returns the human-readable error description.
    pub fn description(&self) -> (r: &'static str)
        ensures
            r@ == service_error_description(*self),
    {
        match self {
            Error::TransitionNotAvailable => "The immediate transition from current transport state to desired transport state is not supported by this device",
            Error::NoContents => "The media does not contain any contents that can be played",
            Error::ReadError => "The media cannot be read (for example, because of dust or a scratch)",
            Error::FormatNotSupportedForPlayback => "The storage format of the currently loaded media is not supported for playback by this device",
            Error::TransportLocked => "The transport is hold locked (for example, by a mechanical hold lock switch)",
            Error::WriteError => "The media cannot be written (for example, because of dust or a scratch)",
            Error::MediaProtectedOrNotWritable => "The media is write-protected or is of a not writable type",
            Error::FormatNotSupportedForRecording => "The storage format of the currently loaded media is not supported for recording by this device",
            Error::MediaFull => "There is no free space left on the loaded media",
            Error::SeekModeNotSupported => "The specified seek mode is not supported by the device",
            Error::IllegalSeekTarget => "The specified seek target is not present on the media or is not specified in terms of the seek mode",
            Error::PlayModeNotSupported => "The specified play mode is not supported by the device",
            Error::RecordQualityNotSupported => "The specified record quality is not supported by the device",
            Error::IllegalMime => "The specified resource has a MIME-type which is not supported by the AVTransport service",
            Error::ContentBusy => "This indicates that the resource is already in use at this time",
            Error::ResourceNotFound => "The specified resource cannot be found in the network",
            Error::PlaySpeedNotSupported => "The specified playback speed is not supported by the AVTransport service",
            Error::InvalidInstanceID => "The specified InstanceID is invalid for this AVTransport",
            Error::DrmError => "The action failed because an unspecified DRM error occurred",
            Error::ExpiredContent => "The action failed because the content use validity interval has expired",
            Error::NonAllowedUse => "The action failed because the requested content use is disallowed",
            Error::CantDetermineAllowedUses => "The action failed because the allowed content uses cannot be verified",
            Error::ExhaustedAllowedUse => "The action failed because the number of times this content has been used as requested has reached the maximum allowed number of uses",
            Error::DeviceAuthenticationFailure => "The action failed because of a device authentication failure between the media source device and the media sink device",
            Error::DeviceRevocation => "The action failed because either the media source device or the media sink device has been revoked",
            Error::InvalidStateVariableList => "Some of the variables are invalid",
            Error::IllFormedCsvList => "The CSV list is not well formed",
            Error::InvalidStateVariableValue => "One of the StateVariableValuePairs contains an invalid value",
            Error::InvalidServiceType => "The specified ServiceType is invalid",
            Error::InvalidServiceId => "The specified ServiceId is invalid",
            Error::InvalidTimeOffsetOrPosition => "The action failed because the supplied time, offset, or position value for an argument was not valid",
            Error::UnableToCalculateSyncPoint => "The action failed because the system was not able to calculate a synchronization point using the supplied time, offset, or position information",
            Error::SyncPositionOrOffsetTooEarly => "The action failed because the specified or calculated synchronization point, time, or position occurred too quickly (or in the past) for the device to complete the action",
            Error::IllegalPlaylistOffset => "The PlaylistOffset specified would result in a missing section of a playlist",
            Error::IncorrectPlaylistLength => "Playlist length is incorrect or exceeds storage capacity of device",
            Error::IllegalPlaylist => "The playlist delivered failed syntactic or semantic checks",
            Error::NoDnsServer => "The DNS Server is not available (HTTP error 503)",
            Error::BadDomainName => "Unable to resolve the Fully Qualified Domain Name (HTTP error 502)",
            Error::ServerError => "The server that hosts the resource is unreachable or unresponsive (HTTP error 404/410)",
        }
    }

    /// Lookup an error by its numeric code.
    pub fn from_code(code: u16) -> (r: Option<Self>)
        ensures
            r == service_error_from_code(code),
    {
        match code {
            701 => Some(Error::TransitionNotAvailable),
            702 => Some(Error::NoContents),
            703 => Some(Error::ReadError),
            704 => Some(Error::FormatNotSupportedForPlayback),
            705 => Some(Error::TransportLocked),
            706 => Some(Error::IllegalSeekTarget),
            707 => Some(Error::MediaProtectedOrNotWritable),
            708 => Some(Error::FormatNotSupportedForRecording),
            709 => Some(Error::MediaFull),
            710 => Some(Error::SeekModeNotSupported),
                712 => Some(Error::PlayModeNotSupported),
            713 => Some(Error::RecordQualityNotSupported),
            714 => Some(Error::IllegalMime),
            715 => Some(Error::ContentBusy),
            716 => Some(Error::ResourceNotFound),
            717 => Some(Error::PlaySpeedNotSupported),
            718 => Some(Error::InvalidInstanceID),
            719 => Some(Error::DrmError),
            720 => Some(Error::ExpiredContent),
            721 => Some(Error::NonAllowedUse),
            722 => Some(Error::CantDetermineAllowedUses),
            723 => Some(Error::ExhaustedAllowedUse),
            724 => Some(Error::DeviceAuthenticationFailure),
            725 => Some(Error::DeviceRevocation),
            726 => Some(Error::InvalidStateVariableList),
            727 => Some(Error::IllFormedCsvList),
            728 => Some(Error::InvalidStateVariableValue),
            729 => Some(Error::InvalidServiceType),
            730 => Some(Error::InvalidServiceId),
            731 => Some(Error::InvalidTimeOffsetOrPosition),
            732 => Some(Error::UnableToCalculateSyncPoint),
            733 => Some(Error::SyncPositionOrOffsetTooEarly),
            734 => Some(Error::IllegalPlaylistOffset),
            735 => Some(Error::IncorrectPlaylistLength),
            736 => Some(Error::IllegalPlaylist),
            737 => Some(Error::NoDnsServer),
            738 => Some(Error::BadDomainName),
            739 => Some(Error::ServerError),
            _ => None,
        }
    }

    /// The display text: `AVTransport Error <code>: <description>`.
    pub fn message(&self) -> (r: String)
        ensures
            r@ == "AVTransport Error "@ + nat_to_decimal(service_error_code(*self) as nat) + ": "@ + service_error_description(*self),
    {
        let mut s = to_owned_string("AVTransport Error ");
        push_decimal(&mut s, self.code() as u64);
        push_str(&mut s, ": ");
        push_str(&mut s, self.description());
        s
    }
}

/// Looking an error up by its own code gives that error back, for every
/// error but `WriteError`, which shares code 706 with `IllegalSeekTarget`.
pub proof fn lemma_service_error_code_roundtrip(e: Error)
    requires
        e != Error::WriteError,
    ensures
        service_error_from_code(service_error_code(e)) == Some(e),
{
}

/// A code that names an error is that error's code.
pub proof fn lemma_service_error_from_code_inverse(code: u16)
    ensures
        service_error_from_code(code) matches Some(e) ==> service_error_code(e) == code,
{
}

/// AVTransport state variable names per UPnP-av-AVTransport-v3 spec §4.1.
///
/// 34 state variables: the 29 below and 5 A_ARG_TYPE variables.
/// - 3 core transport state (TransportState, TransportStatus, CurrentMediaCategory)
/// - 6 media identity (AVTransportURI, AVTransportURIMetaData, NextAVTransportURI,
///   NextAVTransportURIMetaData, CurrentTrackURI, CurrentTrackMetaData)
/// - 8 playback position (CurrentTrack, NumberOfTracks, CurrentTrackDuration,
///   CurrentMediaDuration, RelativeTimePosition, AbsoluteTimePosition,
///   RelativeCounterPosition, AbsoluteCounterPosition)
/// - 4 storage & capabilities (PlaybackStorageMedium, RecordStorageMedium,
///   PossiblePlaybackStorageMedia, PossibleRecordStorageMedia)
/// - 2 play control (CurrentPlayMode, TransportPlaySpeed)
/// - 4 recording (RecordMediumWriteStatus, CurrentRecordQualityMode,
///   PossibleRecordQualityModes, DRMState)
/// - 2 eventing (LastChange, CurrentTransportActions)
/// - A_ARG_TYPE variables for action argument type definitions (instance id,
///   seek mode and target, record medium, stream format)
#[allow(non_camel_case_types)]
#[derive(Debug, Clone, Copy, PartialEq, Eq, Structural, Hash, Default)]
pub enum StateVariableName {
    #[default]
    TransportState,
    TransportStatus,
    CurrentMediaCategory,
    AVTransportURI,
    AVTransportURIMetaData,
    NextAVTransportURI,
    NextAVTransportURIMetaData,
    CurrentTrackURI,
    CurrentTrackMetaData,
    CurrentTrack,
    NumberOfTracks,
    CurrentTrackDuration,
    CurrentMediaDuration,
    RelativeTimePosition,
    AbsoluteTimePosition,
    RelativeCounterPosition,
    AbsoluteCounterPosition,
    PlaybackStorageMedium,
    RecordStorageMedium,
    PossiblePlaybackStorageMedia,
    PossibleRecordStorageMedia,
    CurrentPlayMode,
    TransportPlaySpeed,
    RecordMediumWriteStatus,
    CurrentRecordQualityMode,
    PossibleRecordQualityModes,
    DRMState,
    LastChange,
    CurrentTransportActions,
    A_ARG_TYPE_InstanceID,
    A_ARG_TYPE_SeekMode,
    A_ARG_TYPE_SeekTarget,
    A_ARG_TYPE_RecordMedium,
    A_ARG_TYPE_StreamFormat,
}

/// The wire name of each state variable.
pub open spec fn state_var_str(x: StateVariableName) -> Seq<char> {
    match x {
        StateVariableName::TransportState => "TransportState"@,
        StateVariableName::TransportStatus => "TransportStatus"@,
        StateVariableName::CurrentMediaCategory => "CurrentMediaCategory"@,
        StateVariableName::AVTransportURI => "AVTransportURI"@,
        StateVariableName::AVTransportURIMetaData => "AVTransportURIMetaData"@,
        StateVariableName::NextAVTransportURI => "NextAVTransportURI"@,
        StateVariableName::NextAVTransportURIMetaData => "NextAVTransportURIMetaData"@,
        StateVariableName::CurrentTrackURI => "CurrentTrackURI"@,
        StateVariableName::CurrentTrackMetaData => "CurrentTrackMetaData"@,
        StateVariableName::CurrentTrack => "CurrentTrack"@,
        StateVariableName::NumberOfTracks => "NumberOfTracks"@,
        StateVariableName::CurrentTrackDuration => "CurrentTrackDuration"@,
        StateVariableName::CurrentMediaDuration => "CurrentMediaDuration"@,
        StateVariableName::RelativeTimePosition => "RelativeTimePosition"@,
        StateVariableName::AbsoluteTimePosition => "AbsoluteTimePosition"@,
        StateVariableName::RelativeCounterPosition => "RelativeCounterPosition"@,
        StateVariableName::AbsoluteCounterPosition => "AbsoluteCounterPosition"@,
        StateVariableName::PlaybackStorageMedium => "PlaybackStorageMedium"@,
        StateVariableName::RecordStorageMedium => "RecordStorageMedium"@,
        StateVariableName::PossiblePlaybackStorageMedia => "PossiblePlaybackStorageMedia"@,
        StateVariableName::PossibleRecordStorageMedia => "PossibleRecordStorageMedia"@,
        StateVariableName::CurrentPlayMode => "CurrentPlayMode"@,
        StateVariableName::TransportPlaySpeed => "TransportPlaySpeed"@,
        StateVariableName::RecordMediumWriteStatus => "RecordMediumWriteStatus"@,
        StateVariableName::CurrentRecordQualityMode => "CurrentRecordQualityMode"@,
        StateVariableName::PossibleRecordQualityModes => "PossibleRecordQualityModes"@,
        StateVariableName::DRMState => "DRMState"@,
        StateVariableName::LastChange => "LastChange"@,
        StateVariableName::CurrentTransportActions => "CurrentTransportActions"@,
        StateVariableName::A_ARG_TYPE_InstanceID => "A_ARG_TYPE_InstanceID"@,
        StateVariableName::A_ARG_TYPE_SeekMode => "A_ARG_TYPE_SeekMode"@,
        StateVariableName::A_ARG_TYPE_SeekTarget => "A_ARG_TYPE_SeekTarget"@,
        StateVariableName::A_ARG_TYPE_RecordMedium => "A_ARG_TYPE_RecordMedium"@,
        StateVariableName::A_ARG_TYPE_StreamFormat => "A_ARG_TYPE_StreamFormat"@,
    }
}

/// The state variables that send events (is_evented=YES).
pub open spec fn state_var_evented(x: StateVariableName) -> bool {
    match x {
        StateVariableName::TransportState => false,
        StateVariableName::TransportStatus => false,
        StateVariableName::CurrentMediaCategory => false,
        StateVariableName::AVTransportURI => false,
        StateVariableName::AVTransportURIMetaData => false,
        StateVariableName::NextAVTransportURI => false,
        StateVariableName::NextAVTransportURIMetaData => false,
        StateVariableName::CurrentTrackURI => false,
        StateVariableName::CurrentTrackMetaData => false,
        StateVariableName::CurrentTrack => false,
        StateVariableName::NumberOfTracks => false,
        StateVariableName::CurrentTrackDuration => false,
        StateVariableName::CurrentMediaDuration => false,
        StateVariableName::RelativeTimePosition => false,
        StateVariableName::AbsoluteTimePosition => false,
        StateVariableName::RelativeCounterPosition => false,
        StateVariableName::AbsoluteCounterPosition => false,
        StateVariableName::PlaybackStorageMedium => false,
        StateVariableName::RecordStorageMedium => false,
        StateVariableName::PossiblePlaybackStorageMedia => false,
        StateVariableName::PossibleRecordStorageMedia => false,
        StateVariableName::CurrentPlayMode => false,
        StateVariableName::TransportPlaySpeed => false,
        StateVariableName::RecordMediumWriteStatus => false,
        StateVariableName::CurrentRecordQualityMode => false,
        StateVariableName::PossibleRecordQualityModes => false,
        StateVariableName::DRMState => false,
        StateVariableName::LastChange => true,
        StateVariableName::CurrentTransportActions => false,
        StateVariableName::A_ARG_TYPE_InstanceID => false,
        StateVariableName::A_ARG_TYPE_SeekMode => false,
        StateVariableName::A_ARG_TYPE_SeekTarget => false,
        StateVariableName::A_ARG_TYPE_RecordMedium => false,
        StateVariableName::A_ARG_TYPE_StreamFormat => false,
    }
}

/// The state variables collated into the LastChange document.
pub open spec fn state_var_via_lastchange(x: StateVariableName) -> bool {
    match x {
        StateVariableName::TransportState => true,
        StateVariableName::TransportStatus => true,
        StateVariableName::CurrentMediaCategory => true,
        StateVariableName::AVTransportURI => true,
        StateVariableName::AVTransportURIMetaData => true,
        StateVariableName::NextAVTransportURI => true,
        StateVariableName::NextAVTransportURIMetaData => true,
        StateVariableName::CurrentTrackURI => true,
        StateVariableName::CurrentTrackMetaData => true,
        StateVariableName::CurrentTrack => true,
        StateVariableName::NumberOfTracks => true,
        StateVariableName::CurrentTrackDuration => true,
        StateVariableName::CurrentMediaDuration => true,
        StateVariableName::RelativeTimePosition => false,
        StateVariableName::AbsoluteTimePosition => false,
        StateVariableName::RelativeCounterPosition => false,
        StateVariableName::AbsoluteCounterPosition => false,
        StateVariableName::PlaybackStorageMedium => true,
        StateVariableName::RecordStorageMedium => true,
        StateVariableName::PossiblePlaybackStorageMedia => true,
        StateVariableName::PossibleRecordStorageMedia => true,
        StateVariableName::CurrentPlayMode => true,
        StateVariableName::TransportPlaySpeed => true,
        StateVariableName::RecordMediumWriteStatus => true,
        StateVariableName::CurrentRecordQualityMode => true,
        StateVariableName::PossibleRecordQualityModes => true,
        StateVariableName::DRMState => true,
        StateVariableName::LastChange => false,
        StateVariableName::CurrentTransportActions => true,
        StateVariableName::A_ARG_TYPE_InstanceID => false,
        StateVariableName::A_ARG_TYPE_SeekMode => false,
        StateVariableName::A_ARG_TYPE_SeekTarget => false,
        StateVariableName::A_ARG_TYPE_RecordMedium => false,
        StateVariableName::A_ARG_TYPE_StreamFormat => false,
    }
}

/// The state variables kept per InstanceID.
pub open spec fn state_var_instance_scoped(x: StateVariableName) -> bool {
    match x {
        StateVariableName::TransportState => false,
        StateVariableName::TransportStatus => false,
        StateVariableName::CurrentMediaCategory => false,
        StateVariableName::AVTransportURI => true,
        StateVariableName::AVTransportURIMetaData => true,
        StateVariableName::NextAVTransportURI => true,
        StateVariableName::NextAVTransportURIMetaData => true,
        StateVariableName::CurrentTrackURI => true,
        StateVariableName::CurrentTrackMetaData => true,
        StateVariableName::CurrentTrack => true,
        StateVariableName::NumberOfTracks => true,
        StateVariableName::CurrentTrackDuration => true,
        StateVariableName::CurrentMediaDuration => true,
        StateVariableName::RelativeTimePosition => true,
        StateVariableName::AbsoluteTimePosition => true,
        StateVariableName::RelativeCounterPosition => true,
        StateVariableName::AbsoluteCounterPosition => true,
        StateVariableName::PlaybackStorageMedium => true,
        StateVariableName::RecordStorageMedium => true,
        StateVariableName::PossiblePlaybackStorageMedia => true,
        StateVariableName::PossibleRecordStorageMedia => true,
        StateVariableName::CurrentPlayMode => true,
        StateVariableName::TransportPlaySpeed => true,
        StateVariableName::RecordMediumWriteStatus => true,
        StateVariableName::CurrentRecordQualityMode => true,
        StateVariableName::PossibleRecordQualityModes => true,
        StateVariableName::DRMState => true,
        StateVariableName::LastChange => false,
        StateVariableName::CurrentTransportActions => false,
        StateVariableName::A_ARG_TYPE_InstanceID => false,
        StateVariableName::A_ARG_TYPE_SeekMode => false,
        StateVariableName::A_ARG_TYPE_SeekTarget => false,
        StateVariableName::A_ARG_TYPE_RecordMedium => false,
        StateVariableName::A_ARG_TYPE_StreamFormat => false,
    }
}

/// The SCPD data type name of each state variable.
pub open spec fn state_var_type_name(x: StateVariableName) -> Seq<char> {
    match x {
        StateVariableName::TransportState => "string"@,
        StateVariableName::TransportStatus => "string"@,
        StateVariableName::CurrentMediaCategory => "string"@,
        StateVariableName::AVTransportURI => "uri"@,
        StateVariableName::AVTransportURIMetaData => "string"@,
        StateVariableName::NextAVTransportURI => "uri"@,
        StateVariableName::NextAVTransportURIMetaData => "string"@,
        StateVariableName::CurrentTrackURI => "uri"@,
        StateVariableName::CurrentTrackMetaData => "string"@,
        StateVariableName::CurrentTrack => "ui4"@,
        StateVariableName::NumberOfTracks => "ui4"@,
        StateVariableName::CurrentTrackDuration => "string"@,
        StateVariableName::CurrentMediaDuration => "string"@,
        StateVariableName::RelativeTimePosition => "string"@,
        StateVariableName::AbsoluteTimePosition => "string"@,
        StateVariableName::RelativeCounterPosition => "i4"@,
        StateVariableName::AbsoluteCounterPosition => "ui4"@,
        StateVariableName::PlaybackStorageMedium => "string"@,
        StateVariableName::RecordStorageMedium => "string"@,
        StateVariableName::PossiblePlaybackStorageMedia => "string"@,
        StateVariableName::PossibleRecordStorageMedia => "string"@,
        StateVariableName::CurrentPlayMode => "string"@,
        StateVariableName::TransportPlaySpeed => "string"@,
        StateVariableName::RecordMediumWriteStatus => "string"@,
        StateVariableName::CurrentRecordQualityMode => "string"@,
        StateVariableName::PossibleRecordQualityModes => "string"@,
        StateVariableName::DRMState => "string"@,
        StateVariableName::LastChange => "string"@,
        StateVariableName::CurrentTransportActions => "string"@,
        StateVariableName::A_ARG_TYPE_InstanceID => "ui4"@,
        StateVariableName::A_ARG_TYPE_SeekMode => "string"@,
        StateVariableName::A_ARG_TYPE_SeekTarget => "string"@,
        StateVariableName::A_ARG_TYPE_RecordMedium => "string"@,
        StateVariableName::A_ARG_TYPE_StreamFormat => "string"@,
    }
}

impl crate::state::StateVariableName for StateVariableName {
    open spec fn wire_name(&self) -> Seq<char> {
        state_var_str(*self)
    }

    open spec fn evented(&self) -> bool {
        state_var_evented(*self)
    }

    open spec fn in_last_change(&self) -> bool {
        state_var_via_lastchange(*self)
    }

    open spec fn instance_scoped(&self) -> bool {
        state_var_instance_scoped(*self)
    }

    open spec fn data_type_text(&self) -> Seq<char> {
        state_var_type_name(*self)
    }

    open spec fn registered(&self) -> bool {
        crate::services::avtransport::registered_name(*self)
    }

    /// Returns the UPnP wire format name.
    fn as_str(&self) -> (r: &'static str) {
        match self {
            StateVariableName::TransportState => "TransportState",
            StateVariableName::TransportStatus => "TransportStatus",
            StateVariableName::CurrentMediaCategory => "CurrentMediaCategory",
            StateVariableName::AVTransportURI => "AVTransportURI",
            StateVariableName::AVTransportURIMetaData => "AVTransportURIMetaData",
            StateVariableName::NextAVTransportURI => "NextAVTransportURI",
            StateVariableName::NextAVTransportURIMetaData => "NextAVTransportURIMetaData",
            StateVariableName::CurrentTrackURI => "CurrentTrackURI",
            StateVariableName::CurrentTrackMetaData => "CurrentTrackMetaData",
            StateVariableName::CurrentTrack => "CurrentTrack",
            StateVariableName::NumberOfTracks => "NumberOfTracks",
            StateVariableName::CurrentTrackDuration => "CurrentTrackDuration",
            StateVariableName::CurrentMediaDuration => "CurrentMediaDuration",
            StateVariableName::RelativeTimePosition => "RelativeTimePosition",
            StateVariableName::AbsoluteTimePosition => "AbsoluteTimePosition",
            StateVariableName::RelativeCounterPosition => "RelativeCounterPosition",
            StateVariableName::AbsoluteCounterPosition => "AbsoluteCounterPosition",
            StateVariableName::PlaybackStorageMedium => "PlaybackStorageMedium",
            StateVariableName::RecordStorageMedium => "RecordStorageMedium",
            StateVariableName::PossiblePlaybackStorageMedia => "PossiblePlaybackStorageMedia",
            StateVariableName::PossibleRecordStorageMedia => "PossibleRecordStorageMedia",
            StateVariableName::CurrentPlayMode => "CurrentPlayMode",
            StateVariableName::TransportPlaySpeed => "TransportPlaySpeed",
            StateVariableName::RecordMediumWriteStatus => "RecordMediumWriteStatus",
            StateVariableName::CurrentRecordQualityMode => "CurrentRecordQualityMode",
            StateVariableName::PossibleRecordQualityModes => "PossibleRecordQualityModes",
            StateVariableName::DRMState => "DRMState",
            StateVariableName::LastChange => "LastChange",
            StateVariableName::CurrentTransportActions => "CurrentTransportActions",
            StateVariableName::A_ARG_TYPE_InstanceID => "A_ARG_TYPE_InstanceID",
            StateVariableName::A_ARG_TYPE_SeekMode => "A_ARG_TYPE_SeekMode",
            StateVariableName::A_ARG_TYPE_SeekTarget => "A_ARG_TYPE_SeekTarget",
            StateVariableName::A_ARG_TYPE_RecordMedium => "A_ARG_TYPE_RecordMedium",
            StateVariableName::A_ARG_TYPE_StreamFormat => "A_ARG_TYPE_StreamFormat",
        }
    }

    /// Returns true if this variable is evented per UPnP spec (is_evented=YES column).
    fn is_evented(&self) -> (r: bool) {
        match self {
            StateVariableName::TransportState => false,
            StateVariableName::TransportStatus => false,
            StateVariableName::CurrentMediaCategory => false,
            StateVariableName::AVTransportURI => false,
            StateVariableName::AVTransportURIMetaData => false,
            StateVariableName::NextAVTransportURI => false,
            StateVariableName::NextAVTransportURIMetaData => false,
            StateVariableName::CurrentTrackURI => false,
            StateVariableName::CurrentTrackMetaData => false,
            StateVariableName::CurrentTrack => false,
            StateVariableName::NumberOfTracks => false,
            StateVariableName::CurrentTrackDuration => false,
            StateVariableName::CurrentMediaDuration => false,
            StateVariableName::RelativeTimePosition => false,
            StateVariableName::AbsoluteTimePosition => false,
            StateVariableName::RelativeCounterPosition => false,
            StateVariableName::AbsoluteCounterPosition => false,
            StateVariableName::PlaybackStorageMedium => false,
            StateVariableName::RecordStorageMedium => false,
            StateVariableName::PossiblePlaybackStorageMedia => false,
            StateVariableName::PossibleRecordStorageMedia => false,
            StateVariableName::CurrentPlayMode => false,
            StateVariableName::TransportPlaySpeed => false,
            StateVariableName::RecordMediumWriteStatus => false,
            StateVariableName::CurrentRecordQualityMode => false,
            StateVariableName::PossibleRecordQualityModes => false,
            StateVariableName::DRMState => false,
            StateVariableName::LastChange => true,
            StateVariableName::CurrentTransportActions => false,
            StateVariableName::A_ARG_TYPE_InstanceID => false,
            StateVariableName::A_ARG_TYPE_SeekMode => false,
            StateVariableName::A_ARG_TYPE_SeekTarget => false,
            StateVariableName::A_ARG_TYPE_RecordMedium => false,
            StateVariableName::A_ARG_TYPE_StreamFormat => false,
        }
    }

    /// Returns true if this variable is indirectly evented via the LastChange XML payload.
    fn via_lastchange(&self) -> (r: bool) {
        match self {
            StateVariableName::TransportState => true,
            StateVariableName::TransportStatus => true,
            StateVariableName::CurrentMediaCategory => true,
            StateVariableName::AVTransportURI => true,
            StateVariableName::AVTransportURIMetaData => true,
            StateVariableName::NextAVTransportURI => true,
            StateVariableName::NextAVTransportURIMetaData => true,
            StateVariableName::CurrentTrackURI => true,
            StateVariableName::CurrentTrackMetaData => true,
            StateVariableName::CurrentTrack => true,
            StateVariableName::NumberOfTracks => true,
            StateVariableName::CurrentTrackDuration => true,
            StateVariableName::CurrentMediaDuration => true,
            StateVariableName::RelativeTimePosition => false,
            StateVariableName::AbsoluteTimePosition => false,
            StateVariableName::RelativeCounterPosition => false,
            StateVariableName::AbsoluteCounterPosition => false,
            StateVariableName::PlaybackStorageMedium => true,
            StateVariableName::RecordStorageMedium => true,
            StateVariableName::PossiblePlaybackStorageMedia => true,
            StateVariableName::PossibleRecordStorageMedia => true,
            StateVariableName::CurrentPlayMode => true,
            StateVariableName::TransportPlaySpeed => true,
            StateVariableName::RecordMediumWriteStatus => true,
            StateVariableName::CurrentRecordQualityMode => true,
            StateVariableName::PossibleRecordQualityModes => true,
            StateVariableName::DRMState => true,
            StateVariableName::LastChange => false,
            StateVariableName::CurrentTransportActions => true,
            StateVariableName::A_ARG_TYPE_InstanceID => false,
            StateVariableName::A_ARG_TYPE_SeekMode => false,
            StateVariableName::A_ARG_TYPE_SeekTarget => false,
            StateVariableName::A_ARG_TYPE_RecordMedium => false,
            StateVariableName::A_ARG_TYPE_StreamFormat => false,
        }
    }

    /// Returns true if this variable is scoped per InstanceID.
    fn is_instance_scoped(&self) -> (r: bool) {
        match self {
            StateVariableName::TransportState => false,
            StateVariableName::TransportStatus => false,
            StateVariableName::CurrentMediaCategory => false,
            StateVariableName::AVTransportURI => true,
            StateVariableName::AVTransportURIMetaData => true,
            StateVariableName::NextAVTransportURI => true,
            StateVariableName::NextAVTransportURIMetaData => true,
            StateVariableName::CurrentTrackURI => true,
            StateVariableName::CurrentTrackMetaData => true,
            StateVariableName::CurrentTrack => true,
            StateVariableName::NumberOfTracks => true,
            StateVariableName::CurrentTrackDuration => true,
            StateVariableName::CurrentMediaDuration => true,
            StateVariableName::RelativeTimePosition => true,
            StateVariableName::AbsoluteTimePosition => true,
            StateVariableName::RelativeCounterPosition => true,
            StateVariableName::AbsoluteCounterPosition => true,
            StateVariableName::PlaybackStorageMedium => true,
            StateVariableName::RecordStorageMedium => true,
            StateVariableName::PossiblePlaybackStorageMedia => true,
            StateVariableName::PossibleRecordStorageMedia => true,
            StateVariableName::CurrentPlayMode => true,
            StateVariableName::TransportPlaySpeed => true,
            StateVariableName::RecordMediumWriteStatus => true,
            StateVariableName::CurrentRecordQualityMode => true,
            StateVariableName::PossibleRecordQualityModes => true,
            StateVariableName::DRMState => true,
            StateVariableName::LastChange => false,
            StateVariableName::CurrentTransportActions => false,
            StateVariableName::A_ARG_TYPE_InstanceID => false,
            StateVariableName::A_ARG_TYPE_SeekMode => false,
            StateVariableName::A_ARG_TYPE_SeekTarget => false,
            StateVariableName::A_ARG_TYPE_RecordMedium => false,
            StateVariableName::A_ARG_TYPE_StreamFormat => false,
        }
    }

    /// Returns the UPnP wire type name for SCPD XML generation.
    fn data_type_name(&self) -> (r: &'static str) {
        match self {
            StateVariableName::TransportState => "string",
            StateVariableName::TransportStatus => "string",
            StateVariableName::CurrentMediaCategory => "string",
            StateVariableName::AVTransportURI => "uri",
            StateVariableName::AVTransportURIMetaData => "string",
            StateVariableName::NextAVTransportURI => "uri",
            StateVariableName::NextAVTransportURIMetaData => "string",
            StateVariableName::CurrentTrackURI => "uri",
            StateVariableName::CurrentTrackMetaData => "string",
            StateVariableName::CurrentTrack => "ui4",
            StateVariableName::NumberOfTracks => "ui4",
            StateVariableName::CurrentTrackDuration => "string",
            StateVariableName::CurrentMediaDuration => "string",
            StateVariableName::RelativeTimePosition => "string",
            StateVariableName::AbsoluteTimePosition => "string",
            StateVariableName::RelativeCounterPosition => "i4",
            StateVariableName::AbsoluteCounterPosition => "ui4",
            StateVariableName::PlaybackStorageMedium => "string",
            StateVariableName::RecordStorageMedium => "string",
            StateVariableName::PossiblePlaybackStorageMedia => "string",
            StateVariableName::PossibleRecordStorageMedia => "string",
            StateVariableName::CurrentPlayMode => "string",
            StateVariableName::TransportPlaySpeed => "string",
            StateVariableName::RecordMediumWriteStatus => "string",
            StateVariableName::CurrentRecordQualityMode => "string",
            StateVariableName::PossibleRecordQualityModes => "string",
            StateVariableName::DRMState => "string",
            StateVariableName::LastChange => "string",
            StateVariableName::CurrentTransportActions => "string",
            StateVariableName::A_ARG_TYPE_InstanceID => "ui4",
            StateVariableName::A_ARG_TYPE_SeekMode => "string",
            StateVariableName::A_ARG_TYPE_SeekTarget => "string",
            StateVariableName::A_ARG_TYPE_RecordMedium => "string",
            StateVariableName::A_ARG_TYPE_StreamFormat => "string",
        }
    }

}

} // verus!
