//! The enumerated option codes exchanged with the native engine.
//!
//! Each enumeration mirrors one integer convention of the engine interface:
//! a variant per documented code, converted by total functions whose
//! contracts pin the exact mapping, with every unknown code collapsing to an
//! explicit catch-all where the interface leaves room for future values.

use vstd::prelude::*;

verus! {

/// The discriminant of a native track record.
#[derive(Clone, Copy, PartialEq, Eq, Structural, Hash, Debug)]
pub enum TrackType {
    Audio,
    Video,
    Text,
    Unknown,
}

/// The mapping the engine documents for track discriminants: zero is audio,
/// one is video, two is text, anything else (including future additions) is
/// unknown.
pub open spec fn track_type_of(code: i32) -> TrackType {
    if code == 0i32 {
        TrackType::Audio
    } else if code == 1i32 {
        TrackType::Video
    } else if code == 2i32 {
        TrackType::Text
    } else {
        TrackType::Unknown
    }
}

impl TrackType {
    /// Decode a raw discriminant, mapping every unrecognised code to
    /// `Unknown` rather than failing.
    pub fn from_code(code: i32) -> (r: TrackType)
        ensures
            r == track_type_of(code),
    {
        if code == 0i32 {
            TrackType::Audio
        } else if code == 1i32 {
            TrackType::Video
        } else if code == 2i32 {
            TrackType::Text
        } else {
            TrackType::Unknown
        }
    }
}

/// A playback state code as the engine reports it.
#[derive(Clone, Copy, PartialEq, Eq, Structural, Hash, Debug)]
pub enum State {
    NothingSpecial,
    Opening,
    Buffering,
    Playing,
    Paused,
    Stopped,
    Ended,
    Error,
}

/// The engine's state codes, in their documented order; codes past the last
/// documented one collapse to `Error`.
pub open spec fn state_of(code: u32) -> State {
    if code == 0u32 {
        State::NothingSpecial
    } else if code == 1u32 {
        State::Opening
    } else if code == 2u32 {
        State::Buffering
    } else if code == 3u32 {
        State::Playing
    } else if code == 4u32 {
        State::Paused
    } else if code == 5u32 {
        State::Stopped
    } else if code == 6u32 {
        State::Ended
    } else {
        State::Error
    }
}

impl State {
    /// Decode a raw state code.
    pub fn from_code(code: u32) -> (r: State)
        ensures
            r == state_of(code),
    {
        if code == 0u32 {
            State::NothingSpecial
        } else if code == 1u32 {
            State::Opening
        } else if code == 2u32 {
            State::Buffering
        } else if code == 3u32 {
            State::Playing
        } else if code == 4u32 {
            State::Paused
        } else if code == 5u32 {
            State::Stopped
        } else if code == 6u32 {
            State::Ended
        } else {
            State::Error
        }
    }
}

/// A metadata field of a media resource.
#[derive(Clone, Copy, PartialEq, Eq, Structural, Hash, Debug)]
pub enum Meta {
    Title,
    Artist,
    Genre,
    Copyright,
    Album,
    TrackNumber,
    Description,
    Rating,
    Date,
    Setting,
    URL,
    Language,
    NowPlaying,
    Publisher,
    EncodedBy,
    ArtworkURL,
    TrackID,
    TrackTotal,
    Director,
    Season,
    Episode,
    ShowName,
    Actors,
    AlbumArtist,
    DiscNumber,
    DiscTotal,
}

impl Meta {
    /// The integer code the engine uses for this metadata field.
    pub open spec fn code_spec(self) -> u32 {
        match self {
            Meta::Title => 0u32,
            Meta::Artist => 1u32,
            Meta::Genre => 2u32,
            Meta::Copyright => 3u32,
            Meta::Album => 4u32,
            Meta::TrackNumber => 5u32,
            Meta::Description => 6u32,
            Meta::Rating => 7u32,
            Meta::Date => 8u32,
            Meta::Setting => 9u32,
            Meta::URL => 10u32,
            Meta::Language => 11u32,
            Meta::NowPlaying => 12u32,
            Meta::Publisher => 13u32,
            Meta::EncodedBy => 14u32,
            Meta::ArtworkURL => 15u32,
            Meta::TrackID => 16u32,
            Meta::TrackTotal => 17u32,
            Meta::Director => 18u32,
            Meta::Season => 19u32,
            Meta::Episode => 20u32,
            Meta::ShowName => 21u32,
            Meta::Actors => 22u32,
            Meta::AlbumArtist => 23u32,
            Meta::DiscNumber => 24u32,
            Meta::DiscTotal => 25u32,
        }
    }

    /// Convert to the engine's integer code.
    pub fn code(self) -> (c: u32)
        ensures
            c == self.code_spec(),
    {
        match self {
            Meta::Title => 0u32,
            Meta::Artist => 1u32,
            Meta::Genre => 2u32,
            Meta::Copyright => 3u32,
            Meta::Album => 4u32,
            Meta::TrackNumber => 5u32,
            Meta::Description => 6u32,
            Meta::Rating => 7u32,
            Meta::Date => 8u32,
            Meta::Setting => 9u32,
            Meta::URL => 10u32,
            Meta::Language => 11u32,
            Meta::NowPlaying => 12u32,
            Meta::Publisher => 13u32,
            Meta::EncodedBy => 14u32,
            Meta::ArtworkURL => 15u32,
            Meta::TrackID => 16u32,
            Meta::TrackTotal => 17u32,
            Meta::Director => 18u32,
            Meta::Season => 19u32,
            Meta::Episode => 20u32,
            Meta::ShowName => 21u32,
            Meta::Actors => 22u32,
            Meta::AlbumArtist => 23u32,
            Meta::DiscNumber => 24u32,
            Meta::DiscTotal => 25u32,
        }
    }
}

/// How a list player walks its list.
#[derive(Clone, Copy, PartialEq, Eq, Structural, Hash, Debug)]
pub enum PlaybackMode {
    Default,
    Loop,
    Repeat,
}

impl PlaybackMode {
    /// The integer code the engine uses for this mode.
    pub open spec fn code_spec(self) -> u32 {
        match self {
            PlaybackMode::Default => 0u32,
            PlaybackMode::Loop => 1u32,
            PlaybackMode::Repeat => 2u32,
        }
    }

    /// Convert to the engine's integer code.
    pub fn code(self) -> (c: u32)
        ensures
            c == self.code_spec(),
    {
        match self {
            PlaybackMode::Default => 0u32,
            PlaybackMode::Loop => 1u32,
            PlaybackMode::Repeat => 2u32,
        }
    }
}

/// A video adjustment option of the engine's integer accessor.
#[derive(Clone, Copy, PartialEq, Eq, Structural, Hash, Debug)]
pub enum VideoAdjustOption {
    Enable,
    Contrast,
    Brightness,
    Hue,
    Saturation,
    Gamma,
}

impl VideoAdjustOption {
    /// The integer code the engine uses for this option.
    pub open spec fn code_spec(self) -> u32 {
        match self {
            VideoAdjustOption::Enable => 0u32,
            VideoAdjustOption::Contrast => 1u32,
            VideoAdjustOption::Brightness => 2u32,
            VideoAdjustOption::Hue => 3u32,
            VideoAdjustOption::Saturation => 4u32,
            VideoAdjustOption::Gamma => 5u32,
        }
    }

    /// Convert to the engine's integer code.
    pub fn code(self) -> (c: u32)
        ensures
            c == self.code_spec(),
    {
        match self {
            VideoAdjustOption::Enable => 0u32,
            VideoAdjustOption::Contrast => 1u32,
            VideoAdjustOption::Brightness => 2u32,
            VideoAdjustOption::Hue => 3u32,
            VideoAdjustOption::Saturation => 4u32,
            VideoAdjustOption::Gamma => 5u32,
        }
    }
}

} // verus!
