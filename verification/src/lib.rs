//! A memory-safety-oriented layer over a native multimedia playback engine.
//!
//! The native engine hands out opaque resource handles, C strings, tagged
//! union records and singly-linked lists.  This crate captures the discipline
//! that makes those safe to use — encode/decode of engine strings, decoding a
//! tagged union only through its discriminant, projecting a native linked
//! list into an owned sequence, pairing every acquisition with exactly one
//! release, and wrapping every structural list access in a lock/unlock pair —
//! and proves that discipline against an explicit model of the engine's
//! observable state ([`engine::Engine`]).

pub mod audio;
pub mod engine;
pub mod enums;
pub mod linked_list;
pub mod media;
pub mod media_list;
pub mod media_list_player;
pub mod media_player;
pub mod tools;
pub mod video;

pub use audio::MediaPlayerAudioEx;
pub use enums::{Meta, PlaybackMode, State, TrackType, VideoAdjustOption};
pub use media::{AudioTrack, Media, MediaTrack, MediaTrackUnion, SubtitleTrack, VideoTrack};
pub use media_list::MediaList;
pub use media_list_player::MediaListPlayer;
pub use media_player::{MediaPlayer, TrackDescription};
pub use tools::{NativeString, NulByteError};
pub use video::MediaPlayerVideoEx;
