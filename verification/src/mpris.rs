//! What the desktop media-key interface reports and accepts. Serving it
//! over D-Bus is outside this library.

use vstd::prelude::*;
use vstd::utf8::encode_utf8;

use crate::config::LoopMode;
use crate::text::{push_str, str_eq, string_from_chars};

verus! {

/// The character an id byte becomes in a track path: ASCII letters,
/// digits and `_` stay, any other byte becomes `_`.
pub open spec fn path_char(b: u8) -> char {
    if (97 <= b <= 122) || (65 <= b <= 90) || (48 <= b <= 57) || b == 95 {
        b as char
    } else {
        '_'
    }
}

/// The object path naming a track: a fixed prefix, then one character per
/// byte of the id's UTF-8 encoding.
pub open spec fn track_path_of(id: Seq<char>) -> Seq<char> {
    let b = encode_utf8(id);
    "/org/mpris/MediaPlayer2/TrackList/"@ + Seq::new(b.len(), |i: int| path_char(b[i]))
}

pub fn track_path(id: &str) -> (r: String)
    ensures
        r@ == track_path_of(id@),
{
    let mut out: Vec<char> = Vec::new();
    push_str(&mut out, "/org/mpris/MediaPlayer2/TrackList/");
    let ghost prefix = out@;
    let bytes = id.as_bytes();
    let mut i: usize = 0;
    while i < bytes.len()
        invariant
            i <= bytes@.len(),
            out@ =~= prefix + Seq::new(i as nat, |k: int| path_char(bytes@[k])),
        decreases bytes@.len() - i,
    {
        let b = bytes[i];
        if (97 <= b && b <= 122) || (65 <= b && b <= 90) || (48 <= b && b <= 57) || b == 95 {
            out.push(b as char);
        } else {
            out.push('_');
        }
        i += 1;
    }
    string_from_chars(out.as_slice())
}

/// The MPRIS name of a loop mode.
pub open spec fn loop_status_name(m: LoopMode) -> Seq<char> {
    match m {
        LoopMode::Off => "None"@,
        LoopMode::One => "Track"@,
        LoopMode::All => "Playlist"@,
    }
}

pub fn loop_status(m: LoopMode) -> (r: &'static str)
    ensures
        r@ == loop_status_name(m),
{
    match m {
        LoopMode::Off => "None",
        LoopMode::One => "Track",
        LoopMode::All => "Playlist",
    }
}

/// The loop mode a media controller asks for; unknown names turn looping off.
pub open spec fn loop_mode_named(value: Seq<char>) -> LoopMode {
    if value == "Track"@ {
        LoopMode::One
    } else if value == "Playlist"@ {
        LoopMode::All
    } else {
        LoopMode::Off
    }
}

pub fn loop_mode_from_status(value: &str) -> (r: LoopMode)
    ensures
        r == loop_mode_named(value@),
{
    if str_eq(value, "Track") {
        LoopMode::One
    } else if str_eq(value, "Playlist") {
        LoopMode::All
    } else {
        LoopMode::Off
    }
}

/// Reading back a loop mode's own name gives that mode.
pub proof fn lemma_loop_status_roundtrip(m: LoopMode)
    ensures
        loop_mode_named(loop_status_name(m)) == m,
{
    reveal_strlit("None");
    reveal_strlit("Track");
    reveal_strlit("Playlist");
    assert("None"@.len() == 4 && "Track"@.len() == 5 && "Playlist"@.len() == 8);
}

/// Playback status: stopped without a track or while the player idles,
/// else paused or playing.
pub open spec fn playback_status_name(has_track: bool, idle: bool, paused: bool) -> Seq<char> {
    if !has_track || idle {
        "Stopped"@
    } else if paused {
        "Paused"@
    } else {
        "Playing"@
    }
}

pub fn playback_status(has_track: bool, idle: bool, paused: bool) -> (r: &'static str)
    ensures
        r@ == playback_status_name(has_track, idle, paused),
{
    if !has_track || idle {
        "Stopped"
    } else if paused {
        "Paused"
    } else {
        "Playing"
    }
}

/// The metadata the media-key interface publishes for the playing track.
#[derive(Debug)]
pub struct TrackMeta {
    /// Object path of the track (a fixed "no track" path when idle).
    pub trackid: String,
    pub title: Option<String>,
    /// The uploader, when there is one.
    pub artist: Option<String>,
    pub url: Option<String>,
    /// Length in microseconds, when the track's duration is known.
    pub length_us: Option<i64>,
}

pub struct TrackMetaView {
    pub trackid: Seq<char>,
    pub title: Option<Seq<char>>,
    pub artist: Option<Seq<char>>,
    pub url: Option<Seq<char>>,
    pub length_us: Option<i64>,
}

impl View for TrackMeta {
    type V = TrackMetaView;

    open spec fn view(&self) -> TrackMetaView {
        TrackMetaView {
            trackid: self.trackid@,
            title: crate::ytdlp::opt_view(self.title),
            artist: crate::ytdlp::opt_view(self.artist),
            url: crate::ytdlp::opt_view(self.url),
            length_us: self.length_us,
        }
    }
}

pub open spec fn metadata_of(a: crate::app::AppView) -> TrackMetaView {
    match crate::settings::current_of(a) {
        None => TrackMetaView {
            trackid: "/org/mpris/MediaPlayer2/TrackList/NoTrack"@,
            title: None,
            artist: None,
            url: None,
            length_us: None,
        },
        Some(t) => TrackMetaView {
            trackid: track_path_of(t.id),
            title: Some(t.title),
            artist: if t.uploader.len() > 0 {
                Some(t.uploader)
            } else {
                None
            },
            url: Some(crate::ytdlp::url_of(t)),
            length_us: match t.duration {
                Some(d) => Some(micros_of(d)),
                None => None,
            },
        },
    }
}

/// The longest duration, in seconds, whose microseconds fit in an `i64`.
pub const MAX_MICROS_SECS: u64 = 9_223_372_036_854;

/// Seconds as microseconds, saturating at `i64::MAX`.
pub open spec fn micros_of(secs: u64) -> i64 {
    if secs <= MAX_MICROS_SECS {
        (secs * 1_000_000) as i64
    } else {
        i64::MAX
    }
}

/// The metadata of the playing track; a track whose duration is not known
/// gets its length from the player, which the program asks.
pub fn metadata(app: &crate::app::App) -> (r: TrackMeta)
    ensures
        r@ == metadata_of(app@),
{
    match app.current_track() {
        None => TrackMeta {
            trackid: crate::text::str_to_string("/org/mpris/MediaPlayer2/TrackList/NoTrack"),
            title: None,
            artist: None,
            url: None,
            length_us: None,
        },
        Some(t) => TrackMeta {
            trackid: track_path(t.id.as_str()),
            title: Some(t.title.clone()),
            artist: if t.uploader.as_str().is_empty() {
                None
            } else {
                Some(t.uploader.clone())
            },
            url: Some(t.url()),
            length_us: match t.duration {
                Some(d) => Some(
                    if d <= MAX_MICROS_SECS {
                        (d as i64) * 1_000_000
                    } else {
                        i64::MAX
                    },
                ),
                None => None,
            },
        },
    }
}

} // verus!
