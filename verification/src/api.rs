//! The remote control client: builds every HTTP command sent to the sink
//! device (play, enqueue, clear, play/pause, volume, power) and the
//! playlist-entry payload describing a track. Construction and the
//! decisions behind each command are verified here; the unverified shell
//! around the library performs the actual network round-trips.

use crate::db::Track;
use crate::text::{all_digits, dec_str, dec_val, parse_volume, push_decimal, str_eq};
use vstd::prelude::*;
use vstd::string::StrSliceExecFns;
use vstd::string::StringExecFns;

verus! {

/// HTTP method of a built request.
#[derive(Debug, PartialEq, Eq, Clone, Copy)]
pub enum Method {
    Get,
    Put,
    Post,
}

/// One fully built command: method, URL, and an optional playlist-entry
/// payload to send as the JSON body.
#[derive(Debug)]
pub struct Request {
    pub method: Method,
    pub url: String,
    pub body: Option<PlaylistTrack>,
}

/// The payload describing one track for the playlist endpoint. Field
/// names follow the wire format of the remote device.
#[derive(Debug)]
#[allow(non_snake_case)]
pub struct PlaylistTrack {
    pub name: String,
    pub artistName: String,
    pub albumName: String,
    pub class: String,
    pub artwork: String,
    pub genre: String,
    pub track: String,
    pub mimeType: String,
    pub serverId: String,
    pub uri: String,
}

/// One entry of the queue as the remote device reports it.
#[derive(Debug)]
#[allow(non_snake_case)]
pub struct PlaylistEntry {
    pub name: String,
    pub artistName: String,
    pub albumName: String,
    pub class: String,
    pub ussi: String,
    pub artwork: String,
    pub track: String,
    pub mimeType: String,
    pub serverId: String,
    pub uri: String,
}

/// The queue state the remote device reports: the currently playing
/// entry, if any, and the queued entries.
#[derive(Debug)]
pub struct Playlist {
    pub current: Option<String>,
    pub children: Option<Vec<PlaylistEntry>>,
}

/// Why a volume fetch failed: the levels object had no volume key, or
/// its value was not a decimal integer between 0 and 100.
#[derive(Debug, PartialEq, Eq, Clone, Copy)]
pub enum VolumeError {
    MissingKey,
    Malformed,
}

/// What a volume step decided: leave the cached value as given, or send
/// one write with the new volume.
#[derive(Debug, PartialEq, Eq, Clone, Copy)]
pub enum VolumeDecision {
    Unchanged(Option<u8>),
    Write(u8),
}

/// The artwork URL for a track: empty when the track has no artwork.
pub open spec fn artwork_url_spec(base: Seq<char>, track: Track) -> Seq<char> {
    if track.album_art_id == 0 {
        Seq::empty()
    } else {
        base + "/AlbumArt/"@ + dec_str(track.album_art_id as nat) + "-"@ + dec_str(track.id as nat)
    }
}

/// The file extension inferred from a MIME type, with `.flac` as the
/// explicit fallback for unmapped types.
pub open spec fn extension_spec(mime: Seq<char>) -> Seq<char> {
    if mime == "audio/x-flac"@ {
        ".flac"@
    } else if mime == "audio/mpeg"@ {
        ".mp3"@
    } else if mime == "audio/mp4"@ {
        ".m4a"@
    } else {
        ".flac"@
    }
}

/// The playable media URL for a track.
pub open spec fn track_url_spec(base: Seq<char>, track: Track) -> Seq<char> {
    base + "/MediaItems/"@ + dec_str(track.id as nat) + extension_spec(track.mime_type@)
}

/// The payload built for `track`, with URLs rooted at the source device
/// `src_url`.
pub open spec fn playlist_track_for(p: PlaylistTrack, src_url: Seq<char>, track: Track) -> bool {
    &&& p.name@ == track.title@
    &&& p.artistName@ == track.artist@
    &&& p.albumName@ == track.album@
    &&& p.class@ == "object.track.upnp"@
    &&& p.artwork@ == artwork_url_spec(src_url, track)
    &&& p.genre@ == Seq::<char>::empty()
    &&& p.track@ == track.track_id@
    &&& p.mimeType@ == track.mime_type@
    &&& p.serverId@ == "4d696e69-444c-164e-9d41-0001c0059ea7"@
    &&& p.uri@ == track_url_spec(src_url, track)
}

/// The artwork URL of `track` on the source device: empty for a track
/// whose album-art identifier is 0, otherwise
/// `{base}/AlbumArt/{album_art_id}-{id}`.
pub fn artwork_url(dlna_url: &str, track: &Track) -> (r: String)
    ensures
        r@ == artwork_url_spec(dlna_url@, *track),
{
    if track.album_art_id == 0 {
        String::new()
    } else {
        let mut url = dlna_url.to_owned();
        url.append("/AlbumArt/");
        push_decimal(&mut url, track.album_art_id);
        url.append("-");
        push_decimal(&mut url, track.id);
        url
    }
}

/// The media URL of `track` on the source device:
/// `{base}/MediaItems/{id}{ext}` with the extension inferred from the
/// MIME type.
pub fn track_url(dlna_url: &str, track: &Track) -> (r: String)
    ensures
        r@ == track_url_spec(dlna_url@, *track),
{
    let extension: &str = if str_eq(track.mime_type.as_str(), "audio/x-flac") {
        ".flac"
    } else if str_eq(track.mime_type.as_str(), "audio/mpeg") {
        ".mp3"
    } else if str_eq(track.mime_type.as_str(), "audio/mp4") {
        ".m4a"
    } else {
        ".flac"
    };
    let mut url = dlna_url.to_owned();
    url.append("/MediaItems/");
    push_decimal(&mut url, track.id);
    url.append(extension);
    url
}

impl PlaylistTrack {
    /// Builds the playlist-entry payload for `track`, with its artwork
    /// and media URLs rooted at the source device `dlna_url`.
    pub fn from_track(dlna_url: &str, track: &Track) -> (r: PlaylistTrack)
        ensures
            playlist_track_for(r, dlna_url@, *track),
    {
        PlaylistTrack {
            name: track.title.clone(),
            artistName: track.artist.clone(),
            albumName: track.album.clone(),
            class: String::from_str("object.track.upnp"),
            artwork: artwork_url(dlna_url, track),
            genre: String::new(),
            track: track.track_id.clone(),
            mimeType: track.mime_type.clone(),
            serverId: String::from_str("4d696e69-444c-164e-9d41-0001c0059ea7"),
            uri: track_url(dlna_url, track),
        }
    }
}

/// The queue entry a play command starts: the current entry if the
/// device reports one, else the first queued entry, else none.
pub open spec fn choose_entry(playlist: Playlist) -> Option<Seq<char>> {
    match playlist.current {
        Option::Some(e) => Option::Some(e@),
        Option::None => match playlist.children {
            Option::Some(children) => if children@.len() > 0 {
                Option::Some(children@[0].ussi@)
            } else {
                Option::None
            },
            Option::None => Option::None,
        },
    }
}

/// The remote control client: the base URL of the sink device the
/// commands go to, and the base URL of the source device that serves
/// media and artwork.
#[derive(Debug)]
pub struct Api {
    pub url: String,
    pub src_url: String,
}

impl Api {
    /// A client for the given sink and source base URLs.
    pub fn new(url: String, src_url: String) -> (r: Api)
        ensures
            r.url@ == url@,
            r.src_url@ == src_url@,
    {
        Api { url, src_url }
    }

    /// The URL the queue state is fetched from.
    pub fn playlist_url(&self) -> (r: String)
        ensures
            r@ == self.url@ + "/inputs/playqueue"@,
    {
        let mut url = self.url.clone();
        url.append("/inputs/playqueue");
        url
    }

    /// The command that resumes playback at the given queue entry.
    fn play_entry(&self, entry: String) -> (r: Request)
        ensures
            r.method == Method::Put,
            r.url@ == self.url@ + "/inputs/playqueue?current="@ + entry@,
            r.body is None,
    {
        let mut url = self.url.clone();
        url.append("/inputs/playqueue?current=");
        url.append(entry.as_str());
        Request { method: Method::Put, url, body: None }
    }

    /// Starts playing from the current entry, or from the beginning of
    /// the queue: given the fetched queue state, the command to send, or
    /// nothing when the queue is empty.
    pub fn play(&self, playlist: Playlist) -> (r: Option<Request>)
        ensures
            match choose_entry(playlist) {
                Option::None => r is None,
                Option::Some(e) => r matches Some(req) && req.method == Method::Put && req.url@
                    == self.url@ + "/inputs/playqueue?current="@ + e && req.body is None,
            },
    {
        let Playlist { current, children } = playlist;
        let entry: Option<String> = match current {
            Some(e) => Some(e),
            None => match &children {
                Some(children) => if children.len() > 0 {
                    Some(children[0].ussi.clone())
                } else {
                    None
                },
                None => None,
            },
        };
        match entry {
            Some(e) => Some(self.play_entry(e)),
            None => None,
        }
    }

    /// The command that appends `track` at the end of the queue without
    /// clearing it.
    pub fn queue_track(&self, track: &Track) -> (r: Request)
        ensures
            r.method == Method::Post,
            r.url@ == self.url@ + "/inputs/playqueue?where=end&clear=false"@,
            r.body matches Some(p) && playlist_track_for(p, self.src_url@, *track),
    {
        let mut url = self.url.clone();
        url.append("/inputs/playqueue?where=end&clear=false");
        Request {
            method: Method::Post,
            url,
            body: Some(PlaylistTrack::from_track(self.src_url.as_str(), track)),
        }
    }

    /// The command that clears the queue.
    pub fn clear_playlist(&self) -> (r: Request)
        ensures
            r.method == Method::Post,
            r.url@ == self.url@ + "/inputs/playqueue?clear=true"@,
            r.body is None,
    {
        let mut url = self.url.clone();
        url.append("/inputs/playqueue?clear=true");
        Request { method: Method::Post, url, body: None }
    }

    /// The URL the key-value levels map is fetched from.
    pub fn levels_url(&self) -> (r: String)
        ensures
            r@ == self.url@ + "/levels"@,
    {
        let mut url = self.url.clone();
        url.append("/levels");
        url
    }

    /// Extracts the device volume from the value of the levels map's
    /// volume key: absent key or a value that is not a decimal integer
    /// between 0 and 100 is an error, never a crash.
    pub fn get_volume(&self, volume_value: Option<&str>) -> (r: Result<u8, VolumeError>)
        ensures
            match volume_value {
                Option::None => r == Result::<u8, VolumeError>::Err(VolumeError::MissingKey),
                Option::Some(s) => if s@.len() > 0 && all_digits(s@) && dec_val(s@) <= 100 {
                    r matches Ok(v) && v as int == dec_val(s@)
                } else {
                    r == Result::<u8, VolumeError>::Err(VolumeError::Malformed)
                },
            },
    {
        match volume_value {
            None => Err(VolumeError::MissingKey),
            Some(s) => match parse_volume(s) {
                Some(v) => Ok(v),
                None => Err(VolumeError::Malformed),
            },
        }
    }

    /// The volume a step works from: the cached value when one is held,
    /// else whatever a fresh device query returned.
    pub open spec fn resolved_volume(current: Option<u8>, fetched: Option<u8>) -> Option<u8> {
        match current {
            Option::Some(v) => Option::Some(v),
            Option::None => fetched,
        }
    }

    /// The decision of a volume increment: no resolved volume means no
    /// change; at 100 the cached value stays as it was and nothing is
    /// written; below 100 exactly one write with the value one higher.
    pub open spec fn incr_decision(current: Option<u8>, fetched: Option<u8>) -> VolumeDecision {
        match Self::resolved_volume(current, fetched) {
            Option::None => VolumeDecision::Unchanged(Option::None),
            Option::Some(v) => if v < 100 {
                VolumeDecision::Write((v + 1) as u8)
            } else {
                VolumeDecision::Unchanged(current)
            },
        }
    }

    /// The decision of a volume decrement, clamped at 0.
    pub open spec fn decr_decision(current: Option<u8>, fetched: Option<u8>) -> VolumeDecision {
        match Self::resolved_volume(current, fetched) {
            Option::None => VolumeDecision::Unchanged(Option::None),
            Option::Some(v) => if v > 0 {
                VolumeDecision::Write((v - 1) as u8)
            } else {
                VolumeDecision::Unchanged(current)
            },
        }
    }

    /// Decides a volume increment. `current` is the cached volume;
    /// `fetched` is the device's answer, consulted only when no value is
    /// cached.
    pub fn incr_volume(&self, current: Option<u8>, fetched: Option<u8>) -> (r: VolumeDecision)
        ensures
            r == Self::incr_decision(current, fetched),
    {
        let resolved = match current {
            Some(v) => Some(v),
            None => fetched,
        };
        match resolved {
            None => VolumeDecision::Unchanged(None),
            Some(v) => if v < 100 {
                VolumeDecision::Write(v + 1)
            } else {
                VolumeDecision::Unchanged(current)
            },
        }
    }

    /// Decides a volume decrement, as `incr_volume` does.
    pub fn decr_volume(&self, current: Option<u8>, fetched: Option<u8>) -> (r: VolumeDecision)
        ensures
            r == Self::decr_decision(current, fetched),
    {
        let resolved = match current {
            Some(v) => Some(v),
            None => fetched,
        };
        match resolved {
            None => VolumeDecision::Unchanged(None),
            Some(v) => if v > 0 {
                VolumeDecision::Write(v - 1)
            } else {
                VolumeDecision::Unchanged(current)
            },
        }
    }

    /// The command that sets the device volume.
    pub fn set_volume(&self, volume: u8) -> (r: Request)
        ensures
            r.method == Method::Put,
            r.url@ == self.url@ + "/levels?volume="@ + dec_str(volume as nat),
            r.body is None,
    {
        let mut url = self.url.clone();
        url.append("/levels?volume=");
        push_decimal(&mut url, volume as u16);
        Request { method: Method::Put, url, body: None }
    }

    /// The command that toggles play/pause.
    pub fn toggle_play_pause(&self) -> (r: Request)
        ensures
            r.method == Method::Get,
            r.url@ == self.url@ + "/nowplaying?cmd=playpause"@,
            r.body is None,
    {
        let mut url = self.url.clone();
        url.append("/nowplaying?cmd=playpause");
        Request { method: Method::Get, url, body: None }
    }

    /// The command that powers the device on.
    pub fn power_on(&self) -> (r: Request)
        ensures
            r.method == Method::Put,
            r.url@ == self.url@ + "/power?system=on"@,
            r.body is None,
    {
        let r = self.power(PowerState::On);
        proof {
            reveal_strlit("/power?system=");
            reveal_strlit("on");
            reveal_strlit("/power?system=on");
            assert(r.url@ =~= self.url@ + "/power?system=on"@);
        }
        r
    }

    /// The command that suspends the device. The protocol literal
    /// `lona` is the observed wire value the device expects; it is kept
    /// verbatim.
    pub fn suspend(&self) -> (r: Request)
        ensures
            r.method == Method::Put,
            r.url@ == self.url@ + "/power?system=lona"@,
            r.body is None,
    {
        let r = self.power(PowerState::Suspend);
        proof {
            reveal_strlit("/power?system=");
            reveal_strlit("lona");
            reveal_strlit("/power?system=lona");
            assert(r.url@ =~= self.url@ + "/power?system=lona"@);
        }
        r
    }

    /// The command that puts the device in the given power state.
    fn power(&self, power: PowerState) -> (r: Request)
        ensures
            r.method == Method::Put,
            r.url@ == self.url@ + "/power?system="@ + (match power {
                PowerState::On => "on"@,
                PowerState::Suspend => "lona"@,
            }),
            r.body is None,
    {
        let system: &str = match power {
            PowerState::On => "on",
            PowerState::Suspend => "lona",
        };
        let mut url = self.url.clone();
        url.append("/power?system=");
        url.append(system);
        Request { method: Method::Put, url, body: None }
    }
}

/// The two power states a command can request.
enum PowerState {
    On,
    Suspend,
}

} // verus!
