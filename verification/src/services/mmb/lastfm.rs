use crate::media::metadata::Metadata;
use crate::services::mmb::MMBSEvent;
use vstd::prelude::*;

verus! {

/// A track has to be at least this long, in seconds, to be scrobbled.
pub const MINIMUM_DURATION: u64 = 30;

/// A track that has been listened to for more than this many seconds is
/// scrobbled, however long it is.
pub const LISTENED_ENOUGH: u64 = 240;

/// A signed-in user of last.fm.
#[derive(PartialEq, Eq, Debug, Clone)]
pub struct Session {
    /// The name of the user.
    pub name: String,
    /// The key that signs the requests of the user.
    pub key: String,
}

/// The announcement that a track is being played.
#[derive(PartialEq, Eq, Debug, Clone)]
pub struct NowPlaying {
    pub artist: String,
    pub track: String,
    pub album: Option<String>,
}

/// The record that a track has been listened to.
#[derive(PartialEq, Eq, Debug, Clone)]
pub struct Scrobble {
    pub artist: String,
    pub track: String,
    /// When the track started, in seconds since the epoch.
    pub timestamp: i64,
    pub album: Option<String>,
}

/// What the tracker asks to be sent to last.fm.
#[derive(PartialEq, Eq, Debug, Clone)]
pub enum Request {
    NowPlaying(NowPlaying),
    Scrobble(Scrobble),
}

/// Follows the playback of one track after another and decides when each
/// has been listened to.
///
/// Positions and durations are in seconds. Time counts as listened to
/// while the position moves on by less than two seconds from one report to
/// the next; a jump forward counts for nothing.
pub struct ScrobbleTracker {
    start_timestamp: Option<i64>,
    accumulated_time: u64,
    duration: u64,
    metadata: Option<Metadata>,
    last_position: u64,
    has_scrobbled: bool,
}

/// The artist and the name of a track, where its tags give both.
pub open spec fn credits(metadata: Option<Metadata>) -> Option<(Seq<char>, Seq<char>)> {
    match metadata {
        Some(Metadata { name: Some(name), artist: Some(artist), album: _ }) => Some(
            (artist@, name@),
        ),
        _ => None,
    }
}

/// The album of a track, where its tags give one.
pub open spec fn album_of(metadata: Metadata) -> Option<Seq<char>> {
    match metadata.album {
        Some(album) => Some(album@),
        None => None,
    }
}

/// The text of an optional string.
pub open spec fn text_of(text: Option<String>) -> Option<Seq<char>> {
    match text {
        Some(text) => Some(text@),
        None => None,
    }
}

/// Whether a track of `duration` seconds of which `listened` seconds
/// were heard has been listened to: it is long enough, and more than half
/// of it or more than four minutes were heard.
pub open spec fn is_listened_to(duration: u64, listened: u64) -> bool {
    duration >= MINIMUM_DURATION && (listened > duration / 2 || listened > LISTENED_ENOUGH)
}

impl ScrobbleTracker {
    #[verifier::type_invariant]
    spec fn started_unless_scrobbled(self) -> bool {
        !self.has_scrobbled ==> self.start_timestamp is Some
    }

    /// When the current track started, if one has.
    pub closed spec fn start_timestamp(self) -> Option<i64> {
        self.start_timestamp
    }

    /// How many seconds of the current track were heard.
    pub closed spec fn accumulated_time(self) -> u64 {
        self.accumulated_time
    }

    /// The length of the current track.
    pub closed spec fn duration(self) -> u64 {
        self.duration
    }

    /// The tags of the current track, if they are known.
    pub closed spec fn metadata(self) -> Option<Metadata> {
        self.metadata
    }

    /// The position that was reported last.
    pub closed spec fn last_position(self) -> u64 {
        self.last_position
    }

    /// Whether the current track needs no scrobble any more.
    pub closed spec fn has_scrobbled(self) -> bool {
        self.has_scrobbled
    }

    /// Whether a report of `position` can be taken: the position has not
    /// moved back, and no count leaves its range.
    pub open spec fn accepts(self, position: u64) -> bool {
        &&& self.last_position() <= u64::MAX - 2
        &&& position >= self.last_position()
        &&& position == self.last_position() + 1 ==> self.accumulated_time() < u64::MAX
    }

    /// Whether a report of `position` can be taken.
    pub fn can_accept(&self, position: u64) -> (ok: bool)
        ensures
            ok == self.accepts(position),
    {
        self.last_position <= u64::MAX - 2 && position >= self.last_position && (position
            != self.last_position + 1 || self.accumulated_time < u64::MAX)
    }

    /// A tracker that follows no track yet and will scrobble nothing until
    /// a track starts.
    pub fn new() -> (tracker: Self)
        ensures
            tracker.start_timestamp() is None,
            tracker.accumulated_time() == 0,
            tracker.duration() == 0,
            tracker.metadata() is None,
            tracker.last_position() == 0,
            tracker.has_scrobbled(),
    {
        ScrobbleTracker {
            start_timestamp: None,
            accumulated_time: 0,
            metadata: None,
            duration: 0,
            last_position: 0,
            has_scrobbled: true,
        }
    }

    /// A track started at the time `now`. What is known of the length and
    /// the tags of the track before stays.
    pub fn new_track(&mut self, now: i64)
        ensures
            final(self).start_timestamp() == Some(now),
            final(self).accumulated_time() == 0,
            final(self).last_position() == 0,
            !final(self).has_scrobbled(),
            final(self).duration() == old(self).duration(),
            final(self).metadata() == old(self).metadata(),
    {
        self.start_timestamp = Some(now);
        self.accumulated_time = 0;
        self.last_position = 0;
        self.has_scrobbled = false;
    }

    /// The tags of the current track have been read. Where they give
    /// artist and name, the track is to be announced as playing.
    pub fn metadata_recieved(&mut self, info: Metadata) -> (announce: Option<NowPlaying>)
        ensures
            final(self).metadata() == Some(info),
            final(self).start_timestamp() == old(self).start_timestamp(),
            final(self).accumulated_time() == old(self).accumulated_time(),
            final(self).duration() == old(self).duration(),
            final(self).last_position() == old(self).last_position(),
            final(self).has_scrobbled() == old(self).has_scrobbled(),
            announce is Some <==> credits(Some(info)) is Some,
            announce matches Some(playing) ==> {
                &&& credits(Some(info)) == Some((playing.artist@, playing.track@))
                &&& text_of(playing.album) == album_of(info)
            },
    {
        proof {
            use_type_invariant(&*self);
        }
        let announce = match (&info.artist, &info.name) {
            (Some(artist), Some(track)) => Some(
                NowPlaying {
                    artist: artist.clone(),
                    track: track.clone(),
                    album: match &info.album {
                        Some(album) => Some(album.clone()),
                        None => None,
                    },
                },
            ),
            _ => None,
        };
        self.metadata = Some(info);
        announce
    }

    /// The length of the current track is `duration` seconds.
    pub fn duration_changed(&mut self, duration: u64)
        ensures
            final(self).duration() == duration,
            final(self).start_timestamp() == old(self).start_timestamp(),
            final(self).accumulated_time() == old(self).accumulated_time(),
            final(self).metadata() == old(self).metadata(),
            final(self).last_position() == old(self).last_position(),
            final(self).has_scrobbled() == old(self).has_scrobbled(),
    {
        proof {
            use_type_invariant(&*self);
        }
        self.duration = duration;
    }

    /// Playback has reached `position`.
    ///
    /// Where the position has moved on by less than two seconds, the time
    /// it has moved counts as listened to. The track is scrobbled, once,
    /// as soon as it has been listened to and its tags give artist and
    /// name; the scrobble carries the time at which the track started.
    pub fn position_changed(&mut self, position: u64) -> (scrobble: Option<Scrobble>)
        requires
            old(self).accepts(position),
        ensures
            final(self).last_position() == position,
            final(self).accumulated_time() == old(self).accumulated_time() + (if position < old(
                self,
            ).last_position() + 2 {
                position - old(self).last_position()
            } else {
                0
            }),
            final(self).duration() == old(self).duration(),
            final(self).metadata() == old(self).metadata(),
            final(self).start_timestamp() == old(self).start_timestamp(),
            scrobble is Some <==> !old(self).has_scrobbled() && is_listened_to(
                old(self).duration(),
                final(self).accumulated_time(),
            ) && credits(old(self).metadata()) is Some,
            final(self).has_scrobbled() == (old(self).has_scrobbled() || scrobble is Some),
            scrobble matches Some(record) ==> {
                &&& credits(old(self).metadata()) == Some((record.artist@, record.track@))
                &&& text_of(record.album) == album_of(old(self).metadata().unwrap())
                &&& Some(record.timestamp) == old(self).start_timestamp()
            },
    {
        proof {
            use_type_invariant(&*self);
        }
        if position < self.last_position + 2 {
            self.accumulated_time += position - self.last_position;
        }
        self.last_position = position;
        if self.duration >= MINIMUM_DURATION && (self.accumulated_time > self.duration / 2
            || self.accumulated_time > LISTENED_ENOUGH) && !self.has_scrobbled {
            if let Some(info) = &self.metadata {
                if let (Some(artist), Some(track), Some(timestamp)) = (
                    &info.artist,
                    &info.name,
                    self.start_timestamp,
                ) {
                    let record = Scrobble {
                        artist: artist.clone(),
                        track: track.clone(),
                        timestamp,
                        album: match &info.album {
                            Some(album) => Some(album.clone()),
                            None => None,
                        },
                    };
                    self.has_scrobbled = true;
                    return Some(record);
                }
            }
        }
        None
    }

    /// Takes one event of the player, at the time `now`, and says what is
    /// to be sent to last.fm for it: the announcement of a track whose
    /// tags have come, the scrobble of a track that has been listened to,
    /// or nothing. A change of the state of the player changes nothing.
    pub fn handle(&mut self, event: MMBSEvent, now: i64) -> (request: Option<Request>)
        requires
            event matches MMBSEvent::PositionChanged(position) ==> old(self).accepts(position),
        ensures
            match event {
                MMBSEvent::NewTrack(_) => {
                    &&& request is None
                    &&& final(self).start_timestamp() == Some(now)
                    &&& final(self).accumulated_time() == 0
                    &&& final(self).last_position() == 0
                    &&& !final(self).has_scrobbled()
                    &&& final(self).duration() == old(self).duration()
                    &&& final(self).metadata() == old(self).metadata()
                },
                MMBSEvent::MetadataRecieved(info) => {
                    &&& final(self).metadata() == Some(info)
                    &&& final(self).start_timestamp() == old(self).start_timestamp()
                    &&& final(self).accumulated_time() == old(self).accumulated_time()
                    &&& final(self).duration() == old(self).duration()
                    &&& final(self).last_position() == old(self).last_position()
                    &&& final(self).has_scrobbled() == old(self).has_scrobbled()
                    &&& request is Some <==> credits(Some(info)) is Some
                    &&& request matches Some(sent) ==> sent matches Request::NowPlaying(playing)
                        && credits(Some(info)) == Some((playing.artist@, playing.track@))
                        && text_of(playing.album) == album_of(info)
                },
                MMBSEvent::StateChanged(_) => request is None && *final(self) == *old(self),
                MMBSEvent::PositionChanged(position) => {
                    &&& final(self).last_position() == position
                    &&& final(self).accumulated_time() == old(self).accumulated_time() + (
                    if position < old(self).last_position() + 2 {
                        position - old(self).last_position()
                    } else {
                        0
                    })
                    &&& final(self).duration() == old(self).duration()
                    &&& final(self).metadata() == old(self).metadata()
                    &&& final(self).start_timestamp() == old(self).start_timestamp()
                    &&& request is Some <==> !old(self).has_scrobbled() && is_listened_to(
                        old(self).duration(),
                        final(self).accumulated_time(),
                    ) && credits(old(self).metadata()) is Some
                    &&& final(self).has_scrobbled() == (old(self).has_scrobbled()
                        || request is Some)
                    &&& request matches Some(sent) ==> sent matches Request::Scrobble(record)
                        && credits(old(self).metadata()) == Some((record.artist@, record.track@))
                        && text_of(record.album) == album_of(old(self).metadata().unwrap())
                        && Some(record.timestamp) == old(self).start_timestamp()
                },
                MMBSEvent::DurationChanged(duration) => {
                    &&& request is None
                    &&& final(self).duration() == duration
                    &&& final(self).start_timestamp() == old(self).start_timestamp()
                    &&& final(self).accumulated_time() == old(self).accumulated_time()
                    &&& final(self).metadata() == old(self).metadata()
                    &&& final(self).last_position() == old(self).last_position()
                    &&& final(self).has_scrobbled() == old(self).has_scrobbled()
                },
            },
    {
        match event {
            MMBSEvent::NewTrack(_) => {
                self.new_track(now);
                None
            },
            MMBSEvent::MetadataRecieved(info) => match self.metadata_recieved(info) {
                Some(playing) => Some(Request::NowPlaying(playing)),
                None => None,
            },
            MMBSEvent::StateChanged(_) => None,
            MMBSEvent::PositionChanged(position) => match self.position_changed(position) {
                Some(record) => Some(Request::Scrobble(record)),
                None => None,
            },
            MMBSEvent::DurationChanged(duration) => {
                self.duration_changed(duration);
                None
            },
        }
    }
}

} // verus!
