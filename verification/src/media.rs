//! The now-playing media session: playback status, timeline, snapshot
//! payload and the commands that come back from the widgets.

use crate::text::{integer_text, integer_to_text, same_text};
use crate::thumbnail::{outcome_matches, Thumbnail, ThumbnailError};
use vstd::prelude::*;
use vstd::string::StringExecFns;

verus! {

/// Number of 100-nanosecond ticks in one second.
pub const TICKS_PER_SECOND: i64 = 10_000_000;

/// Converts a time in 100-nanosecond ticks to whole seconds, rounding down.
pub fn ticks_to_seconds(ticks: i64) -> (seconds: i64)
    ensures
        seconds == ticks as int / 10_000_000,
{
    if ticks >= 0 {
        ticks / TICKS_PER_SECOND
    } else {
        let back: i64 = -(ticks + 1);
        -(back / TICKS_PER_SECOND) - 1
    }
}

/// Playback state of a media session.
#[derive(Debug, Clone, Copy, PartialEq, Eq, Structural)]
pub enum MediaStatus {
    Closed,
    Opened,
    Changing,
    Stopped,
    Playing,
    Paused,
}

impl MediaStatus {
    /// The status that a platform playback-state code stands for. Codes that
    /// the platform does not define count as closed.
    pub open spec fn of_code(code: i32) -> MediaStatus {
        if code == 1 {
            MediaStatus::Opened
        } else if code == 2 {
            MediaStatus::Changing
        } else if code == 3 {
            MediaStatus::Stopped
        } else if code == 4 {
            MediaStatus::Playing
        } else if code == 5 {
            MediaStatus::Paused
        } else {
            MediaStatus::Closed
        }
    }
}

impl MediaStatus {
    /// The name of a status, as it is shown and sent.
    pub open spec fn name_of(self) -> Seq<char> {
        match self {
            MediaStatus::Closed => "Closed"@,
            MediaStatus::Opened => "Opened"@,
            MediaStatus::Changing => "Changing"@,
            MediaStatus::Stopped => "Stopped"@,
            MediaStatus::Playing => "Playing"@,
            MediaStatus::Paused => "Paused"@,
        }
    }

    /// Returns the name of this status.
    pub fn name(&self) -> (out: String)
        ensures
            out@ == self.name_of(),
    {
        match self {
            MediaStatus::Closed => String::from_str("Closed"),
            MediaStatus::Opened => String::from_str("Opened"),
            MediaStatus::Changing => String::from_str("Changing"),
            MediaStatus::Stopped => String::from_str("Stopped"),
            MediaStatus::Playing => String::from_str("Playing"),
            MediaStatus::Paused => String::from_str("Paused"),
        }
    }
}

impl From<i32> for MediaStatus {
    fn from(code: i32) -> (status: MediaStatus) {
        match code {
            1 => MediaStatus::Opened,
            2 => MediaStatus::Changing,
            3 => MediaStatus::Stopped,
            4 => MediaStatus::Playing,
            5 => MediaStatus::Paused,
            _ => MediaStatus::Closed,
        }
    }
}

impl vstd::std_specs::convert::FromSpecImpl<i32> for MediaStatus {
    open spec fn obeys_from_spec() -> bool {
        true
    }

    open spec fn from_spec(code: i32) -> MediaStatus {
        MediaStatus::of_code(code)
    }
}

/// The characters of a reading that may be missing: none if it is.
pub open spec fn text_or_empty(text: Option<String>) -> Seq<char> {
    match text {
        Some(s) => s@,
        None => Seq::empty(),
    }
}

/// Copies a reading that may be missing, with the empty string in its place.
fn clone_or_empty(text: &Option<String>) -> (out: String)
    ensures
        out@ == text_or_empty(*text),
{
    match text {
        Some(s) => s.clone(),
        None => String::new(),
    }
}

/// The colour that stands in where a session has no thumbnail: white.
pub open spec fn neutral_color() -> Seq<u8> {
    seq![255u8, 255u8, 255u8]
}

/// What the platform reported of the current media session. A reading that
/// the platform failed to give is `None`.
#[derive(Debug)]
pub struct MediaSession {
    pub title: Option<String>,
    pub artist: Option<String>,
    pub album: Option<String>,
    /// Identifier of the application that plays.
    pub app_id: Option<String>,
    /// Start of the timeline in 100-nanosecond ticks.
    pub start_ticks: Option<i64>,
    /// End of the timeline in 100-nanosecond ticks.
    pub end_ticks: Option<i64>,
    /// Playback-state code of the platform.
    pub playback_status: Option<i32>,
    /// Decoded pixels of the thumbnail.
    pub thumbnail: Option<Thumbnail>,
}

impl MediaSession {
    /// Whole seconds of a timeline reading, 0 where it is missing.
    pub open spec fn seconds_of(ticks: Option<i64>) -> int {
        match ticks {
            Some(t) => t as int / 10_000_000,
            None => 0,
        }
    }

    /// The status of a playback-state reading, closed where it is missing.
    pub open spec fn status_of(code: Option<i32>) -> MediaStatus {
        match code {
            Some(c) => MediaStatus::of_code(c),
            None => MediaStatus::Closed,
        }
    }

    /// The data URL and dominant colour of the thumbnail. A session without
    /// thumbnail has the empty string and the neutral colour.
    pub open spec fn thumbnail_of(thumbnail: Option<Thumbnail>) -> Result<
        (Seq<char>, Seq<u8>),
        ThumbnailError,
    > {
        match thumbnail {
            Some(t) => t.rendered(),
            None => Ok((Seq::empty(), neutral_color())),
        }
    }

    /// The artist, or the empty string.
    pub fn get_artist(&self) -> (out: String)
        ensures
            out@ == text_or_empty(self.artist),
    {
        clone_or_empty(&self.artist)
    }

    /// The album title, or the empty string.
    pub fn get_album(&self) -> (out: String)
        ensures
            out@ == text_or_empty(self.album),
    {
        clone_or_empty(&self.album)
    }

    /// The title, or the empty string.
    pub fn get_title(&self) -> (out: String)
        ensures
            out@ == text_or_empty(self.title),
    {
        clone_or_empty(&self.title)
    }

    /// The identifier of the playing application, or the empty string.
    pub fn get_app_id(&self) -> (out: String)
        ensures
            out@ == text_or_empty(self.app_id),
    {
        clone_or_empty(&self.app_id)
    }

    /// Start of the timeline in whole seconds, 0 where it is not known.
    pub fn get_start_time(&self) -> (out: i64)
        ensures
            out == Self::seconds_of(self.start_ticks),
    {
        match self.start_ticks {
            Some(t) => ticks_to_seconds(t),
            None => 0,
        }
    }

    /// End of the timeline in whole seconds, 0 where it is not known.
    pub fn get_end_time(&self) -> (out: i64)
        ensures
            out == Self::seconds_of(self.end_ticks),
    {
        match self.end_ticks {
            Some(t) => ticks_to_seconds(t),
            None => 0,
        }
    }

    /// The playback status, closed where it is not known.
    pub fn get_status(&self) -> (out: MediaStatus)
        ensures
            out == Self::status_of(self.playback_status),
    {
        match self.playback_status {
            Some(c) => MediaStatus::from(c),
            None => MediaStatus::Closed,
        }
    }

    /// The thumbnail as a data URL together with its dominant colour. A
    /// session without thumbnail gives the empty string and white; a
    /// thumbnail that is present and cannot be rendered is an error.
    pub fn get_thumbnail(&self) -> (out: Result<(String, Vec<u8>), ThumbnailError>)
        ensures
            outcome_matches(out, Self::thumbnail_of(self.thumbnail)),
    {
        match &self.thumbnail {
            Some(t) => t.render(),
            None => {
                let color: Vec<u8> = vec![255, 255, 255];
                assert(color@ =~= neutral_color());
                Ok((String::new(), color))
            },
        }
    }

    /// One line that describes the session: title, artist and start time.
    pub open spec fn text_of(&self) -> Seq<char> {
        text_or_empty(self.title) + " - "@ + text_or_empty(self.artist) + " ("@ + integer_text(
            Self::seconds_of(self.start_ticks),
        ) + ")"@
    }

    /// Describes the session in one line: `title - artist (start)`.
    pub fn to_text(&self) -> (out: String)
        ensures
            out@ == self.text_of(),
    {
        let mut out = self.get_title();
        out.append(" - ");
        out.append(self.get_artist().as_str());
        out.append(" (");
        out.append(integer_to_text(self.get_start_time()).as_str());
        out.append(")");
        out
    }
}

/// Snapshot of the media session as it is sent to the widgets.
#[derive(Debug)]
pub struct MediaSessionInfo {
    /// 200 where a session is open, 402 where none is.
    pub status_code: i32,
    pub app_id: String,
    pub title: String,
    pub artist: String,
    pub album: String,
    /// Whole seconds.
    pub start_time: i64,
    /// Whole seconds.
    pub end_time: i64,
    pub media_status: MediaStatus,
    /// A PNG data URL, or the empty string.
    pub thumbnail: String,
    /// Red, green and blue.
    pub main_color: Vec<u8>,
}

/// Mathematical value of a [`MediaSessionInfo`].
pub struct MediaSessionInfoView {
    pub status_code: i32,
    pub app_id: Seq<char>,
    pub title: Seq<char>,
    pub artist: Seq<char>,
    pub album: Seq<char>,
    pub start_time: i64,
    pub end_time: i64,
    pub media_status: MediaStatus,
    pub thumbnail: Seq<char>,
    pub main_color: Seq<u8>,
}

impl View for MediaSessionInfo {
    type V = MediaSessionInfoView;

    open spec fn view(&self) -> MediaSessionInfoView {
        MediaSessionInfoView {
            status_code: self.status_code,
            app_id: self.app_id@,
            title: self.title@,
            artist: self.artist@,
            album: self.album@,
            start_time: self.start_time,
            end_time: self.end_time,
            media_status: self.media_status,
            thumbnail: self.thumbnail@,
            main_color: self.main_color@,
        }
    }
}

impl MediaSessionInfoView {
    /// The status code is one of the two that exist and the colour has its
    /// three bytes.
    pub open spec fn well_formed(self) -> bool {
        (self.status_code == 200 || self.status_code == 402) && self.main_color.len() == 3
    }
}

/// The snapshot of an open session, given its rendered thumbnail.
pub open spec fn open_session_info(
    session: MediaSession,
    thumbnail: Seq<char>,
    main_color: Seq<u8>,
) -> MediaSessionInfoView {
    MediaSessionInfoView {
        status_code: 200,
        app_id: text_or_empty(session.app_id),
        title: text_or_empty(session.title),
        artist: text_or_empty(session.artist),
        album: text_or_empty(session.album),
        start_time: MediaSession::seconds_of(session.start_ticks) as i64,
        end_time: MediaSession::seconds_of(session.end_ticks) as i64,
        media_status: MediaSession::status_of(session.playback_status),
        thumbnail,
        main_color,
    }
}

/// The snapshot that is sent while no session is open: code 402, empty
/// texts, zero times, closed, no thumbnail and the neutral colour.
pub open spec fn no_session_info() -> MediaSessionInfoView {
    MediaSessionInfoView {
        status_code: 402,
        app_id: Seq::empty(),
        title: Seq::empty(),
        artist: Seq::empty(),
        album: Seq::empty(),
        start_time: 0,
        end_time: 0,
        media_status: MediaStatus::Closed,
        thumbnail: Seq::empty(),
        main_color: neutral_color(),
    }
}

/// The snapshot that one poll sends, or the error of a thumbnail that is
/// present and cannot be rendered.
pub open spec fn poll_info(session: Option<MediaSession>) -> Result<
    MediaSessionInfoView,
    ThumbnailError,
> {
    match session {
        None => Ok(no_session_info()),
        Some(s) => match MediaSession::thumbnail_of(s.thumbnail) {
            Ok((url, color)) => Ok(open_session_info(s, url, color)),
            Err(e) => Err(e),
        },
    }
}

/// Builds the snapshot of one poll: that of the open session, or the
/// fallback where there is none.
pub fn session_info(session: Option<&MediaSession>) -> (out: Result<
    MediaSessionInfo,
    ThumbnailError,
>)
    ensures
        match (
            out,
            poll_info(
                match session {
                    Some(s) => Some(*s),
                    None => None,
                },
            ),
        ) {
            (Ok(info), Ok(model)) => info@ == model && info@.well_formed(),
            (Err(e), Err(model_e)) => e == model_e,
            _ => false,
        },
{
    match session {
        None => {
            let color: Vec<u8> = vec![255, 255, 255];
            assert(color@ =~= neutral_color());
            Ok(
                MediaSessionInfo {
                    status_code: 402,
                    app_id: String::new(),
                    title: String::new(),
                    artist: String::new(),
                    album: String::new(),
                    start_time: 0,
                    end_time: 0,
                    media_status: MediaStatus::Closed,
                    thumbnail: String::new(),
                    main_color: color,
                },
            )
        },
        Some(s) => match s.get_thumbnail() {
            Err(e) => Err(e),
            Ok((url, color)) => {
                proof {
                    crate::thumbnail::lemma_rendered_color_has_three_bytes(s.thumbnail);
                }
                Ok(
                    MediaSessionInfo {
                        status_code: 200,
                        app_id: s.get_app_id(),
                        title: s.get_title(),
                        artist: s.get_artist(),
                        album: s.get_album(),
                        start_time: s.get_start_time(),
                        end_time: s.get_end_time(),
                        media_status: s.get_status(),
                        thumbnail: url,
                        main_color: color,
                    },
                )
            },
        },
    }
}

/// A command that a widget sends back.
#[derive(Debug)]
pub struct MediaControlCommand {
    pub command: String,
}

/// What a command asks the session to do.
#[derive(Debug, Clone, Copy, PartialEq, Eq, Structural)]
pub enum MediaAction {
    Play,
    Pause,
    Toggle,
    NextTrack,
    PreviousTrack,
}

/// The action that a command text stands for. Texts other than the three
/// known ones stand for none.
pub open spec fn action_of(command: Seq<char>) -> Option<MediaAction> {
    if command == "play_pause"@ {
        Some(MediaAction::Toggle)
    } else if command == "next"@ {
        Some(MediaAction::NextTrack)
    } else if command == "previous"@ {
        Some(MediaAction::PreviousTrack)
    } else {
        None
    }
}

/// Routes a command to the one action it asks for; an unknown command is
/// routed nowhere.
pub fn route_command(command: &MediaControlCommand) -> (out: Option<MediaAction>)
    ensures
        out == action_of(command.command@),
{
    let text = command.command.as_str();
    if same_text(text, "play_pause") {
        Some(MediaAction::Toggle)
    } else if same_text(text, "next") {
        Some(MediaAction::NextTrack)
    } else if same_text(text, "previous") {
        Some(MediaAction::PreviousTrack)
    } else {
        None
    }
}

/// How the platform answered a transport command.
#[derive(Debug, Clone, Copy, PartialEq, Eq, Structural)]
pub enum TransportOutcome {
    /// The platform refused to start the operation.
    NotStarted,
    /// The operation was started and gave no result.
    NoResult,
    /// The operation ran and reported whether it took effect.
    Completed(bool),
}

/// Whether a transport command succeeded: only where the operation ran and
/// reported success.
pub fn command_succeeded(outcome: TransportOutcome) -> (out: bool)
    ensures
        out == (outcome == TransportOutcome::Completed(true)),
{
    match outcome {
        TransportOutcome::Completed(done) => done,
        _ => false,
    }
}

/// Pause between two polls of the media session, in milliseconds.
pub const MEDIA_POLL_MILLIS: u64 = 500;

/// State of the media poll loop.
#[derive(Debug, Clone, Copy, PartialEq, Eq, Structural)]
pub struct MediaPoll {
    /// Whether the command listener has been installed.
    pub listener_installed: bool,
    /// Whether the last poll found a session.
    pub session_open: bool,
}

/// What the loop does in one round: send the snapshot, install the command
/// listener if asked to, then sleep.
#[derive(Debug)]
pub struct PollStep {
    pub payload: MediaSessionInfo,
    pub install_listener: bool,
    pub sleep_millis: u64,
}

impl MediaPoll {
    /// The state before the first round.
    pub open spec fn initial() -> MediaPoll {
        MediaPoll { listener_installed: false, session_open: false }
    }

    /// Whether a round asks for the command listener: only where it finds
    /// a session and no listener is installed yet. A round without session
    /// never asks for one.
    pub open spec fn asks_for_listener(self, session_open: bool) -> bool {
        !self.listener_installed && session_open
    }

    /// The state after a round that found a session, or found none. A
    /// listener is installed from the first round on that finds a session.
    pub open spec fn after_round(self, session_open: bool) -> MediaPoll {
        MediaPoll { listener_installed: self.listener_installed || session_open, session_open }
    }

    /// In how many of the given rounds, each told by whether it finds a
    /// session, the listener is asked for.
    pub open spec fn listeners_asked_for(self, rounds: Seq<bool>) -> nat
        decreases rounds.len(),
    {
        if rounds.len() == 0 {
            0
        } else {
            (if self.asks_for_listener(rounds.first()) {
                1nat
            } else {
                0nat
            }) + self.after_round(rounds.first()).listeners_asked_for(rounds.drop_first())
        }
    }

    /// The state before the first round.
    pub fn new() -> (out: MediaPoll)
        ensures
            out == MediaPoll::initial(),
    {
        MediaPoll { listener_installed: false, session_open: false }
    }

    /// Decides one round of the loop from what opening the session gave.
    /// The listener is asked for in the first round that finds a session and
    /// in no other; every round ends in the same pause, whether a session
    /// was found or not. Where the
    /// thumbnail of an open session cannot be rendered the round fails and
    /// the state stays as it was.
    pub fn tick(&mut self, session: Option<&MediaSession>) -> (out: Result<PollStep, ThumbnailError>)
        ensures
            match (
                out,
                poll_info(
                    match session {
                        Some(s) => Some(*s),
                        None => None,
                    },
                ),
            ) {
                (Ok(step), Ok(model)) => {
                    &&& step.payload@ == model
                    &&& step.payload@.well_formed()
                    &&& step.install_listener == old(self).asks_for_listener(session is Some)
                    &&& step.install_listener == (!old(self).listener_installed && session is Some)
                    &&& step.sleep_millis == 500
                    &&& *final(self) == old(self).after_round(session is Some)
                    &&& final(self).listener_installed == (old(self).listener_installed
                        || session is Some)
                },
                (Err(e), Err(model_e)) => e == model_e && *final(self) == *old(self),
                _ => false,
            },
    {
        match session_info(session) {
            Err(e) => Err(e),
            Ok(payload) => {
                let session_open = session.is_some();
                let install_listener = !self.listener_installed && session_open;
                self.listener_installed = self.listener_installed || session_open;
                self.session_open = session_open;
                Ok(PollStep { payload, install_listener, sleep_millis: MEDIA_POLL_MILLIS })
            },
        }
    }

    /// Decides what a command from a widget sets off: the action it asks
    /// for while a session is open, nothing otherwise. The loop's state is
    /// not touched.
    pub fn command(&self, command: &MediaControlCommand) -> (out: Option<MediaAction>)
        ensures
            out == if self.session_open {
                action_of(command.command@)
            } else {
                None
            },
    {
        if self.session_open {
            route_command(command)
        } else {
            None
        }
    }
}

/// Once a listener is installed, no round asks for another.
proof fn lemma_no_second_listener(poll: MediaPoll, rounds: Seq<bool>)
    requires
        poll.listener_installed,
    ensures
        poll.listeners_asked_for(rounds) == 0,
    decreases rounds.len(),
{
    if rounds.len() > 0 {
        lemma_no_second_listener(poll.after_round(rounds.first()), rounds.drop_first());
    }
}

/// However many rounds the loop makes, the command listener is asked for
/// at most once: exactly once where some round finds a session, namely in
/// the first that does, and never where none does. A command is therefore
/// heard once and sets off at most one action.
pub proof fn lemma_listener_installed_once(rounds: Seq<bool>)
    ensures
        MediaPoll::initial().listeners_asked_for(rounds) == if rounds.contains(true) {
            1nat
        } else {
            0nat
        },
    decreases rounds.len(),
{
    let start = MediaPoll::initial();
    if rounds.len() > 0 {
        let rest = rounds.drop_first();
        if rounds.first() {
            assert(rounds[0] == true);
            lemma_no_second_listener(start.after_round(true), rest);
        } else {
            assert(start.after_round(false) == start);
            lemma_listener_installed_once(rest);
            if rest.contains(true) {
                let i = choose|i: int| 0 <= i < rest.len() && rest[i] == true;
                assert(rounds[i + 1] == true);
            }
            if rounds.contains(true) {
                let j = choose|j: int| 0 <= j < rounds.len() && rounds[j] == true;
                assert(rest[j - 1] == true);
            }
        }
    }
}

/// A round that finds no session asks for no listener, whatever came
/// before.
pub proof fn lemma_no_listener_without_session(poll: MediaPoll)
    ensures
        !poll.asks_for_listener(false),
        poll.after_round(false).listener_installed == poll.listener_installed,
{
}

} // verus!
