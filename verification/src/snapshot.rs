//! What the engine is told about the environment on one tick: which
//! processes are running and what the media player reports.

use vstd::prelude::*;

verus! {

/// The playback state a media player reports for itself.
#[derive(Clone, Copy, PartialEq, Eq, Structural, Debug)]
pub enum PlayerState {
    Playing,
    Paused,
    Stopped,
    Unknown,
}

/// Application-level playback state read from the media player.
///
/// The player may answer the query and still report no state; that is the
/// inner `None`.
#[derive(Clone, Copy, PartialEq, Eq, Debug)]
pub struct AppData {
    pub player_state: Option<PlayerState>,
}

/// Whether a playback snapshot counts as paused: anything other than a
/// successfully read `Playing` state is treated as paused (fail safe).
pub open spec fn spec_paused(app_data: Option<AppData>) -> bool {
    !(app_data matches Some(a) && a.player_state matches Some(PlayerState::Playing))
}

/// Derives the pause flag from an application-state read; `None` means the
/// read itself failed.
pub fn derive_paused(app_data: &Option<AppData>) -> (paused: bool)
    ensures
        paused == spec_paused(*app_data),
{
    match app_data {
        Some(a) => match a.player_state {
            Some(PlayerState::Playing) => false,
            _ => true,
        },
        None => true,
    }
}

/// Metadata of the track the media player currently has, as far as the
/// engine needs it. The `id` is the sole signal for "track changed";
/// every other field may vary without the identity changing.
#[derive(Debug, PartialEq, Eq)]
pub struct TrackInfo {
    pub id: String,
    pub name: String,
    pub artist: String,
    pub album: String,
    pub artwork_url: Option<String>,
    pub page_url: Option<String>,
}

/// Mathematical model of a track: every string as a sequence of characters.
pub struct TrackModel {
    pub id: Seq<char>,
    pub name: Seq<char>,
    pub artist: Seq<char>,
    pub album: Seq<char>,
    pub artwork_url: Option<Seq<char>>,
    pub page_url: Option<Seq<char>>,
}

pub open spec fn view_opt_string(o: Option<String>) -> Option<Seq<char>> {
    match o {
        Some(s) => Some(s@),
        None => None,
    }
}

pub open spec fn view_opt_i64(o: Option<i64>) -> Option<int> {
    match o {
        Some(n) => Some(n as int),
        None => None,
    }
}

impl View for TrackInfo {
    type V = TrackModel;

    open spec fn view(&self) -> TrackModel {
        TrackModel {
            id: self.id@,
            name: self.name@,
            artist: self.artist@,
            album: self.album@,
            artwork_url: view_opt_string(self.artwork_url),
            page_url: view_opt_string(self.page_url),
        }
    }
}

/// Everything one tick of the loop observes, gathered before the engine
/// decides.
///
/// `app_data` is `None` when the application-state query failed.
/// `track` is `None` when the player has no current track; that is the
/// normal "stopped" outcome, not a failure.
/// `now_seconds` is wall-clock time in seconds since the epoch, read this
/// tick. `remaining_seconds` is the track's remaining play time (its finish
/// offset minus the current playback position, rounded to whole seconds);
/// it is `None` when the player reported no playback position.
#[derive(Debug, PartialEq, Eq)]
pub struct TickInput {
    pub remote_present: bool,
    pub player_present: bool,
    pub app_data: Option<AppData>,
    pub track: Option<TrackInfo>,
    pub now_seconds: i64,
    pub remaining_seconds: Option<i64>,
}

/// Mathematical model of a tick's observations.
pub struct InputModel {
    pub remote_present: bool,
    pub player_present: bool,
    pub app_data: Option<AppData>,
    pub track: Option<TrackModel>,
    pub now_seconds: int,
    pub remaining_seconds: Option<int>,
}

impl InputModel {
    /// The one machine limit on an observation: an end timestamp computed
    /// from it must fit in a signed 64-bit integer.
    pub open spec fn wf(self) -> bool {
        self.remaining_seconds matches Some(r) ==> i64::MIN <= self.now_seconds + r
            <= i64::MAX
    }
}

impl View for TickInput {
    type V = InputModel;

    open spec fn view(&self) -> InputModel {
        InputModel {
            remote_present: self.remote_present,
            player_present: self.player_present,
            app_data: self.app_data,
            track: match self.track {
                Some(t) => Some(t@),
                None => None,
            },
            now_seconds: self.now_seconds as int,
            remaining_seconds: view_opt_i64(self.remaining_seconds),
        }
    }
}

/// Checks the machine limit of `InputModel::wf` on a concrete observation,
/// so that a caller that assembled one from the environment can reject the
/// (practically unreachable) overflowing case instead of violating a
/// precondition.
pub fn input_in_bounds(input: &TickInput) -> (ok: bool)
    ensures
        ok == input@.wf(),
{
    match &input.remaining_seconds {
        Some(r) => input.now_seconds.checked_add(*r).is_some(),
        None => true,
    }
}

} // verus!
