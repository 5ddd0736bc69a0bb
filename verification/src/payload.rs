//! The presence payload: what one publish shows on the remote display.

use vstd::prelude::*;
use crate::snapshot::{view_opt_i64, view_opt_string, TrackInfo, TrackModel};

verus! {

/// One publish's worth of display data, ready for the presence channel.
///
/// `large_image_url` is the track's artwork; a payload is only built when
/// artwork exists. `paused_overlay` asks for the secondary "paused" badge.
/// `end_timestamp_seconds` is the moment playback will finish, in seconds
/// since the epoch; it is attached only while playing. `button_url`, when
/// present, is the page to open the track in the media player.
#[derive(Debug, PartialEq, Eq)]
pub struct Payload {
    pub details: String,
    pub state_line: String,
    pub large_image_url: String,
    pub large_text: String,
    pub paused_overlay: bool,
    pub end_timestamp_seconds: Option<i64>,
    pub button_url: Option<String>,
}

/// Mathematical model of a payload.
pub struct PayloadModel {
    pub details: Seq<char>,
    pub state_line: Seq<char>,
    pub large_image_url: Seq<char>,
    pub large_text: Seq<char>,
    pub paused_overlay: bool,
    pub end_timestamp_seconds: Option<int>,
    pub button_url: Option<Seq<char>>,
}

impl View for Payload {
    type V = PayloadModel;

    open spec fn view(&self) -> PayloadModel {
        PayloadModel {
            details: self.details@,
            state_line: self.state_line@,
            large_image_url: self.large_image_url@,
            large_text: self.large_text@,
            paused_overlay: self.paused_overlay,
            end_timestamp_seconds: view_opt_i64(self.end_timestamp_seconds),
            button_url: view_opt_string(self.button_url),
        }
    }
}

/// The payload owed for a track under a pause flag: name and artist on the
/// two text lines, artwork as the large image with the album as its label,
/// the paused badge exactly when paused, an end timestamp exactly when
/// playing (re-anchored to this tick's clock and position), and a button
/// exactly when the track has a page.
pub open spec fn payload_of(
    track: TrackModel,
    paused: bool,
    now_seconds: int,
    remaining_seconds: Option<int>,
) -> PayloadModel
    recommends
        track.artwork_url is Some,
        !paused ==> remaining_seconds is Some,
{
    PayloadModel {
        details: track.name,
        state_line: track.artist,
        large_image_url: track.artwork_url->Some_0,
        large_text: track.album,
        paused_overlay: paused,
        end_timestamp_seconds: if paused {
            None
        } else {
            Some(now_seconds + remaining_seconds->Some_0)
        },
        button_url: track.page_url,
    }
}

/// Builds the payload for one publish.
pub fn build_payload(
    track: &TrackInfo,
    paused: bool,
    now_seconds: i64,
    remaining_seconds: &Option<i64>,
) -> (payload: Payload)
    requires
        track@.artwork_url is Some,
        !paused ==> view_opt_i64(*remaining_seconds) is Some,
        !paused ==> i64::MIN <= now_seconds + view_opt_i64(*remaining_seconds)->Some_0
            <= i64::MAX,
    ensures
        payload@ == payload_of(
            track@,
            paused,
            now_seconds as int,
            view_opt_i64(*remaining_seconds),
        ),
{
    let end: Option<i64> = match (paused, remaining_seconds) {
        (false, Some(r)) => Some(now_seconds + *r),
        _ => None,
    };
    let artwork = match &track.artwork_url {
        Some(url) => url.clone(),
        None => String::new(),
    };
    let button = match &track.page_url {
        Some(url) => Some(url.clone()),
        None => None,
    };
    Payload {
        details: track.name.clone(),
        state_line: track.artist.clone(),
        large_image_url: artwork,
        large_text: track.album.clone(),
        paused_overlay: paused,
        end_timestamp_seconds: end,
        button_url: button,
    }
}

} // verus!
