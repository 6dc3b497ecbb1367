use crate::article::CachedArticleHandle;
use crate::player::{PlayerState, PlayerStateView};
use crate::session::MediaAction;
use vstd::prelude::*;

verus! {

/// One thing that the controller asks the surrounding program to do.
#[derive(Debug, PartialEq, Eq)]
pub enum Effect {
    /// Register the handler for one action of the media controls.
    RegisterAction(MediaAction),
    /// Ask the store for the saved player state.
    RestoreState,
    /// Arm the save timer to fire once, after this many milliseconds.
    ScheduleSave(i32),
    /// Pause the device.
    Pause,
    /// Start playback on the device.
    Play,
    /// Move the device's position to this time.
    Seek(i64),
    /// Move the device's position close to this time, trading precision for speed.
    FastSeek(i64),
    /// Set the device's playback rate.
    SetRate(i64),
    /// Set the rate that the device falls back to for a new source.
    SetDefaultRate(i64),
    /// Read position, duration and rate from the device and show them on
    /// the media controls, if they can be shown.
    RefreshPositionState,
    /// Show this title on the media controls.
    SetMetadata { title: String },
    /// Give the device this audio to play.
    SetSource { audio: Vec<u8>, mime_type: String },
    /// Resolve a handle in the store. When the article arrives it is
    /// installed, and played if `autoplay` is set.
    LoadArticle { handle: CachedArticleHandle, autoplay: bool },
    /// Save this snapshot of the player state.
    Persist(PlayerState),
}

/// What an effect asks for.
pub enum EffectView {
    RegisterAction(MediaAction),
    RestoreState,
    ScheduleSave(int),
    Pause,
    Play,
    Seek(int),
    FastSeek(int),
    SetRate(int),
    SetDefaultRate(int),
    RefreshPositionState,
    SetMetadata { title: Seq<char> },
    SetSource { audio: Seq<u8>, mime_type: Seq<char> },
    LoadArticle { handle: Seq<char>, autoplay: bool },
    Persist(PlayerStateView),
}

impl View for Effect {
    type V = EffectView;

    open spec fn view(&self) -> EffectView {
        match *self {
            Effect::RegisterAction(action) => EffectView::RegisterAction(action),
            Effect::RestoreState => EffectView::RestoreState,
            Effect::ScheduleSave(delay) => EffectView::ScheduleSave(delay as int),
            Effect::Pause => EffectView::Pause,
            Effect::Play => EffectView::Play,
            Effect::Seek(time) => EffectView::Seek(time as int),
            Effect::FastSeek(time) => EffectView::FastSeek(time as int),
            Effect::SetRate(rate) => EffectView::SetRate(rate as int),
            Effect::SetDefaultRate(rate) => EffectView::SetDefaultRate(rate as int),
            Effect::RefreshPositionState => EffectView::RefreshPositionState,
            Effect::SetMetadata { title } => EffectView::SetMetadata { title: title@ },
            Effect::SetSource { audio, mime_type } => EffectView::SetSource {
                audio: audio@,
                mime_type: mime_type@,
            },
            Effect::LoadArticle { handle, autoplay } => EffectView::LoadArticle {
                handle: handle@,
                autoplay,
            },
            Effect::Persist(state) => EffectView::Persist(state@),
        }
    }
}

impl DeepView for Effect {
    type V = EffectView;

    open spec fn deep_view(&self) -> EffectView {
        self@
    }
}

} // verus!
