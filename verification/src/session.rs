use crate::effect::{Effect, EffectView};
use crate::error::PlayerError;
use crate::reading::Reading;
use crate::seek::{
    jump_backward, jump_effects, jump_forward, seek_effects, seek_to, SeekDetails, JUMP_SIZE,
};
use vstd::prelude::*;

verus! {

/// The actions that the platform's media controls offer.
#[derive(Clone, Copy, Debug, PartialEq, Eq)]
pub enum MediaAction {
    Play,
    Pause,
    SeekForward,
    SeekBackward,
    SeekTo,
}

/// What the media controls show of the playback: where it stands, how long
/// the track is and how fast it runs, all in thousandths.
#[derive(Clone, Copy, Debug, PartialEq, Eq)]
pub struct PositionState {
    pub position: i64,
    pub duration: i64,
    pub playback_rate: i64,
}

/// The position state for three readings of the device: there is one exactly
/// when all three can be used.
pub open spec fn position_state(position: Reading, duration: Reading, rate: Reading) -> Option<
    PositionState,
> {
    if position.usable() && duration.usable() && rate.usable() {
        Some(
            PositionState {
                position: position->Finite_0,
                duration: duration->Finite_0,
                playback_rate: rate->Finite_0,
            },
        )
    } else {
        None
    }
}

/// Decides what to show on the media controls for the device's current
/// position, duration and rate. While any of the three is negative, infinite
/// or not a number the device is not set up, and nothing may be shown.
pub fn update_playback_state(position: Reading, duration: Reading, rate: Reading) -> (r: Result<
    PositionState,
    PlayerError,
>)
    ensures
        match position_state(position, duration, rate) {
            Some(shown) => r == Ok::<PositionState, PlayerError>(shown),
            None => r == Err::<PositionState, PlayerError>(PlayerError::DeviceUnconfigured),
        },
        r is Err <==> !position.usable() || !duration.usable() || !rate.usable(),
{
    match (position.checked(), duration.checked(), rate.checked()) {
        (Some(p), Some(d), Some(s)) => Ok(
            PositionState { position: p, duration: d, playback_rate: s },
        ),
        _ => Err(PlayerError::DeviceUnconfigured),
    }
}

/// The handlers to register with the media controls, one for each action.
pub open spec fn registrations() -> Seq<EffectView> {
    seq![
        EffectView::RegisterAction(MediaAction::Play),
        EffectView::RegisterAction(MediaAction::Pause),
        EffectView::RegisterAction(MediaAction::SeekForward),
        EffectView::RegisterAction(MediaAction::SeekBackward),
        EffectView::RegisterAction(MediaAction::SeekTo),
    ]
}

/// Asks for a handler to be registered for each of the five actions.
pub fn set_callbacks() -> (effects: Vec<Effect>)
    ensures
        effects.deep_view() == registrations(),
{
    let mut effects: Vec<Effect> = Vec::new();
    effects.push(Effect::RegisterAction(MediaAction::Play));
    effects.push(Effect::RegisterAction(MediaAction::Pause));
    effects.push(Effect::RegisterAction(MediaAction::SeekForward));
    effects.push(Effect::RegisterAction(MediaAction::SeekBackward));
    effects.push(Effect::RegisterAction(MediaAction::SeekTo));
    assert(effects.deep_view() =~= registrations());
    effects
}

/// What an action of the media controls asks of the device. Play and pause
/// go straight to the device, the two fixed seeks jump by the fixed step, and
/// a seek to a place goes by the details that came with it.
pub open spec fn action_effects(
    action: MediaAction,
    details: SeekDetails,
    position: Reading,
    duration: Reading,
) -> Seq<EffectView> {
    match action {
        MediaAction::Play => seq![EffectView::Play],
        MediaAction::Pause => seq![EffectView::Pause],
        MediaAction::SeekForward => jump_effects(position, duration, JUMP_SIZE as int),
        MediaAction::SeekBackward => jump_effects(position, duration, -(JUMP_SIZE as int)),
        MediaAction::SeekTo => seek_effects(details, position, duration),
    }
}

/// Answers an action of the media controls, given the details that came
/// with it and what the device reads.
pub fn handle_action(
    action: MediaAction,
    details: SeekDetails,
    position: Reading,
    duration: Reading,
) -> (effects: Vec<Effect>)
    ensures
        effects.deep_view() == action_effects(action, details, position, duration),
{
    match action {
        MediaAction::Play => {
            let mut effects: Vec<Effect> = Vec::new();
            effects.push(Effect::Play);
            assert(effects.deep_view() =~= seq![EffectView::Play]);
            effects
        },
        MediaAction::Pause => {
            let mut effects: Vec<Effect> = Vec::new();
            effects.push(Effect::Pause);
            assert(effects.deep_view() =~= seq![EffectView::Pause]);
            effects
        },
        MediaAction::SeekForward => jump_forward(position, duration),
        MediaAction::SeekBackward => jump_backward(position, duration),
        MediaAction::SeekTo => seek_to(details, position, duration),
    }
}

} // verus!
