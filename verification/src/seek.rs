use crate::effect::{Effect, EffectView};
use crate::error::PlayerError;
use crate::reading::Reading;
use vstd::prelude::*;

verus! {

/// The fixed step of a jump: ten seconds.
pub const JUMP_SIZE: i64 = 10_000;

/// `t` brought into the range from zero to `duration`.
pub open spec fn clamp_time(t: int, duration: int) -> int {
    if t < 0 {
        0
    } else if t > duration {
        duration
    } else {
        t
    }
}

/// Where a jump by `offset` lands, or nothing when position or duration
/// cannot be used.
pub open spec fn jump_target(position: Reading, duration: Reading, offset: int) -> Option<int> {
    if position.usable() && duration.usable() {
        Some(clamp_time(position.thousandths() + offset, duration.thousandths()))
    } else {
        None
    }
}

/// Computes the time to seek to for a jump by `offset` from `position`,
/// held within zero and `duration`.
pub fn jump_offset(position: Reading, duration: Reading, offset: i64) -> (r: Result<
    i64,
    PlayerError,
>)
    ensures
        match jump_target(position, duration, offset as int) {
            Some(t) => r == Ok::<i64, PlayerError>(t as i64) && 0 <= t <= duration.thousandths(),
            None => r == Err::<i64, PlayerError>(PlayerError::DeviceUnconfigured),
        },
{
    match (position.checked(), duration.checked()) {
        (Some(now), Some(end)) => {
            let moved: Option<i64> = now.checked_add(offset);
            match moved {
                Some(t) => if t < 0 {
                    Ok(0)
                } else if t > end {
                    Ok(end)
                } else {
                    Ok(t)
                },
                None => Ok(end),
            }
        },
        _ => Err(PlayerError::DeviceUnconfigured),
    }
}

/// From a usable position and duration a jump lands between zero and the
/// duration, whatever the offset; and where position plus offset already
/// lies there, that is where it lands.
pub proof fn lemma_jump_stays_in_range(position: Reading, duration: Reading, offset: int)
    requires
        position.usable(),
        duration.usable(),
    ensures
        jump_target(position, duration, offset) is Some,
        0 <= jump_target(position, duration, offset)->0 <= duration.thousandths(),
        0 <= position.thousandths() + offset <= duration.thousandths() ==> jump_target(
            position,
            duration,
            offset,
        ) == Some(position.thousandths() + offset),
{
}

/// What a jump by `offset` asks of the device: a seek to the target and a
/// fresh position state on the media controls. Without a usable position and
/// duration the jump is left out altogether.
pub open spec fn jump_effects(position: Reading, duration: Reading, offset: int) -> Seq<
    EffectView,
> {
    match jump_target(position, duration, offset) {
        Some(t) => seq![EffectView::Seek(t), EffectView::RefreshPositionState],
        None => Seq::empty(),
    }
}

fn jump_by(position: Reading, duration: Reading, offset: i64) -> (effects: Vec<Effect>)
    ensures
        effects.deep_view() == jump_effects(position, duration, offset as int),
{
    let mut effects: Vec<Effect> = Vec::new();
    match jump_offset(position, duration, offset) {
        Ok(target) => {
            effects.push(Effect::Seek(target));
            effects.push(Effect::RefreshPositionState);
        },
        Err(_) => {},
    }
    assert(effects.deep_view() =~= jump_effects(position, duration, offset as int));
    effects
}

/// Jumps ahead by the fixed step.
pub fn jump_forward(position: Reading, duration: Reading) -> (effects: Vec<Effect>)
    ensures
        effects.deep_view() == jump_effects(position, duration, JUMP_SIZE as int),
{
    jump_by(position, duration, JUMP_SIZE)
}

/// Jumps back by the fixed step.
pub fn jump_backward(position: Reading, duration: Reading) -> (effects: Vec<Effect>)
    ensures
        effects.deep_view() == jump_effects(position, duration, -(JUMP_SIZE as int)),
{
    jump_by(position, duration, -JUMP_SIZE)
}

/// What the media controls hand over with a request to seek. Each part may
/// be missing.
#[derive(Clone, Copy, Debug, PartialEq, Eq)]
pub struct SeekDetails {
    /// Whether a fast, less exact seek is wanted.
    pub fast_seek: Option<bool>,
    /// The time to seek to.
    pub seek_time: Option<Reading>,
    /// The distance to seek by.
    pub seek_offset: Option<Reading>,
}

/// What a request to seek asks of the device. A time to seek to goes before
/// a distance to seek by. The fast way is taken only where the request says
/// so in as many words. A time or a distance that is not finite moves
/// nothing.
pub open spec fn seek_effects(details: SeekDetails, position: Reading, duration: Reading) -> Seq<
    EffectView,
> {
    match details.seek_time {
        Some(Reading::Finite(time)) => if details.fast_seek == Some(true) {
            seq![EffectView::FastSeek(time as int)]
        } else {
            seq![EffectView::Seek(time as int)]
        },
        Some(_) => Seq::empty(),
        None => match details.seek_offset {
            Some(Reading::Finite(offset)) => match jump_target(position, duration, offset as int) {
                Some(t) => seq![EffectView::Seek(t)],
                None => Seq::empty(),
            },
            _ => Seq::empty(),
        },
    }
}

/// Answers a request of the media controls to seek.
pub fn seek_to(details: SeekDetails, position: Reading, duration: Reading) -> (effects: Vec<
    Effect,
>)
    ensures
        effects.deep_view() == seek_effects(details, position, duration),
{
    let mut effects: Vec<Effect> = Vec::new();
    match details.seek_time {
        Some(Reading::Finite(time)) => {
            match details.fast_seek {
                Some(true) => effects.push(Effect::FastSeek(time)),
                _ => effects.push(Effect::Seek(time)),
            }
        },
        Some(_) => {},
        None => {
            match details.seek_offset {
                Some(Reading::Finite(offset)) => {
                    match jump_offset(position, duration, offset) {
                        Ok(target) => effects.push(Effect::Seek(target)),
                        Err(_) => {},
                    }
                },
                _ => {},
            }
        },
    }
    assert(effects.deep_view() =~= seek_effects(details, position, duration));
    effects
}

} // verus!
