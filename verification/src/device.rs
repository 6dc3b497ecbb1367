use crate::effect::EffectView;
use vstd::prelude::*;

verus! {

/// As much of the audio device and the media controls as the effects of the
/// controller can tell apart: which audio is loaded, which title is shown,
/// and whether the device plays.
pub struct DeviceModel {
    pub source: Option<Seq<u8>>,
    pub title: Option<Seq<char>>,
    pub playing: bool,
}

/// The device after one effect. New audio comes in paused; a device without
/// audio cannot start.
pub open spec fn after_effect(device: DeviceModel, effect: EffectView) -> DeviceModel {
    match effect {
        EffectView::Pause => DeviceModel { playing: false, ..device },
        EffectView::Play => DeviceModel { playing: device.source is Some, ..device },
        EffectView::SetMetadata { title } => DeviceModel { title: Some(title), ..device },
        EffectView::SetSource { audio, mime_type } => DeviceModel {
            source: Some(audio),
            playing: false,
            ..device
        },
        _ => device,
    }
}

/// The device after a run of effects, carried out in order.
pub open spec fn after_effects(device: DeviceModel, effects: Seq<EffectView>) -> DeviceModel
    decreases effects.len(),
{
    if effects.len() == 0 {
        device
    } else {
        after_effect(after_effects(device, effects.drop_last()), effects.last())
    }
}

/// Carrying out one run of effects and then another is carrying out the two
/// joined.
pub proof fn lemma_after_effects_joined(
    device: DeviceModel,
    first: Seq<EffectView>,
    second: Seq<EffectView>,
)
    ensures
        after_effects(device, first + second) == after_effects(
            after_effects(device, first),
            second,
        ),
    decreases second.len(),
{
    if second.len() == 0 {
        assert(first + second =~= first);
    } else {
        assert((first + second).drop_last() =~= first + second.drop_last());
        assert((first + second).last() == second.last());
        lemma_after_effects_joined(device, first, second.drop_last());
    }
}

} // verus!
