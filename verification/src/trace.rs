use crate::article::ArticleView;
use crate::device::{after_effect, after_effects, lemma_after_effects_joined, DeviceModel};
use crate::effect::EffectView;
use crate::loading::{loaded_effects, play_effects};
use crate::player::{
    effects_of, next_state, PlayerMsgView, PlayerStateView, ReadoutView, PLAYER_STATE_SAVE_FREQ,
};
use vstd::prelude::*;

verus! {

/// One message together with what the page showed when it was handled.
pub struct Step {
    pub msg: PlayerMsgView,
    pub page: ReadoutView,
}

/// The state after a run of messages, handled one at a time in order.
pub open spec fn state_after(state: PlayerStateView, steps: Seq<Step>) -> PlayerStateView
    decreases steps.len(),
{
    if steps.len() == 0 {
        state
    } else {
        next_state(state_after(state, steps.drop_last()), steps.last().msg, steps.last().page)
    }
}

/// All the effects of a run of messages, in the order in which they are due.
pub open spec fn effects_after(state: PlayerStateView, steps: Seq<Step>) -> Seq<EffectView>
    decreases steps.len(),
{
    if steps.len() == 0 {
        Seq::empty()
    } else {
        effects_after(state, steps.drop_last()) + effects_of(
            state_after(state, steps.drop_last()),
            steps.last().msg,
            steps.last().page,
        )
    }
}

/// How many of the messages ask for a save.
pub open spec fn saves_in(steps: Seq<Step>) -> nat
    decreases steps.len(),
{
    if steps.len() == 0 {
        0
    } else {
        saves_in(steps.drop_last()) + if steps.last().msg is SaveState {
            1nat
        } else {
            0nat
        }
    }
}

/// How many of the effects arm the save timer.
pub open spec fn schedules_in(effects: Seq<EffectView>) -> nat
    decreases effects.len(),
{
    if effects.len() == 0 {
        0
    } else {
        schedules_in(effects.drop_last()) + if effects.last() is ScheduleSave {
            1nat
        } else {
            0nat
        }
    }
}

/// Every effect among these that arms the save timer arms it for the fixed
/// interval.
pub open spec fn schedules_at_fixed_interval(effects: Seq<EffectView>) -> bool {
    forall|i: int|
        0 <= i < effects.len() && (#[trigger] effects[i]) is ScheduleSave ==> effects[i]
            == EffectView::ScheduleSave(PLAYER_STATE_SAVE_FREQ as int)
}

proof fn lemma_schedules_joined(first: Seq<EffectView>, second: Seq<EffectView>)
    ensures
        schedules_in(first + second) == schedules_in(first) + schedules_in(second),
    decreases second.len(),
{
    if second.len() == 0 {
        assert(first + second =~= first);
    } else {
        assert((first + second).drop_last() =~= first + second.drop_last());
        assert((first + second).last() == second.last());
        lemma_schedules_joined(first, second.drop_last());
    }
}

proof fn lemma_no_schedule(effects: Seq<EffectView>)
    requires
        forall|i: int| 0 <= i < effects.len() ==> !((#[trigger] effects[i]) is ScheduleSave),
    ensures
        schedules_in(effects) == 0,
    decreases effects.len(),
{
    if effects.len() > 0 {
        assert(!(effects[effects.len() - 1] is ScheduleSave));
        assert forall|i: int| 0 <= i < effects.drop_last().len() implies !((
        #[trigger] effects.drop_last()[i]) is ScheduleSave) by {
            assert(effects.drop_last()[i] == effects[i]);
        }
        lemma_no_schedule(effects.drop_last());
    }
}

/// One message arms the save timer once if it asks for a save, and not at
/// all otherwise.
proof fn lemma_schedules_of_one(state: PlayerStateView, msg: PlayerMsgView, page: ReadoutView)
    ensures
        schedules_in(effects_of(state, msg, page)) == if msg is SaveState {
            1nat
        } else {
            0nat
        },
        schedules_at_fixed_interval(effects_of(state, msg, page)),
{
    let effects = effects_of(state, msg, page);
    match msg {
        PlayerMsgView::SaveState { elapsed } => {
            let saved = EffectView::Persist(next_state(state, msg, page));
            assert(effects.drop_last() =~= seq![saved]);
            lemma_no_schedule(effects.drop_last());
        },
        _ => {
            lemma_no_schedule(effects);
        },
    }
}

/// The save timer keeps itself going: a run of messages arms it exactly as
/// often as the run asks for a save, and every time for the fixed interval.
pub proof fn lemma_every_save_reschedules(state: PlayerStateView, steps: Seq<Step>)
    ensures
        schedules_in(effects_after(state, steps)) == saves_in(steps),
        schedules_at_fixed_interval(effects_after(state, steps)),
    decreases steps.len(),
{
    if steps.len() > 0 {
        let before = effects_after(state, steps.drop_last());
        let last = effects_of(
            state_after(state, steps.drop_last()),
            steps.last().msg,
            steps.last().page,
        );
        lemma_every_save_reschedules(state, steps.drop_last());
        lemma_schedules_of_one(
            state_after(state, steps.drop_last()),
            steps.last().msg,
            steps.last().page,
        );
        lemma_schedules_joined(before, last);
        assert forall|i: int|
            0 <= i < (before + last).len() && (#[trigger] (before + last)[i]) is ScheduleSave implies (
        before + last)[i] == EffectView::ScheduleSave(PLAYER_STATE_SAVE_FREQ as int) by {
            if i < before.len() {
                assert((before + last)[i] == before[i]);
            } else {
                assert((before + last)[i] == last[i - before.len()]);
            }
        }
    }
}

/// Every state that these messages ask to take over is well formed.
pub open spec fn restores_well_formed(steps: Seq<Step>) -> bool {
    forall|i: int|
        0 <= i < steps.len() ==> ((#[trigger] steps[i]).msg matches PlayerMsgView::SetState(
            restored,
        ) ==> restored.well_formed())
}

/// The speed stays a positive number: from a well-formed state, no run of
/// messages leads to a state that is not well formed, whatever the speed
/// selector shows along the way.
pub proof fn lemma_speed_stays_positive(state: PlayerStateView, steps: Seq<Step>)
    requires
        state.well_formed(),
        restores_well_formed(steps),
    ensures
        state_after(state, steps).well_formed(),
    decreases steps.len(),
{
    if steps.len() > 0 {
        assert forall|i: int| 0 <= i < steps.drop_last().len() implies ((
        #[trigger] steps.drop_last()[i]).msg matches PlayerMsgView::SetState(restored)
            ==> restored.well_formed()) by {
            assert(steps.drop_last()[i] == steps[i]);
        }
        lemma_speed_stays_positive(state, steps.drop_last());
        assert(steps[steps.len() - 1] == steps.last());
    }
}

/// The device after an article was put in and started: it holds that
/// article, shows its title, and plays.
proof fn lemma_after_play(device: DeviceModel, article: ArticleView)
    ensures
        after_effects(device, play_effects(article)) == (DeviceModel {
            source: Some(article.audio),
            title: Some(article.title),
            playing: true,
        }),
{
    let effects = play_effects(article);
    let three = effects.drop_last();
    let two = three.drop_last();
    let one = two.drop_last();
    assert(one.drop_last() =~= Seq::<EffectView>::empty());
    assert(after_effects(device, one.drop_last()) == device);
    assert(after_effects(device, one) == after_effect(device, effects[0]));
    assert(after_effects(device, two) == after_effect(after_effects(device, one), effects[1]));
    assert(after_effects(device, three) == after_effect(after_effects(device, two), effects[2]));
    assert(after_effects(device, effects) == after_effect(
        after_effects(device, three),
        effects[3],
    ));
}

/// Nothing holds back an answer of the store that comes late. When one
/// article is asked for and then another, and the store answers for the
/// second before it answers for the first, the device ends up playing the
/// first, while the state names the second.
pub proof fn lemma_late_answer_wins(
    state: PlayerStateView,
    device: DeviceModel,
    first: Seq<char>,
    second: Seq<char>,
    first_article: ArticleView,
    second_article: ArticleView,
    page: ReadoutView,
)
    ensures
        ({
            let steps = seq![
                Step { msg: PlayerMsgView::PlayHandle(first), page },
                Step { msg: PlayerMsgView::PlayHandle(second), page },
            ];
            let asked = effects_after(state, steps);
            let answered = loaded_effects(true, second_article) + loaded_effects(
                true,
                first_article,
            );
            &&& state_after(state, steps).now_playing == Some(second)
            &&& after_effects(device, asked + answered) == (DeviceModel {
                source: Some(first_article.audio),
                title: Some(first_article.title),
                playing: true,
            })
        }),
{
    let steps = seq![
        Step { msg: PlayerMsgView::PlayHandle(first), page },
        Step { msg: PlayerMsgView::PlayHandle(second), page },
    ];
    let asked = effects_after(state, steps);
    let second_answer = loaded_effects(true, second_article);
    let first_answer = loaded_effects(true, first_article);
    assert(steps.drop_last() =~= seq![Step { msg: PlayerMsgView::PlayHandle(first), page }]);
    assert(steps.drop_last().drop_last() =~= Seq::<Step>::empty());
    assert(state_after(state, steps.drop_last().drop_last()) == state);
    assert(state_after(state, steps).now_playing == Some(second));
    assert(asked + (second_answer + first_answer) =~= (asked + second_answer) + first_answer);
    lemma_after_effects_joined(device, asked + second_answer, first_answer);
    lemma_after_play(after_effects(device, asked + second_answer), first_article);
}

} // verus!
