use crate::article::{handle_view, CachedArticleHandle};
use crate::effect::{Effect, EffectView};
use crate::error::{PlayerError, StoreError};
use crate::loading::{play_article_handle, set_audio_source_by_handle};
use crate::reading::Reading;
use crate::seek::{jump_backward, jump_effects, jump_forward, JUMP_SIZE};
use crate::session::{registrations, set_callbacks};
use crate::speed::{selected_speed, speed_or_default, DEFAULT_SPEED};
use vstd::prelude::*;

verus! {

/// What is playing, how far into it, and how fast. This is all of the player
/// that outlives the program.
#[derive(Debug, PartialEq, Eq)]
pub struct PlayerState {
    now_playing: Option<CachedArticleHandle>,
    elapsed: Option<Reading>,
    playback_speed: i64,
}

/// What a player state holds.
pub struct PlayerStateView {
    /// The article that was selected last, if any ever was.
    pub now_playing: Option<Seq<char>>,
    /// The position at the last save, if there was one.
    pub elapsed: Option<Reading>,
    /// The playback speed in thousandths of normal speed.
    pub playback_speed: int,
}

impl PlayerStateView {
    /// The state of a player that was never used.
    pub open spec fn initial() -> PlayerStateView {
        PlayerStateView { now_playing: None, elapsed: None, playback_speed: DEFAULT_SPEED as int }
    }

    /// The speed of a player is a positive number that fits the machine.
    pub open spec fn well_formed(self) -> bool {
        0 < self.playback_speed <= i64::MAX
    }
}

/// The speed that a stored number stands for: the number itself when it is
/// finite and positive, normal speed otherwise.
pub open spec fn speed_of_reading(speed: Reading) -> int {
    match speed {
        Reading::Finite(v) => if v > 0 {
            v as int
        } else {
            DEFAULT_SPEED as int
        },
        _ => DEFAULT_SPEED as int,
    }
}

/// The state that three stored parts make.
pub open spec fn restored_state(
    now_playing: Option<Seq<char>>,
    elapsed: Option<Reading>,
    playback_speed: Reading,
) -> PlayerStateView {
    PlayerStateView { now_playing, elapsed, playback_speed: speed_of_reading(playback_speed) }
}

impl View for PlayerState {
    type V = PlayerStateView;

    closed spec fn view(&self) -> PlayerStateView {
        PlayerStateView {
            now_playing: handle_view(self.now_playing),
            elapsed: self.elapsed,
            playback_speed: self.playback_speed as int,
        }
    }
}

impl PlayerState {
    #[verifier::type_invariant]
    spec fn speed_is_positive(self) -> bool {
        self.playback_speed > 0
    }

    /// Puts a player state together from its three parts, as they come out
    /// of the store. A speed that is not finite and positive is replaced by
    /// normal speed.
    pub fn restore(
        now_playing: Option<CachedArticleHandle>,
        elapsed: Option<Reading>,
        playback_speed: Reading,
    ) -> (state: PlayerState)
        ensures
            state@ == restored_state(handle_view(now_playing), elapsed, playback_speed),
            state@.well_formed(),
    {
        let speed: i64 = match playback_speed {
            Reading::Finite(v) => if v > 0 {
                v
            } else {
                DEFAULT_SPEED
            },
            _ => DEFAULT_SPEED,
        };
        PlayerState { now_playing, elapsed, playback_speed: speed }
    }

    /// The handle of the article that was selected last.
    pub fn now_playing(&self) -> (handle: Option<&CachedArticleHandle>)
        ensures
            match handle {
                Some(h) => self@.now_playing == Some(h@),
                None => self@.now_playing is None,
            },
    {
        self.now_playing.as_ref()
    }

    /// The position at the last save.
    pub fn elapsed(&self) -> (elapsed: Option<Reading>)
        ensures
            elapsed == self@.elapsed,
    {
        self.elapsed
    }

    /// The playback speed in thousandths of normal speed.
    pub fn playback_speed(&self) -> (speed: i64)
        ensures
            speed == self@.playback_speed,
            self@.well_formed(),
    {
        proof {
            use_type_invariant(self);
        }
        self.playback_speed
    }
}

impl Default for PlayerState {
    fn default() -> (state: PlayerState)
        ensures
            state@ == PlayerStateView::initial(),
    {
        PlayerState { now_playing: None, elapsed: None, playback_speed: DEFAULT_SPEED }
    }
}

impl Clone for PlayerState {
    fn clone(&self) -> (copy: PlayerState)
        ensures
            copy@ == self@,
    {
        proof {
            use_type_invariant(self);
        }
        let now_playing = match &self.now_playing {
            Some(handle) => Some(handle.clone()),
            None => None,
        };
        PlayerState { now_playing, elapsed: self.elapsed, playback_speed: self.playback_speed }
    }
}

/// The time between two saves of the player state, in milliseconds.
pub const PLAYER_STATE_SAVE_FREQ: i32 = 10_000;

/// What the controller can be told.
#[derive(Debug, PartialEq, Eq)]
pub enum PlayerMsg {
    /// Play the article behind this handle.
    PlayHandle(CachedArticleHandle),
    /// Jump ahead by the fixed step.
    JumpForward,
    /// Jump back by the fixed step.
    JumpBackward,
    /// Take over the speed that the speed selector shows.
    UpdatePlaybackSpeed,
    /// Replace the whole state by this one, which came out of the store.
    SetState(PlayerState),
    /// Save the state. Of all its parts only the position has gone stale, so
    /// the message brings a fresh one.
    SaveState { elapsed: Reading },
}

/// What a message says.
pub enum PlayerMsgView {
    PlayHandle(Seq<char>),
    JumpForward,
    JumpBackward,
    UpdatePlaybackSpeed,
    SetState(PlayerStateView),
    SaveState { elapsed: Reading },
}

impl View for PlayerMsg {
    type V = PlayerMsgView;

    open spec fn view(&self) -> PlayerMsgView {
        match *self {
            PlayerMsg::PlayHandle(handle) => PlayerMsgView::PlayHandle(handle@),
            PlayerMsg::JumpForward => PlayerMsgView::JumpForward,
            PlayerMsg::JumpBackward => PlayerMsgView::JumpBackward,
            PlayerMsg::UpdatePlaybackSpeed => PlayerMsgView::UpdatePlaybackSpeed,
            PlayerMsg::SetState(state) => PlayerMsgView::SetState(state@),
            PlayerMsg::SaveState { elapsed } => PlayerMsgView::SaveState { elapsed },
        }
    }
}

/// What the page shows at the moment a message is handled: position and
/// duration of the device and the text of the speed selector.
#[derive(Debug, PartialEq, Eq)]
pub struct Readout {
    pub position: Reading,
    pub duration: Reading,
    pub speed_selection: String,
}

/// What a readout holds.
pub struct ReadoutView {
    pub position: Reading,
    pub duration: Reading,
    pub speed_selection: Seq<char>,
}

impl View for Readout {
    type V = ReadoutView;

    open spec fn view(&self) -> ReadoutView {
        ReadoutView {
            position: self.position,
            duration: self.duration,
            speed_selection: self.speed_selection@,
        }
    }
}

/// What handling one message leaves to be done.
#[derive(Debug, PartialEq, Eq)]
pub struct Update {
    /// The effects to carry out, in this order.
    pub effects: Vec<Effect>,
    /// Whether what the player shows of its state has to be drawn again.
    pub render: bool,
}

/// The state after a message.
pub open spec fn next_state(
    state: PlayerStateView,
    msg: PlayerMsgView,
    page: ReadoutView,
) -> PlayerStateView {
    match msg {
        PlayerMsgView::PlayHandle(handle) => PlayerStateView { now_playing: Some(handle), ..state },
        PlayerMsgView::JumpForward => state,
        PlayerMsgView::JumpBackward => state,
        PlayerMsgView::UpdatePlaybackSpeed => PlayerStateView {
            playback_speed: speed_or_default(page.speed_selection),
            ..state
        },
        PlayerMsgView::SetState(restored) => restored,
        PlayerMsgView::SaveState { elapsed } => PlayerStateView { elapsed: Some(elapsed), ..state },
    }
}

/// What taking over a speed asks of the device: the speed becomes its rate
/// and the rate of whatever it is given next, and the media controls get a
/// fresh position state.
pub open spec fn speed_effects(speed: int) -> Seq<EffectView> {
    seq![
        EffectView::SetRate(speed),
        EffectView::SetDefaultRate(speed),
        EffectView::RefreshPositionState,
    ]
}

/// Where to put the device for a saved position: at the start when none was
/// saved, at the saved position when it is finite, and nowhere otherwise.
pub open spec fn resume_seek(elapsed: Option<Reading>) -> Seq<EffectView> {
    match elapsed {
        None => seq![EffectView::Seek(0)],
        Some(Reading::Finite(time)) => seq![EffectView::Seek(time as int)],
        Some(_) => Seq::empty(),
    }
}

/// What taking over a stored state asks for. With an article selected, the
/// article is fetched to be put into the device without starting it, and the
/// device is set to the saved position and speed. With none, nothing.
pub open spec fn resume_effects(restored: PlayerStateView) -> Seq<EffectView> {
    match restored.now_playing {
        Some(handle) => seq![EffectView::LoadArticle { handle, autoplay: false }] + resume_seek(
            restored.elapsed,
        ) + seq![EffectView::SetRate(restored.playback_speed)],
        None => Seq::empty(),
    }
}

/// The effects of a message, in the order in which they are due.
pub open spec fn effects_of(state: PlayerStateView, msg: PlayerMsgView, page: ReadoutView) -> Seq<
    EffectView,
> {
    match msg {
        PlayerMsgView::PlayHandle(handle) => seq![
            EffectView::Pause,
            EffectView::LoadArticle { handle, autoplay: true },
        ],
        PlayerMsgView::JumpForward => jump_effects(page.position, page.duration, JUMP_SIZE as int),
        PlayerMsgView::JumpBackward => jump_effects(
            page.position,
            page.duration,
            -(JUMP_SIZE as int),
        ),
        PlayerMsgView::UpdatePlaybackSpeed => speed_effects(
            speed_or_default(page.speed_selection),
        ),
        PlayerMsgView::SetState(restored) => resume_effects(restored),
        PlayerMsgView::SaveState { elapsed } => seq![
            EffectView::Persist(next_state(state, msg, page)),
            EffectView::ScheduleSave(PLAYER_STATE_SAVE_FREQ as int),
        ],
    }
}

/// Whether a message changes what the player shows of its state. Only a
/// state taken over from the store does.
pub open spec fn renders(msg: PlayerMsgView) -> bool {
    msg is SetState
}

/// What the player shows as playing: the handle of the selected article, or
/// nothing.
pub open spec fn label_of(state: PlayerStateView) -> Seq<char> {
    match state.now_playing {
        Some(handle) => handle,
        None => Seq::empty(),
    }
}

/// What the player asks for when it comes into being: the handlers of the
/// media controls, the saved state, and the first save.
pub open spec fn startup_effects() -> Seq<EffectView> {
    registrations() + seq![
        EffectView::RestoreState,
        EffectView::ScheduleSave(PLAYER_STATE_SAVE_FREQ as int),
    ]
}

/// Reads the speed selector and takes its speed over to the device. Gives
/// the speed and what is to be done.
pub fn update_playback_speed(selection: &str) -> (r: (i64, Vec<Effect>))
    ensures
        r.0 == speed_or_default(selection@),
        r.0 > 0,
        r.1.deep_view() == speed_effects(r.0 as int),
{
    let rate = selected_speed(selection);
    let mut effects: Vec<Effect> = Vec::new();
    effects.push(Effect::SetRate(rate));
    effects.push(Effect::SetDefaultRate(rate));
    effects.push(Effect::RefreshPositionState);
    assert(effects.deep_view() =~= speed_effects(rate as int));
    (rate, effects)
}

/// The message that the save timer sends when it fires, for the position
/// that the device then reports.
pub fn trigger_save(position: Reading) -> (msg: PlayerMsg)
    ensures
        msg@ == (PlayerMsgView::SaveState { elapsed: position }),
{
    PlayerMsg::SaveState { elapsed: position }
}

/// The message to send once the store has answered the request for the
/// saved state: the state is taken over if there is one; a failure passes in
/// silence.
pub fn build_from_save(saved: Result<PlayerState, StoreError>) -> (msg: Option<PlayerMsg>)
    ensures
        match saved {
            Ok(state) => msg is Some && msg->0@ == PlayerMsgView::SetState(state@),
            Err(_) => msg is None,
        },
{
    match saved {
        Ok(state) => Some(PlayerMsg::SetState(state)),
        Err(_) => None,
    }
}

/// What became of a request to save the player state. A failure is handed
/// on to be logged and is not tried again: the next save comes with the
/// timer.
pub fn save_completed(outcome: Result<(), StoreError>) -> (r: Result<(), PlayerError>)
    ensures
        match outcome {
            Ok(_) => r is Ok,
            Err(e) => r == Err::<(), PlayerError>(PlayerError::PersistenceFailure(e)),
        },
{
    match outcome {
        Ok(_) => Ok(()),
        Err(e) => Err(PlayerError::PersistenceFailure(e)),
    }
}

/// The playback controller. It owns the player state and is the only one to
/// change it.
#[derive(Debug)]
pub struct Player {
    state: PlayerState,
}

impl View for Player {
    type V = PlayerStateView;

    closed spec fn view(&self) -> PlayerStateView {
        self.state@
    }
}

impl Player {
    /// Makes a controller in the initial state, and says what is to be set
    /// up around it.
    pub fn create() -> (made: (Player, Vec<Effect>))
        ensures
            made.0@ == PlayerStateView::initial(),
            made.1.deep_view() == startup_effects(),
    {
        let mut effects = set_callbacks();
        effects.push(Effect::RestoreState);
        effects.push(Effect::ScheduleSave(PLAYER_STATE_SAVE_FREQ));
        assert(effects.deep_view() =~= startup_effects());
        (Player { state: PlayerState::default() }, effects)
    }

    /// Handles one message: changes the state and says what is to be done.
    pub fn update(&mut self, msg: PlayerMsg, page: &Readout) -> (out: Update)
        ensures
            final(self)@ == next_state(old(self)@, msg@, page@),
            out.effects.deep_view() == effects_of(old(self)@, msg@, page@),
            out.render == renders(msg@),
            final(self)@.well_formed(),
    {
        proof {
            use_type_invariant(&self.state);
        }
        match msg {
            PlayerMsg::PlayHandle(handle) => {
                let effects = play_article_handle(&handle);
                self.state.now_playing = Some(handle);
                Update { effects, render: false }
            },
            PlayerMsg::JumpForward => Update {
                effects: jump_forward(page.position, page.duration),
                render: false,
            },
            PlayerMsg::JumpBackward => Update {
                effects: jump_backward(page.position, page.duration),
                render: false,
            },
            PlayerMsg::UpdatePlaybackSpeed => {
                let (rate, effects) = update_playback_speed(page.speed_selection.as_str());
                self.state.playback_speed = rate;
                Update { effects, render: false }
            },
            PlayerMsg::SetState(state) => {
                proof {
                    use_type_invariant(&state);
                }
                self.state = state;
                let mut effects: Vec<Effect> = Vec::new();
                match &self.state.now_playing {
                    Some(handle) => {
                        effects = set_audio_source_by_handle(handle);
                        match self.state.elapsed {
                            None => effects.push(Effect::Seek(0)),
                            Some(Reading::Finite(time)) => effects.push(Effect::Seek(time)),
                            Some(_) => {},
                        }
                        effects.push(Effect::SetRate(self.state.playback_speed));
                    },
                    None => {},
                }
                assert(effects.deep_view() =~= resume_effects(self.state@));
                Update { effects, render: true }
            },
            PlayerMsg::SaveState { elapsed } => {
                self.state.elapsed = Some(elapsed);
                let snapshot = self.state.clone();
                let mut effects: Vec<Effect> = Vec::new();
                effects.push(Effect::Persist(snapshot));
                effects.push(Effect::ScheduleSave(PLAYER_STATE_SAVE_FREQ));
                assert(effects.deep_view() =~= effects_of(old(self)@, msg@, page@));
                Update { effects, render: false }
            },
        }
    }

    /// The text that the player shows as playing.
    pub fn now_playing_label(&self) -> (label: String)
        ensures
            label@ == label_of(self@),
    {
        match &self.state.now_playing {
            Some(handle) => handle.0.clone(),
            None => String::new(),
        }
    }

    /// The state as it stands.
    pub fn state(&self) -> (state: &PlayerState)
        ensures
            state@ == self@,
    {
        &self.state
    }
}

/// After a stored state is taken over, the player has to be drawn again,
/// and what it then shows as playing is the handle in that state, or nothing
/// where the state names no article.
pub proof fn lemma_label_follows_set_state(
    state: PlayerStateView,
    restored: PlayerStateView,
    page: ReadoutView,
)
    ensures
        renders(PlayerMsgView::SetState(restored)),
        next_state(state, PlayerMsgView::SetState(restored), page) == restored,
        restored.now_playing matches Some(handle) ==> label_of(restored) == handle,
        restored.now_playing is None ==> label_of(restored) == Seq::<char>::empty(),
{
}

/// What a save hands to the store is the state as it stands after the
/// message, and a player that takes over what was saved is in that very
/// state again: article, position and speed all come back as they were.
pub proof fn lemma_saved_state_comes_back(
    state: PlayerStateView,
    elapsed: Reading,
    page: ReadoutView,
    later: PlayerStateView,
    later_page: ReadoutView,
)
    ensures
        ({
            let save = PlayerMsgView::SaveState { elapsed };
            let saved = next_state(state, save, page);
            &&& effects_of(state, save, page)[0] == EffectView::Persist(saved)
            &&& saved.now_playing == state.now_playing
            &&& saved.elapsed == Some(elapsed)
            &&& saved.playback_speed == state.playback_speed
            &&& next_state(later, PlayerMsgView::SetState(saved), later_page) == saved
        }),
{
}

/// A well-formed state that is taken apart and put together again is the
/// same state.
pub proof fn lemma_restore_gives_back(state: PlayerStateView)
    requires
        state.well_formed(),
    ensures
        restored_state(
            state.now_playing,
            state.elapsed,
            Reading::Finite(state.playback_speed as i64),
        ) == state,
{
}

} // verus!
