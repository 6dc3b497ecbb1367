use article_player::article::{CachedArticle, CachedArticleHandle};
use article_player::effect::Effect;
use article_player::error::{PlayerError, StoreError};
use article_player::loading::article_loaded;
use article_player::player::{
    build_from_save, save_completed, trigger_save, Player, PlayerMsg, PlayerState, Readout,
    PLAYER_STATE_SAVE_FREQ,
};
use article_player::reading::Reading;
use article_player::session::MediaAction;

fn handle(name: &str) -> CachedArticleHandle {
    CachedArticleHandle(name.to_string())
}

fn page(position: i64, duration: i64, selection: &str) -> Readout {
    Readout {
        position: Reading::Finite(position),
        duration: Reading::Finite(duration),
        speed_selection: selection.to_string(),
    }
}

fn blank_page() -> Readout {
    Readout {
        position: Reading::Finite(0),
        duration: Reading::NotANumber,
        speed_selection: "1".to_string(),
    }
}

fn state(now_playing: Option<&str>, elapsed: Option<Reading>, speed: i64) -> PlayerState {
    PlayerState::restore(now_playing.map(handle), elapsed, Reading::Finite(speed))
}

fn assert_state(s: &PlayerState, now_playing: Option<&str>, elapsed: Option<Reading>, speed: i64) {
    assert_eq!(s.now_playing(), now_playing.map(handle).as_ref());
    assert_eq!(s.elapsed(), elapsed);
    assert_eq!(s.playback_speed(), speed);
}

#[test]
fn a_new_player_is_in_the_initial_state() {
    let (player, _) = Player::create();
    assert_state(player.state(), None, None, 1_000);
    assert_eq!(player.now_playing_label(), "");
}

#[test]
fn a_new_player_registers_restores_and_schedules() {
    let (_, effects) = Player::create();
    assert_eq!(
        effects,
        vec![
            Effect::RegisterAction(MediaAction::Play),
            Effect::RegisterAction(MediaAction::Pause),
            Effect::RegisterAction(MediaAction::SeekForward),
            Effect::RegisterAction(MediaAction::SeekBackward),
            Effect::RegisterAction(MediaAction::SeekTo),
            Effect::RestoreState,
            Effect::ScheduleSave(10_000),
        ]
    );
}

#[test]
fn default_state_has_nothing_playing_at_normal_speed() {
    let s = PlayerState::default();
    assert_state(&s, None, None, 1_000);
    assert_eq!(s, PlayerState::restore(None, None, Reading::Finite(1_000)));
}

#[test]
fn save_interval_is_ten_seconds() {
    assert_eq!(PLAYER_STATE_SAVE_FREQ, 10_000);
}

#[test]
fn play_handle_records_the_handle_at_once() {
    let (mut player, _) = Player::create();
    let out = player.update(PlayerMsg::PlayHandle(handle("art-1")), &blank_page());
    assert_eq!(
        out.effects,
        vec![Effect::Pause, Effect::LoadArticle { handle: handle("art-1"), autoplay: true }]
    );
    assert!(!out.render);
    assert_state(player.state(), Some("art-1"), None, 1_000);
}

#[test]
fn play_handle_keeps_position_and_speed() {
    let (mut player, _) = Player::create();
    player.update(PlayerMsg::SetState(state(Some("old"), Some(Reading::Finite(7_000)), 1_750)), &blank_page());
    player.update(PlayerMsg::PlayHandle(handle("new")), &blank_page());
    assert_state(player.state(), Some("new"), Some(Reading::Finite(7_000)), 1_750);
}

#[test]
fn a_failed_load_leaves_the_attempted_handle_in_the_state() {
    let (mut player, _) = Player::create();
    player.update(PlayerMsg::PlayHandle(handle("gone")), &blank_page());
    assert_eq!(
        article_loaded(true, Err(StoreError::NotFound)),
        Err(PlayerError::ResolutionFailure(StoreError::NotFound))
    );
    assert_eq!(player.now_playing_label(), "gone");
}

#[test]
fn jump_messages_move_the_device_and_leave_the_state() {
    let (mut player, _) = Player::create();
    let out = player.update(PlayerMsg::JumpForward, &page(95_000, 100_000, "1"));
    assert_eq!(out.effects, vec![Effect::Seek(100_000), Effect::RefreshPositionState]);
    assert!(!out.render);
    let out = player.update(PlayerMsg::JumpBackward, &page(5_000, 100_000, "1"));
    assert_eq!(out.effects, vec![Effect::Seek(0), Effect::RefreshPositionState]);
    assert!(!out.render);
    let out = player.update(PlayerMsg::JumpForward, &page(50_000, 100_000, "1"));
    assert_eq!(out.effects, vec![Effect::Seek(60_000), Effect::RefreshPositionState]);
    let out = player.update(PlayerMsg::JumpBackward, &page(50_000, 100_000, "1"));
    assert_eq!(out.effects, vec![Effect::Seek(40_000), Effect::RefreshPositionState]);
    assert_state(player.state(), None, None, 1_000);
}

#[test]
fn jump_messages_are_skipped_on_an_unconfigured_device() {
    let (mut player, _) = Player::create();
    let out = player.update(PlayerMsg::JumpForward, &blank_page());
    assert_eq!(out.effects, vec![]);
    assert!(!out.render);
    let bad = Readout {
        position: Reading::Infinity,
        duration: Reading::Finite(100_000),
        speed_selection: String::new(),
    };
    let out = player.update(PlayerMsg::JumpBackward, &bad);
    assert_eq!(out.effects, vec![]);
    assert_state(player.state(), None, None, 1_000);
}

#[test]
fn speed_update_with_an_unreadable_selection_gives_normal_speed() {
    let (mut player, _) = Player::create();
    player.update(PlayerMsg::UpdatePlaybackSpeed, &page(0, 0, "2"));
    assert_eq!(player.state().playback_speed(), 2_000);
    let out = player.update(PlayerMsg::UpdatePlaybackSpeed, &page(0, 0, "abc"));
    assert_eq!(player.state().playback_speed(), 1_000);
    assert_eq!(
        out.effects,
        vec![Effect::SetRate(1_000), Effect::SetDefaultRate(1_000), Effect::RefreshPositionState]
    );
    assert!(!out.render);
}

#[test]
fn speed_update_takes_over_the_selection() {
    let (mut player, _) = Player::create();
    let out = player.update(PlayerMsg::UpdatePlaybackSpeed, &page(0, 0, "1.5"));
    assert_eq!(player.state().playback_speed(), 1_500);
    assert_eq!(
        out.effects,
        vec![Effect::SetRate(1_500), Effect::SetDefaultRate(1_500), Effect::RefreshPositionState]
    );
    assert!(!out.render);
    assert_state(player.state(), None, None, 1_500);
}

#[test]
fn speed_never_leaves_the_positive_numbers() {
    let (mut player, _) = Player::create();
    for text in ["0", "-1", "NaN", "inf", "", "0.0", "1e400", "-0.5"] {
        player.update(PlayerMsg::UpdatePlaybackSpeed, &page(0, 0, text));
        assert_eq!(player.state().playback_speed(), 1_000, "{:?}", text);
    }
}

#[test]
fn set_state_shows_the_handle_as_playing() {
    let (mut player, _) = Player::create();
    let out = player.update(PlayerMsg::SetState(state(Some("art-42"), None, 1_000)), &blank_page());
    assert!(out.render);
    assert_eq!(player.now_playing_label(), "art-42");
}

#[test]
fn set_state_without_an_article_shows_nothing() {
    let (mut player, _) = Player::create();
    player.update(PlayerMsg::PlayHandle(handle("art-1")), &blank_page());
    assert_eq!(player.now_playing_label(), "art-1");
    let out = player.update(PlayerMsg::SetState(state(None, Some(Reading::Finite(3_000)), 2_000)), &blank_page());
    assert!(out.render);
    assert_eq!(out.effects, vec![]);
    assert_eq!(player.now_playing_label(), "");
    assert_state(player.state(), None, Some(Reading::Finite(3_000)), 2_000);
}

#[test]
fn set_state_installs_without_playing() {
    let (mut player, _) = Player::create();
    let out = player.update(
        PlayerMsg::SetState(state(Some("art-42"), Some(Reading::Finite(12_500)), 1_250)),
        &blank_page(),
    );
    assert_eq!(
        out.effects,
        vec![
            Effect::LoadArticle { handle: handle("art-42"), autoplay: false },
            Effect::Seek(12_500),
            Effect::SetRate(1_250),
        ]
    );
    assert!(out.render);
    assert_state(player.state(), Some("art-42"), Some(Reading::Finite(12_500)), 1_250);
    // what arrives for that request is put in and not started
    let arrived = article_loaded(false, Ok(CachedArticle { title: "T".to_string(), audio_blob: vec![1] })).unwrap();
    assert!(!arrived.contains(&Effect::Play));
}

#[test]
fn set_state_without_a_saved_position_starts_at_zero() {
    let (mut player, _) = Player::create();
    let out = player.update(PlayerMsg::SetState(state(Some("art-42"), None, 1_000)), &blank_page());
    assert_eq!(
        out.effects,
        vec![
            Effect::LoadArticle { handle: handle("art-42"), autoplay: false },
            Effect::Seek(0),
            Effect::SetRate(1_000),
        ]
    );
}

#[test]
fn set_state_with_an_unusable_position_does_not_seek() {
    for bad in [Reading::NotANumber, Reading::Infinity, Reading::NegativeInfinity] {
        let (mut player, _) = Player::create();
        let out = player.update(PlayerMsg::SetState(state(Some("art-42"), Some(bad), 1_500)), &blank_page());
        assert_eq!(
            out.effects,
            vec![Effect::LoadArticle { handle: handle("art-42"), autoplay: false }, Effect::SetRate(1_500)]
        );
        assert_state(player.state(), Some("art-42"), Some(bad), 1_500);
    }
}

#[test]
fn set_state_replaces_everything() {
    let (mut player, _) = Player::create();
    player.update(PlayerMsg::PlayHandle(handle("a")), &blank_page());
    player.update(PlayerMsg::UpdatePlaybackSpeed, &page(0, 0, "3"));
    player.update(PlayerMsg::SaveState { elapsed: Reading::Finite(1) }, &blank_page());
    player.update(PlayerMsg::SetState(state(Some("b"), None, 500)), &blank_page());
    assert_state(player.state(), Some("b"), None, 500);
}

#[test]
fn only_set_state_asks_to_render() {
    let (mut player, _) = Player::create();
    let p = page(10_000, 100_000, "2");
    assert!(!player.update(PlayerMsg::PlayHandle(handle("a")), &p).render);
    assert!(!player.update(PlayerMsg::JumpForward, &p).render);
    assert!(!player.update(PlayerMsg::JumpBackward, &p).render);
    assert!(!player.update(PlayerMsg::UpdatePlaybackSpeed, &p).render);
    assert!(!player.update(PlayerMsg::SaveState { elapsed: Reading::Finite(0) }, &p).render);
    assert!(player.update(PlayerMsg::SetState(PlayerState::default()), &p).render);
}

#[test]
fn save_state_stores_the_position_and_hands_out_a_snapshot() {
    let (mut player, _) = Player::create();
    player.update(PlayerMsg::PlayHandle(handle("art-42")), &blank_page());
    player.update(PlayerMsg::UpdatePlaybackSpeed, &page(0, 0, "1.25"));
    let out = player.update(PlayerMsg::SaveState { elapsed: Reading::Finite(12_500) }, &blank_page());
    assert_eq!(
        out.effects,
        vec![
            Effect::Persist(state(Some("art-42"), Some(Reading::Finite(12_500)), 1_250)),
            Effect::ScheduleSave(10_000),
        ]
    );
    assert!(!out.render);
    assert_state(player.state(), Some("art-42"), Some(Reading::Finite(12_500)), 1_250);
}

#[test]
fn save_state_takes_any_position() {
    for elapsed in [
        Reading::NotANumber,
        Reading::Infinity,
        Reading::NegativeInfinity,
        Reading::Finite(-5),
        Reading::Finite(0),
    ] {
        let (mut player, _) = Player::create();
        let out = player.update(PlayerMsg::SaveState { elapsed }, &blank_page());
        assert_eq!(
            out.effects,
            vec![Effect::Persist(state(None, Some(elapsed), 1_000)), Effect::ScheduleSave(10_000)]
        );
        assert_eq!(player.state().elapsed(), Some(elapsed));
    }
}

#[test]
fn a_snapshot_does_not_follow_later_changes() {
    let (mut player, _) = Player::create();
    let out = player.update(PlayerMsg::SaveState { elapsed: Reading::Finite(1_000) }, &blank_page());
    player.update(PlayerMsg::PlayHandle(handle("later")), &blank_page());
    player.update(PlayerMsg::SaveState { elapsed: Reading::Finite(2_000) }, &blank_page());
    assert_eq!(out.effects[0], Effect::Persist(state(None, Some(Reading::Finite(1_000)), 1_000)));
}

#[test]
fn saved_state_round_trips() {
    let (mut player, _) = Player::create();
    player.update(PlayerMsg::SetState(state(Some("art-42"), None, 1_250)), &blank_page());
    let mut out = player.update(PlayerMsg::SaveState { elapsed: Reading::Finite(12_500) }, &blank_page());
    let saved = match out.effects.remove(0) {
        Effect::Persist(saved) => saved,
        other => panic!("no snapshot but {:?}", other),
    };
    // taken apart, as for the store, and put together again
    let loaded = PlayerState::restore(
        saved.now_playing().cloned(),
        saved.elapsed(),
        Reading::Finite(saved.playback_speed()),
    );
    assert_eq!(loaded, saved);
    assert_state(&loaded, Some("art-42"), Some(Reading::Finite(12_500)), 1_250);
    // and a fresh player that takes it over is where the old one was
    let (mut fresh, _) = Player::create();
    let msg = build_from_save(Ok(loaded)).unwrap();
    fresh.update(msg, &blank_page());
    assert_eq!(fresh.state(), player.state());
    assert_state(fresh.state(), Some("art-42"), Some(Reading::Finite(12_500)), 1_250);
}

#[test]
fn restore_replaces_an_unusable_speed_by_normal_speed() {
    for bad in [
        Reading::Finite(0),
        Reading::Finite(-1_500),
        Reading::Infinity,
        Reading::NegativeInfinity,
        Reading::NotANumber,
    ] {
        let s = PlayerState::restore(Some(handle("a")), Some(Reading::Finite(5)), bad);
        assert_state(&s, Some("a"), Some(Reading::Finite(5)), 1_000);
    }
    let s = PlayerState::restore(None, None, Reading::Finite(1));
    assert_state(&s, None, None, 1);
    let s = PlayerState::restore(None, None, Reading::Finite(i64::MAX));
    assert_state(&s, None, None, i64::MAX);
}

#[test]
fn a_cloned_state_is_equal() {
    let s = state(Some("art-42"), Some(Reading::Finite(12_500)), 1_250);
    assert_eq!(s.clone(), s);
    let s = state(None, None, 1_000);
    assert_eq!(s.clone(), s);
}

#[test]
fn the_timer_sends_the_position_it_reads() {
    assert_eq!(
        trigger_save(Reading::Finite(33_000)),
        PlayerMsg::SaveState { elapsed: Reading::Finite(33_000) }
    );
    assert_eq!(trigger_save(Reading::NotANumber), PlayerMsg::SaveState { elapsed: Reading::NotANumber });
}

#[test]
fn a_loaded_state_is_taken_over_and_a_failure_is_not() {
    assert_eq!(
        build_from_save(Ok(state(Some("a"), None, 2_000))),
        Some(PlayerMsg::SetState(state(Some("a"), None, 2_000)))
    );
    assert_eq!(build_from_save(Err(StoreError::NotFound)), None);
    assert_eq!(build_from_save(Err(StoreError::Io)), None);
}

#[test]
fn a_failed_save_is_a_persistence_failure() {
    assert_eq!(save_completed(Ok(())), Ok(()));
    assert_eq!(save_completed(Err(StoreError::Io)), Err(PlayerError::PersistenceFailure(StoreError::Io)));
    assert_eq!(
        save_completed(Err(StoreError::NotFound)),
        Err(PlayerError::PersistenceFailure(StoreError::NotFound))
    );
}

#[test]
fn every_save_arms_the_timer_once_more() {
    let (mut player, first) = Player::create();
    let mut scheduled: Vec<i32> = Vec::new();
    for e in &first {
        if let Effect::ScheduleSave(ms) = e {
            scheduled.push(*ms);
        }
    }
    assert_eq!(scheduled, vec![10_000]);
    scheduled.clear();
    let n = 25;
    for i in 0..n {
        // other messages in between arm nothing
        let out = player.update(PlayerMsg::JumpForward, &page(i * 1_000, 100_000, "1"));
        assert!(!out.effects.iter().any(|e| matches!(e, Effect::ScheduleSave(_))));
        let out = player.update(PlayerMsg::UpdatePlaybackSpeed, &page(0, 0, "2"));
        assert!(!out.effects.iter().any(|e| matches!(e, Effect::ScheduleSave(_))));
        let out = player.update(PlayerMsg::PlayHandle(handle("a")), &blank_page());
        assert!(!out.effects.iter().any(|e| matches!(e, Effect::ScheduleSave(_))));
        let out = player.update(PlayerMsg::SetState(state(Some("a"), None, 1_000)), &blank_page());
        assert!(!out.effects.iter().any(|e| matches!(e, Effect::ScheduleSave(_))));
        let out = player.update(trigger_save(Reading::Finite(i * 1_000)), &blank_page());
        for e in &out.effects {
            if let Effect::ScheduleSave(ms) = e {
                scheduled.push(*ms);
            }
        }
        assert_eq!(scheduled.len() as i64, i + 1);
    }
    assert_eq!(scheduled, vec![10_000; n as usize]);
}

struct FakeDevice {
    source: Option<Vec<u8>>,
    title: Option<String>,
    playing: bool,
}

fn carry_out(device: &mut FakeDevice, effects: &[Effect]) {
    for e in effects {
        match e {
            Effect::Pause => device.playing = false,
            Effect::Play => device.playing = device.source.is_some(),
            Effect::SetMetadata { title } => device.title = Some(title.clone()),
            Effect::SetSource { audio, .. } => {
                device.source = Some(audio.clone());
                device.playing = false;
            }
            _ => {}
        }
    }
}

#[test]
fn a_late_answer_for_an_earlier_request_wins() {
    let mut device = FakeDevice { source: None, title: None, playing: false };
    let (mut player, _) = Player::create();
    let a = player.update(PlayerMsg::PlayHandle(handle("A")), &blank_page());
    carry_out(&mut device, &a.effects);
    let b = player.update(PlayerMsg::PlayHandle(handle("B")), &blank_page());
    carry_out(&mut device, &b.effects);
    assert_eq!(a.effects[1], Effect::LoadArticle { handle: handle("A"), autoplay: true });
    assert_eq!(b.effects[1], Effect::LoadArticle { handle: handle("B"), autoplay: true });
    // the store answers for B first, for A afterwards
    let for_b = article_loaded(true, Ok(CachedArticle { title: "Bee".to_string(), audio_blob: vec![0xb] })).unwrap();
    carry_out(&mut device, &for_b);
    assert_eq!(device.source, Some(vec![0xb]));
    assert!(device.playing);
    let for_a = article_loaded(true, Ok(CachedArticle { title: "Ant".to_string(), audio_blob: vec![0xa] })).unwrap();
    carry_out(&mut device, &for_a);
    assert_eq!(device.source, Some(vec![0xa]));
    assert_eq!(device.title, Some("Ant".to_string()));
    assert!(device.playing);
    // while the player says that B is playing
    assert_eq!(player.now_playing_label(), "B");
}

#[test]
fn label_is_the_handle_text_exactly() {
    for name in ["", "art-42", "a b", "\u{e9}t\u{e9}", "x\ny"] {
        let (mut player, _) = Player::create();
        player.update(PlayerMsg::SetState(state(Some(name), None, 1_000)), &blank_page());
        assert_eq!(player.now_playing_label(), name);
    }
}
