use wayle_services::media::{
    should_ignore, Generation, InitEvent, InitStep, InitWatch, ListedPlayer, MediaEffect,
    MediaState, PlayerId, INIT_WATCHDOG_SECONDS, MPRIS_BUS_PREFIX,
};

#[test]
fn should_ignore_returns_true_when_pattern_matches() {
    let patterns = vec![String::from("spotify"), String::from("chrome")];
    let bus_name = "org.mpris.MediaPlayer2.spotify";

    assert!(should_ignore(bus_name, &patterns));
}

#[test]
fn should_ignore_returns_false_when_no_patterns_match() {
    let patterns = vec![String::from("spotify"), String::from("chrome")];
    let bus_name = "org.mpris.MediaPlayer2.vlc";

    assert!(!should_ignore(bus_name, &patterns));
}

#[test]
fn should_ignore_with_empty_patterns_returns_false() {
    let patterns = vec![];
    let bus_name = "org.mpris.MediaPlayer2.spotify";

    assert!(!should_ignore(bus_name, &patterns));
}

#[test]
fn should_ignore_matches_substring_in_bus_name() {
    let patterns = vec![String::from("chromium")];
    let bus_name = "org.mpris.MediaPlayer2.chromium.instance123";

    assert!(should_ignore(bus_name, &patterns));
}

#[test]
fn an_empty_pattern_ignores_everything() {
    assert!(should_ignore("", &[String::new()]));
    assert!(should_ignore("anything", &[String::from("zzz"), String::new()]));
}

fn first(list: &Vec<ListedPlayer>) -> Option<ListedPlayer> {
    list.first().cloned()
}

fn player(name: &str) -> PlayerId {
    PlayerId::from_bus_name(&format!("{}{}", MPRIS_BUS_PREFIX, name))
}

fn listed(state: &MediaState) -> Vec<String> {
    state
        .player_list()
        .iter()
        .map(|p| p.id.bus_name().trim_start_matches(MPRIS_BUS_PREFIX).to_string())
        .collect()
}

fn active(state: &MediaState) -> Option<String> {
    state
        .active_player()
        .as_ref()
        .map(|p| p.id.bus_name().trim_start_matches(MPRIS_BUS_PREFIX).to_string())
}

fn publish(state: &mut MediaState, name: &str) -> Generation {
    let id = player(name);
    let (_, generation) = state.dispatch_player_added(&id, &first);
    assert!(state.player_answered(&id, generation, false, &first));
    generation
}

#[test]
fn a_player_is_listed_only_after_it_answered() {
    let mut state = MediaState::new();
    let id = player("vlc");

    let (cancelled, generation) = state.dispatch_player_added(&id, &first);

    assert_eq!(cancelled, None);
    assert_eq!(generation, Generation { number: 0 });
    assert!(state.player_list().is_empty());
    assert!(!state.is_cancelled(&id, generation));
    assert!(!state.has_published(&id, generation));
    assert!(state.player_answered(&id, generation, false, &first));
    assert_eq!(listed(&state), vec!["vlc".to_string()]);
    assert_eq!(active(&state), Some("vlc".to_string()));
    assert!(state.has_published(&id, generation));
}

#[test]
fn a_superseded_generation_is_never_published() {
    let mut state = MediaState::new();
    let id = player("vlc");
    let (_, old) = state.dispatch_player_added(&id, &first);

    let (cancelled, new) = state.dispatch_player_added(&id, &first);

    assert_eq!(cancelled, Some(old));
    assert_ne!(old, new);
    assert!(state.is_cancelled(&id, old));
    assert!(!state.player_answered(&id, old, false, &first));
    assert!(state.player_list().is_empty());
    assert!(state.player_answered(&id, new, false, &first));
    assert_eq!(state.player_list()[0].generation, new);
}

#[test]
fn dispatching_a_listed_player_again_retracts_it() {
    let mut state = MediaState::new();
    let old = publish(&mut state, "a");
    publish(&mut state, "b");

    let (cancelled, _) = state.dispatch_player_added(&player("a"), &first);

    assert_eq!(cancelled, Some(old));
    assert_eq!(listed(&state), vec!["b".to_string()]);
    assert_eq!(active(&state), Some("b".to_string()));
}

#[test]
fn a_removed_player_is_gone_and_the_others_stay() {
    let mut state = MediaState::new();
    let a = publish(&mut state, "a");
    publish(&mut state, "b");
    publish(&mut state, "c");

    assert_eq!(state.handle_player_removed(&player("a"), &first), Some(a));

    assert_eq!(listed(&state), vec!["b".to_string(), "c".to_string()]);
    assert_eq!(active(&state), Some("b".to_string()));
    assert!(state.is_cancelled(&player("a"), a));
    assert_eq!(state.handle_player_removed(&player("a"), &first), None);
}

#[test]
fn removing_another_player_keeps_the_active_one() {
    let mut state = MediaState::new();
    publish(&mut state, "a");
    publish(&mut state, "b");

    state.handle_player_removed(&player("b"), &first);

    assert_eq!(active(&state), Some("a".to_string()));
    assert_eq!(listed(&state), vec!["a".to_string()]);
}

#[test]
fn removing_the_last_player_leaves_none_active() {
    let mut state = MediaState::new();
    publish(&mut state, "a");

    state.handle_player_removed(&player("a"), &first);

    assert_eq!(active(&state), None);
    assert!(state.player_list().is_empty());
}

#[test]
fn a_failed_player_gives_its_slot_up() {
    let mut state = MediaState::new();
    let id = player("vlc");
    let (_, generation) = state.dispatch_player_added(&id, &first);

    state.player_failed(&id, generation, false);

    assert!(state.is_cancelled(&id, generation));
    assert_eq!(state.handle_player_removed(&id, &first), None);
}

#[test]
fn a_failure_of_a_superseded_generation_leaves_the_slot_alone() {
    let mut state = MediaState::new();
    let id = player("vlc");
    let (_, old) = state.dispatch_player_added(&id, &first);
    let (_, new) = state.dispatch_player_added(&id, &first);

    state.player_failed(&id, old, false);

    assert!(!state.is_cancelled(&id, new));
    assert_eq!(state.handle_player_removed(&id, &first), Some(new));
}

#[test]
fn nothing_is_published_while_the_service_stops() {
    let mut state = MediaState::new();
    let id = player("vlc");
    let (_, generation) = state.dispatch_player_added(&id, &first);

    assert!(!state.player_answered(&id, generation, true, &first));
    state.player_failed(&id, generation, true);

    assert!(state.player_list().is_empty());
    assert_eq!(state.handle_player_removed(&id, &first), Some(generation));
}

fn describe(effects: &[MediaEffect]) -> Vec<String> {
    effects
        .iter()
        .map(|effect| match effect {
            MediaEffect::Cancel(generation) => format!("cancel {}", generation.number),
            MediaEffect::Start { player_id, generation } => {
                format!("start {} {}", player_id.bus_name(), generation.number)
            }
        })
        .collect()
}

#[test]
fn discovery_starts_players_that_are_not_ignored() {
    let mut state = MediaState::new();
    let names = vec![
        "org.freedesktop.DBus".to_string(),
        "org.mpris.MediaPlayer2.vlc".to_string(),
        "org.mpris.MediaPlayer2.spotify".to_string(),
        "org.mpris.MediaPlayer2".to_string(),
        "org.mpris.MediaPlayer2.mpv".to_string(),
    ];

    let effects = state.discover_existing_players(&names, &["spotify".to_string()], &first);

    assert_eq!(
        describe(&effects),
        vec![
            "start org.mpris.MediaPlayer2.vlc 0".to_string(),
            "start org.mpris.MediaPlayer2.mpv 1".to_string(),
        ]
    );
}

#[test]
fn name_changes_start_and_cancel_players() {
    let mut state = MediaState::new();
    let name = "org.mpris.MediaPlayer2.vlc";
    let none: Vec<String> = vec![];
    let ignored = vec!["vlc".to_string()];

    let other = state.handle_name_owner_changed("org.example.App", false, true, &none, &first);
    assert!(other.is_empty());
    let hidden = state.handle_name_owner_changed(name, false, true, &ignored, &first);
    assert!(hidden.is_empty());
    let added = state.handle_name_owner_changed(name, false, true, &none, &first);
    assert_eq!(describe(&added), vec![format!("start {} 0", name)]);
    let replaced = state.handle_name_owner_changed(name, true, true, &none, &first);
    assert_eq!(
        describe(&replaced),
        vec!["cancel 0".to_string(), format!("start {} 1", name)]
    );
    let replaced_by_ignored = state.handle_name_owner_changed(name, true, true, &ignored, &first);
    assert_eq!(describe(&replaced_by_ignored), vec!["cancel 1".to_string()]);
    let gone = state.handle_name_owner_changed(name, true, false, &none, &first);
    assert!(gone.is_empty());
    let nothing = state.handle_name_owner_changed(name, false, false, &none, &first);
    assert!(nothing.is_empty());
}

#[test]
fn a_name_that_leaves_cancels_its_player_even_if_ignored() {
    let mut state = MediaState::new();
    let name = "org.mpris.MediaPlayer2.vlc";
    state.handle_name_owner_changed(name, false, true, &[], &first);

    let gone = state.handle_name_owner_changed(name, true, false, &["vlc".to_string()], &first);

    assert_eq!(describe(&gone), vec!["cancel 0".to_string()]);
}

#[test]
fn there_is_room_for_many_generations() {
    let mut state = MediaState::new();
    assert!(state.has_room(usize::MAX));
    publish(&mut state, "vlc");
    assert!(state.has_room(1));
    assert_eq!(state.has_room(usize::MAX), usize::BITS < 64);
}

#[test]
fn the_watchdog_warns_once_and_never_gives_up() {
    let mut watch = InitWatch::new();

    assert!(watch.awaits_deadline());
    assert_eq!(watch.step(InitEvent::DeadlinePassed), InitStep::Warn);
    assert!(!watch.awaits_deadline());
    assert_eq!(watch.step(InitEvent::DeadlinePassed), InitStep::Wait);
    assert_eq!(watch.step(InitEvent::Answered), InitStep::Publish);
    assert_eq!(InitWatch::new().step(InitEvent::Failed), InitStep::Discard);
    assert_eq!(InitWatch::new().step(InitEvent::Cancelled), InitStep::Stop);
    assert_eq!(INIT_WATCHDOG_SECONDS, 10);
}
