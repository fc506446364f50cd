use game_watcher::game_list::{Clock, GameCategory, GameInfo, Player, Players, UserInfo};
use game_watcher::types::{GameEvent, GameId, LichessWebsocketEvent, WatcherCommand};
use game_watcher::watcher::{
    make_sri, socket_url, InboundMessage, Watcher, WatcherError, KEEPALIVE_INTERVAL_SECS,
    REPLACE_COOLDOWN_SECS, SRI_LENGTH,
};

fn id(s: &str) -> GameId {
    GameId(s.to_string())
}

fn game(game_id: &str) -> GameInfo {
    GameInfo {
        id: id(game_id),
        rated: true,
        variant: "standard".to_string(),
        speed: "blitz".to_string(),
        perf: "blitz".to_string(),
        created_at: 0,
        last_move_at: 0,
        status: "started".to_string(),
        players: Players {
            white: Player {
                user: UserInfo {
                    name: "white".to_string(),
                    id: "white".to_string(),
                    flair: None,
                    title: None,
                },
                rating: 1500,
            },
            black: Player {
                user: UserInfo {
                    name: "black".to_string(),
                    id: "black".to_string(),
                    flair: None,
                    title: None,
                },
                rating: 1500,
            },
        },
        moves: String::new(),
        clock: Clock { initial: 300, increment: 0, total_time: 300 },
    }
}

fn subscribe_frame(payload: &str) -> String {
    format!("{{\"t\":\"startWatching\",\"d\":\"{payload}\"}}")
}

#[test]
fn new_watcher_is_empty() {
    let w = Watcher::new();
    assert!(w.watched_games.is_empty());
    assert!(w.outbox.is_empty());
    assert!(w.published.is_empty());
    assert!(w.scheduled.is_empty());
}

#[test]
fn category_name() {
    assert_eq!(GameCategory::Best.get_name(), "best");
}

#[test]
fn start_watching_one_sends_appends_publishes() {
    let mut w = Watcher::new();
    w.start_watching_one(id("abcd1234"));
    assert_eq!(w.watched_games, vec![id("abcd1234")]);
    assert_eq!(w.outbox, vec![subscribe_frame("abcd1234")]);
    assert_eq!(
        w.published,
        vec![GameEvent::GameListUpdate(vec![id("abcd1234")])]
    );
    assert!(w.scheduled.is_empty());
}

#[test]
fn combined_subscribe_single_envelope_in_fetch_order() {
    let mut w = Watcher::new();
    w.start_watching_current_games(vec![game("aaa"), game("bbb"), game("ccc")]);
    assert_eq!(w.watched_games, vec![id("aaa"), id("bbb"), id("ccc")]);
    assert_eq!(w.outbox, vec![subscribe_frame("aaa bbb ccc ")]);
    assert_eq!(
        w.published,
        vec![GameEvent::GameListUpdate(vec![id("aaa"), id("bbb"), id("ccc")])]
    );
}

#[test]
fn combined_subscribe_empty_snapshot() {
    let mut w = Watcher::new();
    w.start_watching_current_games(vec![]);
    assert!(w.watched_games.is_empty());
    assert_eq!(w.outbox, vec![subscribe_frame("")]);
    assert_eq!(w.published, vec![GameEvent::GameListUpdate(vec![])]);
}

#[test]
fn replacement_preserves_length_and_position() {
    let mut w = Watcher::new();
    w.start_watching_current_games(vec![game("aaa"), game("bbb"), game("ccc")]);
    w.take_outbound();
    w.take_published();
    w.start_watching_one_instead(id("ddd"), id("bbb"));
    assert_eq!(w.watched_games, vec![id("aaa"), id("ddd"), id("ccc")]);
    assert_eq!(w.outbox, vec![subscribe_frame("ddd")]);
    assert_eq!(
        w.published,
        vec![GameEvent::GameListUpdate(vec![id("aaa"), id("ddd"), id("ccc")])]
    );
}

#[test]
fn replacement_replaces_only_first_match() {
    let mut w = Watcher::new();
    w.start_watching_one(id("aaa"));
    w.start_watching_one(id("bbb"));
    w.start_watching_one(id("aaa"));
    w.take_outbound();
    w.take_published();
    w.start_watching_one_instead(id("zzz"), id("aaa"));
    assert_eq!(w.watched_games, vec![id("zzz"), id("bbb"), id("aaa")]);
    assert_eq!(w.outbox, vec![subscribe_frame("zzz")]);
}

#[test]
fn replacement_of_absent_id_is_noop_but_still_publishes() {
    let mut w = Watcher::new();
    w.start_watching_current_games(vec![game("aaa"), game("bbb")]);
    w.take_outbound();
    w.take_published();
    w.start_watching_one_instead(id("ddd"), id("zzz"));
    assert_eq!(w.watched_games, vec![id("aaa"), id("bbb")]);
    assert!(w.outbox.is_empty());
    assert_eq!(
        w.published,
        vec![GameEvent::GameListUpdate(vec![id("aaa"), id("bbb")])]
    );
}

#[test]
fn pump_performs_exactly_missing_count_of_fetches() {
    let mut w = Watcher::new();
    w.start_watching_one(id("seed"));
    let target: usize = 4;
    let mut fetches: usize = 0;
    let replacements = ["r1", "r2", "r3", "r4", "r5"];
    while w.needs_replacement(target) {
        w.start_watching_one(id(replacements[fetches]));
        fetches += 1;
    }
    assert_eq!(fetches, 3);
    assert_eq!(w.watched_games.len(), 4);
    assert!(!w.needs_replacement(4));
}

#[test]
fn pump_with_target_already_met_fetches_nothing() {
    let mut w = Watcher::new();
    w.start_watching_one(id("aaa"));
    w.start_watching_one(id("bbb"));
    assert!(!w.needs_replacement(2));
    assert!(!w.needs_replacement(1));
}

#[test]
fn heartbeat_produces_no_event_and_no_publish() {
    let mut w = Watcher::new();
    let r = w.handle_message(InboundMessage::Text("0".to_string()));
    assert_eq!(r, Ok(None));
    assert!(w.published.is_empty());
    assert!(w.outbox.is_empty());
    assert!(w.scheduled.is_empty());
}

#[test]
fn state_update_is_republished_verbatim() {
    let mut w = Watcher::new();
    let frame = "{\"t\":\"fen\",\"d\":{\"id\":\"g1\",\"lm\":\"e2e4\",\"fen\":\"pos\",\"wc\":60,\"bc\":59}}";
    let ev = LichessWebsocketEvent::Fen {
        id: id("g1"),
        lm: "e2e4".to_string(),
        fen: "pos".to_string(),
        wc: 60,
        bc: 59,
    };
    let r = w.handle_message(InboundMessage::Text(frame.to_string()));
    assert_eq!(r, Ok(Some(ev.clone())));
    assert_eq!(w.published, vec![GameEvent::GameEvent(ev)]);
    assert!(w.scheduled.is_empty());
}

#[test]
fn finish_schedules_exactly_one_replacement_command() {
    let mut w = Watcher::new();
    let frame = "{\"t\":\"finish\",\"d\":{\"id\":\"g2\",\"win\":\"black\"}}";
    let ev = LichessWebsocketEvent::Finish { id: id("g2"), win: Some("black".to_string()) };
    let r = w.handle_message(InboundMessage::Text(frame.to_string()));
    assert_eq!(r, Ok(Some(ev.clone())));
    assert_eq!(w.scheduled, vec![WatcherCommand::ReplaceGame(id("g2"))]);
    assert_eq!(w.published, vec![GameEvent::GameEvent(ev)]);
}

#[test]
fn undecodable_frame_is_fatal_and_changes_nothing() {
    let mut w = Watcher::new();
    w.start_watching_one(id("aaa"));
    let before_watched = w.watched_games.clone();
    let r = w.handle_message(InboundMessage::Text("{\"t\":\"mlat\",\"d\":5}".to_string()));
    assert!(matches!(r, Err(WatcherError::Decode(_))));
    assert_eq!(w.watched_games, before_watched);
}

#[test]
fn violating_frames_and_stream_faults_are_fatal() {
    let mut w = Watcher::new();
    assert_eq!(
        w.handle_message(InboundMessage::Binary),
        Err(WatcherError::UnexpectedBinary)
    );
    assert_eq!(
        w.handle_message(InboundMessage::Close),
        Err(WatcherError::UnexpectedClose)
    );
    assert_eq!(
        w.handle_message(InboundMessage::StreamError),
        Err(WatcherError::StreamFailed)
    );
    assert_eq!(
        w.handle_message(InboundMessage::StreamEnded),
        Err(WatcherError::StreamEnded)
    );
    assert_eq!(w.handle_message(InboundMessage::OtherFrame), Ok(None));
    assert!(w.published.is_empty());
    assert!(w.outbox.is_empty());
}

#[test]
fn end_to_end_finish_cooldown_replace() {
    let mut w = Watcher::new();
    w.start_watching_current_games(vec![game("A"), game("B"), game("C")]);
    w.take_outbound();
    w.take_published();

    let frame = "{\"t\":\"finish\",\"d\":{\"id\":\"B\"}}";
    let r = w.handle_message(InboundMessage::Text(frame.to_string()));
    assert!(r.is_ok());
    // Until the cool-down elapses the command is only scheduled: the watch
    // set is untouched and nothing was sent.
    assert_eq!(w.watched_games, vec![id("A"), id("B"), id("C")]);
    assert!(w.outbox.is_empty());
    assert_eq!(w.scheduled, vec![WatcherCommand::ReplaceGame(id("B"))]);
    w.take_published();

    // The cool-down elapses; the host delivers the command with the
    // directory's replacement.
    let commands = w.take_scheduled();
    assert_eq!(commands.len(), 1);
    w.handle_command(commands.into_iter().next().unwrap(), id("D"));
    assert_eq!(w.watched_games, vec![id("A"), id("D"), id("C")]);
    assert_eq!(w.outbox, vec![subscribe_frame("D")]);
    assert_eq!(
        w.published,
        vec![GameEvent::GameListUpdate(vec![id("A"), id("D"), id("C")])]
    );
    assert!(w.scheduled.is_empty());
}

#[test]
fn keepalive_sends_literal_null() {
    let mut w = Watcher::new();
    w.keepalive_tick();
    assert_eq!(w.outbox, vec!["null".to_string()]);
    assert!(w.published.is_empty());
}

#[test]
fn take_methods_drain_queues_in_order() {
    let mut w = Watcher::new();
    w.start_watching_one(id("aaa"));
    w.keepalive_tick();
    let out = w.take_outbound();
    assert_eq!(out, vec![subscribe_frame("aaa"), "null".to_string()]);
    assert!(w.outbox.is_empty());
    let published = w.take_published();
    assert_eq!(published.len(), 1);
    assert!(w.published.is_empty());
    assert!(w.take_scheduled().is_empty());
}

#[test]
fn timing_constants() {
    assert_eq!(KEEPALIVE_INTERVAL_SECS, 5);
    assert_eq!(REPLACE_COOLDOWN_SECS, 3);
}

#[test]
fn sri_is_twelve_alphanumerics() {
    let mut rng = rand::thread_rng();
    for _ in 0..50 {
        let sri = make_sri(&mut rng);
        assert_eq!(sri.len(), SRI_LENGTH);
        assert!(sri.chars().all(|c| c.is_ascii_alphanumeric()));
    }
}

#[test]
fn game_list_url_names_the_category() {
    assert_eq!(
        game_watcher::game_list::game_list_url(GameCategory::Best),
        "https://lichess.org/api/tv/best?nb=30"
    );
}

#[test]
fn replacement_url_excludes_whole_watch_set() {
    let url = game_watcher::game_list::replacement_url(
        GameCategory::Best,
        &id("bbb"),
        &vec![id("aaa"), id("bbb"), id("ccc")],
    );
    assert_eq!(
        url,
        "https://lichess.org/games/best/replacement/bbb?exclude=aaa&exclude=bbb&exclude=ccc&"
    );
}

#[test]
fn replacement_url_without_exclusions() {
    let url = game_watcher::game_list::replacement_url(GameCategory::Best, &id("x"), &vec![]);
    assert_eq!(url, "https://lichess.org/games/best/replacement/x?");
}

#[test]
fn socket_url_embeds_token() {
    assert_eq!(
        socket_url("abcDEF123456"),
        "wss://socket2.lichess.org/socket/v5?sri=abcDEF123456"
    );
}
