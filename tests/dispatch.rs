use netease_dispatch::{
    next_gen, route, settle, Call, Command, Delivery, Dispatcher, Flow, GenerationGuard,
    HeaderCall, NotificationSlot, PlayerCall, PlayerTypes, Received, SongInfo, SongList,
    ViewCall,
};

fn song(id: u32, name: &str) -> SongInfo {
    SongInfo {
        id,
        name: name.to_string(),
        singer: "singer".to_string(),
        album: "album".to_string(),
        pic_url: "/pic.png".to_string(),
        duration: "03:30".to_string(),
        song_url: String::new(),
    }
}

#[test]
fn login_reaches_header_once_with_the_pair() {
    let mut d = Dispatcher::new();
    let tx = d.sender();
    tx.send(Command::Login("alice".to_string(), "pw".to_string())).unwrap();
    let tick = d.poll_once();
    assert_eq!(tick.flow, Flow::Continue);
    assert_eq!(
        tick.calls,
        vec![Call::Header(HeaderCall::Login("alice".to_string(), "pw".to_string()))]
    );
    let after = d.poll_once();
    assert!(after.calls.is_empty());
}

#[test]
fn second_notice_replaces_the_first() {
    let mut d = Dispatcher::new();
    let tx = d.sender();
    tx.send(Command::ShowNotice("Added to favorites".to_string())).unwrap();
    tx.send(Command::ShowNotice("Added to favorites".to_string())).unwrap();
    let first = d.poll_once();
    assert_eq!(first.calls, vec![Call::ShowNotice("Added to favorites".to_string())]);
    let second = d.poll_once();
    assert_eq!(
        second.calls,
        vec![
            Call::DestroyNotice("Added to favorites".to_string()),
            Call::ShowNotice("Added to favorites".to_string()),
        ]
    );
    assert_eq!(d.notice_text(), Some("Added to favorites".to_string()));
}

#[test]
fn notice_with_new_text_destroys_old_text() {
    let mut d = Dispatcher::new();
    d.step(Received::Command(Command::ShowNotice("one".to_string())));
    let tick = d.step(Received::Command(Command::ShowNotice("two".to_string())));
    assert_eq!(
        tick.calls,
        vec![Call::DestroyNotice("one".to_string()), Call::ShowNotice("two".to_string())]
    );
    assert_eq!(d.notice_text(), Some("two".to_string()));
}

#[test]
fn switch_stack_sub_payload_unmodified() {
    let mut d = Dispatcher::new();
    let tx = d.sender();
    tx.send(Command::SwitchStackSub((5, "Chill".to_string(), "/img/chill.png".to_string())))
        .unwrap();
    let tick = d.poll_once();
    assert_eq!(
        tick.calls,
        vec![Call::View(ViewCall::SwitchStackSub(
            5,
            "Chill".to_string(),
            "/img/chill.png".to_string()
        ))]
    );
}

#[test]
fn stale_fetch_enqueues_nothing() {
    let mut d = Dispatcher::new();
    let tx = d.sender();
    let guard = GenerationGuard::new();
    let captured = guard.advance();
    assert_eq!(captured, 1);
    let fetch_guard = guard.clone();
    assert_eq!(guard.advance(), 2);
    assert_eq!(fetch_guard.current_generation(), 2);
    let (seen, outcome) =
        fetch_guard.deliver(captured, Command::RefreshSubLowView(vec![song(1, "a")]), &tx);
    assert_eq!(seen, 2);
    assert_eq!(outcome, Delivery::Stale);
    let tick = d.poll_once();
    assert!(tick.calls.is_empty());
    assert_eq!(tick.flow, Flow::Continue);
}

#[test]
fn current_fetch_is_delivered() {
    let mut d = Dispatcher::new();
    let tx = d.sender();
    let guard = GenerationGuard::new();
    let captured = guard.advance();
    let (seen, outcome) = guard.deliver(captured, Command::RefreshFoundView(vec![]), &tx);
    assert_eq!(seen, captured);
    assert_eq!(outcome, Delivery::Sent);
    let tick = d.poll_once();
    assert_eq!(tick.calls, vec![Call::View(ViewCall::UpdateFoundView(vec![]))]);
}

#[test]
fn delivery_to_a_dropped_dispatcher_hands_the_command_back() {
    let d = Dispatcher::new();
    let tx = d.sender();
    drop(d);
    let guard = GenerationGuard::new();
    let (seen, outcome) = guard.deliver(0, Command::Logout, &tx);
    assert_eq!(seen, 0);
    assert_eq!(outcome, Delivery::Disconnected(Command::Logout));
    assert_eq!(tx.send(Command::DailyTask), Err(Command::DailyTask));
}

#[test]
fn single_producer_order_is_kept() {
    let mut d = Dispatcher::new();
    let tx = d.sender();
    for i in 0..50i32 {
        tx.send(Command::RefreshMineViewInit(i)).unwrap();
    }
    for i in 0..50i32 {
        let tick = d.poll_once();
        assert_eq!(tick.calls, vec![Call::View(ViewCall::UpdateMineViewData(i))]);
    }
    assert!(d.poll_once().calls.is_empty());
}

#[test]
fn shared_producers_reach_the_same_dispatcher() {
    let mut d = Dispatcher::new();
    let a = d.sender();
    let b = a.share();
    a.send(Command::RefreshHome).unwrap();
    b.send(Command::RefreshMine).unwrap();
    assert_eq!(d.poll_once().calls, vec![Call::View(ViewCall::UpdateHome)]);
    assert_eq!(d.poll_once().calls, vec![Call::View(ViewCall::MineInit)]);
}

#[test]
fn one_command_per_tick() {
    let mut d = Dispatcher::new();
    let tx = d.sender();
    tx.send(Command::PlayerFound).unwrap();
    tx.send(Command::PlayerMine).unwrap();
    tx.send(Command::PlayerSubpages).unwrap();
    assert_eq!(d.poll_once().calls, vec![Call::View(ViewCall::PlayFound)]);
    assert_eq!(d.poll_once().calls, vec![Call::View(ViewCall::PlayMine)]);
    assert_eq!(d.poll_once().calls, vec![Call::View(ViewCall::PlaySubpages)]);
    assert!(d.poll_once().calls.is_empty());
}

#[test]
fn burst_of_sends_never_blocks() {
    let mut d = Dispatcher::new();
    let tx = d.sender();
    for _ in 0..10000 {
        assert_eq!(tx.send(Command::FmLike), Ok(()));
    }
    let mut n = 0;
    loop {
        let tick = d.poll_once();
        if tick.calls.is_empty() {
            break;
        }
        assert_eq!(tick.calls, vec![Call::View(ViewCall::LikeFm)]);
        n += 1;
    }
    assert_eq!(n, 10000);
}

#[test]
fn empty_channel_continues_without_calls() {
    let mut d = Dispatcher::new();
    let tick = d.poll_once();
    assert_eq!(tick.flow, Flow::Continue);
    assert!(tick.calls.is_empty());
    assert_eq!(d.notice_text(), None);
}

#[test]
fn closed_channel_stops() {
    let mut d = Dispatcher::new();
    let tick = d.step(Received::Closed);
    assert_eq!(tick.flow, Flow::Stop);
    assert!(tick.calls.is_empty());
}

#[test]
fn dislike_skips_in_player_then_view() {
    assert_eq!(
        route(Command::FmDislike),
        vec![Call::Player(PlayerCall::Forward), Call::View(ViewCall::DislikeFm)]
    );
}

#[test]
fn player_commands_reach_player() {
    assert_eq!(
        route(Command::PlayerInit(song(7, "x"), PlayerTypes::Fm)),
        vec![Call::Player(PlayerCall::InitializePlayer(song(7, "x"), PlayerTypes::Fm))]
    );
    assert_eq!(
        route(Command::Player(song(8, "y"), "http://s/8.mp3".to_string())),
        vec![Call::Player(PlayerCall::Play(song(8, "y"), "http://s/8.mp3".to_string()))]
    );
}

#[test]
fn home_view_keeps_both_lists() {
    let top = vec![SongList { id: 1, name: "Top".to_string(), cover_img_url: "/t".to_string() }];
    let rec = vec![SongList { id: 2, name: "Rec".to_string(), cover_img_url: "/r".to_string() }];
    assert_eq!(
        route(Command::RefreshHomeView(top.clone(), rec.clone())),
        vec![Call::View(ViewCall::UpdateHomeView(top, rec))]
    );
}

#[test]
fn session_commands_reach_header() {
    assert_eq!(
        route(Command::SwitchHeaderBar("Mine".to_string())),
        vec![Call::Header(HeaderCall::SwitchHeader("Mine".to_string()))]
    );
    assert_eq!(route(Command::Logout), vec![Call::Header(HeaderCall::Logout)]);
    assert_eq!(route(Command::DailyTask), vec![Call::Header(HeaderCall::DailyTask)]);
    assert_eq!(
        route(Command::RefreshHeaderUserLogout),
        vec![Call::Header(HeaderCall::UpdateUserLogout)]
    );
}

#[test]
fn search_switches_to_search_view() {
    assert_eq!(
        route(Command::Search("jazz".to_string())),
        vec![Call::View(ViewCall::SwitchStackSearch("jazz".to_string()))]
    );
}

#[test]
fn slot_holds_only_latest() {
    let mut slot = NotificationSlot::new();
    assert_eq!(slot.text(), None);
    assert_eq!(slot.show("a".to_string()), None);
    assert_eq!(slot.show("b".to_string()), Some("a".to_string()));
    assert_eq!(slot.show("c".to_string()), Some("b".to_string()));
    assert_eq!(slot.text(), Some("c".to_string()));
}

#[test]
fn stale_generation_settles_to_none() {
    assert_eq!(settle(1, 2, Command::RefreshHome), None);
    assert_eq!(settle(3, 3, Command::RefreshHome), Some(Command::RefreshHome));
}

#[test]
fn generation_successor_wraps() {
    assert_eq!(next_gen(0), 1);
    assert_eq!(next_gen(41), 42);
    assert_eq!(next_gen(u64::MAX), 0);
}

#[test]
fn notice_survives_other_commands_until_replaced() {
    let mut d = Dispatcher::new();
    let tx = d.sender();
    tx.send(Command::ShowNotice("saved".to_string())).unwrap();
    tx.send(Command::RefreshHome).unwrap();
    tx.send(Command::ShowNotice("removed".to_string())).unwrap();
    tx.send(Command::MineHideAll).unwrap();
    d.poll_once();
    d.poll_once();
    assert_eq!(d.notice_text(), Some("saved".to_string()));
    let tick = d.poll_once();
    assert_eq!(
        tick.calls,
        vec![Call::DestroyNotice("saved".to_string()), Call::ShowNotice("removed".to_string())]
    );
    d.poll_once();
    assert_eq!(d.notice_text(), Some("removed".to_string()));
}
