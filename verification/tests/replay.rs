use std::cmp::Ordering;

use omegabot::ordering::stable_sort_clicks;
use omegabot::replay::{Click, ClickType, Location, Replay, ReplayType, StandardReplay};

fn fps(x: f32) -> u32 {
    x.to_bits()
}

fn click(frame: u32, click_type: ClickType) -> Click {
    Click { location: Location::Frame(frame), click_type }
}

#[test]
fn check() {
    let mut replay = StandardReplay::new(fps(60.), ReplayType::Frame);
    replay.add_click(Click {
        location: Location::Frame(20),
        click_type: ClickType::Player1Down,
    });
    replay.add_click(Click {
        location: Location::Frame(40),
        click_type: ClickType::Player1Up,
    });
    replay.add_click(Click {
        location: Location::Frame(60),
        click_type: ClickType::Player1Down,
    });
    replay.add_click(Click {
        location: Location::Frame(80),
        click_type: ClickType::Player1Up,
    });
    assert_eq!(replay.clicks.len(), 4);

    replay.insert_click(
        2,
        Click {
            location: Location::Frame(100),
            click_type: ClickType::Player1Down,
        },
    );
    replay.insert_click(
        3,
        Click {
            location: Location::Frame(110),
            click_type: ClickType::Player1Up,
        },
    );
    assert_eq!(replay.clicks.len(), 6);

    replay.sort();
    assert_eq!(replay.clicks.last().unwrap().location, Location::Frame(110));

    replay.reset(Location::Frame(90), true);
    assert_eq!(replay.clicks.len(), 4);
}

#[test]
fn new_replay_is_empty_and_done() {
    let replay = Replay::new(fps(60.), ReplayType::XPos);
    assert_eq!(replay.get_type(), ReplayType::XPos);
    assert_eq!(replay.get_current_fps(), fps(60.));
    assert_eq!(replay.initial_fps, fps(60.));
    assert!(replay.get_clicks().is_empty());
    assert!(replay.is_done());
}

#[test]
fn location_order_is_partial() {
    let a = Location::Frame(3);
    let b = Location::Frame(5);
    let x = Location::XPos(1);
    assert!(a.less_than(&b));
    assert!(!b.less_than(&a));
    assert!(a.less_or_equal(&a));
    assert!(b.greater_or_equal(&a));
    assert!(!x.less_than(&b));
    assert!(!x.less_or_equal(&b));
    assert!(!x.greater_or_equal(&b));
    assert!(!a.same_kind_as(&x));
    assert_eq!(x.value(), 1);
}

#[test]
fn change_fps_records_only_changes() {
    let mut replay = Replay::new(fps(60.), ReplayType::Frame);
    replay.change_fps(Location::Frame(5), fps(60.));
    assert!(replay.clicks.is_empty());
    replay.change_fps(Location::Frame(5), fps(120.));
    assert_eq!(replay.clicks, vec![click(5, ClickType::FpsChange(fps(120.)))]);
    assert_eq!(replay.get_current_fps(), fps(120.));
}

#[test]
fn playback_hands_out_due_clicks_in_order() {
    let mut replay = Replay::new(fps(60.), ReplayType::Frame);
    replay.add_click(click(10, ClickType::Player1Down));
    replay.add_click(click(10, ClickType::FpsChange(fps(240.))));
    replay.add_click(click(20, ClickType::Player1Up));
    replay.add_click(click(30, ClickType::Player1Down));

    assert_eq!(replay.get_current_click(Location::Frame(5)).copied(), None);
    assert_eq!(replay.get_current_clicks(Location::Frame(9)), vec![]);
    let due = replay.get_current_clicks(Location::Frame(15));
    assert_eq!(
        due,
        vec![click(10, ClickType::Player1Down), click(10, ClickType::FpsChange(fps(240.)))]
    );
    assert_eq!(replay.current_click, 2);
    assert_eq!(replay.get_current_fps(), fps(240.));
    // Other kinds of location are never due.
    assert_eq!(replay.get_current_click(Location::XPos(1000)).copied(), None);
    assert_eq!(
        replay.get_current_click(Location::Frame(20)).copied(),
        Some(click(20, ClickType::Player1Up))
    );
    assert!(!replay.is_done());
    assert_eq!(replay.get_current_clicks(Location::Frame(1000)), vec![click(30, ClickType::Player1Down)]);
    assert!(replay.is_done());
    assert_eq!(replay.get_current_clicks(Location::Frame(2000)), vec![]);
}

#[test]
fn for_all_current_clicks_visits_due_clicks() {
    let mut replay = Replay::new(fps(60.), ReplayType::Frame);
    replay.add_click(click(1, ClickType::Player1Down));
    replay.add_click(click(2, ClickType::Player1Up));
    replay.add_click(click(3, ClickType::Player1Down));
    let seen = std::cell::RefCell::new(Vec::new());
    replay.for_all_current_clicks(Location::Frame(2), |c| seen.borrow_mut().push(*c));
    assert_eq!(
        seen.into_inner(),
        vec![click(1, ClickType::Player1Down), click(2, ClickType::Player1Up)]
    );
    assert_eq!(replay.current_click, 2);
}

#[test]
fn last_click_of_each_player_before_playback_position() {
    let mut replay = Replay::new(fps(60.), ReplayType::Frame);
    replay.add_click(click(1, ClickType::Player1Down));
    replay.add_click(click(2, ClickType::Player2Down));
    replay.add_click(click(3, ClickType::Player1Up));
    replay.add_click(click(4, ClickType::Player2Up));
    replay.get_current_clicks(Location::Frame(3));
    assert_eq!(replay.get_last_click(false), Some(&click(3, ClickType::Player1Up)));
    assert_eq!(replay.get_last_click(true), Some(&click(2, ClickType::Player2Down)));
    let mut fresh = Replay::new(fps(60.), ReplayType::Frame);
    fresh.add_click(click(1, ClickType::Player1Down));
    assert_eq!(fresh.get_last_click(false), None);
}

#[test]
fn reset_while_recording_drops_later_clicks_and_restores_fps() {
    let mut replay = Replay::new(fps(60.), ReplayType::Frame);
    replay.add_click(click(10, ClickType::Player1Down));
    replay.change_fps(Location::Frame(20), fps(120.));
    replay.add_click(click(30, ClickType::Player1Up));
    replay.change_fps(Location::Frame(40), fps(240.));
    replay.reset(Location::Frame(30), true);
    assert_eq!(
        replay.clicks,
        vec![click(10, ClickType::Player1Down), click(20, ClickType::FpsChange(fps(120.)))]
    );
    assert_eq!(replay.get_current_fps(), fps(120.));
    replay.reset(Location::Frame(15), true);
    assert_eq!(replay.clicks, vec![click(10, ClickType::Player1Down)]);
    assert_eq!(replay.get_current_fps(), fps(60.));
}

#[test]
fn reset_while_playing_rewinds() {
    let mut replay = Replay::new(fps(60.), ReplayType::Frame);
    replay.add_click(click(10, ClickType::Player1Down));
    replay.add_click(click(15, ClickType::FpsChange(fps(120.))));
    replay.add_click(click(20, ClickType::Player1Up));
    replay.add_click(click(30, ClickType::Player1Down));
    replay.add_click(click(40, ClickType::Player1Up));
    replay.get_current_clicks(Location::Frame(30));
    assert_eq!(replay.current_click, 4);
    assert_eq!(replay.get_current_fps(), fps(120.));
    replay.reset(Location::Frame(20), false);
    assert_eq!(replay.clicks.len(), 5);
    assert_eq!(replay.current_click, 1);
    assert_eq!(replay.get_current_fps(), fps(60.));
    replay.get_current_clicks(Location::Frame(30));
    replay.reset(Location::Frame(0), false);
    assert_eq!(replay.current_click, 0);
    assert_eq!(replay.get_current_fps(), fps(60.));
}

#[test]
fn editing_clicks() {
    let mut replay = Replay::new(fps(60.), ReplayType::Frame);
    replay.add_click(click(1, ClickType::Player1Down));
    replay.add_click(click(2, ClickType::Player1Up));
    replay.add_click(click(3, ClickType::Player2Down));
    replay.move_click_up(0);
    assert_eq!(
        replay.clicks,
        vec![click(2, ClickType::Player1Up), click(1, ClickType::Player1Down), click(3, ClickType::Player2Down)]
    );
    replay.move_click_down(2);
    assert_eq!(
        replay.clicks,
        vec![click(2, ClickType::Player1Up), click(3, ClickType::Player2Down), click(1, ClickType::Player1Down)]
    );
    replay.delete_click(1);
    assert_eq!(replay.clicks, vec![click(2, ClickType::Player1Up), click(1, ClickType::Player1Down)]);
    replay.finalise();
    assert_eq!(replay.clicks.len(), 2);
}

#[test]
fn sort_is_stable() {
    let clicks = vec![
        click(5, ClickType::Player1Up),
        click(1, ClickType::Player1Down),
        click(5, ClickType::FpsChange(7)),
        click(3, ClickType::Player2Down),
        click(1, ClickType::Player2Up),
    ];
    let sorted = stable_sort_clicks(&clicks);
    assert_eq!(
        sorted,
        vec![
            click(1, ClickType::Player1Down),
            click(1, ClickType::Player2Up),
            click(3, ClickType::Player2Down),
            click(5, ClickType::Player1Up),
            click(5, ClickType::FpsChange(7)),
        ]
    );
}

#[test]
fn merge_retargets_and_sorts() {
    let mut a = Replay::new(fps(60.), ReplayType::Frame);
    a.add_click(click(10, ClickType::Player1Down));
    a.add_click(click(30, ClickType::Player1Up));
    let mut b = Replay::new(fps(60.), ReplayType::Frame);
    b.add_click(click(20, ClickType::Player1Down));
    b.add_click(click(25, ClickType::NoClick));
    b.add_click(click(40, ClickType::Player1Up));
    a.merge(&b, true);
    assert_eq!(
        a.clicks,
        vec![
            click(10, ClickType::Player1Down),
            click(20, ClickType::Player2Down),
            click(30, ClickType::Player1Up),
            click(40, ClickType::Player2Up),
        ]
    );
    let mut c = Replay::new(fps(60.), ReplayType::Frame);
    c.merge(&b, false);
    assert_eq!(c.clicks, vec![click(20, ClickType::Player1Down), click(40, ClickType::Player1Up)]);
}

#[test]
fn clean_drops_repeats_and_empty_clicks() {
    let mut replay = Replay::new(fps(60.), ReplayType::Frame);
    replay.add_click(click(1, ClickType::Player1Down));
    replay.add_click(click(2, ClickType::Player1Down));
    replay.add_click(click(3, ClickType::NoClick));
    replay.add_click(click(4, ClickType::FpsChange(9)));
    replay.add_click(click(5, ClickType::Player1Up));
    replay.add_click(click(6, ClickType::FpsChange(9)));
    replay.add_click(click(7, ClickType::Player1Up));
    replay.add_click(click(8, ClickType::Player1Down));
    replay.clean();
    let once = replay.clicks.clone();
    assert_eq!(
        once,
        vec![
            click(1, ClickType::Player1Down),
            click(4, ClickType::FpsChange(9)),
            click(5, ClickType::Player1Up),
            click(6, ClickType::FpsChange(9)),
            click(8, ClickType::Player1Down),
        ]
    );
    replay.clean();
    assert_eq!(replay.clicks, once);
}

#[test]
fn accepts_matches_kind() {
    assert!(ReplayType::Frame.accepts(&Location::Frame(1)));
    assert!(!ReplayType::Frame.accepts(&Location::XPos(1)));
    assert!(ReplayType::XPos.accepts(&Location::XPos(1)));
}

#[test]
fn can_reset_at_refuses_other_kind_and_past_the_end() {
    let mut replay = Replay::new(fps(60.), ReplayType::Frame);
    assert!(replay.can_reset_at(&Location::Frame(10), false));
    assert!(!replay.can_reset_at(&Location::XPos(10), true));
    replay.add_click(click(5, ClickType::Player1Down));
    replay.current_click = 1;
    assert!(!replay.can_reset_at(&Location::Frame(10), false));
    assert!(replay.can_reset_at(&Location::Frame(0), false));
    assert!(replay.can_reset_at(&Location::Frame(10), true));
    replay.current_click = 0;
    assert!(replay.can_reset_at(&Location::Frame(10), false));
}

#[test]
fn locations_compare_within_a_kind_only() {
    assert!(Location::Frame(3) < Location::Frame(4));
    assert!(Location::XPos(9) >= Location::XPos(9));
    assert_eq!(Location::Frame(5).partial_cmp(&Location::Frame(2)), Some(Ordering::Greater));
    assert_eq!(Location::Frame(5).partial_cmp(&Location::XPos(5)), None);
    assert!(!(Location::Frame(1) < Location::XPos(2)));
    assert!(!(Location::Frame(1) >= Location::XPos(0)));
}

#[test]
fn playback_from_start_gives_back_what_was_recorded() {
    let mut replay = Replay::new(fps(60.), ReplayType::Frame);
    replay.add_click(click(10, ClickType::Player1Down));
    replay.add_click(click(20, ClickType::Player1Up));
    replay.change_fps(Location::Frame(30), fps(120.));
    replay.add_click(click(40, ClickType::Player1Down));
    replay.add_click(click(60, ClickType::Player1Up));
    replay.reset(Location::Frame(0), false);
    let handed = replay.get_current_clicks(Location::Frame(40));
    assert_eq!(
        handed,
        vec![
            click(10, ClickType::Player1Down),
            click(20, ClickType::Player1Up),
            click(30, ClickType::FpsChange(fps(120.))),
            click(40, ClickType::Player1Down),
        ]
    );
    assert_eq!(replay.get_current_fps(), fps(120.));
    assert_eq!(replay.get_current_clicks(Location::Frame(59)), vec![]);
    assert_eq!(replay.get_current_clicks(Location::Frame(60)), vec![click(60, ClickType::Player1Up)]);
    assert!(replay.is_done());
}

#[test]
fn current_click_is_handed_out_in_place() {
    let mut replay = Replay::new(fps(60.), ReplayType::Frame);
    replay.add_click(click(5, ClickType::Player1Down));
    replay.add_click(click(9, ClickType::Player1Up));
    if let Some(c) = replay.get_current_click(Location::Frame(5)) {
        c.click_type = ClickType::Player2Down;
    }
    assert_eq!(replay.clicks[0], click(5, ClickType::Player2Down));
    assert_eq!(replay.current_click, 1);
    assert!(replay.get_current_click(Location::Frame(8)).is_none());
    assert_eq!(replay.current_click, 1);
}
