use druid_video::playback::{durations_label, player_play_pause_widget, shows_controls};
use druid_video::{
    as_minutes_and_seconds, Button, Command, Icon, PointerEvent, SliderController, SliderOutcome,
    VideoPlayerState, VideoViewController, VideoViewState,
};

fn mirror() -> VideoViewState {
    VideoViewState {
        state: VideoPlayerState::Paused,
        current_item: "/media/test.mp4".to_string(),
        duration: 600,
        position: 125,
        seeking_enabled: true,
        rate_set: false,
    }
}

const IDLE: SliderOutcome =
    SliderOutcome { pointer_cursor: false, capture: None, latch: false, command: None };

#[test]
fn minutes_and_seconds_read_as_a_clock() {
    assert_eq!(as_minutes_and_seconds(0), "0∶00");
    assert_eq!(as_minutes_and_seconds(5), "0∶05");
    assert_eq!(as_minutes_and_seconds(59), "0∶59");
    assert_eq!(as_minutes_and_seconds(60), "1∶00");
    assert_eq!(as_minutes_and_seconds(125), "2∶05");
    assert_eq!(as_minutes_and_seconds(599), "9∶59");
    assert_eq!(as_minutes_and_seconds(600), "10∶00");
    assert_eq!(as_minutes_and_seconds(3600), "60∶00");
    assert_eq!(as_minutes_and_seconds(6_060_606), "101010∶06");
    assert_eq!(as_minutes_and_seconds(u64::MAX), "307445734561825860∶15");
}

#[test]
fn minutes_and_seconds_agree_with_std_formatting() {
    for dur in (0..5000u64).chain([86_399, 86_400, 1 << 40, u64::MAX - 1]) {
        assert_eq!(as_minutes_and_seconds(dur), format!("{}∶{:02}", dur / 60, dur % 60));
    }
}

#[test]
fn durations_label_shows_position_out_of_duration() {
    assert_eq!(durations_label(&mirror()), "2∶05 / 10∶00");
    let start = VideoViewState { position: 0, duration: 0, ..mirror() };
    assert_eq!(durations_label(&start), "0∶00 / 0∶00");
}

#[test]
fn controls_show_once_an_item_is_loaded() {
    assert!(shows_controls(&mirror()));
    assert!(!shows_controls(&VideoViewState { current_item: String::new(), ..mirror() }));
}

#[test]
fn play_pause_button_follows_the_state() {
    assert_eq!(
        player_play_pause_widget(VideoPlayerState::Playing),
        Some(Button { icon: Icon::Pause, on_click: Command::PlayPause })
    );
    assert_eq!(
        player_play_pause_widget(VideoPlayerState::Paused),
        Some(Button { icon: Icon::Play, on_click: Command::PlayResume })
    );
    assert_eq!(player_play_pause_widget(VideoPlayerState::Stopped), None);
}

#[test]
fn click_on_the_video_toggles_playback() {
    let mut controller = VideoViewController {};
    let paused = mirror();
    let playing = VideoViewState { state: VideoPlayerState::Playing, ..mirror() };
    let stopped = VideoViewState { state: VideoPlayerState::Stopped, ..mirror() };
    let down = PointerEvent::Down { left: true };
    assert_eq!(controller.event(down, &paused), Some(Command::PlayResume));
    assert_eq!(controller.event(down, &playing), Some(Command::PlayPause));
    assert_eq!(controller.event(down, &stopped), Some(Command::PlayResume));
    let others = [
        PointerEvent::Down { left: false },
        PointerEvent::Up { left: true },
        PointerEvent::Up { left: false },
        PointerEvent::Move,
        PointerEvent::Other,
    ];
    for event in others {
        assert_eq!(controller.event(event, &playing), None);
    }
}

#[test]
fn moving_over_the_bar_shows_the_hand() {
    let mut slider = SliderController {};
    let mut data = mirror();
    let outcome = slider.event(PointerEvent::Move, false, 42, &mut data);
    assert_eq!(outcome, SliderOutcome { pointer_cursor: true, ..IDLE });
    assert_eq!(data, mirror());
}

#[test]
fn dragging_the_bar_seeks() {
    let mut slider = SliderController {};
    let mut data = mirror();
    let outcome = slider.event(PointerEvent::Move, true, 42, &mut data);
    let seek = SliderOutcome {
        pointer_cursor: true,
        capture: None,
        latch: true,
        command: Some(Command::PlaySeek(42)),
    };
    assert_eq!(outcome, seek);
    assert_eq!(data, VideoViewState { seeking_enabled: false, ..mirror() });
    let outcome = slider.event(PointerEvent::Move, true, 43, &mut data);
    assert_eq!(outcome, SliderOutcome { command: Some(Command::PlaySeek(43)), ..seek });
    assert!(!data.seeking_enabled);
}

#[test]
fn pressing_the_bar_takes_the_pointer() {
    let mut slider = SliderController {};
    let mut data = mirror();
    for active in [false, true] {
        let outcome = slider.event(PointerEvent::Down { left: true }, active, 42, &mut data);
        assert_eq!(outcome, SliderOutcome { capture: Some(true), ..IDLE });
        let outcome = slider.event(PointerEvent::Down { left: false }, active, 42, &mut data);
        assert_eq!(outcome, IDLE);
    }
    assert_eq!(data, mirror());
}

#[test]
fn releasing_the_bar_seeks_unless_a_drag_did() {
    let mut slider = SliderController {};
    let mut data = mirror();
    let outcome = slider.event(PointerEvent::Up { left: true }, true, 42, &mut data);
    assert_eq!(
        outcome,
        SliderOutcome {
            pointer_cursor: false,
            capture: Some(false),
            latch: true,
            command: Some(Command::PlaySeek(42)),
        }
    );
    assert_eq!(data, mirror());

    let mut data = VideoViewState { seeking_enabled: false, ..mirror() };
    let outcome = slider.event(PointerEvent::Up { left: true }, true, 42, &mut data);
    assert_eq!(outcome, SliderOutcome { capture: Some(false), ..IDLE });
    assert_eq!(data, mirror());
}

#[test]
fn releases_elsewhere_do_nothing() {
    let mut slider = SliderController {};
    for seeking_enabled in [false, true] {
        let before = VideoViewState { seeking_enabled, ..mirror() };
        let cases = [
            (PointerEvent::Up { left: true }, false),
            (PointerEvent::Up { left: false }, true),
            (PointerEvent::Up { left: false }, false),
            (PointerEvent::Other, true),
            (PointerEvent::Other, false),
        ];
        for (event, active) in cases {
            let mut data = before.clone();
            assert_eq!(slider.event(event, active, 42, &mut data), IDLE);
            assert_eq!(data, before);
        }
    }
}
