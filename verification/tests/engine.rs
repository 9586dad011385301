use std::time::Duration;

use druid_video::caps::negotiate;
use druid_video::{
    BuildReport, BuildStage, CapsProbe, ElementKind, EngineConfig, Framerate, PendingSeek,
    PipelinePlan, PipelineState, Position, Propagation, Request, SeekTarget, VideoError,
    VideoPlayer, VideoPlayerState, Volume,
};

fn probe(width: i32, height: i32, numer: i32, denom: i32) -> CapsProbe {
    CapsProbe { width: Some(width), height: Some(height), framerate: Some(Framerate { numer, denom }) }
}

fn plan(live: bool) -> PipelinePlan {
    PipelinePlan::new(&EngineConfig::new("file:///media/test.mp4", live)).unwrap()
}

fn report(duration: Option<u64>) -> BuildReport {
    BuildReport { failure: None, caps: Some(probe(640, 480, 30, 1)), duration }
}

fn paused_player() -> VideoPlayer {
    VideoPlayer::new(&plan(false), &report(Some(10_000_000_000))).unwrap()
}

fn playing_player() -> VideoPlayer {
    let mut player = paused_player();
    player.set_paused(false);
    player
}

#[test]
fn config_starts_at_initial_volume_without_looping() {
    let config = EngineConfig::new("file:///media/test.mp4", true);
    assert_eq!(config.source, "file:///media/test.mp4");
    assert!(config.live);
    assert_eq!(config.volume, Volume::initial());
    assert!(!config.looping);
}

#[test]
fn plan_describes_the_graph() {
    let plan = plan(false);
    assert_eq!(plan.uri, "file:///media/test.mp4");
    assert_eq!(plan.top, ElementKind::Playbin);
    assert_eq!(
        plan.audio_chain,
        vec![ElementKind::Equalizer, ElementKind::AudioConvert, ElementKind::AudioSink]
    );
    assert_eq!(
        plan.video_chain,
        vec![
            ElementKind::Queue,
            ElementKind::VideoConvert,
            ElementKind::VideoScale,
            ElementKind::AppSink
        ]
    );
    assert_eq!(plan.band_gain_db, -24);
    assert_eq!(plan.volume.to_bits(), 0.9f64.to_bits());
    assert!(!plan.looping);
    assert_eq!(plan.ready_state, PipelineState::Paused);
    assert_eq!(plan.ready_timeout_ms, 5000);
    assert!(plan.query_duration);
    assert_eq!(plan.audio_entry(), Some(ElementKind::Equalizer));
    assert_eq!(plan.video_entry(), Some(ElementKind::Queue));
}

#[test]
fn plan_for_a_live_source_queries_no_duration() {
    assert!(!plan(true).query_duration);
}

#[test]
fn plan_takes_volume_and_looping_from_the_config() {
    let mut config = EngineConfig::new("file:///media/test.mp4", false);
    config.volume = Volume::from_bits(0.25f64.to_bits()).unwrap();
    config.looping = true;
    let plan = PipelinePlan::new(&config).unwrap();
    assert_eq!(plan.volume.to_bits(), 0.25f64.to_bits());
    assert!(plan.looping);
}

#[test]
fn plan_normalizes_the_source() {
    let plan = PipelinePlan::new(&EngineConfig::new("FILE:///media/my clip.mp4", false)).unwrap();
    assert_eq!(plan.uri, "file:///media/my%20clip.mp4");
    let plan = PipelinePlan::new(&EngineConfig::new("HTTPS://Example.COM", false)).unwrap();
    assert_eq!(plan.uri, "https://example.com/");
}

#[test]
fn plan_refuses_a_malformed_source() {
    for source in ["", "not a uri", "../media/test.mp4", "/media/test.mp4", "http://"] {
        let result = PipelinePlan::new(&EngineConfig::new(source, false));
        assert_eq!(result.err(), Some(VideoError::Uri), "{source}");
    }
}

#[test]
fn plan_without_chains_has_no_entries() {
    let mut plan = plan(false);
    plan.audio_chain.clear();
    plan.video_chain.clear();
    assert_eq!(plan.audio_entry(), None);
    assert_eq!(plan.video_entry(), None);
}

#[test]
fn elements_name_their_factories() {
    assert_eq!(ElementKind::Playbin.factory_name(), "playbin");
    assert_eq!(ElementKind::Equalizer.factory_name(), "equalizer-3bands");
    assert_eq!(ElementKind::AudioConvert.factory_name(), "audioconvert");
    assert_eq!(ElementKind::AudioSink.factory_name(), "autoaudiosink");
    assert_eq!(ElementKind::Queue.factory_name(), "queue");
    assert_eq!(ElementKind::VideoConvert.factory_name(), "videoconvert");
    assert_eq!(ElementKind::VideoScale.factory_name(), "videoscale");
    assert_eq!(ElementKind::AppSink.factory_name(), "appsink");
}

#[test]
fn failed_stages_map_to_failures() {
    assert_eq!(BuildStage::Initialize.error(), VideoError::Glib);
    assert_eq!(BuildStage::CreateElement.error(), VideoError::GraphBuild);
    assert_eq!(BuildStage::Link.error(), VideoError::GraphBuild);
    assert_eq!(BuildStage::Cast.error(), VideoError::Cast);
    assert_eq!(BuildStage::RequestReady.error(), VideoError::StateChange);
    assert_eq!(BuildStage::AwaitReady.error(), VideoError::StateChange);
}

#[test]
fn failures_propagate_as_documented() {
    let fatal_always = [VideoError::Glib, VideoError::GraphBuild, VideoError::Cast, VideoError::Caps, VideoError::Uri];
    for e in fatal_always {
        assert_eq!(e.propagation(true), Propagation::Fatal);
        assert_eq!(e.propagation(false), Propagation::Fatal);
    }
    assert_eq!(VideoError::StateChange.propagation(true), Propagation::Fatal);
    assert_eq!(VideoError::StateChange.propagation(false), Propagation::Logged);
    for opening in [true, false] {
        assert_eq!(VideoError::Duration.propagation(opening), Propagation::Logged);
        assert_eq!(VideoError::Delivery.propagation(opening), Propagation::Logged);
        assert_eq!(VideoError::Sync.propagation(opening), Propagation::Surfaced);
    }
}

#[test]
fn failures_have_messages() {
    assert_eq!(VideoError::Glib.message(), "failed to initialise the decode subsystem");
    assert_eq!(VideoError::GraphBuild.message(), "failed to build the pipeline graph");
    assert_eq!(VideoError::Cast.message(), "failed to cast gstreamer element");
    assert_eq!(VideoError::StateChange.message(), "failed to change the pipeline state");
    assert_eq!(VideoError::Caps.message(), "failed to get media capabilities");
    assert_eq!(VideoError::Duration.message(), "failed to query media duration or position");
    assert_eq!(VideoError::Sync.message(), "failed to sync with playback");
    assert_eq!(VideoError::Delivery.message(), "failed to deliver a frame");
    assert_eq!(VideoError::Uri.message(), "invalid URI");
}

#[test]
fn volume_takes_exactly_the_doubles_from_zero_to_one() {
    let levels: [f64; 14] = [
        0.0,
        -0.0,
        f64::MIN_POSITIVE,
        5e-324,
        0.1,
        0.5,
        0.9,
        1.0,
        1.0000000000000002,
        2.0,
        -0.5,
        f64::INFINITY,
        f64::NEG_INFINITY,
        f64::NAN,
    ];
    for level in levels {
        let volume = Volume::from_bits(level.to_bits());
        assert_eq!(volume.is_some(), (0.0..=1.0).contains(&level), "{level}");
        if let Some(volume) = volume {
            assert_eq!(volume.to_bits(), level.to_bits());
        }
    }
    assert!(Volume::from_bits(u64::MAX).is_none());
}

#[test]
fn initial_volume_is_nine_tenths() {
    assert_eq!(f64::from_bits(Volume::initial().to_bits()), 0.9);
}

#[test]
fn caps_are_brought_to_lowest_terms() {
    let cases = [
        ((60, 2), (30, 1)),
        ((30, 1), (30, 1)),
        ((30000, 1001), (30000, 1001)),
        ((0, 1), (0, 1)),
        ((0, 7), (0, 1)),
        ((50, 50), (1, 1)),
        ((i32::MAX, i32::MAX), (1, 1)),
        ((i32::MAX, 1), (i32::MAX, 1)),
        ((1, i32::MAX), (1, i32::MAX)),
        ((48000, 2002), (24000, 1001)),
    ];
    for ((numer, denom), (n, d)) in cases {
        let caps = negotiate(Some(probe(1920, 1080, numer, denom))).unwrap();
        assert_eq!(caps.width, 1920);
        assert_eq!(caps.height, 1080);
        assert_eq!(caps.framerate, Framerate { numer: n, denom: d }, "{numer}/{denom}");
    }
}

#[test]
fn incomplete_caps_are_refused() {
    assert_eq!(negotiate(None), Err(VideoError::Caps));
    let whole = probe(640, 480, 30, 1);
    let broken = [
        CapsProbe { width: None, ..whole },
        CapsProbe { height: None, ..whole },
        CapsProbe { framerate: None, ..whole },
        probe(0, 480, 30, 1),
        probe(640, 0, 30, 1),
        probe(-640, 480, 30, 1),
        probe(640, i32::MIN, 30, 1),
        probe(640, 480, -30, 1),
        probe(640, 480, 30, 0),
        probe(640, 480, 30, -1),
        probe(640, 480, i32::MIN, i32::MIN),
    ];
    for probe in broken {
        assert_eq!(negotiate(Some(probe)), Err(VideoError::Caps), "{probe:?}");
    }
}

#[test]
fn open_gives_a_paused_engine() {
    let player = paused_player();
    assert_eq!(player.state, VideoPlayerState::Paused);
    assert_eq!(player.size(), (640, 480));
    assert_eq!(player.framerate, Framerate { numer: 30, denom: 1 });
    assert_eq!(player.duration, 10_000_000_000);
    assert_eq!(player.duration(), Duration::from_secs(10));
    assert_eq!(player.volume, Volume::initial());
    assert!(!player.muted);
    assert!(!player.looping);
    assert!(!player.eos());
    assert!(!player.restart_stream);
    assert_eq!(player.pending, None);
}

#[test]
fn open_fails_with_the_failure_of_the_stage() {
    let stages = [
        (BuildStage::Initialize, VideoError::Glib),
        (BuildStage::CreateElement, VideoError::GraphBuild),
        (BuildStage::Link, VideoError::GraphBuild),
        (BuildStage::Cast, VideoError::Cast),
        (BuildStage::RequestReady, VideoError::StateChange),
        (BuildStage::AwaitReady, VideoError::StateChange),
    ];
    for (stage, error) in stages {
        let report = BuildReport { failure: Some(stage), ..report(Some(1)) };
        assert_eq!(VideoPlayer::new(&plan(false), &report), Err(error));
        let bare = BuildReport { failure: Some(stage), caps: None, duration: None };
        assert_eq!(VideoPlayer::new(&plan(false), &bare), Err(error));
    }
}

#[test]
fn open_fails_without_capabilities() {
    let report = BuildReport { failure: None, caps: None, duration: Some(1) };
    assert_eq!(VideoPlayer::new(&plan(false), &report), Err(VideoError::Caps));
    let report = BuildReport { failure: None, caps: Some(probe(640, 480, 30, 0)), duration: Some(1) };
    assert_eq!(VideoPlayer::new(&plan(false), &report), Err(VideoError::Caps));
}

#[test]
fn open_survives_an_unknown_duration() {
    let player = VideoPlayer::new(&plan(false), &report(None)).unwrap();
    assert_eq!(player.duration, 0);
    assert_eq!(player.state, VideoPlayerState::Paused);
}

#[test]
fn open_of_a_live_source_has_no_duration() {
    let player = VideoPlayer::new(&plan(true), &report(Some(10_000_000_000))).unwrap();
    assert_eq!(player.duration, 0);
    assert_eq!(player.duration(), Duration::ZERO);
}

#[test]
fn open_takes_volume_and_looping_from_the_plan() {
    let mut plan = plan(false);
    plan.volume = Volume::from_bits(0.5f64.to_bits()).unwrap();
    plan.looping = true;
    let player = VideoPlayer::new(&plan, &report(None)).unwrap();
    assert_eq!(player.volume.to_bits(), 0.5f64.to_bits());
    assert!(player.looping);
}

#[test]
fn set_volume_is_recorded_and_requested() {
    let mut player = paused_player();
    let half = Volume::from_bits(0.5f64.to_bits()).unwrap();
    let before = player;
    assert_eq!(player.set_volume(half), Request::SetVolume(half));
    assert_eq!(player, VideoPlayer { volume: half, ..before });
}

#[test]
fn set_volume_twice_is_set_volume_once() {
    let mut player = paused_player();
    let half = Volume::from_bits(0.5f64.to_bits()).unwrap();
    let first = player.set_volume(half);
    let once = player;
    let second = player.set_volume(half);
    assert_eq!(first, second);
    assert_eq!(player, once);
}

#[test]
fn set_muted_is_recorded_and_requested() {
    let mut player = paused_player();
    assert_eq!(player.set_muted(true), Request::SetMute(true));
    assert!(player.muted);
    assert_eq!(player.volume, Volume::initial());
    assert_eq!(player.set_muted(false), Request::SetMute(false));
    assert!(!player.muted);
}

#[test]
fn set_looping_is_recorded() {
    let mut player = paused_player();
    player.set_looping(true);
    assert!(player.looping);
    player.set_looping(false);
    assert_eq!(player, paused_player());
}

#[test]
fn resume_and_pause_flip_the_state() {
    let mut player = paused_player();
    assert_eq!(player.set_paused(false), Some(Request::SetState(PipelineState::Playing)));
    assert_eq!(player.state, VideoPlayerState::Playing);
    assert!(!player.restart_stream);
    assert_eq!(player.set_paused(true), Some(Request::SetState(PipelineState::Paused)));
    assert_eq!(player.state, VideoPlayerState::Paused);
    assert_eq!(player.set_paused(true), Some(Request::SetState(PipelineState::Paused)));
    assert_eq!(player.state, VideoPlayerState::Paused);
}

#[test]
fn resume_after_the_end_marks_a_restart() {
    let mut player = playing_player();
    player.end_of_stream();
    assert!(player.eos());
    player.set_paused(true);
    assert!(!player.restart_stream);
    player.set_paused(false);
    assert!(player.restart_stream);
    assert!(player.eos());
}

#[test]
fn seek_while_paused_forces_playing_and_back() {
    let mut player = paused_player();
    let opening = player.seek(Position::Time(Duration::from_secs(8))).unwrap();
    let target = SeekTarget::Time(8_000_000_000);
    assert_eq!(
        opening,
        vec![
            Request::SetMute(true),
            Request::SetState(PipelineState::Playing),
            Request::Seek(target)
        ]
    );
    assert_eq!(player.state, VideoPlayerState::Paused);
    assert_eq!(player.pending, Some(PendingSeek { target, resume: false }));
    let done = player.finish_seek(true);
    assert_eq!(
        done.requests,
        vec![
            Request::SetMute(false),
            Request::AwaitState(20),
            Request::SetState(PipelineState::Paused)
        ]
    );
    assert_eq!(done.result, Ok(()));
    assert_eq!(player, paused_player());
}

#[test]
fn seek_while_playing_asks_for_no_state() {
    let mut player = playing_player();
    let opening = player.seek(Position::Frame(240)).unwrap();
    assert_eq!(opening, vec![Request::SetMute(true), Request::Seek(SeekTarget::Frame(240))]);
    assert_eq!(player.state, VideoPlayerState::Playing);
    let done = player.finish_seek(true);
    assert_eq!(done.requests, vec![Request::SetMute(false)]);
    assert_eq!(done.result, Ok(()));
    assert_eq!(player, playing_player());
}

#[test]
fn failed_seek_is_abandoned() {
    let mut player = paused_player();
    player.seek(Position::Frame(1)).unwrap();
    let done = player.finish_seek(false);
    assert_eq!(
        done.requests,
        vec![Request::SetMute(false), Request::SetState(PipelineState::Paused)]
    );
    assert_eq!(done.result, Err(VideoError::Sync));
    assert_eq!(player, paused_player());

    let mut player = playing_player();
    player.seek(Position::Frame(1)).unwrap();
    let done = player.finish_seek(false);
    assert_eq!(done.requests, vec![Request::SetMute(false)]);
    assert_eq!(done.result, Err(VideoError::Sync));
    assert_eq!(player, playing_player());
}

#[test]
fn seek_unmutes_and_leaves_the_end_behind() {
    let mut player = playing_player();
    player.end_of_stream();
    player.set_paused(false);
    player.set_muted(true);
    player.seek(Position::Frame(0)).unwrap();
    assert!(player.muted);
    player.finish_seek(true);
    assert!(!player.muted);
    assert!(!player.eos());
    assert!(!player.restart_stream);
}

#[test]
fn failed_seek_stays_at_the_end() {
    let mut player = playing_player();
    player.end_of_stream();
    player.seek(Position::Frame(0)).unwrap();
    player.finish_seek(false);
    assert!(player.eos());
}

#[test]
fn seek_is_refused_while_one_is_in_flight() {
    let mut player = paused_player();
    player.seek(Position::Frame(1)).unwrap();
    let before = player;
    assert_eq!(player.seek(Position::Frame(2)), Err(VideoError::Sync));
    assert_eq!(player, before);
}

#[test]
fn seek_is_refused_once_stopped() {
    let mut player = paused_player();
    player.shutdown();
    let before = player;
    assert_eq!(player.seek(Position::Frame(2)), Err(VideoError::Sync));
    assert_eq!(player, before);
}

#[test]
fn finish_without_a_seek_does_nothing() {
    for applied in [true, false] {
        let mut player = playing_player();
        let done = player.finish_seek(applied);
        assert!(done.requests.is_empty());
        assert_eq!(done.result, Ok(()));
        assert_eq!(player, playing_player());
    }
}

#[test]
fn seek_on_a_live_source_is_accepted() {
    let mut player = VideoPlayer::new(&plan(true), &report(None)).unwrap();
    assert_eq!(player.duration, 0);
    let opening = player.seek(Position::Time(Duration::from_secs(30))).unwrap();
    assert_eq!(opening.last(), Some(&Request::Seek(SeekTarget::Time(30_000_000_000))));
    assert_eq!(player.finish_seek(true).result, Ok(()));
    assert_eq!(player.state, VideoPlayerState::Paused);
    assert_eq!(player.duration, 0);
}

#[test]
fn end_of_stream_pauses() {
    let mut player = playing_player();
    assert_eq!(player.end_of_stream(), vec![Request::SetState(PipelineState::Paused)]);
    assert_eq!(player.state, VideoPlayerState::Paused);
    assert!(player.eos());
    assert_eq!(player.pending, None);

    let mut player = paused_player();
    assert_eq!(player.end_of_stream(), vec![Request::SetState(PipelineState::Paused)]);
    assert_eq!(player.state, VideoPlayerState::Paused);
    assert!(player.eos());
}

#[test]
fn end_of_stream_restarts_a_looping_engine() {
    let mut player = playing_player();
    player.set_looping(true);
    assert_eq!(
        player.end_of_stream(),
        vec![
            Request::SetState(PipelineState::Paused),
            Request::SetMute(true),
            Request::SetState(PipelineState::Playing),
            Request::Seek(SeekTarget::Time(0)),
        ]
    );
    assert_eq!(player.state, VideoPlayerState::Paused);
    assert!(player.eos());
    assert_eq!(player.pending, Some(PendingSeek { target: SeekTarget::Time(0), resume: true }));
    let done = player.finish_seek(true);
    assert_eq!(
        done.requests,
        vec![
            Request::SetMute(false),
            Request::AwaitState(20),
            Request::SetState(PipelineState::Paused),
            Request::SetState(PipelineState::Playing),
        ]
    );
    assert_eq!(done.result, Ok(()));
    assert_eq!(player.state, VideoPlayerState::Playing);
    assert!(!player.eos());
    assert_eq!(player.pending, None);
}

#[test]
fn failed_restart_stays_paused_at_the_end() {
    let mut player = playing_player();
    player.set_looping(true);
    player.end_of_stream();
    let done = player.finish_seek(false);
    assert_eq!(done.result, Err(VideoError::Sync));
    assert_eq!(player.state, VideoPlayerState::Paused);
    assert!(player.eos());
}

#[test]
fn end_of_stream_does_not_restart_over_a_seek_in_flight() {
    let mut player = playing_player();
    player.set_looping(true);
    player.seek(Position::Frame(5)).unwrap();
    assert_eq!(player.end_of_stream(), vec![Request::SetState(PipelineState::Paused)]);
    assert_eq!(player.pending, Some(PendingSeek { target: SeekTarget::Frame(5), resume: false }));
    assert_eq!(player.state, VideoPlayerState::Paused);
}

#[test]
fn shutdown_stops_for_good() {
    let mut player = playing_player();
    player.seek(Position::Frame(5)).unwrap();
    assert_eq!(player.shutdown(), Request::SetState(PipelineState::Null));
    assert_eq!(player.state, VideoPlayerState::Stopped);
    assert_eq!(player.pending, None);
    let stopped = player;
    assert_eq!(player.set_paused(false), None);
    assert_eq!(player.set_paused(true), None);
    assert!(player.end_of_stream().is_empty());
    assert!(player.finish_seek(true).requests.is_empty());
    assert_eq!(player, stopped);
    assert_eq!(player.shutdown(), Request::SetState(PipelineState::Null));
    assert_eq!(player, stopped);
}

#[test]
fn position_is_what_the_pipeline_answered() {
    let player = playing_player();
    assert_eq!(player.position(Some(3_250_000_000)), Duration::from_millis(3250));
    assert_eq!(player.position(Some(0)), Duration::ZERO);
    assert_eq!(player.position(Some(u64::MAX)), Duration::from_nanos(u64::MAX));
    assert_eq!(player.position(None), Duration::ZERO);
}
