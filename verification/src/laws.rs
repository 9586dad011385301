//! What holds of the engine whatever it is given.

use crate::bus::{verdict_of, BusVerdict};
use crate::channel::{after_send, Notification};
use crate::pipeline::{requested_state, AudioOutput, PipelineState, Request};
use crate::player::{seek_prologue, VideoPlayer, VideoPlayerState};
use crate::position::{seconds_target, SeekTarget};
use crate::view::{Command, Effect, FrameTick, VideoView, VideoViewState, ViewEvent};
use crate::volume::Volume;
use vstd::prelude::*;

verus! {

/// Whether none of the requests changes the pipeline's state.
pub open spec fn leaves_state_alone(requests: Seq<Request>) -> bool {
    forall|i: int| 0 <= i < requests.len() ==> !(#[trigger] requests[i] is SetState)
}

/// Seeking while paused leaves the engine paused. The transport state is
/// `Paused` while the seek is in flight and after it, whether the seek
/// applied or not, and the last state asked of the pipeline is `Paused`.
pub proof fn seek_while_paused_stays_paused(player: VideoPlayer, target: SeekTarget, applied: bool)
    requires
        player.state == VideoPlayerState::Paused,
        player.can_seek(),
    ensures
        player.seeking_to(target, false).state == VideoPlayerState::Paused,
        player.seeking_to(target, false).seek_finished(applied).state == VideoPlayerState::Paused,
        requested_state(
            PipelineState::Paused,
            seek_prologue(player.state, target) + player.seeking_to(
                target,
                false,
            ).finishing_requests(applied),
        ) == PipelineState::Paused,
{
    let requests = seek_prologue(player.state, target) + player.seeking_to(
        target,
        false,
    ).finishing_requests(applied);
}

/// Seeking while playing does not pause playback. The transport state is
/// `Playing` while the seek is in flight and after it, whether the seek
/// applied or not, and nothing asks the pipeline to change its state.
pub proof fn seek_while_playing_keeps_playing(
    player: VideoPlayer,
    target: SeekTarget,
    applied: bool,
)
    requires
        player.state == VideoPlayerState::Playing,
        player.can_seek(),
    ensures
        player.seeking_to(target, false).state == VideoPlayerState::Playing,
        player.seeking_to(target, false).seek_finished(applied).state
            == VideoPlayerState::Playing,
        leaves_state_alone(seek_prologue(player.state, target)),
        leaves_state_alone(player.seeking_to(target, false).finishing_requests(applied)),
{
}

/// A seek leaves the audio unmuted and the volume as it was, whatever
/// state the engine is in and whether the seek applied or not.
pub proof fn seek_leaves_audio_unmuted(
    player: VideoPlayer,
    output: AudioOutput,
    target: SeekTarget,
    applied: bool,
)
    requires
        player.can_seek(),
    ensures
        ({
            let requests = seek_prologue(player.state, target) + player.seeking_to(
                target,
                false,
            ).finishing_requests(applied);
            &&& !output.run(requests).muted
            &&& output.run(requests).volume == output.volume
        }),
{
    let opening = seek_prologue(player.state, target);
    let closing = player.seeking_to(target, false).finishing_requests(applied);
    audio_run_is_sequential(output, opening, closing);
    audio_of_short_run(output, opening);
    audio_of_short_run(output.run(opening), closing);
}

/// What a run of up to three requests does to the audio: each request is
/// applied in turn.
proof fn audio_of_short_run(output: AudioOutput, requests: Seq<Request>)
    requires
        requests.len() <= 3,
    ensures
        requests.len() == 0 ==> output.run(requests) == output,
        requests.len() == 1 ==> output.run(requests) == output.apply(requests[0]),
        requests.len() == 2 ==> output.run(requests) == output.apply(requests[0]).apply(
            requests[1],
        ),
        requests.len() == 3 ==> output.run(requests) == output.apply(requests[0]).apply(
            requests[1],
        ).apply(requests[2]),
    decreases requests.len(),
{
    if requests.len() > 0 {
        audio_of_short_run(output, requests.drop_last());
    }
}

/// Carrying out two runs of requests one after the other is carrying out
/// the two as one run.
pub proof fn audio_run_is_sequential(
    output: AudioOutput,
    first: Seq<Request>,
    second: Seq<Request>,
)
    ensures
        output.run(first + second) == output.run(first).run(second),
    decreases second.len(),
{
    if second.len() > 0 {
        audio_run_is_sequential(output, first, second.drop_last());
        assert((first + second).drop_last() =~= first + second.drop_last());
    }
}

/// Requests that leave the state alone leave a pipeline in the state they
/// found it in.
pub proof fn state_kept_where_left_alone(initial: PipelineState, requests: Seq<Request>)
    requires
        leaves_state_alone(requests),
    ensures
        requested_state(initial, requests) == initial,
    decreases requests.len(),
{
    if requests.len() > 0 {
        state_kept_where_left_alone(initial, requests.drop_last());
    }
}

/// A seek that applied puts the mirror's position at its target. The seek
/// that the pipeline is asked for goes to that very position, and once it
/// has applied the mirror shows it, with the transport state of engine and
/// mirror as before the seek.
pub proof fn applied_seek_lands_on_target(view: VideoView, data: VideoViewState, secs: u64)
    requires
        view.player matches Some(p) && p.can_seek(),
    ensures
        ({
            let seek = ViewEvent::Command(Command::PlaySeek(secs));
            let outcome = ViewEvent::SeekOutcome(true);
            let mirror = view.after(seek).mirror_after(view.mirror_after(data, seek), outcome);
            &&& view.effects_of(data, seek).last() == Effect::Pipeline(
                Request::Seek(seconds_target(secs)),
            )
            &&& mirror.position == secs
            &&& mirror.state == data.state
            &&& view.after(seek).after(outcome).player.unwrap().state == view.player.unwrap().state
        }),
{
}

/// A seek that did not apply leaves the mirror where it was: its position
/// and its state are those from before the seek.
pub proof fn failed_seek_changes_nothing(view: VideoView, data: VideoViewState, secs: u64)
    requires
        view.player matches Some(p) && p.can_seek(),
    ensures
        ({
            let seek = ViewEvent::Command(Command::PlaySeek(secs));
            let outcome = ViewEvent::SeekOutcome(false);
            let mirror = view.after(seek).mirror_after(view.mirror_after(data, seek), outcome);
            &&& mirror.position == data.position
            &&& mirror.state == data.state
            &&& view.after(seek).after(outcome).player.unwrap().state == view.player.unwrap().state
        }),
{
}

/// A position that has reached the duration pauses playback. When a frame
/// arrives at which the position equals the duration, and the duration is
/// known, a pause is submitted, and that pause leaves the engine and the
/// mirror paused.
pub proof fn reaching_the_end_pauses(view: VideoView, data: VideoViewState, tick: FrameTick)
    requires
        view.player matches Some(p) && p.state != VideoPlayerState::Stopped,
        verdict_of(tick.bus@) != BusVerdict::Fatal,
        data.duration > 0,
        VideoView::position_after_frame(data, tick) == data.duration,
    ensures
        ({
            let frame = ViewEvent::VideoFrame(tick);
            let pause = ViewEvent::Command(Command::PlayPause);
            let effects = view.effects_of(data, frame);
            let shown = view.after(frame);
            let mirror = view.mirror_after(data, frame);
            &&& effects.len() >= 2
            &&& effects[effects.len() - 2] == Effect::Submit(Command::PlayPause)
            &&& shown.after(pause).player.unwrap().state == VideoPlayerState::Paused
            &&& shown.mirror_after(mirror, pause).state == VideoPlayerState::Paused
            &&& shown.effects_of(mirror, pause) == seq![
                Effect::Pipeline(Request::SetState(PipelineState::Paused)),
            ]
        }),
{
}

/// Setting the volume is idempotent. Setting the same level twice leaves
/// the engine, and the audio output that carries the requests out, as
/// setting it once does.
pub proof fn set_volume_is_idempotent(player: VideoPlayer, output: AudioOutput, volume: Volume)
    ensures
        player.with_volume(volume).with_volume(volume) == player.with_volume(volume),
        output.apply(Request::SetVolume(volume)).apply(Request::SetVolume(volume)) == output.apply(
            Request::SetVolume(volume),
        ),
        output.apply(Request::SetVolume(volume)).muted == output.muted,
{
}

/// The end of the stream pauses the engine, whatever state it was in, short
/// of stopped.
pub proof fn end_of_stream_pauses(player: VideoPlayer)
    requires
        player.state != VideoPlayerState::Stopped,
    ensures
        player.ended().state == VideoPlayerState::Paused,
        player.ended().is_eos,
        player.ending_requests()[0] == Request::SetState(PipelineState::Paused),
{
}

/// With looping on, the end of the stream starts playback over: a seek to
/// the start is opened, and once it has applied the engine plays again and
/// the pipeline has been asked to play last of all.
pub proof fn looping_restarts_at_the_end(player: VideoPlayer)
    requires
        player.state != VideoPlayerState::Stopped,
        player.looping,
        player.pending.is_none(),
    ensures
        player.ending_requests().last() == Request::Seek(SeekTarget::Time(0)),
        player.ended().seek_finished(true).state == VideoPlayerState::Playing,
        !player.ended().seek_finished(true).is_eos,
        player.ended().finishing_requests(true).last() == Request::SetState(
            PipelineState::Playing,
        ),
        player.ended().seek_finished(false).state == VideoPlayerState::Paused,
{
}

/// A stopped engine stays stopped: no pause, resume, seek, seek outcome or
/// end of stream brings it back.
pub proof fn stopped_is_terminal(player: VideoPlayer, paused: bool, applied: bool)
    requires
        player.state == VideoPlayerState::Stopped,
    ensures
        player.paused_to(paused).state == VideoPlayerState::Stopped,
        player.pause_request(paused).is_none(),
        !player.can_seek(),
        player.seek_finished(applied).state == VideoPlayerState::Stopped,
        player.ended() == player,
        player.ending_requests().len() == 0,
{
}

/// Notifications are delivered in the order they were sent in. What waits
/// in the channel stays ahead of what is sent after it, and of two
/// notifications that a channel has room for the first sent is ahead of the
/// second.
pub proof fn delivery_keeps_order(
    queue: Seq<Notification>,
    capacity: usize,
    first: Notification,
    second: Notification,
)
    ensures
        queue.is_prefix_of(after_send(queue, capacity, first)),
        queue.len() + 2 <= capacity ==> after_send(
            after_send(queue, capacity, first),
            capacity,
            second,
        ) == queue.push(first).push(second),
{
}

/// A channel never holds more than its capacity, and one that is full drops
/// what is sent into it.
pub proof fn full_channel_drops_newest(
    queue: Seq<Notification>,
    capacity: usize,
    notification: Notification,
)
    ensures
        queue.len() <= capacity ==> after_send(queue, capacity, notification).len() <= capacity,
        queue.len() >= capacity ==> after_send(queue, capacity, notification) == queue,
{
}

} // verus!
