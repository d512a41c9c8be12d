//! What holds of whole runs of the driver, whatever the platform replies.

use vstd::prelude::*;
use crate::config::ConfigModel;
use crate::driver::{loop_head, CommandModel, DriverModel, Failure, Phase, ReplyModel};
use crate::event::{any_requests_close, WindowEvent};
use crate::mesh::{buffer_bytes, packed_layout, vertex_count};
use crate::shader::{bounded, report, succeeded, ShaderStage, Target, INFO_LOG_CAPACITY};

verus! {

/// The state reached from `from` once the replies have come in, in order.
pub open spec fn run(from: DriverModel, replies: Seq<ReplyModel>) -> DriverModel
    decreases replies.len(),
{
    if replies.len() == 0 {
        from
    } else {
        run(from, replies.drop_last()).after(replies.last())
    }
}

/// True for the four phases of the render loop.
pub open spec fn in_loop(phase: Phase) -> bool {
    phase is Poll || phase is Clear || phase is Draw || phase is Present
}

/// True for the two ways in which a run ends.
pub open spec fn ended(phase: Phase) -> bool {
    phase is Finished || phase is Failed
}

/// The place of a phase within a round of the render loop. A phase that is
/// no part of the round counts as after it.
pub open spec fn round_place(phase: Phase) -> nat {
    match phase {
        Phase::Poll => 0,
        Phase::Clear => 1,
        Phase::Draw => 2,
        Phase::Present => 3,
        _ => 4,
    }
}

/// The place of a phase in the course of a run. The steps of the setup
/// come first, in their order; the render loop is one place; the normal
/// end follows it. The fetching of a log and the abort come last: they can
/// be reached from the setup, and nothing but the abort follows them.
pub open spec fn position(phase: Phase) -> nat {
    match phase {
        Phase::Window => 0,
        Phase::Context => 1,
        Phase::Load => 2,
        Phase::Framebuffer => 3,
        Phase::Viewport { .. } => 4,
        Phase::Compile(ShaderStage::Vertex) => 5,
        Phase::Compile(ShaderStage::Fragment) => 6,
        Phase::Link => 7,
        Phase::Release(ShaderStage::Vertex) => 8,
        Phase::Release(ShaderStage::Fragment) => 9,
        Phase::Upload => 10,
        Phase::Layout => 11,
        Phase::Unbind => 12,
        Phase::Versions => 13,
        Phase::Poll | Phase::Clear | Phase::Draw | Phase::Present => 14,
        Phase::Finished => 15,
        Phase::Log(_) => 16,
        Phase::Failed(_) => 17,
    }
}

/// True for the phases of a run in which nothing has failed.
pub open spec fn unfailed(phase: Phase) -> bool {
    !(phase is Log) && !(phase is Failed)
}

/// Every reply leaves a well-formed state well-formed.
pub proof fn lemma_after_keeps_wf(state: DriverModel, reply: ReplyModel)
    requires
        state.wf(),
    ensures
        state.after(reply).wf(),
{
}

/// Every state of a run from the start is well-formed.
pub proof fn lemma_run_is_wf(config: ConfigModel, replies: Seq<ReplyModel>)
    requires
        config.wf(),
    ensures
        run(DriverModel::start(config), replies).wf(),
    decreases replies.len(),
{
    if replies.len() > 0 {
        lemma_run_is_wf(config, replies.drop_last());
        lemma_after_keeps_wf(run(DriverModel::start(config), replies.drop_last()), replies.last());
    }
}

/// A reply changes the state only if it answers the pending command, and
/// it never changes the configuration.
pub proof fn lemma_stray_reply_is_ignored(state: DriverModel, reply: ReplyModel)
    ensures
        !state.accepts(reply) ==> state.after(reply) == state,
        state.accepts(reply) ==> state.after(reply).phase != state.phase,
        state.after(reply).config == state.config,
{
}

/// The close flag, once set, stays set.
pub proof fn lemma_close_flag_stays_set(state: DriverModel, reply: ReplyModel)
    requires
        state.should_close,
    ensures
        state.after(reply).should_close,
{
}

/// A batch with a close request or a press of the quit key in it sets the
/// close flag, and the render loop ends with the round in which the batch
/// was polled: its frame is cleared, drawn and presented, and then the
/// program leaves.
pub proof fn lemma_close_request_ends_loop(state: DriverModel, events: Seq<WindowEvent>)
    requires
        state.phase == Phase::Poll,
        any_requests_close(events),
    ensures
        ({
            let polled = state.after(ReplyModel::Events(events));
            let cleared = polled.after(ReplyModel::Done);
            let drawn = cleared.after(ReplyModel::Done);
            let presented = drawn.after(ReplyModel::Done);
            &&& polled.should_close
            &&& polled.phase == Phase::Clear
            &&& cleared.phase == Phase::Draw
            &&& drawn.phase == Phase::Present
            &&& presented.phase == Phase::Finished
            &&& presented.command() == CommandModel::Exit
        }),
{
}

/// A batch without a close request and without a press of the quit key
/// changes nothing but the phase: the close flag stays as it was, and
/// while it is clear the loop goes round, with the same draw call as ever.
pub proof fn lemma_quiet_batch_changes_nothing(state: DriverModel, events: Seq<WindowEvent>)
    requires
        state.phase == Phase::Poll,
        !any_requests_close(events),
    ensures
        ({
            let polled = state.after(ReplyModel::Events(events));
            let cleared = polled.after(ReplyModel::Done);
            let drawn = cleared.after(ReplyModel::Done);
            let presented = drawn.after(ReplyModel::Done);
            &&& polled == state.at(Phase::Clear)
            &&& cleared == state.at(Phase::Draw)
            &&& drawn == state.at(Phase::Present)
            &&& presented == state.at(loop_head(state.should_close))
            &&& !state.should_close ==> presented == state
        }),
{
}

/// Once the close flag is set, no further round begins: whatever is
/// replied, the run goes on through the rest of the round and to the end.
/// It never polls again, and it comes to no step of the round twice.
pub proof fn lemma_no_round_after_close(state: DriverModel, replies: Seq<ReplyModel>)
    requires
        state.wf(),
        state.should_close,
    ensures
        ({
            let then = run(state, replies);
            &&& then.should_close
            &&& !(then.phase is Poll)
            &&& round_place(state.phase) <= round_place(then.phase)
        }),
    decreases replies.len(),
{
    if replies.len() > 0 {
        lemma_no_round_after_close(state, replies.drop_last());
    }
}

/// A run only moves forward. A reply leaves the phase as it is, or leads
/// to a later one; only the phases of the render loop follow one another
/// in a circle. So no step of the setup is ever taken twice.
pub proof fn lemma_run_moves_forward(state: DriverModel, reply: ReplyModel)
    ensures
        ({
            let next = state.after(reply);
            ||| next == state
            ||| position(next.phase) > position(state.phase)
            ||| in_loop(state.phase) && in_loop(next.phase)
        }),
{
}

/// A run that has ended stays as it is.
pub proof fn lemma_end_is_final(state: DriverModel, replies: Seq<ReplyModel>)
    requires
        ended(state.phase),
    ensures
        run(state, replies) == state,
    decreases replies.len(),
{
    if replies.len() > 0 {
        lemma_end_is_final(state, replies.drop_last());
    }
}

/// A build that succeeded leaves no trace: when a compilation or the link
/// is answered by a status other than 0, no log is fetched and none is
/// held, and the run goes on to what is built next.
pub proof fn lemma_successful_build_goes_on(state: DriverModel, status: i32)
    requires
        state.wf(),
        state.phase is Compile || state.phase is Link,
        succeeded(status),
    ensures
        ({
            let built = state.after(ReplyModel::Status(status));
            &&& built == state.at(built.phase)
            &&& built.log.len() == 0
            &&& built.phase == match state.phase {
                Phase::Compile(ShaderStage::Vertex) => Phase::Compile(ShaderStage::Fragment),
                Phase::Compile(ShaderStage::Fragment) => Phase::Link,
                _ => Phase::Release(ShaderStage::Vertex),
            }
        }),
{
}

/// A failed build is reported and nothing else: when a compilation or the
/// link is answered by the status 0, the log is fetched into a buffer of
/// the fixed size, and the run is aborted with a message made of the
/// heading of the failed build and the text of the log.
pub proof fn lemma_failed_build_aborts(state: DriverModel, status: i32, log: Seq<u8>)
    requires
        state.phase is Compile || state.phase is Link,
        !succeeded(status),
    ensures
        ({
            let target = match state.phase {
                Phase::Compile(stage) => Target::Shader(stage),
                _ => Target::Program,
            };
            let failed = state.after(ReplyModel::Status(status));
            let aborted = failed.after(ReplyModel::Log(log));
            &&& failed.command() == CommandModel::FetchLog { target, capacity: INFO_LOG_CAPACITY }
            &&& aborted.phase == Phase::Failed(Failure::Build(target))
            &&& aborted.command() == CommandModel::Abort { message: report(target, bounded(log)) }
            &&& log.len() <= INFO_LOG_CAPACITY ==> aborted.command() == CommandModel::Abort {
                message: report(target, log),
            }
        }),
{
}

/// After a failed build the render loop is never entered: whatever is
/// replied, the run waits for the log or is aborted.
pub proof fn lemma_failed_build_never_draws(state: DriverModel, replies: Seq<ReplyModel>)
    requires
        state.phase is Log,
    ensures
        ({
            let then = run(state, replies);
            then.phase is Log || then.phase is Failed
        }),
    decreases replies.len(),
{
    if replies.len() > 0 {
        lemma_failed_build_never_draws(state, replies.drop_last());
    }
}

/// The draw call reads what was uploaded and nothing else. The upload
/// takes in all coordinates of the configuration, the draw call goes over
/// all their vertices, and with the stride of the layout these vertices
/// fill the buffer to its last byte.
pub proof fn lemma_draw_reads_the_upload(state: DriverModel)
    requires
        state.wf(),
    ensures
        ({
            let coordinates = state.config.vertices;
            &&& state.at(Phase::Upload).command() == CommandModel::UploadVertices {
                coordinates,
                byte_len: buffer_bytes(coordinates) as isize,
            }
            &&& state.at(Phase::Layout).command() == CommandModel::DescribeLayout {
                attribute: packed_layout(),
            }
            &&& state.at(Phase::Draw).command() == CommandModel::DrawFrame {
                first: 0,
                count: vertex_count(coordinates) as i32,
            }
            &&& vertex_count(coordinates) * packed_layout().stride == buffer_bytes(coordinates)
        }),
{
}

/// While nothing has failed, a reply leads at most one place further.
proof fn lemma_one_place_at_a_time(state: DriverModel, reply: ReplyModel)
    requires
        state.wf(),
        unfailed(state.after(reply).phase),
    ensures
        unfailed(state.phase),
        position(state.after(reply).phase) <= position(state.phase) + 1,
{
}

/// No step is skipped. A run from the start in which nothing has failed
/// has been at every place before the one it is at: by the time a frame is
/// drawn, the window was created, both stages were compiled and released,
/// the program was linked, and the vertex data was uploaded and described.
pub proof fn lemma_no_step_is_skipped(config: ConfigModel, replies: Seq<ReplyModel>, place: nat)
    requires
        config.wf(),
        unfailed(run(DriverModel::start(config), replies).phase),
        place < position(run(DriverModel::start(config), replies).phase),
    ensures
        exists|k: int|
            0 <= k < replies.len() && position(
                run(DriverModel::start(config), #[trigger] replies.take(k)).phase,
            ) == place,
    decreases replies.len(),
{
    let start = DriverModel::start(config);
    if replies.len() > 0 {
        let before = run(start, replies.drop_last());
        lemma_run_is_wf(config, replies.drop_last());
        lemma_one_place_at_a_time(before, replies.last());
        // The run was at `place` before the last reply came in, or earlier.
        if place < position(before.phase) {
            lemma_no_step_is_skipped(config, replies.drop_last(), place);
            let k = choose|k: int|
                0 <= k < replies.drop_last().len() && position(
                    run(start, #[trigger] replies.drop_last().take(k)).phase,
                ) == place;
            assert(replies.drop_last().take(k) == replies.take(k));
        }
    }
}

/// Nothing is built on a failed build. A run from the start that has got
/// past a compilation or the link, with nothing failed, was at that step
/// and was answered there by a status that means success.
pub proof fn lemma_builds_succeeded(config: ConfigModel, replies: Seq<ReplyModel>, build: Phase)
    requires
        config.wf(),
        build is Compile || build is Link,
        unfailed(run(DriverModel::start(config), replies).phase),
        position(build) < position(run(DriverModel::start(config), replies).phase),
    ensures
        exists|k: int|
            0 <= k < replies.len() && run(
                DriverModel::start(config),
                #[trigger] replies.take(k),
            ).phase == build && (replies[k] matches ReplyModel::Status(status) && succeeded(
                status,
            )),
    decreases replies.len(),
{
    let start = DriverModel::start(config);
    if replies.len() > 0 {
        let before = run(start, replies.drop_last());
        lemma_run_is_wf(config, replies.drop_last());
        lemma_one_place_at_a_time(before, replies.last());
        // The last reply was the answer to the build, or the build was
        // answered earlier.
        if position(build) < position(before.phase) {
            lemma_builds_succeeded(config, replies.drop_last(), build);
            let k = choose|k: int|
                0 <= k < replies.drop_last().len() && run(
                    start,
                    #[trigger] replies.drop_last().take(k),
                ).phase == build && (replies.drop_last()[k] matches ReplyModel::Status(status)
                    && succeeded(status));
            assert(replies.drop_last().take(k) == replies.take(k));
        }
    }
}

} // verus!
