//! The order in which the signal chain runs its stages.
//!
//! The chain is a row of ring buffers joined by five stages. Each stage takes
//! one frame from the buffer before it and puts one frame into the buffer
//! after it. The processing loop visits the stages in order: it runs the
//! current stage as long as it can, then moves on to the next, and after the
//! last it starts again from the first. This module decides each step of that
//! loop from how full the buffers are; the samples themselves are handled by
//! the caller.
use vstd::prelude::*;

verus! {

/// The stages of the chain, in the order in which the loop visits them.
#[derive(Debug, Clone, Copy, PartialEq, Eq, Structural)]
pub enum Stage {
    /// High-pass filter on the microphone input.
    MicHighPass,
    /// High-pass filter on the far-end (loudspeaker) input.
    FarEndHighPass,
    /// Echo cancellation of the filtered microphone signal.
    EchoCancel,
    /// Filter after echo cancellation.
    NonLinear,
    /// Noise suppression, into the chain's output.
    NoiseSuppress,
}

/// What the loop does next.
#[derive(Debug, Clone, Copy, PartialEq, Eq, Structural)]
pub enum ChainAction {
    /// Filter one frame of the microphone input into the echo canceller's
    /// microphone buffer.
    MicHighPass,
    /// Filter one frame of the far-end input into the echo canceller's
    /// far-end buffer.
    FarEndHighPass,
    /// Cancel the echo in one frame of the microphone buffer. The far-end
    /// frame comes from the far-end buffer if it holds one
    /// (`with_far_end`), and is silence otherwise.
    EchoCancel { with_far_end: bool },
    /// Filter one frame after echo cancellation.
    NonLinear,
    /// Denoise one frame into the chain's output.
    NoiseSuppress,
    /// The current stage cannot run: go on to the next stage.
    NextStage,
}

/// How full each ring buffer of the chain is, in samples: how many samples
/// each buffer that a stage reads holds, and how many free slots each buffer
/// that a stage writes has.
#[derive(Debug, Clone, Copy)]
pub struct ChainLevels {
    pub mic_in: usize,
    pub far_end_in: usize,
    pub hpf_mic: usize,
    pub hpf_mic_free: usize,
    pub hpf_far_end: usize,
    pub hpf_far_end_free: usize,
    pub aec_out: usize,
    pub aec_out_free: usize,
    pub nlp_out: usize,
    pub nlp_out_free: usize,
    pub processed_free: usize,
}

/// The frame sizes of the chain: of the filters, of the echo canceller and
/// of the noise suppressor.
#[derive(Debug, Clone, Copy)]
pub struct FrameSizes {
    pub frame: usize,
    pub aec_frame: usize,
    pub ns_frame: usize,
}

/// The stage can run: the buffer before it holds a whole frame and the one
/// after it has room for one.
pub open spec fn stage_ready(stage: Stage, levels: ChainLevels, sizes: FrameSizes) -> bool {
    match stage {
        Stage::MicHighPass => levels.mic_in >= sizes.frame && levels.hpf_mic_free >= sizes.frame,
        Stage::FarEndHighPass => levels.far_end_in >= sizes.frame && levels.hpf_far_end_free >= sizes.frame,
        Stage::EchoCancel => levels.hpf_mic >= sizes.aec_frame && levels.aec_out_free >= sizes.aec_frame,
        Stage::NonLinear => levels.aec_out >= sizes.frame && levels.nlp_out_free >= sizes.frame,
        Stage::NoiseSuppress => levels.nlp_out >= sizes.ns_frame && levels.processed_free >= sizes.ns_frame,
    }
}

/// The stage that the loop visits after `stage`.
pub open spec fn stage_after(stage: Stage) -> Stage {
    match stage {
        Stage::MicHighPass => Stage::FarEndHighPass,
        Stage::FarEndHighPass => Stage::EchoCancel,
        Stage::EchoCancel => Stage::NonLinear,
        Stage::NonLinear => Stage::NoiseSuppress,
        Stage::NoiseSuppress => Stage::MicHighPass,
    }
}

/// The action that runs `stage` once.
pub open spec fn run_action(stage: Stage, levels: ChainLevels, sizes: FrameSizes) -> ChainAction {
    match stage {
        Stage::MicHighPass => ChainAction::MicHighPass,
        Stage::FarEndHighPass => ChainAction::FarEndHighPass,
        Stage::EchoCancel => ChainAction::EchoCancel { with_far_end: levels.hpf_far_end >= sizes.aec_frame },
        Stage::NonLinear => ChainAction::NonLinear,
        Stage::NoiseSuppress => ChainAction::NoiseSuppress,
    }
}

/// Every buffer that the action reads holds the frame it takes, and every
/// buffer that it writes has room for the frame it puts.
pub open spec fn action_fits(action: ChainAction, levels: ChainLevels, sizes: FrameSizes) -> bool {
    match action {
        ChainAction::MicHighPass => levels.mic_in >= sizes.frame && levels.hpf_mic_free >= sizes.frame,
        ChainAction::FarEndHighPass => levels.far_end_in >= sizes.frame && levels.hpf_far_end_free >= sizes.frame,
        ChainAction::EchoCancel { with_far_end } => {
            &&& levels.hpf_mic >= sizes.aec_frame
            &&& levels.aec_out_free >= sizes.aec_frame
            &&& (with_far_end ==> levels.hpf_far_end >= sizes.aec_frame)
        },
        ChainAction::NonLinear => levels.aec_out >= sizes.frame && levels.nlp_out_free >= sizes.frame,
        ChainAction::NoiseSuppress => levels.nlp_out >= sizes.ns_frame && levels.processed_free >= sizes.ns_frame,
        ChainAction::NextStage => true,
    }
}

/// Each stage is ready exactly when the buffer it reads holds one of its
/// frames and the buffer it writes has room for one, whatever the other
/// buffers hold.
pub proof fn lemma_stage_ready_exactly(stage: Stage, l: ChainLevels, z: FrameSizes)
    ensures
        stage == Stage::MicHighPass ==>
            (stage_ready(stage, l, z) == (l.mic_in >= z.frame && l.hpf_mic_free >= z.frame)),
        stage == Stage::FarEndHighPass ==>
            (stage_ready(stage, l, z) == (l.far_end_in >= z.frame && l.hpf_far_end_free >= z.frame)),
        stage == Stage::EchoCancel ==>
            (stage_ready(stage, l, z) == (l.hpf_mic >= z.aec_frame && l.aec_out_free >= z.aec_frame)),
        stage == Stage::NonLinear ==>
            (stage_ready(stage, l, z) == (l.aec_out >= z.frame && l.nlp_out_free >= z.frame)),
        stage == Stage::NoiseSuppress ==>
            (stage_ready(stage, l, z) == (l.nlp_out >= z.ns_frame && l.processed_free >= z.ns_frame)),
{
}

/// A step of the loop: a ready stage runs once and the loop stays at it, so a
/// stage keeps running while it can; echo cancellation takes the far-end
/// frame as its reference exactly when the far-end buffer holds a whole echo
/// canceller frame, and silence otherwise; a stage that cannot run hands over
/// to the next one in the order mic filter, far-end filter, echo
/// cancellation, filter after it, noise suppression, and back to the first.
pub proof fn lemma_schedule_step_exactly(stage: Stage, l: ChainLevels, z: FrameSizes)
    ensures
        stage == Stage::MicHighPass && (l.mic_in >= z.frame && l.hpf_mic_free >= z.frame) ==>
            schedule_step(stage, l, z) == (ChainAction::MicHighPass, Stage::MicHighPass),
        stage == Stage::MicHighPass && !(l.mic_in >= z.frame && l.hpf_mic_free >= z.frame) ==>
            schedule_step(stage, l, z) == (ChainAction::NextStage, Stage::FarEndHighPass),
        stage == Stage::FarEndHighPass && (l.far_end_in >= z.frame && l.hpf_far_end_free >= z.frame) ==>
            schedule_step(stage, l, z) == (ChainAction::FarEndHighPass, Stage::FarEndHighPass),
        stage == Stage::FarEndHighPass && !(l.far_end_in >= z.frame && l.hpf_far_end_free >= z.frame) ==>
            schedule_step(stage, l, z) == (ChainAction::NextStage, Stage::EchoCancel),
        stage == Stage::EchoCancel && (l.hpf_mic >= z.aec_frame && l.aec_out_free >= z.aec_frame) ==>
            schedule_step(stage, l, z) == (ChainAction::EchoCancel { with_far_end: l.hpf_far_end >= z.aec_frame }, Stage::EchoCancel),
        stage == Stage::EchoCancel && !(l.hpf_mic >= z.aec_frame && l.aec_out_free >= z.aec_frame) ==>
            schedule_step(stage, l, z) == (ChainAction::NextStage, Stage::NonLinear),
        stage == Stage::NonLinear && (l.aec_out >= z.frame && l.nlp_out_free >= z.frame) ==>
            schedule_step(stage, l, z) == (ChainAction::NonLinear, Stage::NonLinear),
        stage == Stage::NonLinear && !(l.aec_out >= z.frame && l.nlp_out_free >= z.frame) ==>
            schedule_step(stage, l, z) == (ChainAction::NextStage, Stage::NoiseSuppress),
        stage == Stage::NoiseSuppress && (l.nlp_out >= z.ns_frame && l.processed_free >= z.ns_frame) ==>
            schedule_step(stage, l, z) == (ChainAction::NoiseSuppress, Stage::NoiseSuppress),
        stage == Stage::NoiseSuppress && !(l.nlp_out >= z.ns_frame && l.processed_free >= z.ns_frame) ==>
            schedule_step(stage, l, z) == (ChainAction::NextStage, Stage::MicHighPass),
{
}

/// One step of the processing loop at `stage`: run the stage once and stay at
/// it if it can run, otherwise go on to the next stage.
pub open spec fn schedule_step(stage: Stage, levels: ChainLevels, sizes: FrameSizes) -> (ChainAction, Stage) {
    if stage_ready(stage, levels, sizes) {
        (run_action(stage, levels, sizes), stage)
    } else {
        (ChainAction::NextStage, stage_after(stage))
    }
}

/// Whether `stage` can run now.
pub fn stage_can_run(stage: Stage, levels: &ChainLevels, sizes: &FrameSizes) -> (ready: bool)
    ensures
        ready == stage_ready(stage, *levels, *sizes),
        stage == Stage::MicHighPass ==>
            (ready == (levels.mic_in >= sizes.frame && levels.hpf_mic_free >= sizes.frame)),
        stage == Stage::FarEndHighPass ==>
            (ready == (levels.far_end_in >= sizes.frame && levels.hpf_far_end_free >= sizes.frame)),
        stage == Stage::EchoCancel ==>
            (ready == (levels.hpf_mic >= sizes.aec_frame && levels.aec_out_free >= sizes.aec_frame)),
        stage == Stage::NonLinear ==>
            (ready == (levels.aec_out >= sizes.frame && levels.nlp_out_free >= sizes.frame)),
        stage == Stage::NoiseSuppress ==>
            (ready == (levels.nlp_out >= sizes.ns_frame && levels.processed_free >= sizes.ns_frame)),
{
    match stage {
        Stage::MicHighPass => levels.mic_in >= sizes.frame && levels.hpf_mic_free >= sizes.frame,
        Stage::FarEndHighPass => levels.far_end_in >= sizes.frame && levels.hpf_far_end_free >= sizes.frame,
        Stage::EchoCancel => levels.hpf_mic >= sizes.aec_frame && levels.aec_out_free >= sizes.aec_frame,
        Stage::NonLinear => levels.aec_out >= sizes.frame && levels.nlp_out_free >= sizes.frame,
        Stage::NoiseSuppress => levels.nlp_out >= sizes.ns_frame && levels.processed_free >= sizes.ns_frame,
    }
}

/// One step of the processing loop at `stage`: if the stage can run, run it
/// once and stay at it; otherwise go on to the next stage. Returns the action
/// and the stage to be at afterwards.
pub fn schedule(stage: Stage, levels: &ChainLevels, sizes: &FrameSizes) -> (step: (ChainAction, Stage))
    ensures
        step == schedule_step(stage, *levels, *sizes),
        stage == Stage::MicHighPass && (levels.mic_in >= sizes.frame && levels.hpf_mic_free >= sizes.frame) ==>
            step == (ChainAction::MicHighPass, Stage::MicHighPass),
        stage == Stage::MicHighPass && !(levels.mic_in >= sizes.frame && levels.hpf_mic_free >= sizes.frame) ==>
            step == (ChainAction::NextStage, Stage::FarEndHighPass),
        stage == Stage::FarEndHighPass && (levels.far_end_in >= sizes.frame && levels.hpf_far_end_free >= sizes.frame) ==>
            step == (ChainAction::FarEndHighPass, Stage::FarEndHighPass),
        stage == Stage::FarEndHighPass && !(levels.far_end_in >= sizes.frame && levels.hpf_far_end_free >= sizes.frame) ==>
            step == (ChainAction::NextStage, Stage::EchoCancel),
        stage == Stage::EchoCancel && (levels.hpf_mic >= sizes.aec_frame && levels.aec_out_free >= sizes.aec_frame) ==>
            step == (ChainAction::EchoCancel { with_far_end: levels.hpf_far_end >= sizes.aec_frame }, Stage::EchoCancel),
        stage == Stage::EchoCancel && !(levels.hpf_mic >= sizes.aec_frame && levels.aec_out_free >= sizes.aec_frame) ==>
            step == (ChainAction::NextStage, Stage::NonLinear),
        stage == Stage::NonLinear && (levels.aec_out >= sizes.frame && levels.nlp_out_free >= sizes.frame) ==>
            step == (ChainAction::NonLinear, Stage::NonLinear),
        stage == Stage::NonLinear && !(levels.aec_out >= sizes.frame && levels.nlp_out_free >= sizes.frame) ==>
            step == (ChainAction::NextStage, Stage::NoiseSuppress),
        stage == Stage::NoiseSuppress && (levels.nlp_out >= sizes.ns_frame && levels.processed_free >= sizes.ns_frame) ==>
            step == (ChainAction::NoiseSuppress, Stage::NoiseSuppress),
        stage == Stage::NoiseSuppress && !(levels.nlp_out >= sizes.ns_frame && levels.processed_free >= sizes.ns_frame) ==>
            step == (ChainAction::NextStage, Stage::MicHighPass),
        action_fits(step.0, *levels, *sizes),
{
    if stage_can_run(stage, levels, sizes) {
        let action = match stage {
            Stage::MicHighPass => ChainAction::MicHighPass,
            Stage::FarEndHighPass => ChainAction::FarEndHighPass,
            Stage::EchoCancel => ChainAction::EchoCancel { with_far_end: levels.hpf_far_end >= sizes.aec_frame },
            Stage::NonLinear => ChainAction::NonLinear,
            Stage::NoiseSuppress => ChainAction::NoiseSuppress,
        };
        (action, stage)
    } else {
        let next = match stage {
            Stage::MicHighPass => Stage::FarEndHighPass,
            Stage::FarEndHighPass => Stage::EchoCancel,
            Stage::EchoCancel => Stage::NonLinear,
            Stage::NonLinear => Stage::NoiseSuppress,
            Stage::NoiseSuppress => Stage::MicHighPass,
        };
        (ChainAction::NextStage, next)
    }
}

/// `t` is one of the five stages that the loop visits from `stage` on,
/// `stage` included.
pub open spec fn visited_from(stage: Stage, t: Stage) -> bool {
    ||| t == stage
    ||| t == stage_after(stage)
    ||| t == stage_after(stage_after(stage))
    ||| t == stage_after(stage_after(stage_after(stage)))
    ||| t == stage_after(stage_after(stage_after(stage_after(stage))))
}

/// The loop visits every stage: five moves to the next stage bring it back to
/// where it started, passing each of the five stages once.
pub proof fn lemma_every_stage_visited(stage: Stage)
    ensures
        stage_after(stage_after(stage_after(stage_after(stage_after(stage))))) == stage,
        forall|t: Stage| #[trigger] visited_from(stage, t),
{
}

/// The loop stalls only when nothing can run: if, with the buffers as they
/// are, each of the five stages in turn gives `NextStage`, then no stage can
/// run until a buffer changes.
pub proof fn lemma_idle_only_when_blocked(stage: Stage, levels: ChainLevels, sizes: FrameSizes)
    requires
        !stage_ready(stage, levels, sizes),
        !stage_ready(stage_after(stage), levels, sizes),
        !stage_ready(stage_after(stage_after(stage)), levels, sizes),
        !stage_ready(stage_after(stage_after(stage_after(stage))), levels, sizes),
        !stage_ready(stage_after(stage_after(stage_after(stage_after(stage)))), levels, sizes),
    ensures
        forall|t: Stage| !#[trigger] stage_ready(t, levels, sizes),
{
    lemma_every_stage_visited(stage);
    assert forall|t: Stage| !#[trigger] stage_ready(t, levels, sizes) by {
        assert(visited_from(stage, t));
    }
}

/// What a run of the chain has done so far, counted in samples and frames,
/// and what its four inner buffers hold. The inner buffers belong to the loop
/// alone, so these counts are also how full they are.
pub struct ChainCounts {
    /// Frames taken from the microphone input.
    pub mic_frames: nat,
    /// Frames taken from the far-end input.
    pub far_frames: nat,
    /// Echo-cancelled frames that used a far-end frame rather than silence.
    pub far_frames_used: nat,
    /// Frames handed to the chain's output.
    pub out_frames: nat,
    /// Samples held by each inner buffer.
    pub hpf_mic: nat,
    pub hpf_far_end: nat,
    pub aec_out: nat,
    pub nlp_out: nat,
}

/// A run that has not started.
pub open spec fn chain_start() -> ChainCounts {
    ChainCounts {
        mic_frames: 0,
        far_frames: 0,
        far_frames_used: 0,
        out_frames: 0,
        hpf_mic: 0,
        hpf_far_end: 0,
        aec_out: 0,
        nlp_out: 0,
    }
}

/// The counts after one action.
pub open spec fn step_counts(counts: ChainCounts, action: ChainAction, sizes: FrameSizes) -> ChainCounts {
    match action {
        ChainAction::MicHighPass => ChainCounts {
            mic_frames: counts.mic_frames + 1,
            hpf_mic: (counts.hpf_mic + sizes.frame) as nat,
            ..counts
        },
        ChainAction::FarEndHighPass => ChainCounts {
            far_frames: counts.far_frames + 1,
            hpf_far_end: (counts.hpf_far_end + sizes.frame) as nat,
            ..counts
        },
        ChainAction::EchoCancel { with_far_end } => ChainCounts {
            hpf_mic: (counts.hpf_mic - sizes.aec_frame) as nat,
            aec_out: (counts.aec_out + sizes.aec_frame) as nat,
            hpf_far_end: if with_far_end { (counts.hpf_far_end - sizes.aec_frame) as nat } else { counts.hpf_far_end },
            far_frames_used: if with_far_end { counts.far_frames_used + 1 } else { counts.far_frames_used },
            ..counts
        },
        ChainAction::NonLinear => ChainCounts {
            aec_out: (counts.aec_out - sizes.frame) as nat,
            nlp_out: (counts.nlp_out + sizes.frame) as nat,
            ..counts
        },
        ChainAction::NoiseSuppress => ChainCounts {
            nlp_out: (counts.nlp_out - sizes.ns_frame) as nat,
            out_frames: counts.out_frames + 1,
            ..counts
        },
        ChainAction::NextStage => counts,
    }
}

/// The levels the loop sees: the inner buffers as the counts say, each of
/// `capacity` samples, and the chain's input and output buffers as `outer`
/// says (they are filled and drained by others).
pub open spec fn observed_levels(outer: ChainLevels, counts: ChainCounts, capacity: nat) -> ChainLevels {
    ChainLevels {
        hpf_mic: counts.hpf_mic as usize,
        hpf_mic_free: (capacity - counts.hpf_mic) as usize,
        hpf_far_end: counts.hpf_far_end as usize,
        hpf_far_end_free: (capacity - counts.hpf_far_end) as usize,
        aec_out: counts.aec_out as usize,
        aec_out_free: (capacity - counts.aec_out) as usize,
        nlp_out: counts.nlp_out as usize,
        nlp_out_free: (capacity - counts.nlp_out) as usize,
        ..outer
    }
}

/// What holds of a run at every moment:
/// - no microphone sample is dropped or invented: every sample taken from
///   the microphone input is in an inner buffer or has been handed to the
///   output;
/// - every far-end sample taken is in the far-end buffer or was used by an
///   echo-cancelled frame;
/// - no inner buffer holds more than its capacity.
pub open spec fn chain_inv(counts: ChainCounts, sizes: FrameSizes, capacity: nat) -> bool {
    &&& counts.mic_frames * sizes.frame == counts.hpf_mic + counts.aec_out + counts.nlp_out + counts.out_frames * sizes.ns_frame
    &&& counts.far_frames * sizes.frame == counts.hpf_far_end + counts.far_frames_used * sizes.aec_frame
    &&& counts.hpf_mic <= capacity
    &&& counts.hpf_far_end <= capacity
    &&& counts.aec_out <= capacity
    &&& counts.nlp_out <= capacity
}

/// The counts and stage after running the loop from `counts` at `stage`,
/// one step for each entry of `outers`, which gives the outer buffers' levels
/// at that step.
pub open spec fn run_chain(counts: ChainCounts, stage: Stage, outers: Seq<ChainLevels>, sizes: FrameSizes, capacity: nat) -> (ChainCounts, Stage)
    decreases outers.len(),
{
    if outers.len() == 0 {
        (counts, stage)
    } else {
        let (action, next) = schedule_step(stage, observed_levels(outers[0], counts, capacity), sizes);
        run_chain(step_counts(counts, action, sizes), next, outers.drop_first(), sizes, capacity)
    }
}

/// Each step of the loop keeps what `chain_inv` says.
pub proof fn lemma_step_keeps_chain_inv(counts: ChainCounts, stage: Stage, outer: ChainLevels, sizes: FrameSizes, capacity: nat)
    requires
        chain_inv(counts, sizes, capacity),
        capacity <= usize::MAX,
    ensures
        chain_inv(
            step_counts(counts, schedule_step(stage, observed_levels(outer, counts, capacity), sizes).0, sizes),
            sizes,
            capacity,
        ),
{
    let levels = observed_levels(outer, counts, capacity);
    let action = schedule_step(stage, levels, sizes).0;
    let next = step_counts(counts, action, sizes);
    let f = sizes.frame as int;
    let a = sizes.aec_frame as int;
    let n = sizes.ns_frame as int;
    match action {
        ChainAction::MicHighPass => {
            assert((counts.mic_frames + 1) * f == counts.mic_frames * f + f) by (nonlinear_arith);
        },
        ChainAction::FarEndHighPass => {
            assert((counts.far_frames + 1) * f == counts.far_frames * f + f) by (nonlinear_arith);
        },
        ChainAction::EchoCancel { with_far_end } => {
            assert((counts.far_frames_used + 1) * a == counts.far_frames_used * a + a) by (nonlinear_arith);
        },
        ChainAction::NoiseSuppress => {
            assert((counts.out_frames + 1) * n == counts.out_frames * n + n) by (nonlinear_arith);
        },
        _ => {},
    }
}

/// Over any run of the loop from the start, at every moment: the samples
/// handed to the output are at most those taken from the microphone, and all
/// in whole frames; the samples held inside the chain stay within its inner
/// buffers' capacity; and far-end samples are taken only as far as echo
/// cancellation uses them, plus what the far-end buffer holds.
pub proof fn lemma_run_laws(stage: Stage, outers: Seq<ChainLevels>, sizes: FrameSizes, capacity: nat)
    requires
        capacity <= usize::MAX,
    ensures
        ({
            let counts = run_chain(chain_start(), stage, outers, sizes, capacity).0;
            &&& chain_inv(counts, sizes, capacity)
            &&& counts.out_frames * sizes.ns_frame <= counts.mic_frames * sizes.frame
            &&& counts.mic_frames * sizes.frame - counts.out_frames * sizes.ns_frame <= 3 * capacity
            &&& counts.far_frames * sizes.frame <= counts.far_frames_used * sizes.aec_frame + capacity
        }),
{
    lemma_run_keeps_chain_inv(chain_start(), stage, outers, sizes, capacity);
}

/// Every run of the loop from counts that satisfy `chain_inv` ends in counts
/// that satisfy it.
pub proof fn lemma_run_keeps_chain_inv(counts: ChainCounts, stage: Stage, outers: Seq<ChainLevels>, sizes: FrameSizes, capacity: nat)
    requires
        chain_inv(counts, sizes, capacity),
        capacity <= usize::MAX,
    ensures
        chain_inv(run_chain(counts, stage, outers, sizes, capacity).0, sizes, capacity),
    decreases outers.len(),
{
    if outers.len() > 0 {
        let (action, next) = schedule_step(stage, observed_levels(outers[0], counts, capacity), sizes);
        lemma_step_keeps_chain_inv(counts, stage, outers[0], sizes, capacity);
        lemma_run_keeps_chain_inv(step_counts(counts, action, sizes), next, outers.drop_first(), sizes, capacity);
    }
}

/// The loop never waits for far-end data: while the microphone input holds a
/// frame and the output has room for one, some stage can always run, as long
/// as each inner buffer can hold a filter frame next to an echo-canceller or
/// noise-suppressor frame.
pub proof fn lemma_never_stalls(counts: ChainCounts, outer: ChainLevels, sizes: FrameSizes, capacity: nat)
    requires
        chain_inv(counts, sizes, capacity),
        capacity <= usize::MAX,
        capacity >= sizes.frame + sizes.aec_frame,
        capacity >= sizes.frame + sizes.ns_frame,
        outer.mic_in >= sizes.frame,
        outer.processed_free >= sizes.ns_frame,
    ensures
        ({
            let levels = observed_levels(outer, counts, capacity);
            ||| stage_ready(Stage::MicHighPass, levels, sizes)
            ||| stage_ready(Stage::EchoCancel, levels, sizes)
            ||| stage_ready(Stage::NonLinear, levels, sizes)
            ||| stage_ready(Stage::NoiseSuppress, levels, sizes)
        }),
{
}

/// The outer buffers keep the chain fed and drained: the microphone input
/// holds a frame and the output has room for one.
pub open spec fn fed_and_drained(outer: ChainLevels, sizes: FrameSizes) -> bool {
    outer.mic_in >= sizes.frame && outer.processed_free >= sizes.ns_frame
}

/// The smaller of the filter frame and the echo-canceller frame.
pub open spec fn least_frame(sizes: FrameSizes) -> int {
    if sizes.frame <= sizes.aec_frame { sizes.frame as int } else { sizes.aec_frame as int }
}

/// Whether a stage other than the far-end filter can run, judged by the inner
/// buffers alone, for outer buffers that keep the chain fed and drained.
pub open spec fn inner_ready(stage: Stage, counts: ChainCounts, sizes: FrameSizes, capacity: nat) -> bool {
    match stage {
        Stage::MicHighPass => capacity - counts.hpf_mic >= sizes.frame,
        Stage::FarEndHighPass => false,
        Stage::EchoCancel => counts.hpf_mic >= sizes.aec_frame && capacity - counts.aec_out >= sizes.aec_frame,
        Stage::NonLinear => counts.aec_out >= sizes.frame && capacity - counts.nlp_out >= sizes.frame,
        Stage::NoiseSuppress => counts.nlp_out >= sizes.ns_frame,
    }
}

/// How many moves to the next stage lie between `stage` and the next stage
/// that `inner_ready` holds of (4 at most).
pub open spec fn stages_to_ready(stage: Stage, counts: ChainCounts, sizes: FrameSizes, capacity: nat) -> int {
    if inner_ready(stage, counts, sizes, capacity) {
        0
    } else if inner_ready(stage_after(stage), counts, sizes, capacity) {
        1
    } else if inner_ready(stage_after(stage_after(stage)), counts, sizes, capacity) {
        2
    } else if inner_ready(stage_after(stage_after(stage_after(stage))), counts, sizes, capacity) {
        3
    } else {
        4
    }
}

/// How far along the chain the held samples are: a sample counts more the
/// further it has come.
pub open spec fn progress_weight(counts: ChainCounts) -> int {
    (2 * (counts.hpf_mic + 2 * counts.aec_out + 3 * counts.nlp_out) + counts.hpf_far_end) as int
}

/// A measure that every step of a fed and drained chain lowers by at least
/// `least_frame(sizes)`, until a frame reaches the output.
pub open spec fn steps_measure(counts: ChainCounts, stage: Stage, sizes: FrameSizes, capacity: nat) -> int {
    5 * (13 * capacity - progress_weight(counts)) + least_frame(sizes) * stages_to_ready(stage, counts, sizes, capacity)
}

/// One step of a fed and drained chain either hands a frame to the output or
/// lowers `steps_measure` by at least `least_frame(sizes)`.
pub proof fn lemma_step_progress(counts: ChainCounts, stage: Stage, outer: ChainLevels, sizes: FrameSizes, capacity: nat)
    requires
        chain_inv(counts, sizes, capacity),
        capacity <= usize::MAX,
        capacity >= sizes.frame + sizes.aec_frame,
        capacity >= sizes.frame + sizes.ns_frame,
        sizes.frame > 0,
        sizes.aec_frame > 0,
        fed_and_drained(outer, sizes),
    ensures
        ({
            let (action, next) = schedule_step(stage, observed_levels(outer, counts, capacity), sizes);
            let after = step_counts(counts, action, sizes);
            &&& after.out_frames >= counts.out_frames
            &&& (action != ChainAction::NoiseSuppress ==>
                    steps_measure(after, next, sizes, capacity) + least_frame(sizes) <= steps_measure(counts, stage, sizes, capacity))
            &&& (action == ChainAction::NoiseSuppress ==> after.out_frames == counts.out_frames + 1)
        }),
{
    let levels = observed_levels(outer, counts, capacity);
    let (action, next) = schedule_step(stage, levels, sizes);
    let after = step_counts(counts, action, sizes);
    let m = least_frame(sizes);
    lemma_step_keeps_chain_inv(counts, stage, outer, sizes, capacity);
    lemma_every_stage_visited(stage);
    lemma_never_stalls(counts, outer, sizes, capacity);
    assert(0 <= stages_to_ready(next, after, sizes, capacity) <= 4);
    if !stage_ready(stage, levels, sizes) {
        assert(!inner_ready(stage, counts, sizes, capacity));
        assert(stages_to_ready(next, after, sizes, capacity) + 1 == stages_to_ready(stage, counts, sizes, capacity)) by {
            if stages_to_ready(stage, counts, sizes, capacity) == 4 {
                let t4 = stage_after(stage_after(stage_after(stage_after(stage))));
                assert(visited_from(stage, Stage::MicHighPass));
                assert(visited_from(stage, Stage::EchoCancel));
                assert(visited_from(stage, Stage::NonLinear));
                assert(visited_from(stage, Stage::NoiseSuppress));
                assert(inner_ready(t4, counts, sizes, capacity));
            }
        }
        let d = stages_to_ready(stage, counts, sizes, capacity);
        let d2 = stages_to_ready(next, after, sizes, capacity);
        assert(m * d == m * d2 + m) by (nonlinear_arith)
            requires
                d == d2 + 1;
    } else if action != ChainAction::NoiseSuppress {
        assert(progress_weight(after) >= progress_weight(counts) + m);
        let d = stages_to_ready(stage, counts, sizes, capacity);
        let d2 = stages_to_ready(next, after, sizes, capacity);
        assert(m * d2 <= 4 * m && m * d >= 0) by (nonlinear_arith)
            requires
                0 <= d2 <= 4,
                0 <= d,
                m > 0;
    }
}

/// A run never takes frames back from the output.
pub proof fn lemma_run_output_monotone(counts: ChainCounts, stage: Stage, outers: Seq<ChainLevels>, sizes: FrameSizes, capacity: nat)
    ensures
        run_chain(counts, stage, outers, sizes, capacity).0.out_frames >= counts.out_frames,
    decreases outers.len(),
{
    if outers.len() > 0 {
        let (action, next) = schedule_step(stage, observed_levels(outers[0], counts, capacity), sizes);
        lemma_run_output_monotone(step_counts(counts, action, sizes), next, outers.drop_first(), sizes, capacity);
    }
}

/// A fed and drained chain hands a frame to its output within enough steps,
/// whatever the far-end input does.
pub proof fn lemma_run_progress(counts: ChainCounts, stage: Stage, outers: Seq<ChainLevels>, sizes: FrameSizes, capacity: nat)
    requires
        chain_inv(counts, sizes, capacity),
        capacity <= usize::MAX,
        capacity >= sizes.frame + sizes.aec_frame,
        capacity >= sizes.frame + sizes.ns_frame,
        sizes.frame > 0,
        sizes.aec_frame > 0,
        forall|i: int| 0 <= i < outers.len() ==> fed_and_drained(#[trigger] outers[i], sizes),
        outers.len() * least_frame(sizes) > steps_measure(counts, stage, sizes, capacity),
    ensures
        run_chain(counts, stage, outers, sizes, capacity).0.out_frames > counts.out_frames,
    decreases outers.len(),
{
    let m = least_frame(sizes);
    assert(progress_weight(counts) <= 13 * capacity);
    if outers.len() == 0 {
        assert(steps_measure(counts, stage, sizes, capacity) >= 0) by (nonlinear_arith)
            requires
                progress_weight(counts) <= 13 * capacity,
                m > 0,
                stages_to_ready(stage, counts, sizes, capacity) >= 0,
                steps_measure(counts, stage, sizes, capacity) == 5 * (13 * capacity - progress_weight(counts)) + m * stages_to_ready(stage, counts, sizes, capacity);
    } else {
        let (action, next) = schedule_step(stage, observed_levels(outers[0], counts, capacity), sizes);
        let after = step_counts(counts, action, sizes);
        let rest = outers.drop_first();
        assert(fed_and_drained(outers[0], sizes));
        lemma_step_progress(counts, stage, outers[0], sizes, capacity);
        lemma_step_keeps_chain_inv(counts, stage, outers[0], sizes, capacity);
        if action == ChainAction::NoiseSuppress {
            lemma_run_output_monotone(after, next, rest, sizes, capacity);
        } else {
            assert forall|i: int| 0 <= i < rest.len() implies fed_and_drained(#[trigger] rest[i], sizes) by {
                assert(rest[i] == outers[i + 1]);
            }
            assert(rest.len() * m == outers.len() * m - m) by (nonlinear_arith)
                requires rest.len() == outers.len() - 1;
            lemma_run_progress(after, next, rest, sizes, capacity);
        }
    }
}

/// From the start, a chain that stays fed and drained for more than
/// (65 * capacity + 4 * least frame) / (least frame) steps has handed at
/// least one frame to its output, even if no far-end sample ever arrives:
/// it never stalls waiting for far-end data or on partial frames.
pub proof fn lemma_output_grows(stage: Stage, outers: Seq<ChainLevels>, sizes: FrameSizes, capacity: nat)
    requires
        capacity <= usize::MAX,
        capacity >= sizes.frame + sizes.aec_frame,
        capacity >= sizes.frame + sizes.ns_frame,
        sizes.frame > 0,
        sizes.aec_frame > 0,
        forall|i: int| 0 <= i < outers.len() ==> fed_and_drained(#[trigger] outers[i], sizes),
        outers.len() * least_frame(sizes) > 65 * capacity + 4 * least_frame(sizes),
    ensures
        run_chain(chain_start(), stage, outers, sizes, capacity).0.out_frames > 0,
{
    let c = chain_start();
    assert(progress_weight(c) == 0);
    assert(stages_to_ready(stage, c, sizes, capacity) <= 4);
    assert(least_frame(sizes) * stages_to_ready(stage, c, sizes, capacity) <= 4 * least_frame(sizes)) by (nonlinear_arith)
        requires
            least_frame(sizes) > 0,
            stages_to_ready(stage, c, sizes, capacity) <= 4;
    lemma_run_progress(c, stage, outers, sizes, capacity);
}

} // verus!
