use hacore::ring::copy_chunk;
use hacore::schedule::{schedule, stage_can_run, ChainAction, ChainLevels, FrameSizes, Stage};
use hacore::forward::{forward_frame, frame_outcome, reported_count};
use hacore::{
    frame_ready, frames_ready, stage_capacity, ApplePlatformAudioProcessor, DecodeCommand,
    EmptyAudioProcessor, SampleConsumer, SampleProducer, Shortfall, FRAME10MS,
};
use rtrb::RingBuffer;

fn fill(prod: &mut rtrb::Producer<u32>, start: u32, count: usize) {
    for i in 0..count {
        prod.push(start + i as u32).unwrap();
    }
}

fn drain(cons: &mut rtrb::Consumer<u32>) -> Vec<u32> {
    let mut out = Vec::new();
    while let Ok(v) = cons.pop() {
        out.push(v);
    }
    out
}

struct Rig {
    mic_in_p: rtrb::Producer<u32>,
    mic_in_c: SampleConsumer,
    ref_in_p: rtrb::Producer<u32>,
    ref_in_c: SampleConsumer,
    mic_out_p: SampleProducer,
    mic_out_c: rtrb::Consumer<u32>,
    ref_out_p: SampleProducer,
    ref_out_c: rtrb::Consumer<u32>,
}

fn rig(in_cap: usize, out_cap: usize) -> Rig {
    let (mic_in_p, mic_in_c) = RingBuffer::new(in_cap);
    let (ref_in_p, ref_in_c) = RingBuffer::new(in_cap);
    let (mic_out_p, mic_out_c) = RingBuffer::new(out_cap);
    let (ref_out_p, ref_out_c) = RingBuffer::new(out_cap);
    Rig {
        mic_in_p,
        mic_in_c: SampleConsumer::new(mic_in_c),
        ref_in_p,
        ref_in_c: SampleConsumer::new(ref_in_c),
        mic_out_p: SampleProducer::new(mic_out_p),
        mic_out_c,
        ref_out_p: SampleProducer::new(ref_out_p),
        ref_out_c,
    }
}

fn run(p: &mut EmptyAudioProcessor, r: &mut Rig) -> Option<Shortfall> {
    p.process(&mut r.mic_in_c, &mut r.ref_in_c, &mut r.mic_out_p, &mut r.ref_out_p)
}

fn short(mic_in: Option<usize>, ref_in: Option<usize>, mic_out: Option<usize>, ref_out: Option<usize>) -> Option<Shortfall> {
    Some(Shortfall { mic_in, ref_in, mic_out, ref_out })
}

#[test]
fn empty_processor_builds() {
    assert!(EmptyAudioProcessor::build().is_ok());
}

#[test]
fn apple_processor_builds_and_denoises_a_frame() {
    let mut p = ApplePlatformAudioProcessor::build().unwrap();
    let input = [0.0f32; FRAME10MS];
    let mut output = [1.0f32; FRAME10MS];
    p.denoise_state().process_frame(&mut output, &input);
    assert!(output.iter().all(|x| x.is_finite()));
}

#[test]
fn forwards_whole_frames_unchanged() {
    let mut p = EmptyAudioProcessor::build().unwrap();
    let mut r = rig(4096, 4096);
    fill(&mut r.mic_in_p, 1000, 2 * FRAME10MS);
    fill(&mut r.ref_in_p, 50000, 2 * FRAME10MS);
    assert_eq!(run(&mut p, &mut r), short(Some(0), Some(0), None, None));
    let mic: Vec<u32> = (0..2 * FRAME10MS as u32).map(|i| 1000 + i).collect();
    let refs: Vec<u32> = (0..2 * FRAME10MS as u32).map(|i| 50000 + i).collect();
    assert_eq!(drain(&mut r.mic_out_c), mic);
    assert_eq!(drain(&mut r.ref_out_c), refs);
    assert_eq!(r.mic_in_c.available(), 0);
    assert_eq!(r.ref_in_c.available(), 0);
}

#[test]
fn partial_frame_stays_in_input() {
    let mut p = EmptyAudioProcessor::build().unwrap();
    let mut r = rig(4096, 4096);
    fill(&mut r.mic_in_p, 0, 700);
    fill(&mut r.ref_in_p, 0, 900);
    assert_eq!(run(&mut p, &mut r), short(Some(220), Some(420), None, None));
    assert_eq!(r.mic_out_c.slots(), FRAME10MS);
    assert_eq!(r.ref_out_c.slots(), FRAME10MS);
    assert_eq!(r.mic_in_c.available(), 700 - FRAME10MS);
    assert_eq!(r.ref_in_c.available(), 900 - FRAME10MS);
    let mut rest = r.mic_in_c.into_inner();
    assert_eq!(rest.pop(), Ok(FRAME10MS as u32));
}

#[test]
fn nothing_moves_when_reference_is_short() {
    let mut p = EmptyAudioProcessor::build().unwrap();
    let mut r = rig(4096, 4096);
    fill(&mut r.mic_in_p, 0, 3 * FRAME10MS);
    fill(&mut r.ref_in_p, 0, FRAME10MS - 1);
    assert_eq!(run(&mut p, &mut r), short(None, Some(FRAME10MS - 1), None, None));
    assert_eq!(r.mic_out_c.slots(), 0);
    assert_eq!(r.ref_out_c.slots(), 0);
    assert_eq!(r.mic_in_c.available(), 3 * FRAME10MS);
    assert_eq!(r.ref_in_c.available(), FRAME10MS - 1);
}

#[test]
fn nothing_moves_when_an_output_is_full() {
    let mut p = EmptyAudioProcessor::build().unwrap();
    let (mut ref_out_p, mut ref_out_c) = RingBuffer::new(FRAME10MS);
    fill(&mut ref_out_p, 7, 1);
    let (mic_out_p, mut mic_out_c) = RingBuffer::new(FRAME10MS);
    let (mut mic_in_p, mic_in_c) = RingBuffer::new(4096);
    let (mut ref_in_p, ref_in_c) = RingBuffer::new(4096);
    fill(&mut mic_in_p, 0, FRAME10MS);
    fill(&mut ref_in_p, 0, FRAME10MS);
    let mut mic_in = SampleConsumer::new(mic_in_c);
    let mut ref_in = SampleConsumer::new(ref_in_c);
    let mut mic_out = SampleProducer::new(mic_out_p);
    let mut ref_out = SampleProducer::new(ref_out_p);
    let stop = p.process(&mut mic_in, &mut ref_in, &mut mic_out, &mut ref_out);
    assert_eq!(stop, short(None, None, None, Some(FRAME10MS - 1)));
    assert_eq!(mic_out_c.slots(), 0);
    assert_eq!(ref_out_c.slots(), 1);
    assert_eq!(drain(&mut ref_out_c), vec![7]);
    assert_eq!(mic_in.available(), FRAME10MS);
    assert_eq!(ref_in.available(), FRAME10MS);
}

#[test]
fn output_room_limits_the_frames_moved() {
    let mut p = EmptyAudioProcessor::build().unwrap();
    let mut r = rig(4096, 2 * FRAME10MS + 10);
    fill(&mut r.mic_in_p, 0, 4 * FRAME10MS);
    fill(&mut r.ref_in_p, 0, 4 * FRAME10MS);
    assert_eq!(run(&mut p, &mut r), short(None, None, Some(10), Some(10)));
    assert_eq!(r.mic_out_c.slots(), 2 * FRAME10MS);
    assert_eq!(r.ref_out_c.slots(), 2 * FRAME10MS);
    assert_eq!(r.mic_in_c.available(), 2 * FRAME10MS);
}

#[test]
fn frames_that_wrap_around_keep_their_order() {
    let mut p = EmptyAudioProcessor::build().unwrap();
    // Input and output buffers of different sizes, with their positions
    // moved so that the frame wraps at a different place in each.
    let (mut mic_in_p, mut mic_in_c) = RingBuffer::new(1000);
    let (mut ref_in_p, mut ref_in_c) = RingBuffer::new(1000);
    let (mut mic_out_p, mut mic_out_c) = RingBuffer::new(700);
    let (mut ref_out_p, mut ref_out_c) = RingBuffer::new(700);
    fill(&mut mic_in_p, 0, 900);
    fill(&mut ref_in_p, 0, 300);
    drain(&mut mic_in_c);
    drain(&mut ref_in_c);
    fill(&mut mic_out_p, 0, 600);
    fill(&mut ref_out_p, 0, 100);
    drain(&mut mic_out_c);
    drain(&mut ref_out_c);
    fill(&mut mic_in_p, 10_000, FRAME10MS);
    fill(&mut ref_in_p, 20_000, FRAME10MS);
    let mut mic_in = SampleConsumer::new(mic_in_c);
    let mut ref_in = SampleConsumer::new(ref_in_c);
    let mut mic_out = SampleProducer::new(mic_out_p);
    let mut ref_out = SampleProducer::new(ref_out_p);
    let stop = p.process(&mut mic_in, &mut ref_in, &mut mic_out, &mut ref_out);
    assert_eq!(stop, short(Some(0), Some(0), Some(220), Some(220)));
    let mic: Vec<u32> = (0..FRAME10MS as u32).map(|i| 10_000 + i).collect();
    let refs: Vec<u32> = (0..FRAME10MS as u32).map(|i| 20_000 + i).collect();
    assert_eq!(drain(&mut mic_out_c), mic);
    assert_eq!(drain(&mut ref_out_c), refs);
}

#[test]
fn forward_frame_moves_one_frame_of_any_size() {
    let (mut a_p, a_c) = RingBuffer::new(16);
    let (mut b_p, b_c) = RingBuffer::new(16);
    let (c_p, mut c_c) = RingBuffer::new(16);
    let (d_p, mut d_c) = RingBuffer::new(16);
    fill(&mut a_p, 1, 5);
    fill(&mut b_p, 100, 5);
    let mut mic_in = SampleConsumer::new(a_c);
    let mut ref_in = SampleConsumer::new(b_c);
    let mut mic_out = SampleProducer::new(c_p);
    let mut ref_out = SampleProducer::new(d_p);
    assert_eq!(forward_frame(&mut mic_in, &mut ref_in, &mut mic_out, &mut ref_out, 3), Ok(()));
    assert_eq!(drain(&mut c_c), vec![1, 2, 3]);
    assert_eq!(drain(&mut d_c), vec![100, 101, 102]);
    assert_eq!(
        forward_frame(&mut mic_in, &mut ref_in, &mut mic_out, &mut ref_out, 3),
        Err(Shortfall { mic_in: Some(2), ref_in: Some(2), mic_out: None, ref_out: None })
    );
    assert_eq!(forward_frame(&mut mic_in, &mut ref_in, &mut mic_out, &mut ref_out, 0), Ok(()));
    assert_eq!(mic_in.available(), 2);
    assert_eq!(ref_in.available(), 2);
    assert_eq!(c_c.slots(), 0);
}

#[test]
fn copy_chunk_copies_across_split_chunks() {
    let (mut src_p, mut src_c) = RingBuffer::<u32>::new(10);
    let (mut dst_p, mut dst_c) = RingBuffer::<u32>::new(8);
    fill(&mut src_p, 0, 7);
    drain(&mut src_c);
    fill(&mut src_p, 1, 6);
    fill(&mut dst_p, 0, 3);
    drain(&mut dst_c);
    {
        let src = src_c.read_chunk(6).unwrap();
        let mut dst = dst_p.write_chunk(6).unwrap();
        copy_chunk(&src, &mut dst);
        let (a, b) = dst.as_mut_slices();
        let mut got = a.to_vec();
        got.extend_from_slice(b);
        assert_eq!(got, vec![1, 2, 3, 4, 5, 6]);
        dst.commit_all();
        src.commit_all();
    }
    assert_eq!(drain(&mut dst_c), vec![1, 2, 3, 4, 5, 6]);
}

#[test]
fn frame_ready_needs_a_frame_on_both_sides() {
    assert!(frame_ready(480, 480, 480));
    assert!(!frame_ready(479, 1000, 480));
    assert!(!frame_ready(1000, 479, 480));
    assert!(frame_ready(0, 0, 0));
}

#[test]
fn frames_ready_needs_all_four_buffers() {
    assert!(frames_ready(480, 500, 960, 480, 480));
    assert!(!frames_ready(480, 500, 960, 479, 480));
    assert!(!frames_ready(100, 500, 960, 480, 480));
}

#[test]
fn stage_capacity_holds_four_of_the_larger_frame() {
    assert_eq!(stage_capacity(480, 512), 2048);
    assert_eq!(stage_capacity(480, 256), 1920);
    assert_eq!(stage_capacity(0, 0), 0);
}

#[test]
fn decode_commands_keep_their_payload() {
    let c = DecodeCommand::DecodeFEC(vec![1, 2, 3]);
    match c.clone() {
        DecodeCommand::DecodeFEC(p) => assert_eq!(p, vec![1, 2, 3]),
        _ => panic!("wrong variant"),
    }
    assert!(matches!(DecodeCommand::DecodePLC, DecodeCommand::DecodePLC));
    assert!(matches!(DecodeCommand::DecodeNormal(vec![]), DecodeCommand::DecodeNormal(_)));
}

#[test]
fn a_frame_is_what_the_noise_suppressor_takes() {
    assert_eq!(FRAME10MS, nnnoiseless::DenoiseState::FRAME_SIZE);
}

#[test]
fn streams_move_in_lockstep_one_frame_at_a_time() {
    let mut p = EmptyAudioProcessor::build().unwrap();
    let mut r = rig(4 * FRAME10MS, 4 * FRAME10MS);
    for _ in 0..2 * FRAME10MS {
        r.mic_in_p.push(0.25f32.to_bits()).unwrap();
    }
    for _ in 0..FRAME10MS {
        r.ref_in_p.push((-0.5f32).to_bits()).unwrap();
    }
    assert_eq!(run(&mut p, &mut r), short(None, Some(0), None, None));
    let mic: Vec<f32> = drain(&mut r.mic_out_c).into_iter().map(f32::from_bits).collect();
    let refs: Vec<f32> = drain(&mut r.ref_out_c).into_iter().map(f32::from_bits).collect();
    assert_eq!(mic, vec![0.25f32; FRAME10MS]);
    assert_eq!(refs, vec![-0.5f32; FRAME10MS]);
    assert_eq!(r.mic_in_c.available(), FRAME10MS);
    assert_eq!(r.ref_in_c.available(), 0);
}

#[test]
fn a_frame_moves_only_when_all_four_reservations_succeed() {
    assert_eq!(frame_outcome(None, None, None, None), Ok(()));
    assert_eq!(
        frame_outcome(None, Some(3), None, Some(0)),
        Err(Shortfall { mic_in: None, ref_in: Some(3), mic_out: None, ref_out: Some(0) })
    );
    assert_eq!(reported_count::<u8>(&Ok(1)), None);
    assert_eq!(reported_count::<u8>(&Err(7)), Some(7));
}

fn levels() -> ChainLevels {
    ChainLevels {
        mic_in: 0,
        far_end_in: 0,
        hpf_mic: 0,
        hpf_mic_free: 2048,
        hpf_far_end: 0,
        hpf_far_end_free: 2048,
        aec_out: 0,
        aec_out_free: 2048,
        nlp_out: 0,
        nlp_out_free: 2048,
        processed_free: 2048,
    }
}

const SIZES: FrameSizes = FrameSizes { frame: 480, aec_frame: 512, ns_frame: 480 };

#[test]
fn a_ready_stage_runs_and_stays_current() {
    let mut l = levels();
    l.mic_in = 480;
    assert_eq!(schedule(Stage::MicHighPass, &l, &SIZES), (ChainAction::MicHighPass, Stage::MicHighPass));
    l.mic_in = 479;
    assert_eq!(schedule(Stage::MicHighPass, &l, &SIZES), (ChainAction::NextStage, Stage::FarEndHighPass));
}

#[test]
fn echo_cancel_uses_silence_when_the_far_end_is_short() {
    let mut l = levels();
    l.hpf_mic = 512;
    l.hpf_far_end = 511;
    assert_eq!(
        schedule(Stage::EchoCancel, &l, &SIZES),
        (ChainAction::EchoCancel { with_far_end: false }, Stage::EchoCancel)
    );
    l.hpf_far_end = 512;
    assert_eq!(
        schedule(Stage::EchoCancel, &l, &SIZES),
        (ChainAction::EchoCancel { with_far_end: true }, Stage::EchoCancel)
    );
    l.aec_out_free = 100;
    assert_eq!(schedule(Stage::EchoCancel, &l, &SIZES), (ChainAction::NextStage, Stage::NonLinear));
}

#[test]
fn the_loop_goes_round_every_stage() {
    let l = levels();
    let mut stage = Stage::MicHighPass;
    let mut seen = Vec::new();
    for _ in 0..5 {
        let (action, next) = schedule(stage, &l, &SIZES);
        assert_eq!(action, ChainAction::NextStage);
        assert!(!stage_can_run(stage, &l, &SIZES));
        seen.push(stage);
        stage = next;
    }
    assert_eq!(stage, Stage::MicHighPass);
    assert_eq!(
        seen,
        vec![Stage::MicHighPass, Stage::FarEndHighPass, Stage::EchoCancel, Stage::NonLinear, Stage::NoiseSuppress]
    );
}

#[test]
fn noise_suppression_needs_room_in_the_output() {
    let mut l = levels();
    l.nlp_out = 480;
    l.processed_free = 479;
    assert_eq!(schedule(Stage::NoiseSuppress, &l, &SIZES), (ChainAction::NextStage, Stage::MicHighPass));
    l.processed_free = 480;
    assert_eq!(schedule(Stage::NoiseSuppress, &l, &SIZES), (ChainAction::NoiseSuppress, Stage::NoiseSuppress));
}

/// Runs the loop's decisions over a chain whose inner buffers are plain
/// counters, fed with microphone frames and drained at the output, with no
/// far-end input; returns (mic samples taken, samples output, steps taken to
/// the first output frame).
fn simulate(steps: usize, far_end_in: usize) -> (usize, usize, Option<usize>) {
    let cap = hacore::stage_capacity(SIZES.frame, SIZES.aec_frame);
    let (mut hpf_mic, mut hpf_far, mut aec_out, mut nlp_out) = (0usize, 0usize, 0usize, 0usize);
    let (mut taken, mut given) = (0usize, 0usize);
    let mut first = None;
    let mut stage = Stage::MicHighPass;
    for step in 0..steps {
        let l = ChainLevels {
            mic_in: SIZES.frame,
            far_end_in,
            hpf_mic,
            hpf_mic_free: cap - hpf_mic,
            hpf_far_end: hpf_far,
            hpf_far_end_free: cap - hpf_far,
            aec_out,
            aec_out_free: cap - aec_out,
            nlp_out,
            nlp_out_free: cap - nlp_out,
            processed_free: SIZES.ns_frame,
        };
        let (action, next) = schedule(stage, &l, &SIZES);
        match action {
            ChainAction::MicHighPass => {
                taken += SIZES.frame;
                hpf_mic += SIZES.frame;
            }
            ChainAction::FarEndHighPass => hpf_far += SIZES.frame,
            ChainAction::EchoCancel { with_far_end } => {
                hpf_mic -= SIZES.aec_frame;
                aec_out += SIZES.aec_frame;
                if with_far_end {
                    hpf_far -= SIZES.aec_frame;
                }
            }
            ChainAction::NonLinear => {
                aec_out -= SIZES.frame;
                nlp_out += SIZES.frame;
            }
            ChainAction::NoiseSuppress => {
                nlp_out -= SIZES.ns_frame;
                given += SIZES.ns_frame;
                if first.is_none() {
                    first = Some(step);
                }
            }
            ChainAction::NextStage => {}
        }
        assert!(hpf_mic <= cap && hpf_far <= cap && aec_out <= cap && nlp_out <= cap);
        assert_eq!(taken, hpf_mic + aec_out + nlp_out + given);
        stage = next;
    }
    (taken, given, first)
}

#[test]
fn the_chain_delivers_without_far_end_data() {
    let (taken, given, first) = simulate(200, 0);
    assert!(first.is_some());
    assert!(given > 0 && given <= taken);
    assert_eq!(given % SIZES.ns_frame, 0);
    assert!(taken - given <= 3 * hacore::stage_capacity(SIZES.frame, SIZES.aec_frame));
}

#[test]
fn the_chain_delivers_with_far_end_data() {
    let (taken, given, first) = simulate(400, SIZES.frame);
    assert!(first.is_some());
    assert!(given <= taken);
}
