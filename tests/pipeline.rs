use subwave::{
    choose_device, conclude, gate_samples, join_segments, loopback_keywords, matches_keyword,
    passes, run_cycle, transcribe_chunk, update_text, BackendOutcome, CaptureIntent,
    CycleOutcome, DeviceChoice, DeviceError, DisplayPolicy, SampleBuffer, Session, Transcript,
    TranscriptionBackend, DEFAULT_MIN_CHUNK, DEFAULT_NOISE_THRESHOLD,
};

fn bits(samples: &[f32]) -> Vec<u32> {
    samples.iter().map(|s| s.to_bits()).collect()
}

/// A stand-in engine: it counts its calls and reports a fixed outcome.
struct FakeBackend {
    calls: usize,
    reply: Option<String>,
}

impl TranscriptionBackend for FakeBackend {
    fn process_chunk(&mut self, chunk: &Vec<u32>) -> BackendOutcome {
        self.calls += 1;
        let loud = chunk
            .iter()
            .any(|b| f32::from_bits(*b).abs() > f32::from_bits(DEFAULT_NOISE_THRESHOLD));
        match (&self.reply, loud) {
            (Some(t), true) => BackendOutcome::Segments(vec![Some(t.clone())]),
            _ => BackendOutcome::Segments(Vec::new()),
        }
    }
}

/// A deterministic streaming stand-in: its result is the number of samples seen so far.
struct CountingRecognizer {
    seen: usize,
}

impl TranscriptionBackend for CountingRecognizer {
    fn process_chunk(&mut self, chunk: &Vec<u32>) -> BackendOutcome {
        self.seen += chunk.len();
        BackendOutcome::Running(format!("{}", self.seen))
    }
}

/// An engine whose inference always fails.
struct Broken;

impl TranscriptionBackend for Broken {
    fn process_chunk(&mut self, _chunk: &Vec<u32>) -> BackendOutcome {
        BackendOutcome::Failed
    }
}

#[test]
fn default_threshold_is_one_thousandth() {
    assert_eq!(f32::from_bits(DEFAULT_NOISE_THRESHOLD), 0.001_f32);
}

#[test]
fn gate_matches_float_comparison() {
    let t = 0.001_f32;
    let values = [
        0.0_f32, -0.0, 0.001, -0.001, 0.0011, -0.0011, 0.5, -0.5, 1.0, -1.0, 1e-9,
        f32::INFINITY, f32::NEG_INFINITY, f32::NAN, f32::MIN_POSITIVE,
    ];
    for v in values {
        assert_eq!(passes(v.to_bits(), t.to_bits()), v.abs() > t, "sample {}", v);
    }
    for t in [-0.5_f32, -0.0, 0.0, f32::NAN, 0.25] {
        for v in values {
            assert_eq!(passes(v.to_bits(), t.to_bits()), v.abs() > t, "sample {} threshold {}", v, t);
        }
    }
}

#[test]
fn gate_drops_quiet_samples_and_keeps_order() {
    let frame = bits(&[0.0, 0.5, 0.0005, -0.25, 0.001, -0.001, 0.002]);
    let kept = gate_samples(&frame, DEFAULT_NOISE_THRESHOLD);
    assert_eq!(kept, bits(&[0.5, -0.25, 0.002]));
}

#[test]
fn gate_on_empty_frame() {
    assert!(gate_samples(&[], DEFAULT_NOISE_THRESHOLD).is_empty());
}

#[test]
fn silent_frame_appends_nothing() {
    let mut b = SampleBuffer::new();
    b.append_gated(&bits(&[0.0; 64]), DEFAULT_NOISE_THRESHOLD);
    assert!(b.is_empty());
    assert_eq!(b.len(), 0);
}

#[test]
fn second_drain_is_empty() {
    let mut b = SampleBuffer::new();
    b.append_gated(&bits(&[0.5, 0.25]), DEFAULT_NOISE_THRESHOLD);
    assert_eq!(b.drain(), bits(&[0.5, 0.25]));
    assert!(b.drain().is_empty());
}

#[test]
fn drain_of_empty_buffer_is_empty() {
    let mut b = SampleBuffer::new();
    assert!(b.drain().is_empty());
}

#[test]
fn appends_then_one_drain_keep_every_sample() {
    let mut b = SampleBuffer::new();
    let a1 = bits(&[0.1, 0.0, 0.2]);
    let a2 = bits(&[0.3, 0.4]);
    let a3 = bits(&[0.0]);
    let a4 = bits(&[-0.5, 0.6]);
    for frame in [&a1, &a2, &a3, &a4] {
        b.append_gated(frame, DEFAULT_NOISE_THRESHOLD);
    }
    assert_eq!(b.drain(), bits(&[0.1, 0.2, 0.3, 0.4, -0.5, 0.6]));
}

#[test]
fn raw_append_keeps_everything() {
    let mut b = SampleBuffer::new();
    b.append(&[1, 2]);
    b.append(&[3]);
    assert_eq!(b.len(), 3);
    assert_eq!(b.drain(), vec![1, 2, 3]);
}

#[test]
fn take_chunk_waits_for_minimum() {
    let mut b = SampleBuffer::new();
    b.append(&[7; 10]);
    assert!(b.take_chunk(11).is_empty());
    assert_eq!(b.len(), 10);
    assert_eq!(b.take_chunk(10), vec![7; 10]);
    assert!(b.is_empty());
    assert!(b.take_chunk(0).is_empty());
}

#[test]
fn segments_joined_with_spaces() {
    let segs = vec![Some(" Hello".to_string()), None, Some(" world".to_string())];
    assert_eq!(join_segments(&segs), " Hello  world ");
    assert_eq!(join_segments(&Vec::new()), "");
}

#[test]
fn update_text_per_outcome() {
    let segs = BackendOutcome::Segments(vec![Some("a".to_string()), Some("b".to_string())]);
    assert_eq!(update_text(&segs), Some("a b ".to_string()));
    assert_eq!(update_text(&BackendOutcome::Segments(vec![None])), None);
    assert_eq!(update_text(&BackendOutcome::Segments(vec![Some(String::new())])), Some(" ".to_string()));
    assert_eq!(update_text(&BackendOutcome::Running("hi".to_string())), Some("hi".to_string()));
    assert_eq!(update_text(&BackendOutcome::Running(String::new())), None);
    assert_eq!(update_text(&BackendOutcome::Failed), None);
}

#[test]
fn conclude_per_outcome() {
    assert!(matches!(conclude(&BackendOutcome::Failed), CycleOutcome::BackendError));
    assert!(matches!(conclude(&BackendOutcome::Segments(Vec::new())), CycleOutcome::Silent));
    match conclude(&BackendOutcome::Running("x".to_string())) {
        CycleOutcome::Update(t) => assert_eq!(t, "x"),
        _ => panic!("expected an update"),
    }
    assert_eq!(conclude(&BackendOutcome::Failed).emitted(), None);
    assert_eq!(
        conclude(&BackendOutcome::Running("y".to_string())).emitted(),
        Some("y".to_string())
    );
}

#[test]
fn empty_chunk_never_reaches_backend() {
    let mut backend = FakeBackend { calls: 0, reply: Some("text".to_string()) };
    let r = transcribe_chunk(&Vec::new(), &mut backend);
    assert!(matches!(r, CycleOutcome::Skipped));
    assert_eq!(r.emitted(), None);
    assert_eq!(backend.calls, 0);

    let mut b = SampleBuffer::new();
    let r = run_cycle(&mut b, &mut backend, 1);
    assert!(matches!(r, CycleOutcome::Skipped));
    assert_eq!(backend.calls, 0);
}

#[test]
fn undersized_chunk_is_kept_for_later() {
    let mut backend = FakeBackend { calls: 0, reply: Some("text".to_string()) };
    let mut b = SampleBuffer::new();
    b.append_gated(&bits(&[0.5; 100]), DEFAULT_NOISE_THRESHOLD);
    let r = run_cycle(&mut b, &mut backend, DEFAULT_MIN_CHUNK);
    assert!(matches!(r, CycleOutcome::Skipped));
    assert_eq!(b.len(), 100);
    assert_eq!(backend.calls, 0);
}

#[test]
fn failed_inference_emits_nothing() {
    let mut b = SampleBuffer::new();
    b.append(&[0x3f00_0000]);
    let r = run_cycle(&mut b, &mut Broken, 1);
    assert!(matches!(r, CycleOutcome::BackendError));
    assert_eq!(r.emitted(), None);
    assert!(b.is_empty());
}

#[test]
fn silence_emits_no_update() {
    // two seconds of zeros at 16 kHz
    let silence = vec![0.0_f32; 32_000];
    let mut b = SampleBuffer::new();
    let mut backend = FakeBackend { calls: 0, reply: Some("ghost".to_string()) };
    for frame in silence.chunks(480) {
        b.append_gated(&bits(frame), DEFAULT_NOISE_THRESHOLD);
    }
    for _ in 0..10 {
        let r = run_cycle(&mut b, &mut backend, 1);
        assert_eq!(r.emitted(), None);
    }
    assert_eq!(backend.calls, 0);
}

#[test]
fn tone_emits_update_within_one_cycle() {
    let tone: Vec<f32> = (0..16_000).map(|i| 0.5 * ((i as f32) * 0.0628).sin()).collect();
    let mut b = SampleBuffer::new();
    let mut backend = FakeBackend { calls: 0, reply: Some("beep".to_string()) };
    for frame in tone.chunks(480) {
        b.append_gated(&bits(frame), DEFAULT_NOISE_THRESHOLD);
    }
    let r = run_cycle(&mut b, &mut backend, DEFAULT_MIN_CHUNK);
    assert_eq!(r.emitted(), Some("beep ".to_string()));
    assert_eq!(backend.calls, 1);
    assert!(b.is_empty());
}

#[test]
fn restarts_do_not_bring_back_stale_text() {
    let mut s = Session::new(DisplayPolicy::Replace);
    let g1 = s.start().unwrap();
    assert!(s.receive(g1, "first"));
    s.stop();
    let g2 = s.start().unwrap();
    s.stop();
    let g3 = s.start().unwrap();
    assert!(g1 < g2 && g2 < g3);
    assert!(!s.receive(g1, "stale"));
    assert!(!s.receive(g2, "stale"));
    assert_eq!(s.transcript_text(), "first");
    assert!(s.receive(g3, "fresh"));
    assert_eq!(s.transcript_text(), "fresh");
}

#[test]
fn streaming_backend_is_repeatable() {
    let chunks = vec![vec![1_u32; 3], vec![2_u32; 5], vec![3_u32; 1]];
    let run = || {
        let mut r = CountingRecognizer { seen: 0 };
        chunks
            .iter()
            .map(|c| transcribe_chunk(c, &mut r).emitted())
            .collect::<Vec<_>>()
    };
    let first = run();
    assert_eq!(first, vec![Some("3".to_string()), Some("8".to_string()), Some("9".to_string())]);
    assert_eq!(first, run());
}

#[test]
fn session_lifecycle() {
    let mut s = Session::new(DisplayPolicy::Replace);
    assert!(!s.is_capturing());
    assert_eq!(s.generation(), 0);
    assert_eq!(s.start(), Some(1));
    assert_eq!(s.start(), None);
    assert!(s.is_capturing());
    s.stop();
    s.stop();
    assert!(!s.is_capturing());
    assert!(!s.receive(1, "late"));
    assert_eq!(s.restart(), 2);
    assert!(s.is_capturing());
    assert_eq!(s.restart(), 3);
    assert!(s.accepts(3));
    assert!(!s.accepts(2));
}

#[test]
fn accumulate_policy_appends() {
    let mut s = Session::new(DisplayPolicy::Accumulate);
    let g = s.start().unwrap();
    s.receive(g, "one ");
    s.receive(g, "two ");
    assert_eq!(s.transcript_text(), "one two ");
    s.clear_transcript();
    assert_eq!(s.transcript_text(), "");
}

#[test]
fn transcript_policies() {
    let mut t = Transcript::new(DisplayPolicy::Replace);
    t.apply("a");
    t.apply("b");
    assert_eq!(t.text(), "b");
    assert_eq!(t.policy(), DisplayPolicy::Replace);
    let mut t = Transcript::new(DisplayPolicy::Accumulate);
    t.apply("a");
    t.apply("b");
    assert_eq!(t.text(), "ab");
    t.clear();
    assert_eq!(t.text(), "");
}

#[test]
fn keyword_match_ignores_case() {
    let kw = loopback_keywords();
    assert_eq!(kw, vec!["hdmi".to_string(), "digital".to_string(), "display".to_string()]);
    assert!(matches_keyword("Speakers (HDMI Audio)", &kw));
    assert!(matches_keyword("DELL DISPLAY", &kw));
    assert!(!matches_keyword("Realtek Speakers", &kw));
    assert!(!matches_keyword("", &kw));
}

#[test]
fn loopback_prefers_first_keyword_match() {
    let kw = loopback_keywords();
    let names = vec![
        Some("Speakers".to_string()),
        None,
        Some("Digital Output".to_string()),
        Some("HDMI 2".to_string()),
    ];
    assert_eq!(choose_device(CaptureIntent::Loopback, &names, &kw, true, true), Ok(DeviceChoice::Listed(2)));
}

#[test]
fn loopback_falls_back_to_default_output() {
    let kw = loopback_keywords();
    let names = vec![Some("Speakers".to_string()), None];
    assert_eq!(choose_device(CaptureIntent::Loopback, &names, &kw, true, false), Ok(DeviceChoice::HostDefault));
    assert_eq!(
        choose_device(CaptureIntent::Loopback, &names, &kw, false, true),
        Err(DeviceError::DeviceNotFound)
    );
    assert_eq!(
        choose_device(CaptureIntent::Loopback, &Vec::new(), &kw, false, false),
        Err(DeviceError::DeviceNotFound)
    );
}

#[test]
fn microphone_uses_default_input() {
    let kw = loopback_keywords();
    let names = vec![Some("HDMI".to_string())];
    assert_eq!(choose_device(CaptureIntent::Microphone, &names, &kw, true, true), Ok(DeviceChoice::HostDefault));
    assert_eq!(
        choose_device(CaptureIntent::Microphone, &names, &kw, true, false),
        Err(DeviceError::DeviceNotFound)
    );
}
