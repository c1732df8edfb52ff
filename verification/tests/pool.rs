use silero_vad::error::VadError;
use silero_vad::recognizer::Recognizer;
use silero_vad::recognizer::SessionCycle;
use silero_vad::utils::TimeStamp;
use silero_vad::utils::VadParams;

const LOW: u32 = 100_000;

const HIGH: u32 = 900_000;

fn spans(speeches: &[TimeStamp]) -> Vec<(i64, i64)> {
    speeches.iter().map(|speech| (speech.start, speech.end)).collect()
}

#[test]
fn sessions_are_handed_out_in_turn() {
    let mut cycle = SessionCycle::new(3);
    assert_eq!(cycle.count(), 3);
    let handed: Vec<usize> = (0..8).map(|_| cycle.next()).collect();
    assert_eq!(handed, vec![0, 1, 2, 0, 1, 2, 0, 1]);
    let mut single = SessionCycle::new(1);
    assert_eq!((single.next(), single.next(), single.next()), (0, 0, 0));
}

#[test]
fn a_new_pool_is_empty() {
    let recognizer = Recognizer::new(VadParams::default(), 3).expect("16000 is supported");
    assert_eq!(recognizer.sessions_num(), 3);
    assert_eq!(recognizer.idle_count(), 0);
    assert_eq!(recognizer.params().frame_size_samples, 1024);
    assert_eq!(recognizer.params().sample_rate, 16000);
}

#[test]
fn an_unsupported_sample_rate_is_refused() {
    for rate in [0usize, 1000, 11025, 22050, 44100, 48000] {
        let made = Recognizer::new(VadParams { sample_rate: rate, ..VadParams::default() }, 1);
        match made {
            Err(VadError::VadError(details)) => assert_eq!(details, "Unsupported sample rate"),
            _ => panic!("a rate of {} must be refused", rate),
        }
    }
    assert!(Recognizer::new(VadParams { sample_rate: 8000, ..VadParams::default() }, 1).is_ok());
}

#[test]
fn an_empty_pool_makes_segmenters_for_the_sessions_in_turn() {
    let mut recognizer = Recognizer::new(VadParams::default(), 3).expect("16000 is supported");
    let pulled = vec![recognizer.pull(), recognizer.pull(), recognizer.pull(), recognizer.pull(), recognizer.pull()];
    let sessions: Vec<usize> = pulled.iter().map(|vad| vad.session()).collect();
    assert_eq!(sessions, vec![0, 1, 2, 0, 1]);
    assert_eq!(recognizer.idle_count(), 0);
    for vad in pulled.iter() {
        assert_eq!(vad.params().frame_size_samples, 1024);
        assert_eq!(vad.state().current_sample(), 0);
    }
}

#[test]
fn as_many_callers_as_sessions_share_no_session() {
    let mut recognizer = Recognizer::new(VadParams::default(), 4).expect("16000 is supported");
    let pulled = vec![recognizer.pull(), recognizer.pull(), recognizer.pull(), recognizer.pull()];
    for (i, first) in pulled.iter().enumerate() {
        for second in pulled.iter().skip(i + 1) {
            assert_ne!(first.session(), second.session());
        }
    }
}

#[test]
fn a_segmenter_in_the_pool_is_used_before_a_new_one_is_made() {
    let mut recognizer = Recognizer::new(VadParams::default(), 2).expect("16000 is supported");
    let first = recognizer.pull();
    let second = recognizer.pull();
    assert_eq!((first.session(), second.session()), (0, 1));
    recognizer.attach(first);
    assert_eq!(recognizer.idle_count(), 1);
    recognizer.attach(second);
    assert_eq!(recognizer.idle_count(), 2);
    // The one attached last comes first.
    let again = recognizer.pull();
    assert_eq!(again.session(), 1);
    assert_eq!(recognizer.idle_count(), 1);
    let other = recognizer.pull();
    assert_eq!(other.session(), 0);
    assert_eq!(recognizer.idle_count(), 0);
    // The pool is empty again: the third segmenter is made, for session 0.
    let third = recognizer.pull();
    assert_eq!(third.session(), 0);
    let fourth = recognizer.pull();
    assert_eq!(fourth.session(), 1);
}

#[test]
fn a_pulled_segmenter_is_gone_from_the_pool() {
    let mut recognizer = Recognizer::new(VadParams::default(), 1).expect("16000 is supported");
    let mut vad = recognizer.pull();
    vad.process(&[LOW, HIGH, HIGH, LOW], 4096);
    recognizer.attach(vad);
    assert_eq!(recognizer.idle_count(), 1);
    let busy = recognizer.pull();
    assert_eq!(recognizer.idle_count(), 0);
    // While it is out, another caller gets a segmenter of its own.
    let mut other = recognizer.pull();
    other.process(&[LOW, LOW, HIGH, LOW], 4096);
    assert_eq!(spans(&other.speeches()), vec![(2048, 4096)]);
    // What the first one found is still with the first one.
    assert_eq!(spans(&busy.speeches()), vec![(1024, 4096)]);
}

#[test]
fn processing_twice_gives_the_same_intervals() {
    let mut recognizer = Recognizer::new(VadParams::default(), 2).expect("16000 is supported");
    let probs = [LOW, HIGH, HIGH, LOW, LOW, HIGH, LOW, LOW, HIGH, HIGH];
    let first = recognizer.process(&probs, 10 * 1024);
    assert_eq!(spans(&first), vec![(1024, 4096), (5120, 7168), (8192, 10240)]);
    assert_eq!(recognizer.idle_count(), 1);
    let second = recognizer.process(&probs, 10 * 1024);
    assert_eq!(spans(&second), spans(&first));
    assert_eq!(recognizer.idle_count(), 1);
    // Another stream in between leaves no trace.
    let between = recognizer.process(&[HIGH, HIGH, LOW], 3 * 1024);
    assert_eq!(spans(&between), vec![(0, 3072)]);
    let third = recognizer.process(&probs, 10 * 1024);
    assert_eq!(spans(&third), spans(&first));
    for speech in third.iter() {
        assert_eq!(speech.sample_rate, 16000);
    }
}

#[test]
fn callers_in_turn_get_what_each_would_get_alone() {
    let streams: Vec<Vec<u32>> = vec![
        vec![LOW, HIGH, HIGH, LOW],
        vec![LOW, LOW, LOW, LOW],
        vec![LOW, LOW, HIGH, HIGH, HIGH, LOW],
    ];
    let alone: Vec<Vec<(i64, i64)>> = streams
        .iter()
        .map(|probs| {
            let mut recognizer = Recognizer::new(VadParams::default(), 3).expect("16000 is supported");
            spans(&recognizer.process(probs, probs.len() * 1024))
        })
        .collect();
    assert_eq!(alone, vec![vec![(1024, 4096)], vec![], vec![(2048, 6144)]]);

    // All three hold a segmenter at once and work on it frame by frame in turn.
    let mut recognizer = Recognizer::new(VadParams::default(), 3).expect("16000 is supported");
    let mut held = vec![recognizer.pull(), recognizer.pull(), recognizer.pull()];
    for (vad, probs) in held.iter_mut().zip(streams.iter()) {
        vad.process(probs, probs.len() * 1024);
    }
    let together: Vec<Vec<(i64, i64)>> = held.iter().map(|vad| spans(&vad.speeches())).collect();
    assert_eq!(together, alone);
    while let Some(vad) = held.pop() {
        recognizer.attach(vad);
    }
    assert_eq!(recognizer.idle_count(), 3);
}
