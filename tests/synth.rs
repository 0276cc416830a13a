use rtrk::interaction::{CharModifiers, Event, KeyCode, KeyPress, events_for_key};
use rtrk::oscillator::{
    interpolation, table_len, Interpolation, Note, Oscillator, TableRead, WaveTableOscillator,
    PHASE_UNIT,
};
use rtrk::synth::{Message, SinkCall, Synth, SynthWorker, Voice, PLAY_DURATION_MS};
use rtrk::tracker::{
    app_event, app_step, claviature_action, note_for_key, uppercase_event, voice_for_selection, AppStep,
    AppTask, ClaviatureInput, KbdMode, Message as AppMessage,
};
use rtrk::voice::ListMessage;

/// A backend that only records what it was asked.
#[derive(Default)]
struct AudioSinkDummy {
    played: Vec<(usize, u64)>,
    stopped: Vec<usize>,
    waited: Vec<usize>,
}

impl AudioSinkDummy {
    fn perform(&mut self, calls: Vec<SinkCall>) {
        for call in calls {
            match call {
                SinkCall::Play(channel, osc) => self.played.push((channel, osc.remaining())),
                SinkCall::Stop(channel) => self.stopped.push(channel),
                SinkCall::Wait(channel) => self.waited.push(channel),
            }
        }
    }
}

fn voice(osc: Oscillator) -> Voice {
    Voice { osc, env: None, lp: None, hp: None }
}

fn drain(mut osc: WaveTableOscillator) -> Vec<TableRead> {
    let mut reads = vec![];
    while let Some(r) = osc.next_read() {
        reads.push(r);
    }
    reads
}

#[test]
fn async_synth_test() {
    let voice = voice(Oscillator::Triangle);
    let mut worker = SynthWorker::new(4);
    let mut sink = AudioSinkDummy::default();

    sink.perform(worker.handle(Some(Message::Play(voice, 0, Note::A))));
    sink.perform(worker.handle(Some(Message::Play(voice, 2, Note::C))));
    sink.perform(worker.handle(Some(Message::Terminate)));

    assert!(!worker.is_running());
    assert_eq!(sink.played, vec![(0, 88200), (2, 88200)]);
    assert_eq!(sink.stopped, vec![0, 1, 2, 3]);
    assert_eq!(sink.waited, vec![0, 1, 2, 3]);
}

#[test]
fn polyphony_test() {
    let voice = voice(Oscillator::Triangle);
    let synth = Synth::new(4);
    let mut sink = AudioSinkDummy::default();

    let duration_ms = 1000;
    sink.perform(synth.play(0, &voice, Note::A, duration_ms));
    sink.perform(synth.play(1, &voice, Note::C, duration_ms));
    sink.perform(synth.wait_all());
    assert_eq!(sink.played, vec![(0, 44100), (1, 44100)]);
    assert_eq!(sink.waited, vec![0, 1, 2, 3]);
}

#[test]
fn end_to_end_two_plays_then_terminate() {
    let sine = voice(Oscillator::Sine);
    let mut worker = SynthWorker::new(4);
    let mut sink = AudioSinkDummy::default();
    sink.perform(worker.handle(Some(Message::Play(sine, 0, Note::A))));
    sink.perform(worker.handle(Some(Message::Play(sine, 2, 26163))));
    assert!(sink.stopped.is_empty());
    sink.perform(worker.handle(Some(Message::Terminate)));
    let channels: Vec<usize> = sink.played.iter().map(|p| p.0).collect();
    assert_eq!(channels, vec![0, 2]);
    // the only stops are those of the teardown
    assert_eq!(sink.stopped, vec![0, 1, 2, 3]);
    // a stopped worker ignores everything after
    assert!(worker.handle(Some(Message::Play(sine, 1, Note::A))).is_empty());
    assert!(worker.handle(None).is_empty());
}

#[test]
fn out_of_range_channels_are_ignored() {
    let mut worker = SynthWorker::new(4);
    assert!(worker.handle(Some(Message::Play(voice(Oscillator::Saw), 4, Note::A))).is_empty());
    assert!(worker.handle(Some(Message::Stop(usize::MAX))).is_empty());
    assert!(worker.is_running());
    let calls = worker.handle(Some(Message::Stop(3)));
    assert!(matches!(calls.as_slice(), [SinkCall::Stop(3)]));
}

#[test]
fn second_play_replaces_first() {
    let mut worker = SynthWorker::new(2);
    let mut slots: Vec<Option<Oscillator>> = vec![None, None];
    for msg in [
        Message::Play(voice(Oscillator::Sine), 1, Note::A),
        Message::Play(voice(Oscillator::Pulse), 1, Note::B),
    ] {
        for call in worker.handle(Some(msg)) {
            if let SinkCall::Play(c, osc) = call {
                slots[c] = Some(osc.shape());
            }
        }
    }
    assert_eq!(slots, vec![None, Some(Oscillator::Pulse)]);
}

#[test]
fn closed_queue_tears_down() {
    let mut worker = SynthWorker::new(1);
    let calls = worker.handle(None);
    assert!(matches!(calls.as_slice(), [SinkCall::Stop(0), SinkCall::Wait(0)]));
    assert!(!worker.is_running());
}

#[test]
fn oscillator_gives_floor_of_rate_times_duration() {
    // 44100 * 0.001 s = 44.1 samples
    let osc = WaveTableOscillator::new(Oscillator::Square, 2, Interpolation::Step, 1);
    assert_eq!(drain(osc).len(), 44);
    let osc = WaveTableOscillator::new(Oscillator::Square, 2, Interpolation::Step, 0);
    assert_eq!(drain(osc).len(), 0);
    let osc = WaveTableOscillator::new(Oscillator::Sine, 32, Interpolation::Lerp, 2000);
    assert_eq!(osc.remaining(), 88200);
}

#[test]
fn oscillator_reads_wrap_around_the_table() {
    // A table of 4 at 11025 Hz moves one whole table step per sample.
    let mut osc = WaveTableOscillator::new(Oscillator::Triangle, 4, Interpolation::Lerp, 1000);
    osc.set_frequency(1102500);
    let reads: Vec<(usize, usize, u64)> = (0..6).map(|_| {
        let r = osc.next_read().unwrap();
        (r.index, r.next, r.frac)
    }).collect();
    assert_eq!(reads, vec![(0, 1, 0), (1, 2, 0), (2, 3, 0), (3, 0, 0), (0, 1, 0), (1, 2, 0)]);

    // At the default pitch (concert A) the step is 440 * 4 / 44100 table steps.
    let mut osc = WaveTableOscillator::new(Oscillator::Triangle, 4, Interpolation::Lerp, 1000);
    osc.next_read();
    let r = osc.next_read().unwrap();
    assert_eq!((r.index, r.frac), (0, 44000 * 4));
    assert_eq!(PHASE_UNIT, 4_410_000);

    let mut osc = WaveTableOscillator::new(Oscillator::Saw, 32, Interpolation::Lerp, 1000);
    osc.set_frequency(Note::B);
    for read in drain(osc) {
        assert!(read.index < 32 && read.next < 32 && read.frac < PHASE_UNIT);
    }
}

#[test]
fn voice_tables() {
    assert_eq!(table_len(Oscillator::Sine), 32);
    assert_eq!(table_len(Oscillator::Triangle), 4);
    assert_eq!(table_len(Oscillator::Saw), 32);
    assert_eq!(table_len(Oscillator::Square), 2);
    assert_eq!(table_len(Oscillator::Pulse), 64);
    assert_eq!(interpolation(Oscillator::Sine), Interpolation::Lerp);
    assert_eq!(interpolation(Oscillator::Pulse), Interpolation::Step);
    assert_eq!(interpolation(Oscillator::Square), Interpolation::Step);

    let synth = Synth::new(1);
    let calls = synth.play(0, &voice(Oscillator::Pulse), Note::C, PLAY_DURATION_MS);
    match calls.as_slice() {
        [SinkCall::Play(0, osc)] => {
            assert_eq!(osc.table_len(), 64);
            assert_eq!(osc.interpolation(), Interpolation::Step);
        }
        _ => panic!("expected one play"),
    }
    assert!(synth.play(1, &voice(Oscillator::Pulse), Note::C, PLAY_DURATION_MS).is_empty());
}

#[test]
fn claviature_keys() {
    assert_eq!(note_for_key('N'), Some(Note::A));
    assert_eq!(note_for_key('Q'), None);
    assert_eq!(
        claviature_action(Event::Char('z', CharModifiers::empty())),
        Some(ClaviatureInput::Play(Note::C))
    );
    assert_eq!(
        claviature_action(Event::Char('N', CharModifiers::shift())),
        Some(ClaviatureInput::Play(88000))
    );
    assert_eq!(
        claviature_action(Event::Char('N', CharModifiers::shift().union(CharModifiers::ctrl()))),
        Some(ClaviatureInput::Play(Note::A))
    );
    assert_eq!(claviature_action(Event::Char(' ', CharModifiers::empty())), Some(ClaviatureInput::Stop));
    assert_eq!(claviature_action(Event::Up), None);
    assert_eq!(KbdMode::Text.toggled(), KbdMode::Claviature);
    assert_eq!(KbdMode::Claviature.toggled(), KbdMode::Text);
}

#[test]
fn voice_selection_text() {
    assert_eq!(voice_for_selection("0").map(|v| v.osc), Some(Oscillator::Sine));
    assert_eq!(voice_for_selection("1").map(|v| v.osc), Some(Oscillator::Saw));
    assert_eq!(voice_for_selection("+2").map(|v| v.osc), Some(Oscillator::Square));
    assert_eq!(voice_for_selection("3"), None);
    assert_eq!(voice_for_selection(" "), None);
    assert_eq!(voice_for_selection(""), None);
}

#[test]
fn key_presses_become_events() {
    let press = |code| KeyPress { code, pressed: true, shift: false, ctrl: false, alt: false, caps_lock: false };
    assert_eq!(events_for_key(&press(KeyCode::Esc)), vec![Event::Quit]);
    assert_eq!(events_for_key(&press(KeyCode::BackTab)), vec![Event::PrevFocus]);
    assert_eq!(events_for_key(&press(KeyCode::Other)), vec![]);
    let k = KeyPress { code: KeyCode::Char('a'), pressed: true, shift: true, ctrl: false, alt: true, caps_lock: true };
    assert_eq!(events_for_key(&k), vec![Event::Char('a', CharModifiers(0b1101))]);
    assert_eq!(events_for_key(&KeyPress { pressed: false, ..k }), vec![]);
    assert!(CharModifiers(0b1101).contains(CharModifiers::alt()));
    assert!(!CharModifiers(0b1101).contains(CharModifiers::ctrl()));
    assert_eq!(CharModifiers::from_bits_truncate(0xFF).bits(), 0x0F);
}

#[test]
fn long_tables_wrap_and_count() {
    let mut osc = WaveTableOscillator::new(Oscillator::Saw, 100_000, Interpolation::Lerp, 10);
    osc.set_frequency(u32::MAX);
    let reads = drain(osc);
    assert_eq!(reads.len(), 441);
    assert!(reads.iter().all(|r| r.index < 100_000 && r.next < 100_000 && r.frac < PHASE_UNIT));
}

#[test]
fn application_steps() {
    let v = voice(Oscillator::Saw);
    assert_eq!(app_step(AppMessage::Quit, None), AppStep::Quit);
    assert_eq!(app_step(AppMessage::PlayVoice(Note::A), Some(v)), AppStep::Run(AppTask::PlayVoice(v, Note::A)));
    assert_eq!(app_step(AppMessage::PlayVoice(Note::A), None), AppStep::Nothing);
    assert_eq!(app_step(AppMessage::StopVoice, None), AppStep::Run(AppTask::StopVoice));
    assert_eq!(app_step(AppMessage::VoiceList(ListMessage::Up), None), AppStep::Voices(ListMessage::Up));
    assert_eq!(app_step(AppMessage::NextKbdMode, None), AppStep::ToggleKbdMode);
    assert_eq!(app_step(AppMessage::Rewind, Some(v)), AppStep::Nothing);
}

#[test]
fn application_events() {
    let none = CharModifiers::empty();
    assert_eq!(app_event(KbdMode::Text, Event::Quit), Some(vec![AppMessage::Quit]));
    assert_eq!(app_event(KbdMode::Claviature, Event::Char('`', none)), Some(vec![AppMessage::NextKbdMode]));
    assert_eq!(app_event(KbdMode::Text, Event::NextFocus), Some(vec![AppMessage::NextFocus]));
    assert_eq!(app_event(KbdMode::Text, Event::Char('n', none)), None);
    assert_eq!(app_event(KbdMode::Claviature, Event::Char('n', none)), Some(vec![AppMessage::PlayVoice(Note::A)]));
    assert_eq!(app_event(KbdMode::Claviature, Event::Char(' ', none)), Some(vec![AppMessage::StopVoice]));
    assert_eq!(app_event(KbdMode::Claviature, Event::NextFocus), Some(vec![]));
    assert_eq!(uppercase_event(Event::Char('q', none)), Event::Char('Q', none));
    assert_eq!(uppercase_event(Event::Char('1', none)), Event::Char('1', none));
    assert_eq!(uppercase_event(Event::Up), Event::Up);
}
