//! The synthesis engine's decisions: which oscillator a voice plays, which
//! channel it goes to, and what the worker that serves the engine's command
//! queue asks of the audio backend for each command.
//!
//! The backend itself (a device, or a test double) is driven by the caller,
//! which performs the returned `SinkCall`s in order.

use vstd::prelude::*;
use crate::oscillator::{
    fresh_osc, interpolation, interpolation_of, step_for, table_len, table_len_of, Frequency,
    OscView, Oscillator, WaveTableOscillator,
};

verus! {

/// How long a sound started by a `Play` command lasts.
pub const PLAY_DURATION_MS: u32 = 2000;

/// An amplitude envelope. It is carried with a voice; sound generation does
/// not apply it yet.
#[derive(Copy, Clone, Debug, PartialEq, Eq, Structural)]
pub struct Envelope {
    pub attack_ms: u32,
    pub decay_ms: u32,
    /// The sustained level, in thousandths of full scale.
    pub sustain_lvl: u32,
    pub release_ms: u32,
}

/// A filter setting. It is carried with a voice; sound generation does not
/// apply it yet.
#[derive(Copy, Clone, Debug, PartialEq, Eq, Structural)]
pub struct Filter {
    /// Cutoff frequency, in hundredths of a hertz.
    pub cutoff: u32,
    /// Gain, in thousandths.
    pub gain: i32,
}

/// A timbre: the waveform, with optional envelope and filters.
#[derive(Copy, Clone, Debug, PartialEq, Eq, Structural)]
pub struct Voice {
    pub osc: Oscillator,
    pub env: Option<Envelope>,
    pub lp: Option<Filter>,
    pub hp: Option<Filter>,
}

/// A command to the engine's worker.
#[derive(Copy, Clone, Debug, PartialEq, Eq, Structural)]
pub enum Message {
    /// Play a voice on a channel, at a frequency.
    Play(Voice, usize, Frequency),
    /// Silence a channel.
    Stop(usize),
    /// End the worker.
    Terminate,
}

/// One request to the audio backend.
pub enum SinkCall {
    /// Replace whatever the channel plays with this sound.
    Play(usize, WaveTableOscillator),
    /// Silence and clear the channel.
    Stop(usize),
    /// Block until the channel has played out.
    Wait(usize),
}

/// A backend request, as numbers.
pub enum SinkCallView {
    Play(usize, OscView),
    Stop(usize),
    Wait(usize),
}

impl View for SinkCall {
    type V = SinkCallView;

    open spec fn view(&self) -> SinkCallView {
        match self {
            SinkCall::Play(c, o) => SinkCallView::Play(*c, o@),
            SinkCall::Stop(c) => SinkCallView::Stop(*c),
            SinkCall::Wait(c) => SinkCallView::Wait(*c),
        }
    }
}

/// A list of backend requests, as numbers.
pub open spec fn calls_view(calls: Seq<SinkCall>) -> Seq<SinkCallView> {
    calls.map_values(|c: SinkCall| c@)
}

/// The sound a voice makes at a frequency for a duration: its waveform's
/// table, read the waveform's way, stepping at the frequency.
pub open spec fn voice_osc(voice: Voice, freq: Frequency, duration_ms: nat) -> OscView {
    let len = table_len_of(voice.osc);
    OscView {
        phase_step: step_for(freq, len),
        ..fresh_osc(voice.osc, len, interpolation_of(voice.osc), duration_ms)
    }
}

/// What playing on `channel` asks of the backend: nothing when the channel
/// does not exist, else one `Play` of the voice's sound there.
pub open spec fn play_calls(
    channels: nat,
    channel: usize,
    voice: Voice,
    freq: Frequency,
    duration_ms: nat,
) -> Seq<SinkCallView> {
    if channel >= channels {
        seq![]
    } else {
        seq![SinkCallView::Play(channel, voice_osc(voice, freq, duration_ms))]
    }
}

/// What stopping `channel` asks of the backend: nothing when the channel does
/// not exist, else one `Stop` there.
pub open spec fn stop_calls(channels: nat, channel: usize) -> Seq<SinkCallView> {
    if channel >= channels {
        seq![]
    } else {
        seq![SinkCallView::Stop(channel)]
    }
}

/// Waiting for every channel, in order.
pub open spec fn wait_calls(channels: nat) -> Seq<SinkCallView> {
    Seq::new(channels, |i: int| SinkCallView::Wait(i as usize))
}

/// Tearing the engine down: every channel is stopped, then every channel is
/// drained, in channel order.
pub open spec fn teardown_calls(channels: nat) -> Seq<SinkCallView> {
    Seq::new(channels, |i: int| SinkCallView::Stop(i as usize)) + wait_calls(channels)
}

/// The synthesizer: a fixed number of channels, numbered from zero.
pub struct Synth {
    channels: usize,
}

impl Synth {
    /// The number of channels.
    pub closed spec fn channel_count(self) -> nat {
        self.channels as nat
    }

    pub fn new(channels: usize) -> (r: Synth)
        ensures
            r.channel_count() == channels,
    {
        Synth { channels }
    }

    /// The number of channels.
    pub fn channels(&self) -> (r: usize)
        ensures
            r == self.channel_count(),
    {
        self.channels
    }

    /// Plays `voice` at `freq` for `duration_ms` on `channel`; a channel that
    /// does not exist is ignored.
    pub fn play(&self, channel: usize, voice: &Voice, freq: Frequency, duration_ms: u32) -> (r: Vec<
        SinkCall,
    >)
        ensures
            calls_view(r@) == play_calls(self.channel_count(), channel, *voice, freq, duration_ms as nat),
    {
        let mut calls: Vec<SinkCall> = Vec::new();
        if channel >= self.channels {
            proof {
                assert(calls_view(calls@) =~= seq![]);
            }
            return calls;
        }
        let mut osc = WaveTableOscillator::new(
            voice.osc,
            table_len(voice.osc),
            interpolation(voice.osc),
            duration_ms,
        );
        osc.set_frequency(freq);
        calls.push(SinkCall::Play(channel, osc));
        proof {
            assert(calls_view(calls@) =~= play_calls(self.channel_count(), channel, *voice, freq, duration_ms as nat));
        }
        calls
    }

    /// Stops `channel`; a channel that does not exist is ignored.
    pub fn stop(&self, channel: usize) -> (r: Vec<SinkCall>)
        ensures
            calls_view(r@) == stop_calls(self.channel_count(), channel),
    {
        let mut calls: Vec<SinkCall> = Vec::new();
        if channel < self.channels {
            calls.push(SinkCall::Stop(channel));
        }
        proof {
            assert(calls_view(calls@) =~= stop_calls(self.channel_count(), channel));
        }
        calls
    }

    /// Waits for every channel to play out, in channel order.
    pub fn wait_all(&self) -> (r: Vec<SinkCall>)
        ensures
            calls_view(r@) == wait_calls(self.channel_count()),
    {
        let mut calls: Vec<SinkCall> = Vec::new();
        let mut channel: usize = 0;
        while channel < self.channels
            invariant
                channel <= self.channels,
                calls_view(calls@) =~= wait_calls(channel as nat),
            decreases self.channels - channel,
        {
            let ghost before = calls@;
            calls.push(SinkCall::Wait(channel));
            proof {
                assert(calls@ =~= before.push(SinkCall::Wait(channel)));
                assert(calls_view(calls@) =~= calls_view(before).push(SinkCallView::Wait(channel)));
            }
            channel = channel + 1;
        }
        calls
    }

    /// Stops every channel, then waits for each to drain, so that nothing
    /// keeps sounding once the synthesizer is gone.
    pub fn teardown(&self) -> (r: Vec<SinkCall>)
        ensures
            calls_view(r@) == teardown_calls(self.channel_count()),
    {
        let mut calls: Vec<SinkCall> = Vec::new();
        let mut channel: usize = 0;
        while channel < self.channels
            invariant
                channel <= self.channels,
                calls_view(calls@) =~= Seq::new(channel as nat, |i: int| SinkCallView::Stop(i as usize)),
            decreases self.channels - channel,
        {
            let ghost before = calls@;
            calls.push(SinkCall::Stop(channel));
            proof {
                assert(calls@ =~= before.push(SinkCall::Stop(channel)));
                assert(calls_view(calls@) =~= calls_view(before).push(SinkCallView::Stop(channel)));
            }
            channel = channel + 1;
        }
        let mut waits = self.wait_all();
        calls.append(&mut waits);
        proof {
            assert(calls_view(calls@) =~= teardown_calls(self.channel_count()));
        }
        calls
    }
}

/// The worker's state, as numbers.
pub struct WorkerView {
    pub channels: nat,
    pub running: bool,
}

/// One command taken by the worker: while it runs, `Play` and `Stop` go to the
/// synthesizer with `Play` lasting `PLAY_DURATION_MS`; `Terminate`, or a
/// closed queue (`None`), tears the synthesizer down and stops the worker for
/// good. A stopped worker asks nothing more.
pub open spec fn worker_step(w: WorkerView, msg: Option<Message>) -> (WorkerView, Seq<SinkCallView>) {
    if !w.running {
        (w, seq![])
    } else {
        match msg {
            Some(Message::Play(voice, channel, freq)) => (
                w,
                play_calls(w.channels, channel, voice, freq, PLAY_DURATION_MS as nat),
            ),
            Some(Message::Stop(channel)) => (w, stop_calls(w.channels, channel)),
            _ => (WorkerView { running: false, ..w }, teardown_calls(w.channels)),
        }
    }
}

/// The decisions of the thread that serves the engine's command queue.
pub struct SynthWorker {
    synth: Synth,
    running: bool,
}

impl View for SynthWorker {
    type V = WorkerView;

    closed spec fn view(&self) -> WorkerView {
        WorkerView { channels: self.synth.channel_count(), running: self.running }
    }
}

impl SynthWorker {
    /// A running worker over a synthesizer of `channels` channels.
    pub fn new(channels: usize) -> (r: SynthWorker)
        ensures
            r@ == (WorkerView { channels: channels as nat, running: true }),
    {
        SynthWorker { synth: Synth::new(channels), running: true }
    }

    /// Whether the worker still takes commands.
    pub fn is_running(&self) -> (r: bool)
        ensures
            r == self@.running,
    {
        self.running
    }

    /// Takes one command (`None`: the queue is closed) and returns what the
    /// backend is to do for it, in order.
    pub fn handle(&mut self, msg: Option<Message>) -> (r: Vec<SinkCall>)
        ensures
            (final(self)@, calls_view(r@)) == worker_step(old(self)@, msg),
    {
        if !self.running {
            let calls: Vec<SinkCall> = Vec::new();
            proof {
                assert(calls_view(calls@) =~= seq![]);
            }
            return calls;
        }
        match msg {
            Some(Message::Play(voice, channel, freq)) => {
                self.synth.play(channel, &voice, freq, PLAY_DURATION_MS)
            },
            Some(Message::Stop(channel)) => self.synth.stop(channel),
            _ => {
                self.running = false;
                self.synth.teardown()
            },
        }
    }
}

/// What a backend's channels hold after a request: a `Play` replaces the
/// channel's sound, a `Stop` clears it, and a `Wait` leaves it played out.
pub open spec fn apply_call(slots: Seq<Option<OscView>>, call: SinkCallView) -> Seq<Option<OscView>> {
    match call {
        SinkCallView::Play(c, o) => if c < slots.len() {
            slots.update(c as int, Some(o))
        } else {
            slots
        },
        SinkCallView::Stop(c) | SinkCallView::Wait(c) => if c < slots.len() {
            slots.update(c as int, None)
        } else {
            slots
        },
    }
}

/// What a backend's channels hold after a list of requests, made in order.
pub open spec fn apply_calls(slots: Seq<Option<OscView>>, calls: Seq<SinkCallView>) -> Seq<
    Option<OscView>,
>
    decreases calls.len(),
{
    if calls.len() == 0 {
        slots
    } else {
        apply_calls(apply_call(slots, calls[0]), calls.drop_first())
    }
}

proof fn lemma_apply_concat(
    slots: Seq<Option<OscView>>,
    a: Seq<SinkCallView>,
    b: Seq<SinkCallView>,
)
    ensures
        apply_calls(slots, a + b) == apply_calls(apply_calls(slots, a), b),
    decreases a.len(),
{
    if a.len() == 0 {
        assert(a + b =~= b);
    } else {
        assert((a + b).drop_first() =~= a.drop_first() + b);
        lemma_apply_concat(apply_call(slots, a[0]), a.drop_first(), b);
    }
}

/// A command for a channel that does not exist changes nothing: the worker
/// asks nothing of the backend, so no channel's sound is touched.
pub proof fn lemma_out_of_range_ignored(w: WorkerView, msg: Message, slots: Seq<Option<OscView>>)
    requires
        match msg {
            Message::Play(_, channel, _) => channel >= w.channels,
            Message::Stop(channel) => channel >= w.channels,
            Message::Terminate => false,
        },
    ensures
        worker_step(w, Some(msg)).0 == w,
        worker_step(w, Some(msg)).1 == Seq::<SinkCallView>::empty(),
        apply_calls(slots, worker_step(w, Some(msg)).1) == slots,
{
    assert(worker_step(w, Some(msg)).1 =~= Seq::<SinkCallView>::empty());
}

/// Playing twice on one channel leaves only the second sound there: it
/// replaces the first rather than mixing with it, and no other channel changes.
pub proof fn lemma_second_play_supersedes(
    w: WorkerView,
    channel: usize,
    first: Voice,
    first_freq: Frequency,
    second: Voice,
    second_freq: Frequency,
    slots: Seq<Option<OscView>>,
)
    requires
        w.running,
        channel < w.channels,
        slots.len() == w.channels,
    ensures
        ({
            let (w1, c1) = worker_step(w, Some(Message::Play(first, channel, first_freq)));
            let (w2, c2) = worker_step(w1, Some(Message::Play(second, channel, second_freq)));
            let after = apply_calls(slots, c1 + c2);
            &&& w2 == w
            &&& after.len() == slots.len()
            &&& after[channel as int] == Some(voice_osc(second, second_freq, PLAY_DURATION_MS as nat))
            &&& forall|i: int| 0 <= i < slots.len() && i != channel ==> after[i] == slots[i]
        }),
{
    let (w1, c1) = worker_step(w, Some(Message::Play(first, channel, first_freq)));
    let (w2, c2) = worker_step(w1, Some(Message::Play(second, channel, second_freq)));
    lemma_apply_concat(slots, c1, c2);
    let s1 = apply_calls(slots, c1);
    assert(c1.drop_first() =~= Seq::<SinkCallView>::empty());
    assert(c2.drop_first() =~= Seq::<SinkCallView>::empty());
    reveal_with_fuel(apply_calls, 2);
    assert(s1 == apply_call(slots, c1[0]));
    assert(apply_calls(s1, c2) == apply_call(s1, c2[0]));
}

/// Once the worker has taken `Terminate`, it has stopped for good: every later
/// command is ignored and asks nothing of the backend.
pub proof fn lemma_terminate_is_final(w: WorkerView, later: Seq<Option<Message>>)
    requires
        w.running,
    ensures
        !worker_step(w, Some(Message::Terminate)).0.running,
        worker_step(w, Some(Message::Terminate)).1 == teardown_calls(w.channels),
        worker_run(worker_step(w, Some(Message::Terminate)).0, later).1 == Seq::<SinkCallView>::empty(),
{
    let stopped = worker_step(w, Some(Message::Terminate)).0;
    lemma_stopped_stays_silent(stopped, later);
}

/// The worker's state after a list of commands, and everything it asked of
/// the backend, in order.
pub open spec fn worker_run(w: WorkerView, msgs: Seq<Option<Message>>) -> (WorkerView, Seq<SinkCallView>)
    decreases msgs.len(),
{
    if msgs.len() == 0 {
        (w, seq![])
    } else {
        let (w1, c1) = worker_step(w, msgs[0]);
        let (w2, c2) = worker_run(w1, msgs.drop_first());
        (w2, c1 + c2)
    }
}

proof fn lemma_stopped_stays_silent(w: WorkerView, msgs: Seq<Option<Message>>)
    requires
        !w.running,
    ensures
        worker_run(w, msgs) == (w, Seq::<SinkCallView>::empty()),
    decreases msgs.len(),
{
    if msgs.len() > 0 {
        lemma_stopped_stays_silent(w, msgs.drop_first());
        assert(Seq::<SinkCallView>::empty() + Seq::<SinkCallView>::empty() =~= Seq::<SinkCallView>::empty());
    }
}

} // verus!
