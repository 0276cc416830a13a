//! The tracker's own rules: the tasks it hands to the synthesizer, the
//! keyboard modes, the note keys of the claviature, and how a voice is picked
//! from what the user typed.

use vstd::prelude::*;
use crate::cycle::Cycle;
use crate::interaction::{CharModifiers, Event, SHIFT_BIT};
use crate::widget::string_of;
use crate::oscillator::{Frequency, Note, Oscillator};
use crate::synth::Voice;
use crate::voice::ListMessage;

verus! {

/// What the application asks of the synthesizer.
#[derive(Copy, Clone, Debug, PartialEq, Eq, Structural)]
pub enum AppTask {
    PlayVoice(Voice, Frequency),
    StopVoice,
}

/// What typed characters do: edit text, or play notes.
#[derive(Copy, Clone, Debug, PartialEq, Eq, Structural)]
pub enum KbdMode {
    Text,
    Claviature,
}

impl KbdMode {
    /// The other mode.
    pub fn toggled(self) -> (r: KbdMode)
        ensures
            r != self,
    {
        match self {
            KbdMode::Text => KbdMode::Claviature,
            KbdMode::Claviature => KbdMode::Text,
        }
    }
}

/// The note of a claviature key: the lower row of the keyboard holds the
/// white keys from C, the row above it the black ones.
pub open spec fn key_note(c: char) -> Option<Frequency> {
    if c == 'Z' {
        Some(Note::C)
    } else if c == 'S' {
        Some(Note::CS)
    } else if c == 'X' {
        Some(Note::D)
    } else if c == 'D' {
        Some(Note::DS)
    } else if c == 'C' {
        Some(Note::E)
    } else if c == 'V' {
        Some(Note::F)
    } else if c == 'G' {
        Some(Note::FS)
    } else if c == 'B' {
        Some(Note::G)
    } else if c == 'H' {
        Some(Note::GS)
    } else if c == 'N' {
        Some(Note::A)
    } else if c == 'J' {
        Some(Note::AS)
    } else if c == 'M' {
        Some(Note::B)
    } else {
        None
    }
}

/// The note of a claviature key, if it is one.
pub fn note_for_key(c: char) -> (r: Option<Frequency>)
    ensures
        r == key_note(c),
{
    match c {
        'Z' => Some(Note::C),
        'S' => Some(Note::CS),
        'X' => Some(Note::D),
        'D' => Some(Note::DS),
        'C' => Some(Note::E),
        'V' => Some(Note::F),
        'G' => Some(Note::FS),
        'B' => Some(Note::G),
        'H' => Some(Note::GS),
        'N' => Some(Note::A),
        'J' => Some(Note::AS),
        'M' => Some(Note::B),
        _ => None,
    }
}

/// The frequency a note key plays: an octave up with Shift alone held
/// (saturating at the largest frequency), else the note itself.
pub open spec fn played(freq: Frequency, m: CharModifiers) -> Frequency {
    if m.0 == SHIFT_BIT {
        if 2 * freq <= u32::MAX {
            (2 * freq) as u32
        } else {
            u32::MAX
        }
    } else {
        freq
    }
}

/// The frequency a note key plays with the modifiers `m`.
pub fn played_frequency(freq: Frequency, m: CharModifiers) -> (r: Frequency)
    ensures
        r == played(freq, m),
{
    if m.bits() == SHIFT_BIT {
        if freq <= u32::MAX / 2 {
            freq * 2
        } else {
            u32::MAX
        }
    } else {
        freq
    }
}

/// What a key does in claviature mode.
#[derive(Copy, Clone, Debug, PartialEq, Eq, Structural)]
pub enum ClaviatureInput {
    /// Play the selected voice at a frequency.
    Play(Frequency),
    /// Silence the voice.
    Stop,
}

/// A character with lower-case ASCII letters made upper case.
pub open spec fn upper(c: char) -> char {
    if 'a' <= c && c <= 'z' {
        (((c as u32) - 32) as u8) as char
    } else {
        c
    }
}

/// What an event does in claviature mode: a note key (of either case) plays
/// its note, the space bar stops, and nothing else does anything.
pub open spec fn claviature_input(e: Event) -> Option<ClaviatureInput> {
    match e {
        Event::Char(c, m) => if upper(c) == ' ' {
            Some(ClaviatureInput::Stop)
        } else {
            match key_note(upper(c)) {
                Some(f) => Some(ClaviatureInput::Play(played(f, m))),
                None => None,
            }
        },
        _ => None,
    }
}

/// What an event does in claviature mode.
pub fn claviature_action(e: Event) -> (r: Option<ClaviatureInput>)
    ensures
        r == claviature_input(e),
{
    match e {
        Event::Char(c, m) => {
            let c = if 'a' <= c && c <= 'z' {
                (((c as u32) - 32) as u8) as char
            } else {
                c
            };
            if c == ' ' {
                Some(ClaviatureInput::Stop)
            } else {
                match note_for_key(c) {
                    Some(f) => Some(ClaviatureInput::Play(played_frequency(f, m))),
                    None => None,
                }
            }
        },
        _ => None,
    }
}

/// The value of a string of decimal digits.
pub open spec fn digits_value(s: Seq<char>) -> nat
    decreases s.len(),
{
    if s.len() == 0 {
        0
    } else {
        digits_value(s.drop_last()) * 10 + ((s.last() as u32) - ('0' as u32)) as nat
    }
}

/// Whether a string is one or more decimal digits.
pub open spec fn all_digits(s: Seq<char>) -> bool {
    s.len() > 0 && forall|i: int| 0 <= i < s.len() ==> '0' <= #[trigger] s[i] && s[i] <= '9'
}

/// A decimal number, as `usize` reads one: an optional `+`, then one or more
/// digits, of a value that fits.
pub open spec fn parsed_usize(s: Seq<char>) -> Option<usize> {
    let digits = if s.len() > 0 && s[0] == '+' { s.drop_first() } else { s };
    if all_digits(digits) && digits_value(digits) <= usize::MAX {
        Some(digits_value(digits) as usize)
    } else {
        None
    }
}

/// Relies on `usize`'s `FromStr`: the number that the string spells in
/// decimal, if it spells one that fits.
#[verifier::external_body]
fn parse_usize(s: &str) -> (r: Option<usize>)
    ensures
        r == parsed_usize(s@),
{
    s.parse::<usize>().ok()
}

/// The waveform picked by a number: 0 for sine, 1 for saw, 2 for square.
pub open spec fn picked_osc(n: Option<usize>) -> Option<Oscillator> {
    match n {
        Some(0) => Some(Oscillator::Sine),
        Some(1) => Some(Oscillator::Saw),
        Some(2) => Some(Oscillator::Square),
        _ => None,
    }
}

/// The voice that a waveform field's text selects: the waveform its number
/// picks, with no envelope and no filters; none when the text picks none.
pub fn voice_for_selection(text: &str) -> (r: Option<Voice>)
    ensures
        r == (match picked_osc(parsed_usize(text@)) {
            Some(osc) => Some(Voice { osc, env: None, lp: None, hp: None }),
            None => None,
        }),
{
    let osc = match parse_usize(text) {
        Some(0) => Oscillator::Sine,
        Some(1) => Oscillator::Saw,
        Some(2) => Oscillator::Square,
        _ => return None,
    };
    Some(Voice { osc, env: None, lp: None, hp: None })
}

/// The part of the voice list on screen: `list_window_len` rows from
/// `first_voice_idx`, wrapping past the end of the list, one of which is
/// selected.
#[derive(Copy, Clone, Debug)]
pub struct VoiceWindow {
    pub first_voice_idx: Cycle,
    pub selected_voice_idx: Cycle,
    pub list_window_len: usize,
}

/// The selection one row up; the window scrolls with it when it was on the
/// top row.
pub open spec fn up_from(first: nat, selected: nat, m: nat) -> (nat, nat) {
    (
        if selected == first { ((first as int - 1) % (m as int)) as nat } else { first },
        ((selected as int - 1) % (m as int)) as nat,
    )
}

/// The selection one row down; the window scrolls with it when it was on the
/// bottom row.
pub open spec fn down_from(first: nat, selected: nat, len: nat, m: nat) -> (nat, nat) {
    (
        if selected == (first + len as int - 1) % (m as int) {
            ((first as int + 1) % (m as int)) as nat
        } else {
            first
        },
        ((selected as int + 1) % (m as int)) as nat,
    )
}

impl VoiceWindow {
    /// Moves the selection up one row.
    pub fn up(&mut self)
        requires
            old(self).first_voice_idx.modulus() > 0,
            old(self).first_voice_idx.modulus() == old(self).selected_voice_idx.modulus(),
        ensures
            (final(self).first_voice_idx.pos(), final(self).selected_voice_idx.pos()) == up_from(
                old(self).first_voice_idx.pos(),
                old(self).selected_voice_idx.pos(),
                old(self).first_voice_idx.modulus(),
            ),
            final(self).first_voice_idx.modulus() == old(self).first_voice_idx.modulus(),
            final(self).selected_voice_idx.modulus() == old(self).selected_voice_idx.modulus(),
            final(self).list_window_len == old(self).list_window_len,
    {
        if *self.selected_voice_idx == *self.first_voice_idx {
            self.first_voice_idx = self.first_voice_idx - 1;
        }
        self.selected_voice_idx = self.selected_voice_idx - 1;
    }

    /// Moves the selection down one row.
    pub fn down(&mut self)
        requires
            old(self).first_voice_idx.modulus() > 0,
            old(self).first_voice_idx.modulus() == old(self).selected_voice_idx.modulus(),
            old(self).list_window_len > 0,
        ensures
            (final(self).first_voice_idx.pos(), final(self).selected_voice_idx.pos()) == down_from(
                old(self).first_voice_idx.pos(),
                old(self).selected_voice_idx.pos(),
                old(self).list_window_len as nat,
                old(self).first_voice_idx.modulus(),
            ),
            final(self).first_voice_idx.modulus() == old(self).first_voice_idx.modulus(),
            final(self).selected_voice_idx.modulus() == old(self).selected_voice_idx.modulus(),
            final(self).list_window_len == old(self).list_window_len,
    {
        let last_voice_idx = *(self.first_voice_idx + (self.list_window_len - 1));
        if *self.selected_voice_idx == last_voice_idx {
            self.first_voice_idx = self.first_voice_idx + 1;
        }
        self.selected_voice_idx = self.selected_voice_idx + 1;
    }

    /// The list index shown on row `row` of the window.
    pub fn row_index(&self, row: usize) -> (r: usize)
        requires
            self.first_voice_idx.modulus() > 0,
        ensures
            r == (self.first_voice_idx.pos() + row) % (self.first_voice_idx.modulus() as int),
    {
        *(self.first_voice_idx + row)
    }
}

/// The upper-case hexadecimal digit of a value below 16.
pub open spec fn hex_digit(d: nat) -> char {
    if d < 10 {
        (('0' as u32) + d) as char
    } else {
        (('A' as u32) + d - 10) as char
    }
}

fn hex_char(d: u8) -> (r: char)
    requires
        d < 16,
    ensures
        r == hex_digit(d as nat),
{
    if d < 10 {
        (48u8 + d) as char
    } else {
        (65u8 + d - 10) as char
    }
}

/// A byte in two upper-case hexadecimal digits.
pub open spec fn hex2(v: u8) -> Seq<char> {
    seq![hex_digit(v as nat / 16), hex_digit(v as nat % 16)]
}

/// A value in two digits (`--` when there is none).
pub fn fmt_2(val: Option<u8>) -> (r: String)
    ensures
        r@ == (match val {
            Some(v) => hex2(v),
            None => seq!['-', '-'],
        }),
{
    let mut chars: Vec<char> = Vec::new();
    match val {
        Some(v) => {
            chars.push(hex_char(v / 16));
            chars.push(hex_char(v % 16));
        },
        None => {
            chars.push('-');
            chars.push('-');
        },
    }
    proof {
        assert(chars@ =~= (match val {
            Some(v) => hex2(v),
            None => seq!['-', '-'],
        }));
    }
    string_of(chars.as_slice())
}

/// A value in as few digits as it takes, at least one (`-` when there is
/// none).
pub fn fmt_1(val: Option<u8>) -> (r: String)
    ensures
        r@ == (match val {
            Some(v) => if v < 16 { seq![hex_digit(v as nat)] } else { hex2(v) },
            None => seq!['-'],
        }),
{
    let mut chars: Vec<char> = Vec::new();
    match val {
        Some(v) => {
            if v >= 16 {
                chars.push(hex_char(v / 16));
            }
            chars.push(hex_char(v % 16));
        },
        None => {
            chars.push('-');
        },
    }
    proof {
        assert(chars@ =~= (match val {
            Some(v) => if v < 16 { seq![hex_digit(v as nat)] } else { hex2(v) },
            None => seq!['-'],
        }));
    }
    string_of(chars.as_slice())
}

/// A message to the application.
#[derive(Copy, Clone, Debug, PartialEq, Eq, Structural)]
pub enum Message {
    Quit,
    Play,
    Stop,
    PlayVoice(Frequency),
    StopVoice,
    Rewind,
    NextFocus,
    PrevFocus,
    NextKbdMode,
    VoiceList(ListMessage),
}

/// What the application does for a message.
#[derive(Copy, Clone, Debug, PartialEq, Eq, Structural)]
pub enum AppStep {
    /// End the application.
    Quit,
    /// Hand a task to the synthesizer.
    Run(AppTask),
    /// Pass the message to the voice list.
    Voices(ListMessage),
    NextFocus,
    PrevFocus,
    ToggleKbdMode,
    Nothing,
}

/// What the application does for a message, with `selected` the voice that
/// the voice list currently selects: playing needs a selected voice; the
/// transport buttons do nothing yet.
pub open spec fn app_step_of(msg: Message, selected: Option<Voice>) -> AppStep {
    match msg {
        Message::Quit => AppStep::Quit,
        Message::VoiceList(m) => AppStep::Voices(m),
        Message::Rewind | Message::Stop | Message::Play => AppStep::Nothing,
        Message::StopVoice => AppStep::Run(AppTask::StopVoice),
        Message::PlayVoice(freq) => match selected {
            Some(voice) => AppStep::Run(AppTask::PlayVoice(voice, freq)),
            None => AppStep::Nothing,
        },
        Message::NextFocus => AppStep::NextFocus,
        Message::PrevFocus => AppStep::PrevFocus,
        Message::NextKbdMode => AppStep::ToggleKbdMode,
    }
}

/// What the application does for a message.
pub fn app_step(msg: Message, selected: Option<Voice>) -> (r: AppStep)
    ensures
        r == app_step_of(msg, selected),
{
    match msg {
        Message::Quit => AppStep::Quit,
        Message::VoiceList(m) => AppStep::Voices(m),
        Message::Rewind | Message::Stop | Message::Play => AppStep::Nothing,
        Message::StopVoice => AppStep::Run(AppTask::StopVoice),
        Message::PlayVoice(freq) => match selected {
            Some(voice) => AppStep::Run(AppTask::PlayVoice(voice, freq)),
            None => AppStep::Nothing,
        },
        Message::NextFocus => AppStep::NextFocus,
        Message::PrevFocus => AppStep::PrevFocus,
        Message::NextKbdMode => AppStep::ToggleKbdMode,
    }
}

/// The messages the application itself makes of an event, before its
/// widgets see it: Esc quits and the backquote switches the keyboard mode in
/// either mode; in claviature mode every other event is a note key, the space
/// bar, or nothing; in text mode the focus keys move the focus. `None`: the
/// event goes on to the widgets.
pub open spec fn app_event_of(mode: KbdMode, e: Event) -> Option<Seq<Message>> {
    match e {
        Event::Quit => Some(seq![Message::Quit]),
        Event::Char('`', _) => Some(seq![Message::NextKbdMode]),
        _ => if mode == KbdMode::Claviature {
            Some(
                match claviature_input(e) {
                    Some(ClaviatureInput::Play(f)) => seq![Message::PlayVoice(f)],
                    Some(ClaviatureInput::Stop) => seq![Message::StopVoice],
                    None => seq![],
                },
            )
        } else {
            match e {
                Event::NextFocus => Some(seq![Message::NextFocus]),
                Event::PrevFocus => Some(seq![Message::PrevFocus]),
                _ => None,
            }
        },
    }
}

/// The messages the application itself makes of an event, if it takes it.
pub fn app_event(mode: KbdMode, e: Event) -> (r: Option<Vec<Message>>)
    ensures
        r is None <==> app_event_of(mode, e) is None,
        r is Some ==> r->0@ == app_event_of(mode, e)->0,
{
    let mut msgs: Vec<Message> = Vec::new();
    match e {
        Event::Quit => {
            msgs.push(Message::Quit);
        },
        Event::Char('`', _) => {
            msgs.push(Message::NextKbdMode);
        },
        _ => {
            if mode == KbdMode::Claviature {
                match claviature_action(e) {
                    Some(ClaviatureInput::Play(f)) => msgs.push(Message::PlayVoice(f)),
                    Some(ClaviatureInput::Stop) => msgs.push(Message::StopVoice),
                    None => {},
                }
            } else {
                match e {
                    Event::NextFocus => msgs.push(Message::NextFocus),
                    Event::PrevFocus => msgs.push(Message::PrevFocus),
                    _ => {
                        return None;
                    },
                }
            }
        },
    }
    proof {
        assert(msgs@ =~= app_event_of(mode, e)->0);
    }
    Some(msgs)
}

/// An event with a lower-case ASCII letter made upper case: the tracker's
/// fields take capitals only.
pub fn uppercase_event(e: Event) -> (r: Event)
    ensures
        r == (match e {
            Event::Char(c, m) => Event::Char(upper(c), m),
            _ => e,
        }),
{
    match e {
        Event::Char(c, m) => {
            let c = if 'a' <= c && c <= 'z' {
                (((c as u32) - 32) as u8) as char
            } else {
                c
            };
            Event::Char(c, m)
        },
        _ => e,
    }
}

} // verus!
