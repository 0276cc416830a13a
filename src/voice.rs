//! The voice editor: one voice's waveform, envelope and filter fields, and
//! the scrolling list of voices.

use vstd::prelude::*;
use crate::cycle::Cycle;
use crate::focus::FocusChain;
use crate::label::{label, Label};
use crate::interaction::{Event, Renderer};
use crate::pos::{pos_add, Pos};
use crate::synth;
use crate::textbox::{self, edited, textbox, textbox_messages, view_of, TextBox, TextBoxView};
use crate::tracker::{fmt_2, hex2, parsed_usize, picked_osc, voice_for_selection};
use crate::widget::Focusable;

verus! {

/// The position of each field in a voice's focus chain.
pub const OSC: usize = 0;
pub const ENV: usize = 1;
pub const FLT: usize = 2;

/// An edit of a voice.
#[derive(Copy, Clone, Debug, PartialEq, Eq, Structural)]
pub enum Message {
    NextFocus,
    PrevFocus,
    Osc(textbox::Message),
    Env(textbox::Message),
    Flt(textbox::Message),
}

/// One voice's fields: the waveform number (one cell), the envelope (eight)
/// and the filter (six), in focus order.
pub struct Voice {
    pub focus_chain: FocusChain<TextBox>,
}

/// Whether the fields are those of a voice: three of them, none empty.
pub open spec fn voice_fields_wf(fields: Seq<TextBox>) -> bool {
    fields.len() == 3 && forall|i: int| 0 <= i < 3 ==> (#[trigger] fields[i].state()).width > 0
}

/// The fields after an edit of one of them.
pub open spec fn voice_edited(fields: Seq<TextBox>, at: int, m: textbox::Message, result: Seq<TextBox>) -> bool {
    &&& result.len() == fields.len()
    &&& result[at].state() == edited(fields[at].state(), m)
    &&& forall|i: int| 0 <= i < fields.len() && i != at ==> result[i] == fields[i]
}

impl Voice {
    /// A voice with blank fields and no focus.
    pub fn new() -> (r: Voice)
        ensures
            voice_fields_wf(r.focus_chain.focusables@),
            r.focus_chain.focus_idx is None,
            r.focus_chain.focusables@[OSC as int].state().width == 1,
            r.focus_chain.focusables@[ENV as int].state().width == 8,
            r.focus_chain.focusables@[FLT as int].state().width == 6,
    {
        let mut focus_chain = FocusChain::new();
        focus_chain.push(textbox(1));
        focus_chain.push(textbox(8));
        focus_chain.push(textbox(6));
        Voice { focus_chain }
    }

    /// The voice that the waveform field selects, if any.
    pub fn get_voice(&self) -> (r: Option<synth::Voice>)
        ensures
            self.focus_chain.focusables@.len() == 0 ==> r is None,
            self.focus_chain.focusables@.len() > 0 ==> r == (match picked_osc(
                parsed_usize(self.focus_chain.focusables@[OSC as int].state().text),
            ) {
                Some(osc) => Some(synth::Voice { osc, env: None, lp: None, hp: None }),
                None => None,
            }),
    {
        if self.focus_chain.focusables.len() == 0 {
            return None;
        }
        voice_for_selection(self.focus_chain.focusables[OSC].text())
    }

    /// Applies an edit to its field, or moves the focus among the fields. A
    /// voice whose fields are not those of a voice ignores edits.
    pub fn update(&mut self, msg: Message)
        ensures
            final(self).focus_chain.focusables@.len() == old(self).focus_chain.focusables@.len(),
            match msg {
                Message::Osc(m) => voice_fields_wf(old(self).focus_chain.focusables@) ==> voice_edited(
                    old(self).focus_chain.focusables@,
                    OSC as int,
                    m,
                    final(self).focus_chain.focusables@,
                ),
                Message::Env(m) => voice_fields_wf(old(self).focus_chain.focusables@) ==> voice_edited(
                    old(self).focus_chain.focusables@,
                    ENV as int,
                    m,
                    final(self).focus_chain.focusables@,
                ),
                Message::Flt(m) => voice_fields_wf(old(self).focus_chain.focusables@) ==> voice_edited(
                    old(self).focus_chain.focusables@,
                    FLT as int,
                    m,
                    final(self).focus_chain.focusables@,
                ),
                _ => true,
            },
            match msg {
                Message::Osc(_) | Message::Env(_) | Message::Flt(_) => !voice_fields_wf(
                    old(self).focus_chain.focusables@,
                ) ==> final(self).focus_chain.focusables@ == old(self).focus_chain.focusables@,
                _ => true,
            },
    {
        let at = match msg {
            Message::NextFocus => {
                self.focus_chain.advance();
                return;
            },
            Message::PrevFocus => {
                self.focus_chain.retreat();
                return;
            },
            Message::Osc(_) => OSC,
            Message::Env(_) => ENV,
            Message::Flt(_) => FLT,
        };
        let m = match msg {
            Message::Osc(m) | Message::Env(m) | Message::Flt(m) => m,
            _ => return,
        };
        let fields = &self.focus_chain.focusables;
        if fields.len() != 3 || fields[0].width() == 0 || fields[1].width() == 0 || fields[2].width() == 0 {
            return;
        }
        proof {
            assert(voice_fields_wf(self.focus_chain.focusables@));
            assert(self.focus_chain.focusables@[at as int].state().width > 0);
        }
        self.focus_chain.focusables[at].update(m);
    }

    /// A view of the fields, from `pos`.
    pub fn view(&self, pos: Pos) -> (r: VoiceView)
        requires
            self.focus_chain.focusables@.len() == 3,
        ensures
            r.osc_txt@ == view_of(self.focus_chain.focusables@[OSC as int].state(), pos_add(pos, Pos { r: 0, c: 0 })),
            r.env_txt@ == view_of(self.focus_chain.focusables@[ENV as int].state(), pos_add(pos, Pos { r: 0, c: 2 })),
            r.flt_txt@ == view_of(self.focus_chain.focusables@[FLT as int].state(), pos_add(pos, Pos { r: 0, c: 11 })),
    {
        let f = &self.focus_chain.focusables;
        VoiceView {
            osc_txt: f[OSC].view(pos + Pos { r: 0, c: 0 }),
            env_txt: f[ENV].view(pos + Pos { r: 0, c: 2 }),
            flt_txt: f[FLT].view(pos + Pos { r: 0, c: 11 }),
        }
    }
}

impl Focusable for Voice {
    open spec fn focused(&self) -> bool {
        self.focus_chain.focus_idx is Some
    }

    fn has_focus(&self) -> (r: bool) {
        self.focus_chain.has_focus()
    }

    fn focus(&mut self) {
        self.focus_chain.focus();
    }

    fn defocus(&mut self) {
        self.focus_chain.defocus();
    }

    fn next_focus(&mut self) {
        self.focus_chain.next_focus();
    }

    fn prev_focus(&mut self) {
        self.focus_chain.prev_focus();
    }
}

/// A voice's fields drawn from a place.
pub struct VoiceView {
    pub osc_txt: TextBoxView,
    pub env_txt: TextBoxView,
    pub flt_txt: TextBoxView,
}

/// What a voice's view makes of an event: focus moves go to the voice;
/// other events go to each field, and come back as edits of that field,
/// waveform field first.
pub open spec fn voice_view_messages(v: VoiceView, e: Event) -> Seq<Message> {
    if e == Event::NextFocus {
        seq![Message::NextFocus]
    } else if e == Event::PrevFocus {
        seq![Message::PrevFocus]
    } else {
        textbox_messages(v.osc_txt@.focused, e).map_values(|m: textbox::Message| Message::Osc(m))
            + textbox_messages(v.env_txt@.focused, e).map_values(|m: textbox::Message| Message::Env(m))
            + textbox_messages(v.flt_txt@.focused, e).map_values(|m: textbox::Message| Message::Flt(m))
    }
}

impl VoiceView {
    /// The edits that an event asks of the voice.
    pub fn on_event(&self, e: Event) -> (r: Vec<Message>)
        ensures
            r@ == voice_view_messages(*self, e),
    {
        let mut msgs: Vec<Message> = Vec::new();
        match e {
            Event::NextFocus => {
                msgs.push(Message::NextFocus);
                proof {
                    assert(msgs@ =~= seq![Message::NextFocus]);
                }
                return msgs;
            },
            Event::PrevFocus => {
                msgs.push(Message::PrevFocus);
                proof {
                    assert(msgs@ =~= seq![Message::PrevFocus]);
                }
                return msgs;
            },
            _ => {},
        }
        let osc = self.osc_txt.on_event(e);
        let env = self.env_txt.on_event(e);
        let flt = self.flt_txt.on_event(e);
        let mut i: usize = 0;
        while i < osc.len()
            invariant
                i <= osc.len(),
                msgs@ == osc@.subrange(0, i as int).map_values(|m: textbox::Message| Message::Osc(m)),
            decreases osc.len() - i,
        {
            msgs.push(Message::Osc(osc[i]));
            proof {
                assert(osc@.subrange(0, i + 1) =~= osc@.subrange(0, i as int).push(osc@[i as int]));
                assert(msgs@ =~= osc@.subrange(0, i + 1).map_values(|m: textbox::Message| Message::Osc(m)));
            }
            i = i + 1;
        }
        proof {
            assert(osc@.subrange(0, osc@.len() as int) =~= osc@);
        }
        let ghost after_osc = msgs@;
        let mut i: usize = 0;
        while i < env.len()
            invariant
                i <= env.len(),
                msgs@ == after_osc + env@.subrange(0, i as int).map_values(|m: textbox::Message| Message::Env(m)),
            decreases env.len() - i,
        {
            msgs.push(Message::Env(env[i]));
            proof {
                assert(env@.subrange(0, i + 1) =~= env@.subrange(0, i as int).push(env@[i as int]));
                assert(msgs@ =~= after_osc + env@.subrange(0, i + 1).map_values(|m: textbox::Message| Message::Env(m)));
            }
            i = i + 1;
        }
        proof {
            assert(env@.subrange(0, env@.len() as int) =~= env@);
        }
        let ghost after_env = msgs@;
        let mut i: usize = 0;
        while i < flt.len()
            invariant
                i <= flt.len(),
                msgs@ == after_env + flt@.subrange(0, i as int).map_values(|m: textbox::Message| Message::Flt(m)),
            decreases flt.len() - i,
        {
            msgs.push(Message::Flt(flt[i]));
            proof {
                assert(flt@.subrange(0, i + 1) =~= flt@.subrange(0, i as int).push(flt@[i as int]));
                assert(msgs@ =~= after_env + flt@.subrange(0, i + 1).map_values(|m: textbox::Message| Message::Flt(m)));
            }
            i = i + 1;
        }
        proof {
            assert(flt@.subrange(0, flt@.len() as int) =~= flt@);
        }
        msgs
    }

    pub fn draw<R: Renderer>(&self, renderer: &mut R)
        requires
            self.osc_txt@.focused ==> self.osc_txt@.caret < self.osc_txt@.text.len(),
            self.env_txt@.focused ==> self.env_txt@.caret < self.env_txt@.text.len(),
            self.flt_txt@.focused ==> self.flt_txt@.caret < self.flt_txt@.text.len(),
    {
        self.osc_txt.draw(renderer);
        self.env_txt.draw(renderer);
        self.flt_txt.draw(renderer);
    }
}

/// A move in the voice list, or an edit of one voice.
#[derive(Copy, Clone, Debug, PartialEq, Eq, Structural)]
pub enum ListMessage {
    NextFocus,
    PrevFocus,
    Up,
    Down,
    /// An edit of the voice with this index.
    Voice(usize, Message),
}

/// The rows of the voice list on screen: each row's index label and voice.
pub struct VoiceListView {
    voices: Vec<VoiceView>,
    idx_offset: Cycle,
    idx_labels: Vec<Label>,
    has_focus: bool,
}

/// The edits that rows `0..n` ask for, in row order, each tagged with the
/// index of its row's voice.
pub open spec fn rows_messages(views: Seq<VoiceView>, first: nat, m: nat, e: Event, n: nat) -> Seq<ListMessage>
    decreases n,
{
    if n == 0 {
        seq![]
    } else {
        rows_messages(views, first, m, e, (n - 1) as nat) + voice_view_messages(views[n - 1], e).map_values(
            |vm: Message| ListMessage::Voice(((first + n - 1) % (m as int)) as usize, vm),
        )
    }
}

impl VoiceListView {
    #[verifier::type_invariant]
    closed spec fn inv(self) -> bool {
        self.idx_offset.modulus() > 0
    }

    pub closed spec fn rows(&self) -> Seq<VoiceView> {
        self.voices@
    }

    pub closed spec fn offset(&self) -> Cycle {
        self.idx_offset
    }

    pub closed spec fn labels(&self) -> Seq<Label> {
        self.idx_labels@
    }

    pub closed spec fn focused(&self) -> bool {
        self.has_focus
    }

    /// The list from `pos`: row `i` shows the voice view `voices[i]`, five
    /// columns in, after its index `first_voice_idx + i` in two hexadecimal
    /// digits.
    pub fn new(pos: Pos, voices: Vec<VoiceView>, first_voice_idx: Cycle, has_focus: bool) -> (r: VoiceListView)
        requires
            0 < first_voice_idx.modulus() <= 0x100,
            voices@.len() <= u16::MAX,
        ensures
            r.rows() == voices@,
            r.offset() == first_voice_idx,
            r.focused() == has_focus,
            r.labels().len() == voices@.len(),
            forall|i: int| 0 <= i < voices@.len() ==> {
                &&& (#[trigger] r.labels()[i]).spec_pos() == pos_add(pos, Pos { r: i as u16, c: 0 })
                &&& r.labels()[i].spec_text() == hex2(((first_voice_idx.pos() + i) % (first_voice_idx.modulus() as int)) as u8)
            },
    {
        let mut idx_labels: Vec<Label> = Vec::new();
        let mut i: usize = 0;
        while i < voices.len()
            invariant
                i <= voices@.len() <= u16::MAX,
                0 < first_voice_idx.modulus() <= 0x100,
                idx_labels@.len() == i,
                forall|j: int| 0 <= j < i ==> {
                    &&& (#[trigger] idx_labels@[j]).spec_pos() == pos_add(pos, Pos { r: j as u16, c: 0 })
                    &&& idx_labels@[j].spec_text() == hex2(((first_voice_idx.pos() + j) % (first_voice_idx.modulus() as int)) as u8)
                },
            decreases voices@.len() - i,
        {
            let idx = *(first_voice_idx + i);
            let text = fmt_2(Some(idx as u8));
            idx_labels.push(label(pos + Pos { r: i as u16, c: 0 }, text.as_str()));
            i = i + 1;
        }
        VoiceListView { voices, idx_offset: first_voice_idx, idx_labels, has_focus }
    }

    /// Focus moves always go to the list; nothing else does when it lacks the
    /// focus. With the focus, the arrows move the selection, and any other
    /// event goes to every row's voice, coming back as that voice's edits.
    pub fn on_event(&self, e: Event) -> (r: Vec<ListMessage>)
        ensures
            r@ == (if e == Event::NextFocus {
                seq![ListMessage::NextFocus]
            } else if e == Event::PrevFocus {
                seq![ListMessage::PrevFocus]
            } else if !self.focused() {
                seq![]
            } else if e == Event::Up {
                seq![ListMessage::Up]
            } else if e == Event::Down {
                seq![ListMessage::Down]
            } else {
                rows_messages(self.rows(), self.offset().pos(), self.offset().modulus(), e, self.rows().len())
            }),
    {
        let mut msgs: Vec<ListMessage> = Vec::new();
        match e {
            Event::NextFocus => {
                msgs.push(ListMessage::NextFocus);
                proof {
                    assert(msgs@ =~= seq![ListMessage::NextFocus]);
                }
                return msgs;
            },
            Event::PrevFocus => {
                msgs.push(ListMessage::PrevFocus);
                proof {
                    assert(msgs@ =~= seq![ListMessage::PrevFocus]);
                }
                return msgs;
            },
            _ => {},
        }
        if !self.has_focus {
            proof {
                assert(msgs@ =~= seq![]);
            }
            return msgs;
        }
        match e {
            Event::Up => {
                msgs.push(ListMessage::Up);
                proof {
                    assert(msgs@ =~= seq![ListMessage::Up]);
                }
                return msgs;
            },
            Event::Down => {
                msgs.push(ListMessage::Down);
                proof {
                    assert(msgs@ =~= seq![ListMessage::Down]);
                }
                return msgs;
            },
            _ => {},
        }
        proof {
            use_type_invariant(self);
        }
        let ghost first = self.idx_offset.pos();
        let ghost m = self.idx_offset.modulus();
        let mut i: usize = 0;
        while i < self.voices.len()
            invariant
                i <= self.voices@.len(),
                first == self.idx_offset.pos(),
                m == self.idx_offset.modulus(),
                m > 0,
                msgs@ == rows_messages(self.voices@, first, m, e, i as nat),
            decreases self.voices@.len() - i,
        {
            let vms = self.voices[i].on_event(e);
            let idx = *(self.idx_offset + i);
            let ghost before = msgs@;
            let mut j: usize = 0;
            while j < vms.len()
                invariant
                    j <= vms@.len(),
                    idx == (first + i) % (m as int),
                    msgs@ == before + vms@.subrange(0, j as int).map_values(|vm: Message| ListMessage::Voice(idx, vm)),
                decreases vms@.len() - j,
            {
                msgs.push(ListMessage::Voice(idx, vms[j]));
                proof {
                    assert(vms@.subrange(0, j + 1) =~= vms@.subrange(0, j as int).push(vms@[j as int]));
                    assert(msgs@ =~= before + vms@.subrange(0, j + 1).map_values(|vm: Message| ListMessage::Voice(idx, vm)));
                }
                j = j + 1;
            }
            proof {
                assert(vms@.subrange(0, vms@.len() as int) =~= vms@);
                assert(msgs@ =~= rows_messages(self.voices@, first, m, e, (i + 1) as nat));
            }
            i = i + 1;
        }
        msgs
    }

    pub fn draw<R: Renderer>(&self, renderer: &mut R)
        requires
            forall|i: int| 0 <= i < self.rows().len() ==> {
                let v = #[trigger] self.rows()[i];
                &&& v.osc_txt@.focused ==> v.osc_txt@.caret < v.osc_txt@.text.len()
                &&& v.env_txt@.focused ==> v.env_txt@.caret < v.env_txt@.text.len()
                &&& v.flt_txt@.focused ==> v.flt_txt@.caret < v.flt_txt@.text.len()
            },
    {
        let mut i: usize = 0;
        while i < self.idx_labels.len()
            invariant
                i <= self.idx_labels@.len(),
            decreases self.idx_labels@.len() - i,
        {
            self.idx_labels[i].draw(renderer);
            i = i + 1;
        }
        let mut i: usize = 0;
        while i < self.voices.len()
            invariant
                i <= self.voices@.len(),
                forall|k: int| 0 <= k < self.rows().len() ==> {
                    let v = #[trigger] self.rows()[k];
                    &&& v.osc_txt@.focused ==> v.osc_txt@.caret < v.osc_txt@.text.len()
                    &&& v.env_txt@.focused ==> v.env_txt@.caret < v.env_txt@.text.len()
                    &&& v.flt_txt@.focused ==> v.flt_txt@.caret < v.flt_txt@.text.len()
                },
            decreases self.voices@.len() - i,
        {
            let v = &self.voices[i];
            proof {
                assert(self.rows()[i as int] == *v);
            }
            v.draw(renderer);
            i = i + 1;
        }
    }
}

} // verus!
