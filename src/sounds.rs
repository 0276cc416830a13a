//! The sound list of the tracker's synth page: each sound's waveform and
//! envelope settings, shown as hexadecimal fields.

use vstd::prelude::*;
use crate::interaction::{draws_view, Draw, DrawView};
use crate::pos::{pos_add, Pos};
use crate::tracker::{fmt_1, fmt_2, hex2, hex_digit};
use crate::widget::string_of;

verus! {

/// The number of sounds.
pub const SOUND_COUNT: usize = 255;

/// One sound's settings; an unset field shows as dashes.
#[derive(Copy, Clone, Debug, PartialEq, Eq, Default, Structural)]
pub struct Sound {
    pub wave_id: Option<u8>,
    pub attack: Option<u8>,
    pub decay: Option<u8>,
    pub sustain: Option<u8>,
    pub release: Option<u8>,
}

/// A sound with nothing set.
pub open spec fn unset_sound() -> Sound {
    Sound { wave_id: None, attack: None, decay: None, sustain: None, release: None }
}

/// A field in one digit or more (`-` when unset).
pub open spec fn field1(v: Option<u8>) -> Seq<char> {
    match v {
        Some(v) => if v < 16 { seq![hex_digit(v as nat)] } else { hex2(v) },
        None => seq!['-'],
    }
}

/// A field in two digits (`--` when unset).
pub open spec fn field2(v: Option<u8>) -> Seq<char> {
    match v {
        Some(v) => hex2(v),
        None => seq!['-', '-'],
    }
}

/// What a sound shows at `pos`: its waveform, then, one column further on,
/// attack, decay, sustain and release side by side.
pub open spec fn sound_draws(s: Sound, pos: Pos) -> Seq<DrawView> {
    seq![
        DrawView { pos, text: field1(s.wave_id), style: None },
        DrawView {
            pos: pos_add(pos, Pos { r: 0, c: (field1(s.wave_id).len() + 1) as u16 }),
            text: field2(s.attack) + field2(s.decay) + field2(s.sustain) + field2(s.release),
            style: None,
        },
    ]
}

impl Sound {
    /// A sound with nothing set.
    pub fn new() -> (r: Sound)
        ensures
            r == unset_sound(),
    {
        Sound { wave_id: None, attack: None, decay: None, sustain: None, release: None }
    }

    /// The pieces of text the sound shows at `pos`.
    pub fn draws(&self, pos: Pos) -> (r: Vec<Draw>)
        ensures
            draws_view(r@) == sound_draws(*self, pos),
    {
        let wave = fmt_1(self.wave_id);
        let width: u16 = if wave.unicode_len() == 1 { 2 } else { 3 };
        let mut env: Vec<char> = Vec::new();
        push_str(&mut env, fmt_2(self.attack).as_str());
        push_str(&mut env, fmt_2(self.decay).as_str());
        push_str(&mut env, fmt_2(self.sustain).as_str());
        push_str(&mut env, fmt_2(self.release).as_str());
        let mut r: Vec<Draw> = Vec::new();
        r.push(Draw { pos, text: wave, style: None });
        r.push(Draw { pos: pos + Pos { r: 0, c: width }, text: string_of(env.as_slice()), style: None });
        proof {
            assert(env@ =~= field2(self.attack) + field2(self.decay) + field2(self.sustain) + field2(self.release));
            assert(draws_view(r@) =~= sound_draws(*self, pos));
        }
        r
    }
}

/// Appends the characters of `s`.
fn push_str(v: &mut Vec<char>, s: &str)
    ensures
        final(v)@ == old(v)@ + s@,
{
    let n = s.unicode_len();
    let mut i: usize = 0;
    let ghost start = v@;
    while i < n
        invariant
            i <= n == s@.len(),
            v@ == start + s@.subrange(0, i as int),
        decreases n - i,
    {
        v.push(s.get_char(i));
        proof {
            assert(s@.subrange(0, i + 1) =~= s@.subrange(0, i as int).push(s@[i as int]));
        }
        i = i + 1;
    }
    proof {
        assert(s@.subrange(0, n as int) =~= s@);
    }
}

/// The sounds, and the one at the top of the visible list.
pub struct SynthViewModel {
    pub sounds: Vec<Sound>,
    pub sounds_list_active: u8,
}

impl SynthViewModel {
    /// Every sound unset but two demonstration sounds, the list scrolled to
    /// sound 0x17.
    pub fn new() -> (r: SynthViewModel)
        ensures
            r.sounds@.len() == SOUND_COUNT,
            r.sounds_list_active == 23,
            r.sounds@[24] == (Sound {
                wave_id: Some(2),
                attack: Some(0x35),
                decay: Some(0xFF),
                sustain: Some(0x10),
                release: Some(0x01),
            }),
            r.sounds@[26] == (Sound {
                wave_id: Some(4),
                attack: Some(0x10),
                decay: Some(0x10),
                sustain: Some(0xA0),
                release: Some(0x00),
            }),
            forall|i: int| 0 <= i < SOUND_COUNT && i != 24 && i != 26 ==> r.sounds@[i] == unset_sound(),
    {
        let mut sounds: Vec<Sound> = Vec::new();
        let mut i: usize = 0;
        while i < SOUND_COUNT
            invariant
                i <= SOUND_COUNT,
                sounds@.len() == i,
                forall|j: int| 0 <= j < i ==> sounds@[j] == unset_sound(),
            decreases SOUND_COUNT - i,
        {
            sounds.push(Sound::new());
            i = i + 1;
        }
        sounds.set(24, Sound {
            wave_id: Some(2),
            attack: Some(0x35),
            decay: Some(0xFF),
            sustain: Some(0x10),
            release: Some(0x01),
        });
        sounds.set(26, Sound {
            wave_id: Some(4),
            attack: Some(0x10),
            decay: Some(0x10),
            sustain: Some(0xA0),
            release: Some(0x00),
        });
        SynthViewModel { sounds, sounds_list_active: 23 }
    }
}

/// The visible part of the sound list.
pub struct SoundList {}

/// The number of rows of the sound list.
pub const SOUNDS_LIST_HEIGHT: u8 = 6;

impl SoundList {
    /// Where the sound list's first row starts.
    pub fn origin() -> (r: Pos)
        ensures
            r == (Pos { r: 2, c: 3 }),
    {
        Pos { r: 2, c: 3 }
    }

    /// The sound list: one row per sound from the top one down, each the
    /// sound's number in two hexadecimal digits and, three columns on, the
    /// sound's fields.
    pub fn draws(vm: &SynthViewModel) -> (r: Vec<Draw>)
        requires
            vm.sounds_list_active + SOUNDS_LIST_HEIGHT <= u8::MAX,
            vm.sounds_list_active + SOUNDS_LIST_HEIGHT <= vm.sounds@.len(),
        ensures
            r@.len() == 3 * SOUNDS_LIST_HEIGHT,
            forall|k: int| 0 <= k < SOUNDS_LIST_HEIGHT ==> {
                let i = vm.sounds_list_active + k;
                let row = Pos { r: (2 + k) as u16, c: 3 };
                &&& (#[trigger] draws_view(r@)[3 * k]) == (DrawView { pos: row, text: hex2(i as u8), style: None })
                &&& draws_view(r@).subrange(3 * k + 1, 3 * k + 3) == sound_draws(
                    vm.sounds@[i],
                    pos_add(row, Pos { r: 0, c: 5 }),
                )
            },
    {
        let origin = SoundList::origin();
        let start = vm.sounds_list_active;
        let mut r: Vec<Draw> = Vec::new();
        let mut k: u8 = 0;
        while k < SOUNDS_LIST_HEIGHT
            invariant
                k <= SOUNDS_LIST_HEIGHT,
                start == vm.sounds_list_active,
                origin == (Pos { r: 2, c: 3 }),
                start + SOUNDS_LIST_HEIGHT <= u8::MAX,
                start + SOUNDS_LIST_HEIGHT <= vm.sounds@.len(),
                r@.len() == 3 * k,
                forall|j: int| 0 <= j < k ==> {
                    let i = vm.sounds_list_active + j;
                    let row = Pos { r: (2 + j) as u16, c: 3 };
                    &&& (#[trigger] draws_view(r@)[3 * j]) == (DrawView { pos: row, text: hex2(i as u8), style: None })
                    &&& draws_view(r@).subrange(3 * j + 1, 3 * j + 3) == sound_draws(
                        vm.sounds@[i],
                        pos_add(row, Pos { r: 0, c: 5 }),
                    )
                },
            decreases SOUNDS_LIST_HEIGHT - k,
        {
            let i = start + k;
            let row = Pos { r: origin.r + k as u16, c: origin.c };
            let ghost before = r@;
            let d = Draw { pos: row, text: fmt_2(Some(i)), style: None };
            let ghost dv = d@;
            r.push(d);
            let mut fields = vm.sounds[i as usize].draws(row + Pos { r: 0, c: 5 });
            let ghost fv = fields@;
            r.append(&mut fields);
            proof {
                let dr = draws_view(r@);
                let db = draws_view(before);
                let df = draws_view(fv);
                assert(r@ =~= before.push(d).add(fv));
                assert(dr =~= db + seq![dv] + df);
                assert(dr.subrange(3 * k + 1, 3 * k + 3) =~= df);
                assert forall|j: int| 0 <= j < k + 1 implies {
                    let i = vm.sounds_list_active + j;
                    let row = Pos { r: (2 + j) as u16, c: 3 };
                    &&& (#[trigger] draws_view(r@)[3 * j]) == (DrawView { pos: row, text: hex2(i as u8), style: None })
                    &&& draws_view(r@).subrange(3 * j + 1, 3 * j + 3) == sound_draws(
                        vm.sounds@[i],
                        pos_add(row, Pos { r: 0, c: 5 }),
                    )
                } by {
                    if j < k {
                        assert(dr[3 * j] == db[3 * j]);
                        assert(dr.subrange(3 * j + 1, 3 * j + 3) =~= db.subrange(3 * j + 1, 3 * j + 3));
                    }
                }
            }
            k = k + 1;
        }
        r
    }
}

/// The tracker's track list: where it starts, and how many rows it shows.
pub struct Tracks {
    pub track_list_pos: Pos,
    pub track_list_height: u8,
}

impl Tracks {
    pub fn new() -> (r: Tracks)
        ensures
            r.track_list_pos == (Pos { r: 14, c: 2 }),
            r.track_list_height == 5,
    {
        Tracks { track_list_pos: Pos { r: 14, c: 2 }, track_list_height: 5 }
    }
}

} // verus!
