use rtrk::cycle::Cycle;
use rtrk::interaction::{render_all, Draw, Renderer, Style};
use rtrk::layout::{too_small_sign_pos, ui_offset};
use rtrk::pos::Pos;
use rtrk::sounds::{Sound, SoundList, SynthViewModel, Tracks};
use rtrk::tracker::{fmt_1, fmt_2, VoiceWindow};

struct Lines {
    out: Vec<(Pos, String)>,
}

impl Renderer for Lines {
    fn clear(&mut self) {}
    fn flush(&mut self) {}
    fn render_str(&mut self, pos: Pos, text: &str) {
        self.out.push((pos, text.to_string()));
    }
    fn render_fmt_str(&mut self, pos: Pos, text: &str, _style: Style) {
        self.out.push((pos, text.to_string()));
    }
}

fn rendered(draws: &Vec<Draw>) -> Vec<(Pos, String)> {
    let mut r = Lines { out: vec![] };
    render_all(&mut r, draws);
    r.out
}

#[test]
fn hex_fields() {
    assert_eq!(fmt_2(Some(0x0A)), "0A");
    assert_eq!(fmt_2(Some(0xFF)), "FF");
    assert_eq!(fmt_2(None), "--");
    assert_eq!(fmt_1(Some(2)), "2");
    assert_eq!(fmt_1(Some(0x35)), "35");
    assert_eq!(fmt_1(None), "-");
}

#[test]
fn sound_fields_on_screen() {
    let s = Sound { wave_id: Some(2), attack: Some(0x35), decay: Some(0xFF), sustain: Some(0x10), release: Some(0x01) };
    assert_eq!(
        rendered(&s.draws(Pos { r: 1, c: 1 })),
        vec![(Pos { r: 1, c: 1 }, "2".to_string()), (Pos { r: 1, c: 3 }, "35FF1001".to_string())]
    );
    assert_eq!(
        rendered(&Sound::new().draws(Pos { r: 0, c: 0 })),
        vec![(Pos { r: 0, c: 0 }, "-".to_string()), (Pos { r: 0, c: 2 }, "--------".to_string())]
    );
}

#[test]
fn sound_list_rows() {
    let vm = SynthViewModel::new();
    assert_eq!(vm.sounds.len(), 255);
    assert_eq!(vm.sounds_list_active, 23);
    assert_eq!(vm.sounds[0], Sound::new());
    let lines = rendered(&SoundList::draws(&vm));
    assert_eq!(lines.len(), 18);
    assert_eq!(lines[0], (Pos { r: 2, c: 3 }, "17".to_string()));
    assert_eq!(lines[1], (Pos { r: 2, c: 8 }, "-".to_string()));
    assert_eq!(lines[3], (Pos { r: 3, c: 3 }, "18".to_string()));
    assert_eq!(lines[4], (Pos { r: 3, c: 8 }, "2".to_string()));
    assert_eq!(lines[5], (Pos { r: 3, c: 10 }, "35FF1001".to_string()));
    assert_eq!(lines[11], (Pos { r: 5, c: 10 }, "1010A000".to_string()));
    let t = Tracks::new();
    assert_eq!((t.track_list_pos, t.track_list_height), (Pos { r: 14, c: 2 }, 5));
}

#[test]
fn interface_is_centred() {
    assert_eq!(ui_offset(Pos { r: 30, c: 100 }, Pos { r: 1, c: 2 }), Some(Pos { r: 4, c: 12 }));
    assert_eq!(ui_offset(Pos { r: 24, c: 80 }, Pos { r: 0, c: 0 }), Some(Pos { r: 0, c: 0 }));
    assert_eq!(ui_offset(Pos { r: 23, c: 100 }, Pos { r: 0, c: 0 }), None);
    assert_eq!(ui_offset(Pos { r: 30, c: 79 }, Pos { r: 0, c: 0 }), None);
    assert_eq!(too_small_sign_pos(Pos { r: 10, c: 40 }), Pos { r: 5, c: 18 });
    assert_eq!(too_small_sign_pos(Pos { r: 3, c: 3 }), Pos { r: 1, c: 0 });
}

#[test]
fn voice_window_scrolls_with_selection() {
    let mut w = VoiceWindow {
        first_voice_idx: Cycle::new(0, 0x100),
        selected_voice_idx: Cycle::new(0, 0x100),
        list_window_len: 6,
    };
    w.up();
    assert_eq!((*w.first_voice_idx, *w.selected_voice_idx), (0xFF, 0xFF));
    for _ in 0..5 {
        w.down();
    }
    assert_eq!((*w.first_voice_idx, *w.selected_voice_idx), (0xFF, 4));
    w.down();
    assert_eq!((*w.first_voice_idx, *w.selected_voice_idx), (0, 5));
    w.up();
    assert_eq!((*w.first_voice_idx, *w.selected_voice_idx), (0, 4));
    assert_eq!(w.row_index(5), 5);
    w.up();
    w.up();
    w.up();
    w.up();
    assert_eq!((*w.first_voice_idx, *w.selected_voice_idx), (0, 0));
    assert_eq!(w.row_index(0), 0);
}
