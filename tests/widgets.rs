use rtrk::button::button;
use rtrk::cycle::Cycle;
use rtrk::oscillator::Oscillator;
use rtrk::voice::{ListMessage, Message as VoiceMessage, Voice, VoiceListView};
use rtrk::focus::FocusChain;
use rtrk::interaction::{CharModifiers, Event, Renderer, Style};
use rtrk::label::label;
use rtrk::pos::Pos;
use rtrk::textbox::{textbox, Message, TextBox};
use rtrk::widget::Focusable;

struct TestRenderer {
    out: String,
    styles: Vec<(Pos, Style)>,
}

impl TestRenderer {
    fn new() -> Self {
        Self { out: String::new(), styles: vec![] }
    }
}

impl Renderer for TestRenderer {
    fn clear(&mut self) {}
    fn flush(&mut self) {}
    fn render_str(&mut self, _pos: Pos, text: &str) {
        self.out += text;
    }
    fn render_fmt_str(&mut self, pos: Pos, text: &str, style: Style) {
        self.styles.push((pos, style));
        self.out += text;
    }
}

#[test]
fn pos_pos_math_test() {
    let p = Pos { r: 2, c: 3 };

    assert_eq!(p + Pos { r: 4, c: 2 }, Pos { r: 6, c: 5 });
}

#[test]
fn pos_add_wraps() {
    let p = Pos { r: u16::MAX, c: 1 };
    assert_eq!(p + Pos { r: 2, c: 0 }, Pos { r: 1, c: 1 });
}

#[test]
fn textbox_textbox_test() {
    let txtbx = textbox(5);

    let btn_view = txtbx.view(Pos { r: 0, c: 0 });
    let mut renderer = TestRenderer::new();
    btn_view.draw(&mut renderer);
    assert_eq!(renderer.out, "-----");
}

#[test]
fn textbox_edits() {
    let mut t = TextBox::new(3);
    assert_eq!(t.text(), "   ");
    t.update(Message::EnterChar('a', CharModifiers::empty()));
    t.update(Message::EnterChar('b', CharModifiers::empty()));
    t.update(Message::EnterChar('c', CharModifiers::empty()));
    // the caret stays on the last cell
    t.update(Message::EnterChar('d', CharModifiers::empty()));
    assert_eq!(t.text(), "abd");
    t.update(Message::DelBack);
    assert_eq!(t.text(), "a d");
    t.update(Message::Del);
    assert_eq!(t.text(), "a d");
    t.update(Message::CursorLeft);
    t.update(Message::CursorLeft);
    // from the first cell the caret wraps to the last
    t.update(Message::Del);
    assert_eq!(t.text(), "a  ");
    t.update(Message::CursorRight);
    t.update(Message::EnterChar('z', CharModifiers::empty()));
    assert_eq!(t.text(), "z  ");
}

#[test]
fn textbox_focused_draw_and_events() {
    let mut t = textbox(4);
    t.update(Message::EnterChar('x', CharModifiers::empty()));
    let v = t.view(Pos { r: 1, c: 2 });
    assert!(v.on_event(Event::Left).is_empty());
    t.focus();
    let v = t.view(Pos { r: 1, c: 2 });
    assert_eq!(v.on_event(Event::Left), vec![Message::CursorLeft]);
    assert_eq!(v.on_event(Event::Char('q', CharModifiers::shift())), vec![Message::EnterChar('q', CharModifiers::shift())]);
    assert!(v.on_event(Event::Activate).is_empty());
    let mut renderer = TestRenderer::new();
    v.draw(&mut renderer);
    assert_eq!(renderer.out, "x---");
    assert_eq!(
        renderer.styles,
        vec![
            (Pos { r: 1, c: 2 }, Style::Highlight),
            (Pos { r: 1, c: 3 }, Style::Invert),
            (Pos { r: 1, c: 4 }, Style::Highlight),
        ]
    );
}

#[test]
fn label_label_test() {
    let lbl = label(Pos { r: 0, c: 0 }, "LBL");

    let mut renderer = TestRenderer::new();
    lbl.draw(&mut renderer);
    assert_eq!(renderer.out, "LBL");

    // Can't activate a label
    let msg = lbl.on_event(Event::Activate);
    assert!(msg.is_empty());
}

#[test]
fn button_test() {
    let mut btn = button("BTN", 42);

    // Unless it's focused, it doesn't produce messages
    let btn_view = btn.view(Pos { r: 0, c: 0 });
    assert!(btn_view.on_event(Event::Activate).is_empty());

    let mut renderer = TestRenderer::new();
    btn_view.draw(&mut renderer);
    assert_eq!(renderer.out, " BTN ");

    // When focused, it can be activated
    btn.focus();
    let btn_view = btn.view(Pos { r: 0, c: 0 });
    let msg = btn_view.on_event(Event::Activate);
    assert_eq!(msg.len(), 1);
    assert_eq!(msg[0], 42);

    // Focused, it should also indicate that
    let mut renderer = TestRenderer::new();
    btn_view.draw(&mut renderer);
    assert_eq!(renderer.out, "[BTN]");
}

#[test]
fn focus_chain_walks_children_in_order() {
    let mut chain = FocusChain::new();
    chain.push(textbox(1));
    chain.push(textbox(2));
    chain.push(textbox(3));
    assert!(!chain.has_focus());

    chain.next_focus();
    assert_eq!(chain.focus_idx, Some(0));
    assert!(chain.focusables[0].has_focus());
    chain.next_focus();
    assert_eq!(chain.focus_idx, Some(1));
    assert!(!chain.focusables[0].has_focus());
    assert!(chain.focusables[1].has_focus());
    chain.next_focus();
    assert_eq!(chain.focus_idx, Some(2));
    chain.next_focus();
    assert_eq!(chain.focus_idx, None);
    assert!(!chain.has_focus());

    chain.prev_focus();
    assert_eq!(chain.focus_idx, Some(2));
    chain.prev_focus();
    assert_eq!(chain.focus_idx, Some(1));
    chain.defocus();
    assert!(!chain.has_focus());
    assert!(!chain.focusables[1].has_focus());

    chain.focus();
    assert_eq!(chain.focus_idx, Some(0));
    chain.defocus_all();
    assert!(chain.focusables.iter().all(|t| !t.has_focus()));
    chain.focus();
    chain.clear();
    assert!(chain.focusables.is_empty());
    assert_eq!(chain.focus_idx, None);
    // an empty chain takes no focus
    chain.next_focus();
    assert_eq!(chain.focus_idx, None);
}

#[test]
fn nested_focus_chains() {
    let mut inner = FocusChain::new();
    inner.push(textbox(1));
    inner.push(textbox(1));
    let mut outer = FocusChain::new();
    outer.push(inner);
    let mut other = FocusChain::new();
    other.push(textbox(1));
    outer.push(other);

    outer.next_focus();
    assert_eq!(outer.focus_idx, Some(0));
    assert_eq!(outer.focusables[0].focus_idx, Some(0));
    outer.next_focus();
    assert_eq!(outer.focusables[0].focus_idx, Some(1));
    outer.next_focus();
    assert_eq!(outer.focus_idx, Some(1));
    assert_eq!(outer.focusables[0].focus_idx, None);
    outer.next_focus();
    assert_eq!(outer.focus_idx, None);
}

#[test]
fn voice_fields_select_a_waveform() {
    let mut v = Voice::new();
    assert_eq!(v.get_voice(), None);
    v.update(VoiceMessage::Osc(Message::EnterChar('2', CharModifiers::empty())));
    assert_eq!(v.get_voice().map(|x| x.osc), Some(Oscillator::Square));
    v.update(VoiceMessage::Env(Message::EnterChar('7', CharModifiers::empty())));
    assert_eq!(v.focus_chain.focusables[1].text(), "7       ");
    assert!(!v.has_focus());
    v.update(VoiceMessage::NextFocus);
    assert!(v.has_focus());
    assert_eq!(v.focus_chain.focus_idx, Some(0));
}

#[test]
fn voice_list_rows_and_events() {
    let mut focused = Voice::new();
    focused.next_focus();
    let rows = vec![Voice::new().view(Pos { r: 0, c: 5 }), focused.view(Pos { r: 1, c: 5 })];
    let list = VoiceListView::new(Pos { r: 0, c: 0 }, rows, Cycle::new(0xFF, 0x100), true);
    let mut renderer = TestRenderer::new();
    list.draw(&mut renderer);
    assert!(renderer.out.starts_with("FF00"));

    assert_eq!(list.on_event(Event::Up), vec![ListMessage::Up]);
    assert_eq!(list.on_event(Event::NextFocus), vec![ListMessage::NextFocus]);
    assert_eq!(
        list.on_event(Event::Char('1', CharModifiers::empty())),
        vec![ListMessage::Voice(0, VoiceMessage::Osc(Message::EnterChar('1', CharModifiers::empty())))]
    );

    let rows = vec![Voice::new().view(Pos { r: 0, c: 5 })];
    let unfocused = VoiceListView::new(Pos { r: 0, c: 0 }, rows, Cycle::new(0, 0x100), false);
    assert!(unfocused.on_event(Event::Up).is_empty());
    assert_eq!(unfocused.on_event(Event::PrevFocus), vec![ListMessage::PrevFocus]);
}
