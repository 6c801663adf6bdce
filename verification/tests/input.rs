use easyx::frame::{drain_events, escape_press, FrameLoop, LoopState};
use easyx::keycode::KeyCode;
use easyx::msg::{
    ExMessage, ExMessageType, InputError, Message, MessageFilter, RawEvent, MSG_ACTIVATE,
    MSG_CHAR, MSG_KEY_DOWN, MSG_KEY_UP, MSG_LBUTTON_DOWN, MSG_MOUSE_MOVE, MSG_MOUSE_WHEEL,
    MSG_MOVE, MSG_RBUTTON_UP, MSG_SIZE,
};
use easyx::queue::EventQueue;

fn raw(message: u32) -> RawEvent {
    RawEvent {
        message,
        ctrl: false,
        shift: false,
        lbutton: false,
        mbutton: false,
        rbutton: false,
        x: 0,
        y: 0,
        wheel: 0,
        vkcode: 0,
        scancode: 0,
        extended: false,
        prevdown: false,
        ch: 0,
        wparam: 0,
        lparam: 0,
    }
}

fn key_down(vkcode: u8, prevdown: bool) -> RawEvent {
    let mut r = raw(MSG_KEY_DOWN);
    r.vkcode = vkcode;
    r.scancode = 0x2A;
    r.prevdown = prevdown;
    r
}

#[test]
fn classify_decodes_mouse_fields() {
    let mut r = raw(MSG_MOUSE_MOVE);
    r.ctrl = true;
    r.lbutton = true;
    r.x = 120;
    r.y = 45;
    r.wheel = 7;
    let m = ExMessage::classify(&r).unwrap();
    assert_eq!(m.ty, ExMessageType::MouseMove);
    assert_eq!(
        m.msg,
        Message::Mouse {
            ctrl: true,
            shift: false,
            lbutton: true,
            mbutton: false,
            rbutton: false,
            x: 120,
            y: 45,
            wheel: 7,
        }
    );
}

#[test]
fn classify_decodes_keyboard_fields() {
    let m = ExMessage::classify(&key_down(0x1B, true)).unwrap();
    assert_eq!(m.ty, ExMessageType::KeyDown);
    assert_eq!(
        m.msg,
        Message::KeyBoard { vkcode: KeyCode::Escape, scancode: 0x2A, extended: false, prevdown: true }
    );
}

#[test]
fn classify_decodes_char_and_window() {
    let mut c = raw(MSG_CHAR);
    c.ch = 0x62;
    let m = ExMessage::classify(&c).unwrap();
    assert_eq!(m.ty, ExMessageType::Char);
    assert_eq!(m.msg, Message::Char(0x62));

    let mut w = raw(MSG_SIZE);
    w.wparam = 2;
    w.lparam = -9;
    let m = ExMessage::classify(&w).unwrap();
    assert_eq!(m.ty, ExMessageType::Size);
    assert_eq!(m.msg, Message::Window { wparam: 2, lparam: -9 });
}

#[test]
fn classify_rejects_unknown_identifier() {
    let r = raw(0xFFFFFFFF);
    assert_eq!(
        ExMessage::classify(&r),
        Err(InputError::UnrecognizedEventKind(0xFFFFFFFF))
    );
}

fn one_of_each_family() -> EventQueue {
    let mut q = EventQueue::new();
    q.push(key_down(0x41, false));
    q.push(raw(MSG_MOUSE_MOVE));
    q.push(raw(MSG_CHAR));
    q.push(raw(MSG_ACTIVATE));
    q
}

#[test]
fn filters_surface_only_their_family() {
    let mut q = one_of_each_family();
    let m = q.poll(MessageFilter::Mouse, true).unwrap().unwrap();
    assert!(matches!(m.msg, Message::Mouse { .. }));
    assert!(q.poll(MessageFilter::Mouse, true).unwrap().is_none());

    let mut q = one_of_each_family();
    let m = q.poll(MessageFilter::KeyBoard, true).unwrap().unwrap();
    assert!(matches!(m.msg, Message::KeyBoard { .. }));
    assert!(q.poll(MessageFilter::KeyBoard, true).unwrap().is_none());

    let mut q = one_of_each_family();
    let m = q.poll(MessageFilter::Char, true).unwrap().unwrap();
    assert!(matches!(m.msg, Message::Char(_)));
    assert!(q.poll(MessageFilter::Char, true).unwrap().is_none());

    let mut q = one_of_each_family();
    let m = q.poll(MessageFilter::Window, true).unwrap().unwrap();
    assert!(matches!(m.msg, Message::Window { .. }));
    assert!(q.poll(MessageFilter::Window, true).unwrap().is_none());
}

#[test]
fn all_filter_surfaces_every_kind_in_order() {
    let mut q = one_of_each_family();
    let kinds: Vec<ExMessageType> = (0..4)
        .map(|_| q.poll(MessageFilter::All, true).unwrap().unwrap().ty)
        .collect();
    assert_eq!(
        kinds,
        vec![
            ExMessageType::KeyDown,
            ExMessageType::MouseMove,
            ExMessageType::Char,
            ExMessageType::Activate,
        ]
    );
    assert!(q.poll(MessageFilter::All, true).unwrap().is_none());
}

#[test]
fn peek_returns_the_same_event_twice() {
    let mut q = EventQueue::new();
    q.push(key_down(0x41, false));
    let first = q.poll(MessageFilter::KeyBoard, false).unwrap();
    let second = q.poll(MessageFilter::KeyBoard, false).unwrap();
    assert!(first.is_some());
    assert_eq!(first, second);
    assert_eq!(q.len(), 1);
}

#[test]
fn consume_returns_the_event_once_then_empty() {
    let mut q = EventQueue::new();
    q.push(key_down(0x41, false));
    let first = q.poll(MessageFilter::KeyBoard, true).unwrap();
    let second = q.poll(MessageFilter::KeyBoard, true).unwrap();
    assert!(first.is_some());
    assert!(second.is_none());
    assert_eq!(q.len(), 0);
}

#[test]
fn consume_drops_skipped_records_peek_keeps_them() {
    let mut q = EventQueue::new();
    q.push(raw(MSG_MOUSE_MOVE));
    q.push(raw(MSG_MOUSE_WHEEL));
    q.push(key_down(0x42, false));
    // peeking past the two mouse records leaves all three queued
    let m = q.poll(MessageFilter::KeyBoard, false).unwrap().unwrap();
    assert_eq!(m.ty, ExMessageType::KeyDown);
    assert_eq!(q.len(), 3);
    // consuming drops the two skipped mouse records with the match
    let m = q.poll(MessageFilter::KeyBoard, true).unwrap().unwrap();
    assert_eq!(m.ty, ExMessageType::KeyDown);
    assert_eq!(q.len(), 0);
}

#[test]
fn poll_on_empty_queue_returns_none() {
    let mut q = EventQueue::new();
    assert!(q.poll(MessageFilter::All, true).unwrap().is_none());
    assert!(q.poll(MessageFilter::Mouse, false).unwrap().is_none());
}

#[test]
fn poll_surfaces_unknown_identifier_only_under_all() {
    let mut q = EventQueue::new();
    q.push(raw(0xFFFFFFFF));
    q.push(key_down(0x41, false));
    // a family filter skips the unknown record
    let m = q.poll(MessageFilter::KeyBoard, false).unwrap().unwrap();
    assert_eq!(m.ty, ExMessageType::KeyDown);
    // the all filter must surface it as a fatal error, leaving the queue
    let e = q.poll(MessageFilter::All, true).unwrap_err();
    assert_eq!(e, InputError::UnrecognizedEventKind(0xFFFFFFFF));
    assert_eq!(q.len(), 2);
}

#[test]
fn wait_consumes_the_first_match() {
    let mut q = EventQueue::new();
    q.push(raw(MSG_MOUSE_MOVE));
    q.push(key_down(0x43, false));
    let m = q.wait(MessageFilter::KeyBoard).unwrap();
    assert_eq!(m.ty, ExMessageType::KeyDown);
    assert_eq!(q.len(), 0);
}

#[test]
fn drain_observes_all_matching_events_in_order() {
    let mut q = EventQueue::new();
    q.push(key_down(0x41, false));
    q.push(raw(MSG_MOUSE_MOVE));
    q.push(key_down(0x42, false));
    q.push(key_down(0x43, false));
    q.push(raw(MSG_CHAR));
    let events = drain_events(&mut q, MessageFilter::KeyBoard).unwrap();
    assert_eq!(events.len(), 3);
    let keys: Vec<KeyCode> = events
        .iter()
        .map(|m| match m.msg {
            Message::KeyBoard { vkcode, .. } => vkcode,
            _ => panic!("a keyboard drain surfaced a non-keyboard event"),
        })
        .collect();
    assert_eq!(keys, vec![KeyCode::A, KeyCode::B, KeyCode::C]);
    // nothing matching is left
    assert!(q.poll(MessageFilter::KeyBoard, true).unwrap().is_none());
    // the character record behind the last match survived the drain
    assert_eq!(q.len(), 1);
}

#[test]
fn drain_of_empty_queue_is_empty() {
    let mut q = EventQueue::new();
    let events = drain_events(&mut q, MessageFilter::All).unwrap();
    assert!(events.is_empty());
}

#[test]
fn drain_under_all_stops_at_unknown_identifier() {
    let mut q = EventQueue::new();
    q.push(key_down(0x41, false));
    q.push(raw(0xDEAD_BEEF));
    let e = drain_events(&mut q, MessageFilter::All).unwrap_err();
    assert_eq!(e, InputError::UnrecognizedEventKind(0xDEAD_BEEF));
}

#[test]
fn escape_press_matches_only_fresh_escape_key_down() {
    let esc = ExMessage::classify(&key_down(0x1B, false)).unwrap();
    assert!(escape_press(&esc));
    let held = ExMessage::classify(&key_down(0x1B, true)).unwrap();
    assert!(!escape_press(&held));
    let other = ExMessage::classify(&key_down(0x41, false)).unwrap();
    assert!(!escape_press(&other));
    let mut up = key_down(0x1B, false);
    up.message = MSG_KEY_UP;
    let up = ExMessage::classify(&up).unwrap();
    assert!(!escape_press(&up));
}

#[test]
fn escape_stops_the_loop_in_the_same_iteration() {
    let mut q = EventQueue::new();
    q.push(key_down(0x1B, false));
    let mut fl = FrameLoop::new(MessageFilter::KeyBoard);
    assert_eq!(fl.state(), LoopState::Running);
    let events = fl.frame_input(&mut q).unwrap();
    assert_eq!(events.len(), 1);
    assert_eq!(fl.state(), LoopState::Stopped);
}

#[test]
fn loop_keeps_running_without_escape() {
    let mut q = EventQueue::new();
    q.push(key_down(0x41, false));
    q.push(key_down(0x1B, true));
    let mut fl = FrameLoop::new(MessageFilter::KeyBoard);
    let events = fl.frame_input(&mut q).unwrap();
    assert_eq!(events.len(), 2);
    assert_eq!(fl.state(), LoopState::Running);
}

#[test]
fn fatal_input_error_stops_the_loop() {
    let mut q = EventQueue::new();
    q.push(raw(0xFFFFFFFF));
    let mut fl = FrameLoop::new(MessageFilter::All);
    let e = fl.frame_input(&mut q).unwrap_err();
    assert_eq!(e, InputError::UnrecognizedEventKind(0xFFFFFFFF));
    assert_eq!(fl.state(), LoopState::Stopped);
}

#[test]
fn explicit_stop_ends_the_loop() {
    let mut fl = FrameLoop::new(MessageFilter::All);
    fl.stop();
    assert_eq!(fl.state(), LoopState::Stopped);
}

#[test]
fn mouse_events_report_button_messages() {
    let mut q = EventQueue::new();
    let mut r = raw(MSG_LBUTTON_DOWN);
    r.x = 10;
    r.y = 20;
    q.push(r);
    let mut r = raw(MSG_RBUTTON_UP);
    r.x = 30;
    r.y = 40;
    q.push(r);
    let mut r = raw(MSG_MOVE);
    r.lparam = 77;
    q.push(r);
    let events = drain_events(&mut q, MessageFilter::Mouse).unwrap();
    assert_eq!(events.len(), 2);
    assert_eq!(events[0].ty, ExMessageType::LButtonDown);
    assert_eq!(events[1].ty, ExMessageType::RButtonUp);
}
