use termscreen::config::TermConfig;
use termscreen::dim::TermDim;
use termscreen::screen::{CursorState, ModeState, Screen};

const ESC: u8 = 0x1b;

fn sample_config() -> TermConfig {
    TermConfig {
        iflag: 0o2402,
        oflag: 0o5,
        cflag: 0o2277,
        lflag: 0o105073,
        cc_vmin: 0,
        cc_vtime: 1,
    }
}

fn open_session() -> Screen {
    let (screen, _enter) =
        Screen::new(true, Some(TermDim::new(24, 80)), Some(sample_config())).unwrap();
    screen
}

#[test]
fn construction_succeeds_on_interactive_terminal() {
    let r = Screen::new(true, Some(TermDim::new(24, 80)), Some(sample_config()));
    assert!(r.is_some());
    let (screen, enter) = r.unwrap();
    assert_eq!(enter, b"\x1b7\x1b[?1049h".to_vec());
    assert_eq!(screen.dims.get_height(), 24);
    assert_eq!(screen.dims.get_width(), 80);
    assert_eq!(screen.cur_pos, TermDim::new(0, 0));
    assert_eq!(screen.cursor_state, CursorState::Blinking);
    assert_eq!(screen.state_mode, ModeState::Default);
}

#[test]
fn construction_fails_without_terminal() {
    assert!(Screen::new(false, Some(TermDim::new(24, 80)), Some(sample_config())).is_none());
}

#[test]
fn construction_fails_without_dimensions() {
    assert!(Screen::new(true, None, Some(sample_config())).is_none());
}

#[test]
fn construction_fails_without_snapshot() {
    assert!(Screen::new(true, Some(TermDim::new(24, 80)), None).is_none());
}

#[test]
fn original_snapshot_is_captured_and_restored() {
    let cfg = sample_config();
    let mut screen = open_session();
    assert_eq!(screen.term_original, cfg);
    assert_eq!(screen.term_settings, cfg);
    // Switch to raw mode, then restore: the device gets back the exact
    // configuration that was observed before construction.
    let raw = screen.set_mode(ModeState::Raw).unwrap();
    assert_ne!(raw, cfg);
    assert_eq!(screen.confirm_mode(ModeState::Raw, true), Some(()));
    let restored = screen.set_screen_default();
    assert_eq!(restored, cfg);
    assert_eq!(screen.term_settings, cfg);
    assert_eq!(screen.term_original, cfg);
}

#[test]
fn show_cursor_emitted_only_once() {
    let mut screen = open_session();
    let hide = screen.set_cursor(CursorState::Off);
    assert_eq!(hide, b"\x1b[?25l".to_vec());
    let first = screen.set_cursor(CursorState::Blinking);
    assert_eq!(first, b"\x1b[?25h".to_vec());
    let second = screen.set_cursor(CursorState::Blinking);
    assert_eq!(second, Vec::<u8>::new());
    assert_eq!(screen.cursor_state, CursorState::Blinking);
}

#[test]
fn hide_cursor_emitted_only_once() {
    let mut screen = open_session();
    let first = screen.set_cursor(CursorState::Off);
    assert_eq!(first, b"\x1b[?25l".to_vec());
    let second = screen.set_cursor(CursorState::Off);
    assert_eq!(second, Vec::<u8>::new());
    assert_eq!(screen.cursor_state, CursorState::Off);
}

#[test]
fn solid_cursor_is_a_no_op_that_keeps_state() {
    let mut screen = open_session();
    let hide = screen.set_cursor(CursorState::Off);
    assert_eq!(hide, b"\x1b[?25l".to_vec());
    let out = screen.set_cursor(CursorState::Solid);
    assert_eq!(out, Vec::<u8>::new());
    assert_eq!(screen.cursor_state, CursorState::Off);
}

#[test]
fn teardown_emits_exit_once_even_after_failed_raw_mode() {
    let mut screen = open_session();
    let request = screen.set_mode(ModeState::Raw);
    assert!(request.is_some());
    // The device rejects the attribute-set call.
    assert_eq!(screen.confirm_mode(ModeState::Raw, false), None);
    let (out, restore) = screen.close();
    assert_eq!(out, b"\x1b[2J\x1b[?1049l\x1b8".to_vec());
    assert_eq!(restore, Some(sample_config()));
    // A second teardown emits and restores nothing.
    let (again, restore_again) = screen.close();
    assert_eq!(again, Vec::<u8>::new());
    assert_eq!(restore_again, None);
}

#[test]
fn teardown_restores_cursor_before_leaving_alternate_screen() {
    let mut screen = open_session();
    let hide = screen.set_cursor(CursorState::Off);
    assert_eq!(hide, b"\x1b[?25l".to_vec());
    let (out, restore) = screen.close();
    assert_eq!(out, b"\x1b[?25h\x1b[2J\x1b[?1049l\x1b8".to_vec());
    assert_eq!(restore, Some(sample_config()));
    assert_eq!(screen.cursor_state, CursorState::Blinking);
}

#[test]
fn raw_mode_clears_flags_and_records_mode_on_success() {
    let mut screen = open_session();
    let raw = screen.set_mode(ModeState::Raw).unwrap();
    // Canonical mode, echo, signals and extended processing are all
    // cleared relative to the original snapshot.
    assert_eq!(raw.lflag & 0o2, 0); // ICANON
    assert_eq!(raw.lflag & 0o10, 0); // ECHO
    assert_eq!(raw.lflag & 0o1, 0); // ISIG
    assert_eq!(raw.lflag & 0o100000, 0); // IEXTEN
    assert_eq!(screen.term_settings, raw);
    assert_eq!(screen.state_mode, ModeState::Default);
    assert_eq!(screen.confirm_mode(ModeState::Raw, true), Some(()));
    assert_eq!(screen.state_mode, ModeState::Raw);
}

#[test]
fn raw_transformation_has_exact_expected_value() {
    let raw = sample_config().make_raw();
    let expected = TermConfig {
        iflag: 0o2402 & !0o2753,
        oflag: 0o5 & !0o1,
        cflag: (0o2277 & !0o460) | 0o60,
        lflag: 0o105073 & !0o100113,
        cc_vmin: 1,
        cc_vtime: 0,
    };
    assert_eq!(raw, expected);
    assert_eq!(raw.iflag, 0);
    assert_eq!(raw.oflag, 0o4);
    assert_eq!(raw.cflag, 0o2277);
    assert_eq!(raw.lflag, 0o5060);
}

#[test]
fn failed_raw_mode_leaves_recorded_mode_unchanged() {
    let mut screen = open_session();
    assert!(screen.set_mode(ModeState::Raw).is_some());
    assert_eq!(screen.confirm_mode(ModeState::Raw, false), None);
    assert_eq!(screen.state_mode, ModeState::Default);
}

#[test]
fn unimplemented_mode_transitions_fail_and_change_nothing() {
    let mut screen = open_session();
    let before = screen.term_settings;
    assert!(screen.set_mode(ModeState::Default).is_none());
    assert!(screen.set_mode(ModeState::Cbreak).is_none());
    assert_eq!(screen.term_settings, before);
    assert_eq!(screen.state_mode, ModeState::Default);
}

#[test]
fn full_session_scenario_on_a_24_by_80_terminal() {
    let cfg = sample_config();
    let (mut screen, enter) = Screen::new(true, Some(TermDim::new(24, 80)), Some(cfg)).unwrap();
    assert_eq!(enter, b"\x1b7\x1b[?1049h".to_vec());
    assert_eq!(screen.dims.get_height(), 24);
    assert_eq!(screen.dims.get_width(), 80);
    let moved = screen.move_cursor(5, 10);
    assert_eq!(moved, b"\x1b[5;10H".to_vec());
    assert_eq!(screen.cur_pos, TermDim::new(5, 10));
    let title = screen.set_title("demo");
    assert_eq!(title, b"\x1b]2;demo\x07".to_vec());
    let (out, restore) = screen.close();
    assert!(out.ends_with(b"\x1b[2J\x1b[?1049l\x1b8"));
    assert_eq!(restore, Some(cfg));
}
