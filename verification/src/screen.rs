use vstd::prelude::*;
use vstd::string::StringSliceAdditionalSpecFns;

use crate::config::{raw_config, TermConfig, ECHO, ICANON, IEXTEN, ISIG};
use crate::config::lemma_raw_clears_local_flags;
use crate::dim::TermDim;
use crate::escape::{
    enter_alt_seq, exit_alt_seq, hide_cursor_seq, move_cursor_seq, show_cursor_seq, title_seq,
};
use crate::escape::{push_enter_alt, push_exit_alt, push_hide_cursor, push_show_cursor};
use crate::escape::{push_decimal, BEL, ESC};

verus! {

/// The possible states for the cursor.
#[derive(Clone, Copy, PartialEq, Eq, Structural, Debug)]
pub enum CursorState {
    /// Cursor is solid.
    Solid,
    /// Cursor is blinking (the default).
    Blinking,
    /// Cursor is disabled.
    Off,
}

impl CursorState {
    /// Whether this is the solid state.
    pub fn is_solid(&self) -> (r: bool)
        ensures
            r == (*self is Solid),
    {
        match *self {
            CursorState::Solid => true,
            _ => false,
        }
    }

    /// Whether this is the blinking state.
    pub fn is_blinking(&self) -> (r: bool)
        ensures
            r == (*self is Blinking),
    {
        match *self {
            CursorState::Blinking => true,
            _ => false,
        }
    }

    /// Whether this is the disabled state.
    pub fn is_off(&self) -> (r: bool)
        ensures
            r == (*self is Off),
    {
        match *self {
            CursorState::Off => true,
            _ => false,
        }
    }
}

/// Possible input modes for the terminal to be in.
#[derive(Clone, Copy, PartialEq, Eq, Structural, Debug)]
pub enum ModeState {
    /// Canonical mode: typed text is buffered into lines and echoed.
    Default,
    /// Line buffering disabled, but the signal keystrokes still deliver
    /// their signals.
    Cbreak,
    /// Like cbreak, but even the signal keystrokes are delivered to the
    /// program as literal input.
    Raw,
}

/// A terminal session: the state of an interactive terminal that has been
/// switched to the alternate screen buffer, together with the
/// line-discipline snapshot that teardown restores.
///
/// The session itself is a state machine over plain values: each operation
/// updates the recorded state and returns the escape-sequence bytes to
/// write, or the configuration to apply to the device. The thin shell
/// around the library performs those writes and device calls and feeds
/// their outcomes back in.
#[derive(Clone, Copy, PartialEq, Eq, Structural, Debug)]
pub struct Screen {
    /// Dimensions reported by the window-size query at construction.
    pub dims: TermDim,
    /// Last cursor position written (row, column); tracked, not checked
    /// against `dims`.
    pub cur_pos: TermDim,
    /// The line-discipline configuration captured at construction; never
    /// mutated afterwards, it is the restoration target.
    pub term_original: TermConfig,
    /// The working line-discipline configuration: the settings pending or
    /// applied on the device.
    pub term_settings: TermConfig,
    /// The cursor visibility last applied to the terminal.
    pub cursor_state: CursorState,
    /// The input mode last successfully applied to the terminal.
    pub state_mode: ModeState,
    /// Whether teardown has already run.
    pub closed: bool,
}

/// The session a successful construction yields for the dimensions `dims`
/// and the line-discipline snapshot `cfg` observed on the device.
pub open spec fn spec_new_screen(dims: TermDim, cfg: TermConfig) -> Screen {
    Screen {
        dims: dims,
        cur_pos: TermDim { height: 0, width: 0 },
        term_original: cfg,
        term_settings: cfg,
        cursor_state: CursorState::Blinking,
        state_mode: ModeState::Default,
        closed: false,
    }
}

/// What a cursor-move does: the new session state and the bytes it emits.
pub open spec fn spec_move_cursor(s: Screen, y: u16, x: u16) -> (Screen, Seq<u8>) {
    ((Screen { cur_pos: TermDim { height: y, width: x }, ..s }), move_cursor_seq(y, x))
}

/// What a cursor-visibility change does: the new session state and the
/// bytes it emits. A sequence is emitted only when the recorded state
/// actually changes; the solid state has no sequence yet and is a no-op
/// that leaves even the recorded state alone.
pub open spec fn spec_set_cursor(s: Screen, flag: CursorState) -> (Screen, Seq<u8>) {
    match flag {
        CursorState::Solid => (s, Seq::<u8>::empty()),
        CursorState::Blinking => (
            (Screen { cursor_state: CursorState::Blinking, ..s }),
            if s.cursor_state is Blinking {
                Seq::<u8>::empty()
            } else {
                show_cursor_seq()
            },
        ),
        CursorState::Off => (
            (Screen { cursor_state: CursorState::Off, ..s }),
            if s.cursor_state is Off {
                Seq::<u8>::empty()
            } else {
                hide_cursor_seq()
            },
        ),
    }
}

/// What a mode request does: for Raw, the working configuration becomes
/// its raw transformation and is handed out to be applied to the device;
/// the Default and Cbreak transitions are not implemented and change
/// nothing. The recorded mode is not touched here: it changes only once
/// the device has accepted the new settings (see `confirm_mode`).
pub open spec fn spec_set_mode(s: Screen, flag: ModeState) -> (Screen, Option<TermConfig>) {
    match flag {
        ModeState::Raw => (
            (Screen { term_settings: raw_config(s.term_settings), ..s }),
            Some(raw_config(s.term_settings)),
        ),
        _ => (s, None),
    }
}

/// What the outcome of the device's attribute-set call does to the
/// session: on success the requested mode is recorded; on failure nothing
/// changes and failure is reported.
pub open spec fn spec_confirm_mode(s: Screen, flag: ModeState, applied: bool) -> (
    Screen,
    Option<()>,
) {
    if applied {
        ((Screen { state_mode: flag, ..s }), Some(()))
    } else {
        (s, None)
    }
}

/// What restoring the defaults does: the working configuration becomes the
/// original snapshot again, which is handed out to be applied to the
/// device. The recorded cursor and mode fields are left alone.
pub open spec fn spec_set_screen_default(s: Screen) -> (Screen, TermConfig) {
    ((Screen { term_settings: s.term_original, ..s }), s.term_original)
}

/// What teardown does: on a session not yet closed, bring the cursor back
/// to blinking, restore the original configuration and leave the alternate
/// screen; a session already closed emits nothing and restores nothing.
pub open spec fn spec_close(s: Screen) -> (Screen, Seq<u8>, Option<TermConfig>) {
    if s.closed {
        (s, Seq::<u8>::empty(), None)
    } else {
        let (s1, cursor_out) = spec_set_cursor(s, CursorState::Blinking);
        let (s2, cfg) = spec_set_screen_default(s1);
        ((Screen { closed: true, ..s2 }), cursor_out + exit_alt_seq(), Some(cfg))
    }
}

impl Screen {
    /// Builds a session from what was observed on the terminal device:
    /// whether standard output is an interactive terminal, the outcome of
    /// the window-size query, and the line-discipline snapshot read from
    /// the device. Construction succeeds exactly when all three are there;
    /// on success it also yields the alternate-screen-enter bytes, to be
    /// written as the last step of construction, so that a failed
    /// construction never touches the terminal.
    pub fn new(stdout_tty: bool, dims: Option<TermDim>, cfg: Option<TermConfig>) -> (r: Option<
        (Screen, Vec<u8>),
    >)
        ensures
            r is Some <==> (stdout_tty && dims is Some && cfg is Some),
            (r matches Some(p) ==> dims matches Some(d) && cfg matches Some(c) && p.0
                == spec_new_screen(d, c) && p.1@ == enter_alt_seq()),
    {
        if !stdout_tty {
            return None;
        }
        let d = match dims {
            Some(d) => d,
            None => { return None },
        };
        let c = match cfg {
            Some(c) => c,
            None => { return None },
        };
        let mut out: Vec<u8> = Vec::new();
        push_enter_alt(&mut out);
        Some(
            (
                Screen {
                    dims: d,
                    cur_pos: TermDim { height: 0, width: 0 },
                    term_original: c,
                    term_settings: c,
                    cursor_state: CursorState::Blinking,
                    state_mode: ModeState::Default,
                    closed: false,
                },
                out,
            ),
        )
    }

    /// Records the new cursor position and returns the cursor-positioning
    /// bytes to write. The position is not checked against the terminal
    /// dimensions; that is the caller's responsibility.
    pub fn move_cursor(&mut self, y: u16, x: u16) -> (out: Vec<u8>)
        ensures
            *final(self) == spec_move_cursor(*old(self), y, x).0,
            out@ == spec_move_cursor(*old(self), y, x).1,
    {
        self.cur_pos.height = y;
        self.cur_pos.width = x;
        let mut out: Vec<u8> = Vec::new();
        out.push(ESC);
        out.push(91);
        push_decimal(&mut out, y);
        out.push(59);
        push_decimal(&mut out, x);
        out.push(72);
        assert(out@ =~= move_cursor_seq(y, x));
        out
    }

    /// Returns the bytes that set the title of the terminal window. The
    /// title bytes are passed through unexamined — control characters in
    /// them are the caller's responsibility. Does not change the session.
    pub fn set_title(&self, title: &str) -> (out: Vec<u8>)
        ensures
            out@ == title_seq(title.spec_bytes()),
    {
        let bytes = title.as_bytes();
        let mut out: Vec<u8> = Vec::new();
        out.push(ESC);
        out.push(93);
        out.push(50);
        out.push(59);
        let mut i: usize = 0;
        while i < bytes.len()
            invariant
                i <= bytes.len(),
                bytes@ == title.spec_bytes(),
                out@ == seq![ESC, 93u8, 50u8, 59u8] + bytes@.subrange(0, i as int),
            decreases bytes.len() - i,
        {
            let b = bytes[i];
            out.push(b);
            i = i + 1;
            assert(out@ =~= seq![ESC, 93u8, 50u8, 59u8] + bytes@.subrange(0, i as int));
        }
        out.push(BEL);
        assert(bytes@.subrange(0, bytes@.len() as int) =~= bytes@);
        assert(out@ =~= title_seq(title.spec_bytes()));
        out
    }

    /// Sets the cursor's state, returning the bytes to write: the show or
    /// hide sequence when the recorded visibility actually changes, nothing
    /// when it is already as requested, and nothing for the solid state,
    /// which has no sequence yet and leaves the session untouched.
    pub fn set_cursor(&mut self, flag: CursorState) -> (out: Vec<u8>)
        ensures
            *final(self) == spec_set_cursor(*old(self), flag).0,
            out@ == spec_set_cursor(*old(self), flag).1,
    {
        match flag {
            CursorState::Solid => Vec::new(),
            CursorState::Blinking => {
                let mut out: Vec<u8> = Vec::new();
                if !self.cursor_state.is_blinking() {
                    push_show_cursor(&mut out);
                }
                self.cursor_state = CursorState::Blinking;
                out
            },
            CursorState::Off => {
                let mut out: Vec<u8> = Vec::new();
                if !self.cursor_state.is_off() {
                    push_hide_cursor(&mut out);
                }
                self.cursor_state = CursorState::Off;
                out
            },
        }
    }

    /// Attempts to set the terminal's mode. Only the transition into raw
    /// mode is implemented: the working configuration becomes its raw
    /// transformation, and the result — the configuration to apply to the
    /// device — is returned. Once the attribute-set call has been made,
    /// its outcome is reported back through `confirm_mode`, which records
    /// the mode only on success. Default and Cbreak requests return
    /// nothing and change nothing.
    pub fn set_mode(&mut self, flag: ModeState) -> (r: Option<TermConfig>)
        ensures
            *final(self) == spec_set_mode(*old(self), flag).0,
            r == spec_set_mode(*old(self), flag).1,
    {
        match flag {
            ModeState::Raw => {
                self.term_settings = self.term_settings.make_raw();
                Some(self.term_settings)
            },
            _ => None,
        }
    }

    /// Records the outcome of the device's attribute-set call for a mode
    /// request: on success the recorded mode becomes `flag`; on failure
    /// the recorded mode is left unchanged and failure is reported.
    pub fn confirm_mode(&mut self, flag: ModeState, applied: bool) -> (r: Option<()>)
        ensures
            *final(self) == spec_confirm_mode(*old(self), flag, applied).0,
            r == spec_confirm_mode(*old(self), flag, applied).1,
    {
        if applied {
            self.state_mode = flag;
            Some(())
        } else {
            None
        }
    }

    /// Sets the terminal to how it was when creating this: the working
    /// configuration becomes the original snapshot again, and is returned
    /// so that it can be applied to the device. The recorded cursor and
    /// mode fields are not reset by this.
    pub fn set_screen_default(&mut self) -> (r: TermConfig)
        ensures
            *final(self) == spec_set_screen_default(*old(self)).0,
            r == spec_set_screen_default(*old(self)).1,
    {
        self.term_settings = self.term_original;
        self.term_settings
    }

    /// Teardown: brings the cursor back to blinking, restores the original
    /// line-discipline configuration and leaves the alternate screen.
    /// Returns the bytes to write and the configuration to apply to the
    /// device. Safe to call again: only the first call emits or restores
    /// anything.
    pub fn close(&mut self) -> (r: (Vec<u8>, Option<TermConfig>))
        ensures
            *final(self) == spec_close(*old(self)).0,
            r.0@ == spec_close(*old(self)).1,
            r.1 == spec_close(*old(self)).2,
    {
        if self.closed {
            return (Vec::new(), None);
        }
        let mut out = self.set_cursor(CursorState::Blinking);
        let cfg = self.set_screen_default();
        push_exit_alt(&mut out);
        self.closed = true;
        (out, Some(cfg))
    }
}

/// Requesting the blinking cursor twice in a row shows the cursor at most
/// once: the second request finds the recorded state already blinking and
/// emits nothing.
pub proof fn lemma_show_cursor_at_most_once(s: Screen)
    ensures
        ({
            let (s1, out1) = spec_set_cursor(s, CursorState::Blinking);
            let (s2, out2) = spec_set_cursor(s1, CursorState::Blinking);
            out2 == Seq::<u8>::empty() && s2 == s1
        }),
{
}

/// Hiding the cursor twice in a row hides it at most once: the second
/// request finds the recorded state already off and emits nothing.
pub proof fn lemma_hide_cursor_at_most_once(s: Screen)
    ensures
        ({
            let (s1, out1) = spec_set_cursor(s, CursorState::Off);
            let (s2, out2) = spec_set_cursor(s1, CursorState::Off);
            out2 == Seq::<u8>::empty() && s2 == s1
        }),
{
}

/// Teardown emits the alternate-screen-exit sequence exactly once, even
/// after a raw-mode request whose attribute-set call failed: the first
/// close emits the exit sequence alone, or the show-cursor sequence
/// followed by it, and restores the original snapshot; a second close
/// emits and restores nothing.
pub proof fn lemma_close_emits_exit_once(s: Screen)
    requires
        !s.closed,
    ensures
        ({
            let (s1, raw_request) = spec_set_mode(s, ModeState::Raw);
            let (s2, failed) = spec_confirm_mode(s1, ModeState::Raw, false);
            let (s3, out, cfg) = spec_close(s2);
            &&& failed is None
            &&& (out == exit_alt_seq() || out == show_cursor_seq() + exit_alt_seq())
            &&& cfg == Some(s.term_original)
            &&& s3.closed
            &&& spec_close(s3).1 == Seq::<u8>::empty()
            &&& spec_close(s3).2 == None::<TermConfig>
        }),
{
    let (s1, raw_request) = spec_set_mode(s, ModeState::Raw);
    let (s2, failed) = spec_confirm_mode(s1, ModeState::Raw, false);
    let (s3, out, cfg) = spec_close(s2);
    if s2.cursor_state is Blinking {
        assert(out =~= exit_alt_seq());
    } else {
        assert(out == show_cursor_seq() + exit_alt_seq());
    }
}

/// A raw-mode request on a session whose working configuration is still
/// the original snapshot clears the canonical, echo, signal and
/// extended-processing flags relative to the original, and a successful
/// attribute-set call records the Raw mode — while the original snapshot
/// itself stays untouched.
pub proof fn lemma_raw_mode_clears_flags(s: Screen)
    requires
        s.term_settings == s.term_original,
    ensures
        ({
            let (s1, request) = spec_set_mode(s, ModeState::Raw);
            let (s2, r) = spec_confirm_mode(s1, ModeState::Raw, true);
            &&& request == Some(raw_config(s.term_original))
            &&& r is Some
            &&& s2.state_mode is Raw
            &&& s2.term_settings.lflag & ICANON == 0
            &&& s2.term_settings.lflag & ECHO == 0
            &&& s2.term_settings.lflag & ISIG == 0
            &&& s2.term_settings.lflag & IEXTEN == 0
            &&& s2.term_original == s.term_original
        }),
{
    lemma_raw_clears_local_flags(s.term_settings);
}

/// A mode request whose attribute-set call failed leaves the whole
/// session, the recorded mode included, exactly as it was, and reports
/// failure.
pub proof fn lemma_failed_apply_keeps_mode(s: Screen, flag: ModeState)
    ensures
        spec_confirm_mode(s, flag, false).0 == s,
        spec_confirm_mode(s, flag, false).1 is None,
{
}

/// The original configuration is captured once, at construction, and no
/// transition ever mutates it; restoring the defaults hands exactly it
/// back to the device.
pub proof fn lemma_original_config_immutable(
    s: Screen,
    dims: TermDim,
    cfg: TermConfig,
    y: u16,
    x: u16,
    flag: CursorState,
    mode: ModeState,
    applied: bool,
)
    ensures
        spec_new_screen(dims, cfg).term_original == cfg,
        spec_new_screen(dims, cfg).term_settings == cfg,
        spec_move_cursor(s, y, x).0.term_original == s.term_original,
        spec_set_cursor(s, flag).0.term_original == s.term_original,
        spec_set_mode(s, mode).0.term_original == s.term_original,
        spec_confirm_mode(s, mode, applied).0.term_original == s.term_original,
        spec_set_screen_default(s).0.term_original == s.term_original,
        spec_set_screen_default(s).1 == s.term_original,
        spec_set_screen_default(s).0.term_settings == s.term_original,
        spec_close(s).0.term_original == s.term_original,
{
}

} // verus!
