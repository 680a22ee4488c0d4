use vstd::prelude::*;

verus! {

// Line-discipline flag bits as the POSIX termios interface defines them,
// with the values of the Linux line discipline.

/// Input flag: ignore break condition.
pub const IGNBRK: u32 = 0o000001;
/// Input flag: signal interrupt on break.
pub const BRKINT: u32 = 0o000002;
/// Input flag: mark parity errors in the input stream.
pub const PARMRK: u32 = 0o000010;
/// Input flag: strip the eighth bit off input characters.
pub const ISTRIP: u32 = 0o000040;
/// Input flag: translate NL to CR on input.
pub const INLCR: u32 = 0o000100;
/// Input flag: ignore CR on input.
pub const IGNCR: u32 = 0o000200;
/// Input flag: translate CR to NL on input.
pub const ICRNL: u32 = 0o000400;
/// Input flag: enable start/stop output control.
pub const IXON: u32 = 0o002000;

/// Output flag: enable implementation-defined output processing.
pub const OPOST: u32 = 0o000001;

/// Control flag: character size mask.
pub const CSIZE: u32 = 0o000060;
/// Control flag: eight bits per character.
pub const CS8: u32 = 0o000060;
/// Control flag: enable parity generation and checking.
pub const PARENB: u32 = 0o000400;

/// Local flag: generate signals on the signal keystrokes.
pub const ISIG: u32 = 0o000001;
/// Local flag: canonical (line-buffered) input.
pub const ICANON: u32 = 0o000002;
/// Local flag: echo input characters.
pub const ECHO: u32 = 0o000010;
/// Local flag: echo NL even when echo is off.
pub const ECHONL: u32 = 0o000100;
/// Local flag: extended input processing.
pub const IEXTEN: u32 = 0o100000;

/// The library's model of a terminal line-discipline configuration: the
/// four flag words together with the two control characters that the raw
/// transformation touches. The shell around the library converts between
/// this model and the kernel's own attribute structure.
#[derive(Clone, Copy, PartialEq, Eq, Structural, Debug)]
pub struct TermConfig {
    /// Input mode flags.
    pub iflag: u32,
    /// Output mode flags.
    pub oflag: u32,
    /// Control mode flags.
    pub cflag: u32,
    /// Local mode flags.
    pub lflag: u32,
    /// Minimum number of bytes for a non-canonical read.
    pub cc_vmin: u8,
    /// Timeout in deciseconds for a non-canonical read.
    pub cc_vtime: u8,
}

/// The conventional raw-mode transformation of a configuration: input and
/// output translation, echo, canonical buffering, signal generation and
/// extended processing all switched off, eight bits per character without
/// parity, and reads that deliver each byte as it arrives.
pub open spec fn raw_config(c: TermConfig) -> TermConfig {
    TermConfig {
        iflag: c.iflag & !(IGNBRK | BRKINT | PARMRK | ISTRIP | INLCR | IGNCR | ICRNL | IXON),
        oflag: c.oflag & !OPOST,
        cflag: (c.cflag & !(CSIZE | PARENB)) | CS8,
        lflag: c.lflag & !(ECHO | ECHONL | ICANON | ISIG | IEXTEN),
        cc_vmin: 1,
        cc_vtime: 0,
    }
}

impl TermConfig {
    /// The raw-mode counterpart of this configuration.
    pub fn make_raw(&self) -> (r: TermConfig)
        ensures
            r == raw_config(*self),
    {
        TermConfig {
            iflag: self.iflag & !(IGNBRK | BRKINT | PARMRK | ISTRIP | INLCR | IGNCR | ICRNL
                | IXON),
            oflag: self.oflag & !OPOST,
            cflag: (self.cflag & !(CSIZE | PARENB)) | CS8,
            lflag: self.lflag & !(ECHO | ECHONL | ICANON | ISIG | IEXTEN),
            cc_vmin: 1,
            cc_vtime: 0,
        }
    }
}

/// Whatever configuration the raw transformation starts from, the result
/// has the canonical, echo, signal and extended-processing flags cleared.
pub proof fn lemma_raw_clears_local_flags(c: TermConfig)
    ensures
        raw_config(c).lflag & ICANON == 0,
        raw_config(c).lflag & ECHO == 0,
        raw_config(c).lflag & ISIG == 0,
        raw_config(c).lflag & IEXTEN == 0,
{
    let lf = c.lflag;
    assert(lf & !(ECHO | ECHONL | ICANON | ISIG | IEXTEN) & ICANON == 0) by (bit_vector);
    assert(lf & !(ECHO | ECHONL | ICANON | ISIG | IEXTEN) & ECHO == 0) by (bit_vector);
    assert(lf & !(ECHO | ECHONL | ICANON | ISIG | IEXTEN) & ISIG == 0) by (bit_vector);
    assert(lf & !(ECHO | ECHONL | ICANON | ISIG | IEXTEN) & IEXTEN == 0) by (bit_vector);
}

} // verus!
