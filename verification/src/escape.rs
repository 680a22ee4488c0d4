use vstd::prelude::*;

verus! {

/// The escape control character that introduces every control sequence.
pub const ESC: u8 = 27;
/// The bell control character that terminates a title sequence.
pub const BEL: u8 = 7;

/// Decimal digits of `n`, most significant first, without leading zeroes
/// (zero itself is written as the single digit `0`).
pub open spec fn dec_repr(n: nat) -> Seq<u8>
    decreases n,
{
    if n < 10 {
        seq![(48 + n) as u8]
    } else {
        dec_repr(n / 10).push((48 + n % 10) as u8)
    }
}

/// `ESC 7 ESC [ ? 1 0 4 9 h`: save the cursor and enter the alternate screen.
pub open spec fn enter_alt_seq() -> Seq<u8> {
    seq![ESC, 55u8, ESC, 91u8, 63u8, 49u8, 48u8, 52u8, 57u8, 104u8]
}

/// `ESC [ 2 J ESC [ ? 1 0 4 9 l ESC 8`: clear the screen, leave the
/// alternate screen and restore the saved cursor.
pub open spec fn exit_alt_seq() -> Seq<u8> {
    seq![ESC, 91u8, 50u8, 74u8, ESC, 91u8, 63u8, 49u8, 48u8, 52u8, 57u8, 108u8, ESC, 56u8]
}

/// `ESC [ ? 2 5 h`: show the cursor.
pub open spec fn show_cursor_seq() -> Seq<u8> {
    seq![ESC, 91u8, 63u8, 50u8, 53u8, 104u8]
}

/// `ESC [ ? 2 5 l`: hide the cursor.
pub open spec fn hide_cursor_seq() -> Seq<u8> {
    seq![ESC, 91u8, 63u8, 50u8, 53u8, 108u8]
}

/// `ESC [ {row} ; {col} H`: place the cursor.
pub open spec fn move_cursor_seq(y: u16, x: u16) -> Seq<u8> {
    seq![ESC, 91u8] + dec_repr(y as nat) + seq![59u8] + dec_repr(x as nat) + seq![72u8]
}

/// `ESC ] 2 ; {title} BEL`: set the window title to the given bytes.
pub open spec fn title_seq(t: Seq<u8>) -> Seq<u8> {
    seq![ESC, 93u8, 50u8, 59u8] + t + seq![BEL]
}

/// Appends the decimal digits of `n` to `out`.
pub fn push_decimal(out: &mut Vec<u8>, n: u16)
    ensures
        final(out)@ == old(out)@ + dec_repr(n as nat),
    decreases n,
{
    if n >= 10 {
        push_decimal(out, n / 10);
    }
    out.push(48 + (n % 10) as u8);
    assert(out@ =~= old(out)@ + dec_repr(n as nat));
}

/// Appends the alternate-screen-enter sequence to `out`.
pub fn push_enter_alt(out: &mut Vec<u8>)
    ensures
        final(out)@ == old(out)@ + enter_alt_seq(),
{
    out.push(ESC);
    out.push(55);
    out.push(ESC);
    out.push(91);
    out.push(63);
    out.push(49);
    out.push(48);
    out.push(52);
    out.push(57);
    out.push(104);
    assert(out@ =~= old(out)@ + enter_alt_seq());
}

/// Appends the alternate-screen-exit sequence to `out`.
pub fn push_exit_alt(out: &mut Vec<u8>)
    ensures
        final(out)@ == old(out)@ + exit_alt_seq(),
{
    out.push(ESC);
    out.push(91);
    out.push(50);
    out.push(74);
    out.push(ESC);
    out.push(91);
    out.push(63);
    out.push(49);
    out.push(48);
    out.push(52);
    out.push(57);
    out.push(108);
    out.push(ESC);
    out.push(56);
    assert(out@ =~= old(out)@ + exit_alt_seq());
}

/// Appends the show-cursor sequence to `out`.
pub fn push_show_cursor(out: &mut Vec<u8>)
    ensures
        final(out)@ == old(out)@ + show_cursor_seq(),
{
    out.push(ESC);
    out.push(91);
    out.push(63);
    out.push(50);
    out.push(53);
    out.push(104);
    assert(out@ =~= old(out)@ + show_cursor_seq());
}

/// Appends the hide-cursor sequence to `out`.
pub fn push_hide_cursor(out: &mut Vec<u8>)
    ensures
        final(out)@ == old(out)@ + hide_cursor_seq(),
{
    out.push(ESC);
    out.push(91);
    out.push(63);
    out.push(50);
    out.push(53);
    out.push(108);
    assert(out@ =~= old(out)@ + hide_cursor_seq());
}

} // verus!
