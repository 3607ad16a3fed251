use crate::lines::chars_of;
use vstd::prelude::*;

verus! {

/// The message that a window is being destroyed.
pub const WM_DESTROY: u32 = 0x0002;

/// The message that a window has moved.
pub const WM_MOVE: u32 = 0x0003;

/// The message that a window has changed its size.
pub const WM_SIZE: u32 = 0x0005;

/// The message that a control of a window was used.
pub const WM_COMMAND: u32 = 0x0111;

/// What the window procedure does about a message.
#[derive(Clone, Copy, Debug, PartialEq, Eq, Structural)]
pub enum WindowAction {
    /// Ask the message loop to end, and answer 0.
    Quit,
    /// Answer 0.
    Ignore,
    /// Show the message box, and answer 0.
    ShowMessageBox,
    /// Leave the message to the system's default procedure.
    Default,
}

/// What the window procedure does about message `msg`.
pub fn window_action(msg: u32) -> (action: WindowAction)
    ensures
        action == if msg == WM_DESTROY {
            WindowAction::Quit
        } else if msg == WM_MOVE || msg == WM_SIZE {
            WindowAction::Ignore
        } else if msg == WM_COMMAND {
            WindowAction::ShowMessageBox
        } else {
            WindowAction::Default
        },
{
    if msg == WM_DESTROY {
        WindowAction::Quit
    } else if msg == WM_MOVE || msg == WM_SIZE {
        WindowAction::Ignore
    } else if msg == WM_COMMAND {
        WindowAction::ShowMessageBox
    } else {
        WindowAction::Default
    }
}

/// The code units of `c` in UTF-16: the code point itself below 0x10000,
/// and a pair of surrogates from there on.
pub open spec fn utf16_units(c: char) -> Seq<u16> {
    let u = c as u32;
    if u < 0x10000 {
        seq![u as u16]
    } else {
        seq![(0xD800 + (u - 0x10000) / 0x400) as u16, (0xDC00 + (u - 0x10000) % 0x400) as u16]
    }
}

/// The text `s` in UTF-16.
pub open spec fn utf16(s: Seq<char>) -> Seq<u16>
    decreases s.len(),
{
    if s.len() == 0 {
        Seq::<u16>::empty()
    } else {
        utf16(s.drop_last()) + utf16_units(s.last())
    }
}

/// The text `s` as a wide string: its code units in UTF-16, closed by a
/// zero.
pub fn to_wstring(s: &str) -> (wide: Vec<u16>)
    ensures
        wide@ == utf16(s@).push(0u16),
{
    let chars = chars_of(s);
    let mut wide: Vec<u16> = Vec::new();
    let mut i: usize = 0;
    assert(chars@.take(0) =~= Seq::<char>::empty());
    while i < chars.len()
        invariant
            i <= chars@.len(),
            wide@ == utf16(chars@.take(i as int)),
        decreases chars@.len() - i,
    {
        let c = chars[i];
        let u: u32 = c as u32;
        proof {
            let next = chars@.take(i + 1);
            assert(next.drop_last() =~= chars@.take(i as int));
            assert(next.last() == c);
        }
        let ghost before = wide@;
        if u < 0x10000 {
            wide.push(u as u16);
            assert(wide@ =~= before + utf16_units(c));
        } else {
            let v: u32 = u - 0x10000;
            wide.push((0xD800 + v / 0x400) as u16);
            wide.push((0xDC00 + v % 0x400) as u16);
            assert(wide@ =~= before + utf16_units(c));
        }
        i += 1;
    }
    assert(chars@.take(i as int) =~= chars@);
    wide.push(0);
    wide
}

} // verus!
