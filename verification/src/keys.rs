use vstd::prelude::*;

verus! {

/// A key press, as far as the dashboard tells keys apart.
#[derive(Debug, Clone, Copy, PartialEq, Eq, Structural)]
pub enum Key {
    Char(char),
    Tab,
    BackTab,
    Left,
    Right,
    Other,
}

/// What a key press asks the dashboard to do.
#[derive(Debug, Clone, Copy, PartialEq, Eq, Structural)]
pub enum Command {
    Quit,
    FocusNext,
    FocusPrev,
    Refresh,
    /// Show the focused panel alone, or all panels again.
    Zoom,
    Ignore,
}

/// The command bound to a key; `control_only` tells whether Control and no
/// other modifier was held.
pub open spec fn command_of(key: Key, control_only: bool) -> Command {
    match key {
        Key::Char('q') => Command::Quit,
        Key::Char('c') => if control_only {
            Command::Quit
        } else {
            Command::Ignore
        },
        Key::Tab | Key::Right | Key::Char('l') => Command::FocusNext,
        Key::BackTab | Key::Left | Key::Char('h') => Command::FocusPrev,
        Key::Char('r') => Command::Refresh,
        Key::Char('z') => Command::Zoom,
        _ => Command::Ignore,
    }
}

/// The command bound to a key: `q` or Control-`c` quits, Tab, Right or `l`
/// focuses the next panel, Shift-Tab, Left or `h` the previous one, `r`
/// refreshes, and `z` zooms in on the focused panel or back out.
pub fn command_for(key: Key, control_only: bool) -> (r: Command)
    ensures
        r == command_of(key, control_only),
{
    match key {
        Key::Char('q') => Command::Quit,
        Key::Char('c') => if control_only {
            Command::Quit
        } else {
            Command::Ignore
        },
        Key::Tab | Key::Right | Key::Char('l') => Command::FocusNext,
        Key::BackTab | Key::Left | Key::Char('h') => Command::FocusPrev,
        Key::Char('r') => Command::Refresh,
        Key::Char('z') => Command::Zoom,
        _ => Command::Ignore,
    }
}

/// Which keys do what: `q`, or `c` with Control alone, quits; Tab, Right and
/// `l` move the focus forward; Shift-Tab, Left and `h` move it back; `r`
/// refreshes; `z` zooms; every other key is ignored. Only `c` depends on the
/// modifiers.
pub proof fn lemma_key_bindings(key: Key, control_only: bool)
    ensures
        command_of(key, control_only) == Command::Quit <==> (key == Key::Char('q') || (key
            == Key::Char('c') && control_only)),
        command_of(key, control_only) == Command::FocusNext <==> (key == Key::Tab || key
            == Key::Right || key == Key::Char('l')),
        command_of(key, control_only) == Command::FocusPrev <==> (key == Key::BackTab || key
            == Key::Left || key == Key::Char('h')),
        command_of(key, control_only) == Command::Refresh <==> key == Key::Char('r'),
        command_of(key, control_only) == Command::Zoom <==> key == Key::Char('z'),
        key != Key::Char('c') ==> command_of(key, control_only) == command_of(key, !control_only),
{
}

} // verus!
