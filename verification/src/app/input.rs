use vstd::prelude::*;

verus! {

/// How keys are read: single-key commands, a typed command line, or a
/// prompt for one value.
#[derive(Debug, Clone)]
pub enum InputMode {
    Normal,
    Command,
    Popup { title: String, kind: PopupKind },
}

/// What a prompt asks for.
#[derive(Debug, Clone, Copy, PartialEq, Eq, Structural)]
pub enum PopupKind {
    Join,
    Leave,
    Nominate,
    Shoot,
    Check,
    Warn,
    Pardon,
    Vote,
    Guess,
    Help,
}

/// An [`InputMode`] with its title seen as characters.
pub enum InputModeView {
    Normal,
    Command,
    Popup { title: Seq<char>, kind: PopupKind },
}

impl View for InputMode {
    type V = InputModeView;

    open spec fn view(&self) -> InputModeView {
        match *self {
            InputMode::Normal => InputModeView::Normal,
            InputMode::Command => InputModeView::Command,
            InputMode::Popup { title, kind } => InputModeView::Popup { title: title@, kind },
        }
    }
}

impl InputMode {
    /// A copy of the mode.
    pub fn duplicate(&self) -> (m: InputMode)
        ensures
            m@ == self@,
    {
        match self {
            InputMode::Normal => InputMode::Normal,
            InputMode::Command => InputMode::Command,
            InputMode::Popup { title, kind } => InputMode::Popup { title: title.clone(), kind: *kind },
        }
    }
}

/// A key press, as far as the console tells keys apart.
#[derive(Debug, Clone, Copy, PartialEq, Eq, Structural)]
pub enum Key {
    Char(char),
    Enter,
    Esc,
    Backspace,
    Other,
}

/// The help shown to the host.
pub open spec fn help_spec() -> Seq<char> {
    "NORMAL MODE
  :          Enter command mode
  j          Join player (popup)
  l          Leave player (popup)
  n          Next phase
  b          Start game
  w          Warn player (popup)
  p          Pardon player (popup)
  o          Nominate player (popup)
  c          Check player (popup)
  g          Guess targets (popup)
  v          Vote (popup)
  s          Shoot player (popup)
  h          Show help dialog
  Esc        Quit game

COMMAND MODE
  Enter      Execute command
  Esc        Return to normal mode
  Backspace  Delete character

POPUP MODE
  Enter      Confirm popup action
  Esc        Close popup
  Backspace  Delete character
  Any char   Type input"@
}

/// The help shown to the host: the keys of each input mode.
pub fn help_text() -> (s: &'static str)
    ensures
        s@ == help_spec(),
{
    "NORMAL MODE
  :          Enter command mode
  j          Join player (popup)
  l          Leave player (popup)
  n          Next phase
  b          Start game
  w          Warn player (popup)
  p          Pardon player (popup)
  o          Nominate player (popup)
  c          Check player (popup)
  g          Guess targets (popup)
  v          Vote (popup)
  s          Shoot player (popup)
  h          Show help dialog
  Esc        Quit game

COMMAND MODE
  Enter      Execute command
  Esc        Return to normal mode
  Backspace  Delete character

POPUP MODE
  Enter      Confirm popup action
  Esc        Close popup
  Backspace  Delete character
  Any char   Type input"
}

} // verus!
