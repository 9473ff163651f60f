//! The interactive session loop as a state machine: what each poll of the
//! terminal does to the loop, and what the loop asks its caller to do.

use vstd::prelude::*;
use vstd::string::*;
use crate::error::Error;
use crate::input::{pressed, InputEvent, KeyCode};
use crate::layout::{Dimensions, Popup};
use crate::text::{join, joined, texts};

verus! {

/// The number of dice sides that a roll asks for.
pub const ROLL_DICE: u8 = 100;

/// How long one poll of the terminal waits, in milliseconds.
pub const POLL_MILLIS: u64 = 100;

/// Where the loop stands.
#[derive(Clone, Copy, Debug, Default, PartialEq, Eq, Structural)]
pub enum State {
    /// The log is shown; keys roll or ask to quit.
    #[default]
    Running,
    /// The exit question is shown.
    ConfirmingExit,
    /// The user confirmed the exit. Final.
    Ended,
}

/// What the loop asks its caller to do after a poll.
#[derive(Clone, Copy, Debug, PartialEq, Eq, Structural)]
pub enum Command {
    /// Nothing: draw and poll again.
    Idle,
    /// Send a roll of this many sides, and wait for the acknowledgement.
    Roll(u8),
}

/// The state after a press of `code`.
pub open spec fn state_after_key(state: State, code: KeyCode) -> State {
    match state {
        State::Running => match code {
            KeyCode::Char(c) => if c == 'q' {
                State::ConfirmingExit
            } else {
                State::Running
            },
            KeyCode::Esc => State::ConfirmingExit,
            _ => State::Running,
        },
        State::ConfirmingExit => match code {
            KeyCode::Char(c) => if c == 'y' {
                State::Ended
            } else if c == 'n' {
                State::Running
            } else {
                State::ConfirmingExit
            },
            KeyCode::Enter => State::Ended,
            KeyCode::Esc => State::Running,
            _ => State::ConfirmingExit,
        },
        State::Ended => State::Ended,
    }
}

/// What a press of `code` asks the caller to do.
pub open spec fn command_for_key(state: State, code: KeyCode) -> Command {
    if state == State::Running && code == KeyCode::Char('r') {
        Command::Roll(ROLL_DICE)
    } else {
        Command::Idle
    }
}

/// The state after a poll that gave `polled`: nothing within the wait, or
/// one event. Only key presses count.
pub open spec fn state_after(state: State, polled: Option<InputEvent>) -> State {
    match polled {
        Some(event) => match pressed(event) {
            Some(code) => state_after_key(state, code),
            None => state,
        },
        None => state,
    }
}

/// What a poll that gave `polled` asks the caller to do.
pub open spec fn command_for(state: State, polled: Option<InputEvent>) -> Command {
    match polled {
        Some(event) => match pressed(event) {
            Some(code) => command_for_key(state, code),
            None => Command::Idle,
        },
        None => Command::Idle,
    }
}

/// Whether `code` answers the exit question with yes.
pub open spec fn is_yes(code: KeyCode) -> bool {
    code == KeyCode::Char('y') || code == KeyCode::Enter
}

/// Whether `code` answers the exit question with no.
pub open spec fn is_no(code: KeyCode) -> bool {
    code == KeyCode::Char('n') || code == KeyCode::Esc
}

/// The foreground loop of a session: the room, the credential, the lines
/// last copied from the log, and the loop's state.
#[derive(Debug, Default)]
pub struct MessageReceiver {
    room: String,
    messages: Vec<String>,
    state: State,
    token: String,
}

impl MessageReceiver {
    /// The loop's state.
    pub closed spec fn state(&self) -> State {
        self.state
    }

    /// The lines last copied from the log.
    pub closed spec fn messages(&self) -> Seq<Seq<char>> {
        texts(self.messages@)
    }

    /// The room's identifier.
    pub closed spec fn room(&self) -> Seq<char> {
        self.room@
    }

    /// The session's credential.
    pub closed spec fn token(&self) -> Seq<char> {
        self.token@
    }

    /// A loop for `room` under `token`: running, with no lines yet.
    pub fn new(room: String, token: String) -> (receiver: MessageReceiver)
        ensures
            receiver.state() == State::Running,
            receiver.messages() == Seq::<Seq<char>>::empty(),
            receiver.room() == room@,
            receiver.token() == token@,
    {
        let receiver = MessageReceiver { room, messages: Vec::new(), state: State::Running, token };
        assert(receiver.messages() =~= Seq::<Seq<char>>::empty());
        receiver
    }

    /// Replaces the lines on show by a fresh copy of the log.
    pub fn refresh(&mut self, snapshot: Vec<String>)
        ensures
            final(self).messages() == texts(snapshot@),
            final(self).state() == old(self).state(),
            final(self).room() == old(self).room(),
            final(self).token() == old(self).token(),
    {
        self.messages = snapshot;
    }

    /// Takes the result of one poll of the terminal and says what the caller
    /// is to do before the next.
    pub fn handle_events(&mut self, polled: Option<InputEvent>) -> (command: Command)
        ensures
            final(self).state() == state_after(old(self).state(), polled),
            command == command_for(old(self).state(), polled),
            final(self).messages() == old(self).messages(),
            final(self).room() == old(self).room(),
            final(self).token() == old(self).token(),
    {
        let code = match polled {
            Some(event) => match event.pressed_key() {
                Some(code) => code,
                None => { return Command::Idle; },
            },
            None => { return Command::Idle; },
        };
        match self.state {
            State::Running => match code {
                KeyCode::Char(c) => {
                    if c == 'q' {
                        self.state = State::ConfirmingExit;
                        Command::Idle
                    } else if c == 'r' {
                        self.roll()
                    } else {
                        Command::Idle
                    }
                },
                KeyCode::Esc => {
                    self.state = State::ConfirmingExit;
                    Command::Idle
                },
                _ => Command::Idle,
            },
            State::ConfirmingExit => {
                match code {
                    KeyCode::Char(c) => {
                        if c == 'y' {
                            self.state = State::Ended;
                        } else if c == 'n' {
                            self.state = State::Running;
                        }
                    },
                    KeyCode::Enter => {
                        self.state = State::Ended;
                    },
                    KeyCode::Esc => {
                        self.state = State::Running;
                    },
                    _ => {},
                }
                Command::Idle
            },
            State::Ended => Command::Idle,
        }
    }

    /// The command that sends a roll.
    fn roll(&self) -> (command: Command)
        ensures
            command == Command::Roll(ROLL_DICE),
    {
        Command::Roll(ROLL_DICE)
    }

    /// Whether the loop goes on.
    pub fn is_running(&self) -> (b: bool)
        ensures
            b == !(self.state() is Ended),
    {
        match self.state {
            State::Ended => false,
            _ => true,
        }
    }

    /// What the loop hands to its caller: nothing while it goes on, the
    /// cancellation once the user confirmed the exit.
    pub fn finish(&self) -> (outcome: Option<Error>)
        ensures
            outcome == if self.state() is Ended {
                Some(Error::Cancelled)
            } else {
                None
            },
    {
        match self.state {
            State::Ended => Some(Error::Cancelled),
            _ => None,
        }
    }

    /// The text on show: the lines with an empty line between neighbours.
    pub fn widget(&self) -> (text: String)
        ensures
            text@ == joined(self.messages(), "\n\n"@),
    {
        join(&self.messages, "\n\n")
    }

    /// The title above the text.
    pub fn title(&self) -> (title: String)
        ensures
            title@ == "Room "@ + self.room(),
    {
        "Room ".to_owned().concat(self.room.as_str())
    }

    /// The credential to send with a roll.
    pub fn credential(&self) -> (token: &String)
        ensures
            token@ == self.token(),
    {
        &self.token
    }

    /// The overlay to draw over the text, if any.
    pub fn popup(&self) -> (popup: Option<Popup>)
        ensures
            popup is Some == (self.state() is ConfirmingExit),
            popup matches Some(p) ==> p.dimensions == Dimensions::standard() && p.title@
                == "Confirm Exit"@ && p.text@
                == "Are you sure you want to exit?\n\n\n[Y] Yes   [N] No"@,
    {
        match self.state {
            State::ConfirmingExit => Some(exit_popup()),
            _ => None,
        }
    }
}

/// The key bindings of the session, as one line.
pub fn get_keybinds() -> (line: String)
    ensures
        line@ == "r to roll,  Esc/q to quit"@,
{
    let mut keybinds: Vec<String> = Vec::new();
    keybinds.push("r to roll".to_owned());
    keybinds.push("Esc/q to quit".to_owned());
    let line = join(&keybinds, ",  ");
    proof {
        reveal_strlit("r to roll");
        reveal_strlit("Esc/q to quit");
        reveal_strlit(",  ");
        reveal_strlit("r to roll,  Esc/q to quit");
        reveal_with_fuel(joined, 3);
        let parts = texts(keybinds@);
        assert(parts.drop_last() =~= seq![parts[0]]);
        assert(line@ =~= "r to roll,  Esc/q to quit"@);
    }
    line
}

/// The exit question.
pub fn exit_popup() -> (popup: Popup)
    ensures
        popup.dimensions == Dimensions::standard(),
        popup.title@ == "Confirm Exit"@,
        popup.text@ == "Are you sure you want to exit?\n\n\n[Y] Yes   [N] No"@,
{
    Popup {
        dimensions: Dimensions { percent_x: 20, percent_y: 15, min_x: 35, min_y: 5 },
        title: "Confirm Exit",
        text: "Are you sure you want to exit?\n\n\n[Y] Yes   [N] No",
    }
}

/// At the exit question a yes ends the loop, a no returns to the running
/// loop, and no other key changes the state. No key sends a roll there.
pub proof fn lemma_exit_confirmation(code: KeyCode)
    ensures
        is_yes(code) ==> state_after_key(State::ConfirmingExit, code) == State::Ended,
        is_no(code) ==> state_after_key(State::ConfirmingExit, code) == State::Running,
        !is_yes(code) && !is_no(code) ==> state_after_key(State::ConfirmingExit, code)
            == State::ConfirmingExit,
        command_for_key(State::ConfirmingExit, code) == Command::Idle,
{
}

/// A poll that gives no key press changes no state and asks for nothing.
pub proof fn lemma_only_key_presses_count(state: State, polled: Option<InputEvent>)
    requires
        polled matches Some(event) ==> pressed(event) is None,
    ensures
        state_after(state, polled) == state,
        command_for(state, polled) == Command::Idle,
{
}

/// The loop moves forward only: once ended it stays ended, and the one way
/// back from the exit question is a no.
pub proof fn lemma_loop_moves_forward(state: State, code: KeyCode)
    ensures
        state is Ended ==> state_after_key(state, code) is Ended,
        state is ConfirmingExit && state_after_key(state, code) is Running ==> is_no(code),
        state is Running ==> !(state_after_key(state, code) is Ended),
{
}

} // verus!
