//! The login form: two text fields, a focus, and a small state machine that
//! takes one terminal event at a time.

use vstd::prelude::*;
use vstd::string::*;
use vstd::utf8::encode_utf8;
use crate::error::Error;
use crate::input::{pressed, InputEvent, KeyCode, KeyEvent, KeyEventKind};
use crate::layout::{Dimensions, Popup};
use crate::text::join;

verus! {

/// Which field receives the keys.
#[derive(Clone, Copy, Debug, Default, PartialEq, Eq, Structural)]
pub enum Focus {
    #[default]
    Username,
    Room,
}

impl Focus {
    /// The other field.
    pub open spec fn spec_next(&self) -> Focus {
        match self {
            Focus::Username => Focus::Room,
            Focus::Room => Focus::Username,
        }
    }

    /// The other field.
    #[verifier::when_used_as_spec(spec_next)]
    pub fn next(&self) -> (other: Focus)
        ensures
            other == self.spec_next(),
    {
        match self {
            Focus::Username => Focus::Room,
            Focus::Room => Focus::Username,
        }
    }
}

/// Why the form refuses to go on.
#[derive(Clone, Copy, Debug, PartialEq, Eq, Structural)]
pub enum FormError {
    /// Submit was pressed with no username typed.
    EmptyUsername,
    /// The service knows no room of the name submitted before.
    InvalidRoom,
}

/// Where the form stands.
#[derive(Clone, Copy, Debug, PartialEq, Eq, Structural)]
pub enum Phase {
    /// Keys edit the fields.
    Collecting,
    /// A refusal is shown; the next key press dismisses it.
    Rejected(FormError),
    /// The user gave up. Final.
    Cancelled,
    /// The fields were submitted. Final.
    Accepted,
}

/// The form as a value: focus, the two texts, and the phase.
pub struct FormView {
    pub focus: Focus,
    pub username: Seq<char>,
    pub room: Seq<char>,
    pub phase: Phase,
}

/// The text of a field after the key `code`.
pub open spec fn edited(value: Seq<char>, code: KeyCode) -> Seq<char> {
    match code {
        KeyCode::Char(c) => value.push(c),
        KeyCode::Backspace => if value.len() > 0 {
            value.drop_last()
        } else {
            value
        },
        _ => value,
    }
}

/// The form after a press of `code` that is neither submit nor cancel.
pub open spec fn key_pressed(form: FormView, code: KeyCode) -> FormView {
    match code {
        KeyCode::Tab => FormView { focus: form.focus.spec_next(), ..form },
        _ => match form.focus {
            Focus::Username => FormView { username: edited(form.username, code), ..form },
            Focus::Room => FormView { room: edited(form.room, code), ..form },
        },
    }
}

/// The form after a press of `code`.
pub open spec fn after_key(form: FormView, code: KeyCode) -> FormView {
    match form.phase {
        Phase::Collecting => match code {
            KeyCode::Esc => FormView { phase: Phase::Cancelled, ..form },
            KeyCode::Enter => if form.username.len() == 0 {
                FormView { phase: Phase::Rejected(FormError::EmptyUsername), ..form }
            } else {
                FormView { phase: Phase::Accepted, ..form }
            },
            _ => key_pressed(form, code),
        },
        Phase::Rejected(_) => FormView { phase: Phase::Collecting, ..form },
        Phase::Cancelled => form,
        Phase::Accepted => form,
    }
}

/// The form after `event`. Only key presses count.
pub open spec fn after_event(form: FormView, event: InputEvent) -> FormView {
    match pressed(event) {
        Some(code) => after_key(form, code),
        None => form,
    }
}

/// The form after the events `events[from..]`, taken while it is not final.
pub open spec fn after_events(form: FormView, events: Seq<InputEvent>, from: int) -> FormView
    decreases events.len() - from,
{
    if 0 <= from < events.len() && !is_final(form.phase) {
        after_events(after_event(form, events[from]), events, from + 1)
    } else {
        form
    }
}

/// Whether the form takes no more events.
pub open spec fn is_final(phase: Phase) -> bool {
    phase is Cancelled || phase is Accepted
}

/// The form a session starts with, or starts again with after the service
/// refused the room.
pub open spec fn initial(invalid_room: bool) -> FormView {
    FormView {
        focus: Focus::Username,
        username: Seq::empty(),
        room: Seq::empty(),
        phase: if invalid_room {
            Phase::Rejected(FormError::InvalidRoom)
        } else {
            Phase::Collecting
        },
    }
}

/// The form as a caller opens it: with `invalid_room`, a form that still
/// takes events shows the notice that the room does not exist.
pub open spec fn opened(form: FormView, invalid_room: bool) -> FormView {
    if invalid_room && !is_final(form.phase) {
        FormView { phase: Phase::Rejected(FormError::InvalidRoom), ..form }
    } else {
        form
    }
}

/// What a form that takes no more events hands to its caller.
pub open spec fn outcome_of(form: FormView) -> Option<Result<(Seq<char>, Seq<char>), Error>> {
    match form.phase {
        Phase::Cancelled => Some(Err(Error::Cancelled)),
        Phase::Accepted => Some(Ok((form.username, form.room))),
        _ => None,
    }
}

/// The characters of an outcome's two strings.
pub open spec fn outcome_view(outcome: Option<Result<(String, String), Error>>) -> Option<
    Result<(Seq<char>, Seq<char>), Error>,
> {
    match outcome {
        Some(Ok(pair)) => Some(Ok((pair.0@, pair.1@))),
        Some(Err(e)) => Some(Err(e)),
        None => None,
    }
}

/// A labelled line of text that keys edit.
#[derive(Debug)]
pub struct StringField {
    pub label: &'static str,
    pub value: String,
}

/// Where the cursor stands in a field's box, in cells from its corner.
#[derive(Clone, Copy, Debug, PartialEq, Eq, Structural)]
pub struct CursorOffset {
    pub x: i32,
    pub y: i32,
}

impl StringField {
    /// An empty field under `label`.
    pub fn new(label: &'static str) -> (field: StringField)
        ensures
            field.label == label,
            field.value@ == Seq::<char>::empty(),
    {
        StringField { label, value: String::new() }
    }

    /// Applies a key to the text: a character is appended, the
    /// backward-delete key removes the last character, other keys do
    /// nothing.
    pub fn on_key_press(&mut self, event: KeyEvent)
        ensures
            final(self).value@ == edited(old(self).value@, event.code),
            final(self).label == old(self).label,
    {
        match event.code {
            KeyCode::Char(c) => {
                self.value.push(c);
            },
            KeyCode::Backspace => {
                let _ = self.value.pop();
            },
            _ => {},
        }
    }

    /// The cursor's place behind the text: one cell for the border, one per
    /// byte of the text.
    pub fn cursor_offset(&self) -> (offset: CursorOffset)
        requires
            encode_utf8(self.value@).len() < i32::MAX,
        ensures
            offset.x == encode_utf8(self.value@).len() + 1,
            offset.y == 1,
    {
        let len = self.value.as_str().len();
        CursorOffset { x: len as i32 + 1, y: 1 }
    }
}

#[derive(Clone, Copy, Debug, Default, PartialEq, Eq, Structural)]
enum FormState {
    #[default]
    Running,
    Cancelled,
    Submitted,
}

/// The login form.
pub struct LoginForm {
    focus: Focus,
    username: StringField,
    room: StringField,
    state: FormState,
    error: Option<FormError>,
}

impl LoginForm {
    /// The form as a value.
    pub closed spec fn view(&self) -> FormView {
        FormView {
            focus: self.focus,
            username: self.username.value@,
            room: self.room.value@,
            phase: match self.state {
                FormState::Running => match self.error {
                    Some(e) => Phase::Rejected(e),
                    None => Phase::Collecting,
                },
                FormState::Cancelled => Phase::Cancelled,
                FormState::Submitted => Phase::Accepted,
            },
        }
    }

    /// An empty form; with `invalid_room` it opens on the notice that the
    /// room submitted before does not exist.
    pub fn new(invalid_room: bool) -> (form: LoginForm)
        ensures
            form@ == initial(invalid_room),
    {
        LoginForm {
            focus: Focus::Username,
            username: StringField::new("Username"),
            room: StringField::new("Room (leave empty to create a new room)"),
            state: FormState::Running,
            error: if invalid_room {
                Some(FormError::InvalidRoom)
            } else {
                None
            },
        }
    }

    /// Takes one terminal event.
    pub fn handle_events(&mut self, event: InputEvent)
        ensures
            final(self)@ == after_event(old(self)@, event),
    {
        let key = match event {
            InputEvent::Key(key) => key,
            InputEvent::Other => { return ; },
        };
        match key.kind {
            KeyEventKind::Press => {},
            _ => { return ; },
        }
        match self.state {
            FormState::Running => {},
            _ => { return ; },
        }
        if self.error.is_some() {
            self.error = None;
            return ;
        }
        match key.code {
            KeyCode::Esc => {
                self.state = FormState::Cancelled;
            },
            KeyCode::Enter => {
                if self.username.value.as_str().is_empty() {
                    self.error = Some(FormError::EmptyUsername);
                } else {
                    self.state = FormState::Submitted;
                }
            },
            _ => {
                self.on_key_press(key);
            },
        }
    }

    /// Takes a key press that is neither submit nor cancel: the switch key
    /// moves the focus, any other key goes to the field in focus.
    fn on_key_press(&mut self, event: KeyEvent)
        ensures
            final(self)@ == (FormView {
                phase: old(self)@.phase,
                ..key_pressed(old(self)@, event.code)
            }),
    {
        match event.code {
            KeyCode::Tab => {
                self.focus = self.focus.next();
            },
            _ => match self.focus {
                Focus::Username => {
                    self.username.on_key_press(event);
                },
                Focus::Room => {
                    self.room.on_key_press(event);
                },
            },
        }
    }

    /// Whether the form still takes events.
    pub fn is_running(&self) -> (b: bool)
        ensures
            b == !is_final(self@.phase),
    {
        match self.state {
            FormState::Running => true,
            _ => false,
        }
    }

    /// What the form hands to its caller: nothing while it runs, the
    /// cancellation, or the username and the room submitted.
    pub fn finish(self) -> (outcome: Option<Result<(String, String), Error>>)
        ensures
            outcome_view(outcome) == outcome_of(self@),
    {
        match self.state {
            FormState::Running => None,
            FormState::Cancelled => Some(Err(Error::Cancelled)),
            FormState::Submitted => Some(Ok((self.username.value, self.room.value))),
        }
    }

    /// Puts the notice that the room does not exist on a form that still
    /// takes events.
    pub fn reject_room(&mut self)
        ensures
            final(self)@ == opened(old(self)@, true),
    {
        match self.state {
            FormState::Running => {
                self.error = Some(FormError::InvalidRoom);
            },
            _ => {},
        }
    }

    /// Runs the form over `events`, in order, until it is cancelled or
    /// submitted or the events are used up. With `invalid_room` it first
    /// puts up the notice that the room does not exist.
    pub fn run(self, invalid_room: bool, events: &Vec<InputEvent>) -> (outcome: Option<
        Result<(String, String), Error>,
    >)
        ensures
            outcome_view(outcome) == outcome_of(
                after_events(opened(self@, invalid_room), events@, 0),
            ),
    {
        let mut form = self;
        if invalid_room {
            form.reject_room();
        }
        let mut i: usize = 0;
        while i < events.len() && form.is_running()
            invariant
                i <= events.len(),
                after_events(form@, events@, i as int) == after_events(
                    opened(self@, invalid_room),
                    events@,
                    0,
                ),
            decreases events.len() - i,
        {
            form.handle_events(events[i]);
            i += 1;
        }
        form.finish()
    }

    /// The field in focus.
    pub fn focus(&self) -> (focus: Focus)
        ensures
            focus == self@.focus,
    {
        self.focus
    }

    /// The username typed so far.
    pub fn username(&self) -> (field: &StringField)
        ensures
            field.value@ == self@.username,
    {
        &self.username
    }

    /// The room typed so far.
    pub fn room(&self) -> (field: &StringField)
        ensures
            field.value@ == self@.room,
    {
        &self.room
    }

    /// The refusal on show, if any.
    pub fn error(&self) -> (error: Option<FormError>)
        ensures
            error == match self@.phase {
                Phase::Rejected(e) => Some(e),
                _ => None,
            },
    {
        match self.state {
            FormState::Running => self.error,
            _ => None,
        }
    }

    /// The overlay to draw over the form, if any.
    pub fn popup(&self) -> (popup: Option<Popup>)
        ensures
            popup matches Some(p) ==> p.dimensions == Dimensions::standard()
                && p.title@ == "Invalid input"@,
            match self@.phase {
                Phase::Rejected(FormError::EmptyUsername) => popup matches Some(p) && p.text@
                    == "Username cannot be empty\n\n\n[OK]"@,
                Phase::Rejected(FormError::InvalidRoom) => popup matches Some(p) && p.text@
                    == "Specified room does not exist\n\n\n[OK]"@,
                _ => popup is None,
            },
    {
        match self.error() {
            None => None,
            Some(FormError::EmptyUsername) => Some(show_empty_username_popup()),
            Some(FormError::InvalidRoom) => Some(show_invalid_room_popup()),
        }
    }
}

impl Default for LoginForm {
    fn default() -> (form: LoginForm)
        ensures
            form@ == initial(false),
    {
        LoginForm::new(false)
    }
}

/// The key bindings of the form, as one line.
pub fn keybinds_widget() -> (line: String)
    ensures
        line@ == "Tab to switch field,  Enter to proceed,  Esc to quit"@,
{
    let mut keybinds: Vec<String> = Vec::new();
    keybinds.push("Tab to switch field".to_owned());
    keybinds.push("Enter to proceed".to_owned());
    keybinds.push("Esc to quit".to_owned());
    let line = join(&keybinds, ",  ");
    proof {
        reveal_strlit("Tab to switch field");
        reveal_strlit("Enter to proceed");
        reveal_strlit("Esc to quit");
        reveal_strlit(",  ");
        reveal_strlit("Tab to switch field,  Enter to proceed,  Esc to quit");
        reveal_with_fuel(crate::text::joined, 4);
        let parts = crate::text::texts(keybinds@);
        assert(parts.drop_last().drop_last() =~= seq![parts[0]]);
        assert(line@ =~= "Tab to switch field,  Enter to proceed,  Esc to quit"@);
    }
    line
}

/// The notice for a submit without a username.
pub fn show_empty_username_popup() -> (popup: Popup)
    ensures
        popup.dimensions == Dimensions::standard(),
        popup.title@ == "Invalid input"@,
        popup.text@ == "Username cannot be empty\n\n\n[OK]"@,
{
    Popup {
        dimensions: Dimensions { percent_x: 20, percent_y: 15, min_x: 35, min_y: 5 },
        title: "Invalid input",
        text: "Username cannot be empty\n\n\n[OK]",
    }
}

/// The notice for a room that the service does not know.
pub fn show_invalid_room_popup() -> (popup: Popup)
    ensures
        popup.dimensions == Dimensions::standard(),
        popup.title@ == "Invalid input"@,
        popup.text@ == "Specified room does not exist\n\n\n[OK]"@,
{
    Popup {
        dimensions: Dimensions { percent_x: 20, percent_y: 15, min_x: 35, min_y: 5 },
        title: "Invalid input",
        text: "Specified room does not exist\n\n\n[OK]",
    }
}

/// No event takes a form with an empty username to `Accepted`: whatever
/// comes, a form that was not accepted before is not accepted after. A
/// submit on such a form, while it collects, is refused with
/// `EmptyUsername` and changes nothing else.
pub proof fn lemma_empty_username_is_never_accepted(form: FormView, event: InputEvent)
    requires
        form.username.len() == 0,
        !(form.phase is Accepted),
    ensures
        !(after_event(form, event).phase is Accepted),
        form.phase is Collecting ==> after_key(form, KeyCode::Enter) == (FormView {
            phase: Phase::Rejected(FormError::EmptyUsername),
            ..form
        }),
{
}

/// One key press, of any key, dismisses a refusal: the form collects again
/// and nothing else has changed. An event that is no key press leaves the
/// refusal on show.
pub proof fn lemma_one_key_clears_rejection(form: FormView, event: InputEvent)
    requires
        form.phase is Rejected,
    ensures
        pressed(event) is Some ==> after_event(form, event) == (FormView {
            phase: Phase::Collecting,
            ..form
        }),
        pressed(event) is None ==> after_event(form, event) == form,
{
}

} // verus!
