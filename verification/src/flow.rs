//! The whole client as a state machine: form, registration, session. The
//! caller does the outside work that each action asks for and hands back
//! what came of it.

use vstd::prelude::*;
use vstd::string::*;
use crate::error::Error;
use crate::user::{User, UserView};

verus! {

/// Where the client stands.
#[derive(Clone, Copy, Debug, PartialEq, Eq, Structural)]
pub enum Stage {
    /// The form is on show; with `invalid_room` it opens on the notice that
    /// the room does not exist.
    Login { invalid_room: bool },
    /// The registration request is under way.
    Registering,
    /// The event stream and the interactive loop run.
    InSession,
    /// The client is done. Final.
    Finished,
}

/// What came of the outside work that the last action asked for.
#[derive(Debug, PartialEq, Eq)]
pub enum Outcome {
    /// The form was submitted with this username and room, or was left.
    Form(Result<(String, String), Error>),
    /// The service granted this credential and room, or there is no session.
    Registered(Result<(String, String), Error>),
    /// The interactive loop ended.
    SessionEnded(Result<(), Error>),
}

/// What the caller is to do next.
#[derive(Debug, PartialEq, Eq)]
pub enum Action {
    /// Show the form and hand back what the user did with it.
    ShowForm { invalid_room: bool },
    /// Send the registration request and hand back what the reply means.
    Register { username: String, room: String },
    /// Start the stream ingestor, run the interactive loop and hand back how
    /// it ended.
    StartSession { token: String, room: String },
    /// Leave, with this result.
    Exit(Result<(), Error>),
    /// Nothing: the outcome was not the one awaited.
    Wait,
}

/// An outcome as a value.
pub enum OutcomeView {
    Form(Result<(Seq<char>, Seq<char>), Error>),
    Registered(Result<(Seq<char>, Seq<char>), Error>),
    SessionEnded(Result<(), Error>),
}

/// An action as a value.
pub enum ActionView {
    ShowForm { invalid_room: bool },
    Register { username: Seq<char>, room: Seq<char> },
    StartSession { token: Seq<char>, room: Seq<char> },
    Exit(Result<(), Error>),
    Wait,
}

/// The characters of a pair of strings, or the error.
pub open spec fn pair_view(r: Result<(String, String), Error>) -> Result<
    (Seq<char>, Seq<char>),
    Error,
> {
    match r {
        Ok(pair) => Ok((pair.0@, pair.1@)),
        Err(e) => Err(e),
    }
}

impl View for Outcome {
    type V = OutcomeView;

    open spec fn view(&self) -> OutcomeView {
        match *self {
            Outcome::Form(r) => OutcomeView::Form(pair_view(r)),
            Outcome::Registered(r) => OutcomeView::Registered(pair_view(r)),
            Outcome::SessionEnded(r) => OutcomeView::SessionEnded(r),
        }
    }
}

impl View for Action {
    type V = ActionView;

    open spec fn view(&self) -> ActionView {
        match *self {
            Action::ShowForm { invalid_room } => ActionView::ShowForm { invalid_room },
            Action::Register { username, room } => ActionView::Register {
                username: username@,
                room: room@,
            },
            Action::StartSession { token, room } => ActionView::StartSession {
                token: token@,
                room: room@,
            },
            Action::Exit(r) => ActionView::Exit(r),
            Action::Wait => ActionView::Wait,
        }
    }
}

/// The client as a value: the stage and the user.
pub struct AppView {
    pub stage: Stage,
    pub user: UserView,
}

/// The client after `outcome`.
pub open spec fn next_app(app: AppView, outcome: OutcomeView) -> AppView {
    match (app.stage, outcome) {
        (Stage::Login { .. }, OutcomeView::Form(Ok(pair))) => AppView {
            stage: Stage::Registering,
            user: UserView { username: pair.0, room: pair.1, ..app.user },
        },
        (Stage::Login { .. }, OutcomeView::Form(Err(_))) => AppView {
            stage: Stage::Finished,
            ..app
        },
        (Stage::Registering, OutcomeView::Registered(Ok(pair))) => AppView {
            stage: Stage::InSession,
            user: UserView { token: pair.0, room: pair.1, ..app.user },
        },
        (Stage::Registering, OutcomeView::Registered(Err(error))) => if error is InvalidForm {
            AppView { stage: Stage::Login { invalid_room: true }, ..app }
        } else {
            AppView { stage: Stage::Finished, ..app }
        },
        (Stage::InSession, OutcomeView::SessionEnded(_)) => AppView {
            stage: Stage::Finished,
            ..app
        },
        _ => app,
    }
}

/// What the caller is to do after `outcome`.
pub open spec fn next_action(app: AppView, outcome: OutcomeView) -> ActionView {
    match (app.stage, outcome) {
        (Stage::Login { .. }, OutcomeView::Form(Ok(pair))) => ActionView::Register {
            username: pair.0,
            room: pair.1,
        },
        (Stage::Login { .. }, OutcomeView::Form(Err(error))) => ActionView::Exit(Err(error)),
        (Stage::Registering, OutcomeView::Registered(Ok(pair))) => ActionView::StartSession {
            token: pair.0,
            room: pair.1,
        },
        (Stage::Registering, OutcomeView::Registered(Err(error))) => if error is InvalidForm {
            ActionView::ShowForm { invalid_room: true }
        } else {
            ActionView::Exit(Err(error))
        },
        (Stage::InSession, OutcomeView::SessionEnded(result)) => ActionView::Exit(result),
        _ => ActionView::Wait,
    }
}

/// The client.
#[derive(Debug)]
pub struct App {
    user: User,
    stage: Stage,
}

impl App {
    /// The client as a value.
    pub closed spec fn view(&self) -> AppView {
        AppView { stage: self.stage, user: self.user@ }
    }

    /// A client at the form, with a user who has typed nothing.
    pub fn new() -> (app: App)
        ensures
            app@.stage == (Stage::Login { invalid_room: false }),
            app@.user == (UserView {
                username: Seq::empty(),
                room: Seq::empty(),
                token: Seq::empty(),
            }),
    {
        App { user: User::new(String::new(), String::new()), stage: Stage::Login { invalid_room: false } }
    }

    /// What the caller is to do first: show the form.
    pub fn start(&self) -> (action: Action)
        ensures
            action@ == (ActionView::ShowForm { invalid_room: false }),
    {
        Action::ShowForm { invalid_room: false }
    }

    /// Takes what came of the last action and says what to do next.
    pub fn run(&mut self, outcome: Outcome) -> (action: Action)
        ensures
            final(self)@ == next_app(old(self)@, outcome@),
            action@ == next_action(old(self)@, outcome@),
    {
        match (self.stage, outcome) {
            (Stage::Login { .. }, Outcome::Form(result)) => self.get_input(result),
            (Stage::Registering, Outcome::Registered(result)) => self.subscribe(result),
            (Stage::InSession, Outcome::SessionEnded(result)) => self.receive_messages(result),
            _ => Action::Wait,
        }
    }

    /// Takes what the user did with the form: a submission is sent to the
    /// service, anything else ends the client.
    fn get_input(&mut self, result: Result<(String, String), Error>) -> (action: Action)
        requires
            old(self)@.stage is Login,
        ensures
            final(self)@ == next_app(old(self)@, OutcomeView::Form(pair_view(result))),
            action@ == next_action(old(self)@, OutcomeView::Form(pair_view(result))),
    {
        match result {
            Ok((username, room)) => {
                self.user.submit(username.clone(), room.clone());
                self.stage = Stage::Registering;
                Action::Register { username, room }
            },
            Err(error) => {
                self.stage = Stage::Finished;
                Action::Exit(Err(error))
            },
        }
    }

    /// Takes what the registration reply means: a session starts, an
    /// invalid form goes back to the user, any other error ends the client.
    fn subscribe(&mut self, result: Result<(String, String), Error>) -> (action: Action)
        requires
            old(self)@.stage is Registering,
        ensures
            final(self)@ == next_app(old(self)@, OutcomeView::Registered(pair_view(result))),
            action@ == next_action(old(self)@, OutcomeView::Registered(pair_view(result))),
    {
        match result {
            Ok((token, room)) => {
                self.user.enter(token.clone(), room.clone());
                self.stage = Stage::InSession;
                Action::StartSession { token, room }
            },
            Err(error) => {
                if error.is_recoverable() {
                    self.stage = Stage::Login { invalid_room: true };
                    Action::ShowForm { invalid_room: true }
                } else {
                    self.stage = Stage::Finished;
                    Action::Exit(Err(error))
                }
            },
        }
    }

    /// Takes how the interactive loop ended, which ends the client.
    fn receive_messages(&mut self, result: Result<(), Error>) -> (action: Action)
        requires
            old(self)@.stage is InSession,
        ensures
            final(self)@ == next_app(old(self)@, OutcomeView::SessionEnded(result)),
            action@ == next_action(old(self)@, OutcomeView::SessionEnded(result)),
    {
        self.stage = Stage::Finished;
        Action::Exit(result)
    }

    /// Where the client stands.
    pub fn stage(&self) -> (stage: Stage)
        ensures
            stage == self@.stage,
    {
        self.stage
    }

    /// The user.
    pub fn user(&self) -> (user: &User)
        ensures
            user@ == self@.user,
    {
        &self.user
    }
}

impl Default for App {
    fn default() -> (app: App)
        ensures
            app@.stage == (Stage::Login { invalid_room: false }),
            app@.user == (UserView {
                username: Seq::empty(),
                room: Seq::empty(),
                token: Seq::empty(),
            }),
    {
        App::new()
    }
}

} // verus!
