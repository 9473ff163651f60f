//! The event decoder and the stream ingestor: from one record of the event
//! stream to one line of the session log.

use vstd::prelude::*;
use vstd::string::*;
use crate::error::Error;
use crate::json::{from_str, get_number, get_text, member_number, member_text, parsed, text_view};
use crate::log::SessionLog;
use crate::text::{decimal, push_decimal, same_text};

verus! {

/// One record of the event stream: a type tag and a payload.
#[derive(Debug, Clone, PartialEq, Eq)]
pub struct Record {
    pub kind: String,
    pub payload: String,
}

/// The kinds of event that the decoder knows.
#[derive(Clone, Copy, Debug, PartialEq, Eq, Structural)]
pub enum Event {
    Roll,
    Join,
}

/// The kind that the tag `s` stands for, if the decoder knows it.
pub open spec fn kind_of(s: Seq<char>) -> Option<Event> {
    if s == "roll"@ {
        Some(Event::Roll)
    } else if s == "join"@ {
        Some(Event::Join)
    } else {
        None
    }
}

impl Event {
    /// The kind that the tag `s` stands for; an error for any other tag.
    pub fn from_str(s: &str) -> (kind: Result<Event, ()>)
        ensures
            kind.ok() == kind_of(s@),
    {
        if same_text(s, "roll") {
            Ok(Event::Roll)
        } else if same_text(s, "join") {
            Ok(Event::Join)
        } else {
            Err(())
        }
    }
}

/// The body of a roll event.
#[derive(Debug, Clone, PartialEq, Eq)]
pub struct Roll {
    pub username: String,
    pub room: String,
    pub result: u8,
}

/// A roll as a value.
pub struct RollView {
    pub username: Seq<char>,
    pub room: Seq<char>,
    pub result: u8,
}

impl View for Roll {
    type V = RollView;

    open spec fn view(&self) -> RollView {
        RollView { username: self.username@, room: self.room@, result: self.result }
    }
}

/// The characters of an optional roll.
pub open spec fn roll_view(roll: Option<Roll>) -> Option<RollView> {
    match roll {
        Some(r) => Some(r@),
        None => None,
    }
}

/// The roll made of three members of a document, where all three are there
/// and the result fits in a byte.
pub open spec fn roll_from(
    username: Option<Seq<char>>,
    room: Option<Seq<char>>,
    result: Option<u64>,
) -> Option<RollView> {
    match (username, room, result) {
        (Some(u), Some(r), Some(n)) => if n <= 255 {
            Some(RollView { username: u, room: r, result: n as u8 })
        } else {
            None
        },
        _ => None,
    }
}

/// The roll that a payload holds: the members `Username`, `Room` and
/// `Result` of the document that the payload reads as.
pub open spec fn roll_in(payload: Seq<char>) -> Option<RollView> {
    match parsed(payload) {
        Some(document) => roll_from(
            member_text(document, "Username"@),
            member_text(document, "Room"@),
            member_number(document, "Result"@),
        ),
        None => None,
    }
}

impl Roll {
    /// Makes a roll of the three members read from a payload. There is none
    /// where a member is missing or of another type, or where the result does
    /// not fit in a byte.
    pub fn from_members(username: Option<String>, room: Option<String>, result: Option<u64>) -> (roll:
        Option<Roll>)
        ensures
            roll_view(roll) == roll_from(text_view(username), text_view(room), result),
    {
        match (username, room, result) {
            (Some(username), Some(room), Some(n)) => {
                if n <= 255 {
                    Some(Roll { username, room, result: n as u8 })
                } else {
                    None
                }
            },
            _ => None,
        }
    }

    /// Reads a roll from the payload of a roll event.
    pub fn parse(payload: &str) -> (roll: Option<Roll>)
        ensures
            roll_view(roll) == roll_in(payload@),
    {
        match from_str(payload) {
            Some(document) => {
                let username = get_text(&document, "Username");
                let room = get_text(&document, "Room");
                let result = get_number(&document, "Result");
                Roll::from_members(username, room, result)
            },
            None => None,
        }
    }
}

/// What a record says.
#[derive(Debug, Clone, PartialEq, Eq)]
pub enum DecodedEvent {
    /// A participant rolled.
    Roll { username: String, room: String, result: u8 },
    /// A participant joined.
    Join { username: String },
    /// A record of a kind that the decoder does not know, kept as it came.
    Unrecognized { kind: String, payload: String },
}

/// A decoded event as a value.
pub enum EventView {
    Roll { username: Seq<char>, room: Seq<char>, result: u8 },
    Join { username: Seq<char> },
    Unrecognized { kind: Seq<char>, payload: Seq<char> },
}

impl View for DecodedEvent {
    type V = EventView;

    open spec fn view(&self) -> EventView {
        match *self {
            DecodedEvent::Roll { username, room, result } => EventView::Roll {
                username: username@,
                room: room@,
                result,
            },
            DecodedEvent::Join { username } => EventView::Join { username: username@ },
            DecodedEvent::Unrecognized { kind, payload } => EventView::Unrecognized {
                kind: kind@,
                payload: payload@,
            },
        }
    }
}

/// What a record of tag `kind` and payload `payload` says, given the roll
/// that the payload holds. There is nothing only for a roll event whose
/// payload holds no roll.
pub open spec fn decoded(kind: Seq<char>, payload: Seq<char>, roll: Option<RollView>) -> Option<
    EventView,
> {
    match kind_of(kind) {
        Some(Event::Roll) => match roll {
            Some(r) => Some(
                EventView::Roll { username: r.username, room: r.room, result: r.result },
            ),
            None => None,
        },
        Some(Event::Join) => Some(EventView::Join { username: payload }),
        None => Some(EventView::Unrecognized { kind, payload }),
    }
}

/// The line that shows an event.
pub open spec fn rendered(event: EventView) -> Seq<char> {
    match event {
        EventView::Roll { username, room, result } => username + " rolled "@ + decimal(
            result as nat,
        ),
        EventView::Join { username } => username + " joined the party!"@,
        EventView::Unrecognized { kind, payload } => "Event type: "@ + kind + "\nEvent data: "@
            + payload,
    }
}

/// Whether `outcome` is what decoding gives where the record says `event`,
/// or says nothing and has the payload `payload`.
pub open spec fn decodes_to(
    outcome: Result<DecodedEvent, Error>,
    event: Option<EventView>,
    payload: Seq<char>,
) -> bool {
    match outcome {
        Ok(e) => event == Some(e@),
        Err(error) => event is None && (error matches Error::Decode(p) && p@ == payload),
    }
}

/// Decodes a record whose payload was read already: `roll` is the roll that
/// the payload holds, if it holds one. It is looked at only for a roll
/// event, which without it is a decode error that carries the payload.
pub fn decode_with(record: &Record, roll: Option<Roll>) -> (outcome: Result<DecodedEvent, Error>)
    ensures
        decodes_to(outcome, decoded(record.kind@, record.payload@, roll_view(roll)), record.payload@),
{
    match Event::from_str(record.kind.as_str()) {
        Ok(Event::Roll) => match roll {
            Some(r) => Ok(
                DecodedEvent::Roll { username: r.username, room: r.room, result: r.result },
            ),
            None => Err(Error::Decode(record.payload.clone())),
        },
        Ok(Event::Join) => Ok(DecodedEvent::Join { username: record.payload.clone() }),
        Err(_) => Ok(
            DecodedEvent::Unrecognized {
                kind: record.kind.clone(),
                payload: record.payload.clone(),
            },
        ),
    }
}

/// Decodes a record. Every record decodes but a roll event whose payload
/// holds no roll.
pub fn decode(record: &Record) -> (outcome: Result<DecodedEvent, Error>)
    ensures
        decodes_to(
            outcome,
            decoded(record.kind@, record.payload@, roll_in(record.payload@)),
            record.payload@,
        ),
{
    let roll = match Event::from_str(record.kind.as_str()) {
        Ok(Event::Roll) => Roll::parse(record.payload.as_str()),
        _ => None,
    };
    decode_with(record, roll)
}

impl DecodedEvent {
    /// The line that shows this event.
    pub fn render(&self) -> (line: String)
        ensures
            line@ == rendered(self@),
    {
        match self {
            DecodedEvent::Roll { username, room, result } => {
                let mut line = username.clone();
                line.append(" rolled ");
                push_decimal(&mut line, *result as u64);
                line
            },
            DecodedEvent::Join { username } => {
                let mut line = username.clone();
                line.append(" joined the party!");
                line
            },
            DecodedEvent::Unrecognized { kind, payload } => {
                let mut line = "Event type: ".to_owned();
                line.append(kind.as_str());
                line.append("\nEvent data: ");
                line.append(payload.as_str());
                line
            },
        }
    }
}

/// The line for a record, given the roll that its payload holds.
pub open spec fn line_with(kind: Seq<char>, payload: Seq<char>, roll: Option<RollView>) -> Option<
    Seq<char>,
> {
    match decoded(kind, payload, roll) {
        Some(event) => Some(rendered(event)),
        None => None,
    }
}

/// Whether `outcome` is the line `line`, or where there is none the decode
/// error that carries `payload`.
pub open spec fn renders_to(
    outcome: Result<String, Error>,
    line: Option<Seq<char>>,
    payload: Seq<char>,
) -> bool {
    match outcome {
        Ok(text) => line == Some(text@),
        Err(error) => line is None && (error matches Error::Decode(p) && p@ == payload),
    }
}

/// Decodes a record and renders it as a line of the log.
pub fn handle_events(ev: &Record) -> (outcome: Result<String, Error>)
    ensures
        renders_to(outcome, line_with(ev.kind@, ev.payload@, roll_in(ev.payload@)), ev.payload@),
{
    match decode(ev) {
        Ok(event) => Ok(event.render()),
        Err(error) => Err(error),
    }
}

/// One frame of the event stream.
#[derive(Debug, Clone, PartialEq, Eq)]
pub enum Frame {
    /// The stream is open; the service answered with this status.
    Connected(u16),
    /// An event.
    Event(Record),
    /// A comment line of the protocol.
    Comment(String),
}

/// The line of the log that shows `frame`. There is none only for a roll
/// event whose payload holds no roll.
pub open spec fn line_of(frame: Frame) -> Option<Seq<char>> {
    match frame {
        Frame::Connected(status) => Some("Connected! "@ + decimal(status as nat)),
        Frame::Event(record) => line_with(record.kind@, record.payload@, roll_in(record.payload@)),
        Frame::Comment(comment) => Some("Comment: \n"@ + comment@),
    }
}

/// The payload of the event that `frame` carries.
pub open spec fn payload_of(frame: Frame) -> Seq<char> {
    match frame {
        Frame::Event(record) => record.payload@,
        _ => Seq::empty(),
    }
}

/// The number of frames at the front of `frames` that have a line: the
/// index of the first frame without one, or the length.
pub open spec fn readable_prefix(frames: Seq<Frame>) -> nat
    decreases frames.len(),
{
    if frames.len() == 0 || line_of(frames[0]) is None {
        0
    } else {
        1 + readable_prefix(frames.drop_first())
    }
}

/// The lines of the first `n` frames, in order.
pub open spec fn lines_of(frames: Seq<Frame>, n: int) -> Seq<Seq<char>> {
    Seq::new(n as nat, |i: int| line_of(frames[i]).unwrap())
}

/// Renders one frame as a line of the log.
pub fn describe(frame: &Frame) -> (outcome: Result<String, Error>)
    ensures
        renders_to(outcome, line_of(*frame), payload_of(*frame)),
{
    match frame {
        Frame::Connected(status) => {
            let mut line = "Connected! ".to_owned();
            push_decimal(&mut line, *status as u64);
            Ok(line)
        },
        Frame::Event(record) => handle_events(record),
        Frame::Comment(comment) => {
            let mut line = "Comment: \n".to_owned();
            line.append(comment.as_str());
            Ok(line)
        },
    }
}

/// Takes one frame off the stream: renders it and appends the line to the
/// log. A frame without a line leaves the log as it is and is an error.
pub fn tail_events(frame: &Frame, log: &mut SessionLog) -> (outcome: Result<(), Error>)
    ensures
        match line_of(*frame) {
            Some(line) => outcome is Ok && final(log)@ == old(log)@.push(line),
            None => final(log)@ == old(log)@ && (outcome matches Err(Error::Decode(p)) && p@
                == payload_of(*frame)),
        },
{
    match describe(frame) {
        Ok(line) => {
            log.append(line);
            Ok(())
        },
        Err(error) => Err(error),
    }
}

proof fn lemma_readable_prefix(frames: Seq<Frame>, n: int)
    requires
        0 <= n <= frames.len(),
        forall|i: int| 0 <= i < n ==> line_of(#[trigger] frames[i]) is Some,
        n < frames.len() ==> line_of(frames[n]) is None,
    ensures
        readable_prefix(frames) == n,
    decreases n,
{
    if n > 0 {
        let rest = frames.drop_first();
        assert forall|i: int| 0 <= i < n - 1 implies line_of(#[trigger] rest[i]) is Some by {
            assert(rest[i] == frames[i + 1]);
        }
        assert(n < frames.len() ==> rest[n - 1] == frames[n]);
        lemma_readable_prefix(rest, n - 1);
    }
}

/// Takes the frames of a stream in order, appending one line for each,
/// until the frames are used up or one has no line. The log then holds what
/// it held before and behind it the lines of the frames taken, in their
/// order; the outcome is an error exactly where a frame had no line.
pub fn handle_sse(frames: &Vec<Frame>, log: &mut SessionLog) -> (outcome: Result<(), Error>)
    ensures
        final(log)@ == old(log)@ + lines_of(frames@, readable_prefix(frames@) as int),
        readable_prefix(frames@) <= frames@.len(),
        outcome is Ok <==> readable_prefix(frames@) == frames@.len(),
        outcome matches Err(error) ==> (error matches Error::Decode(p) && p@ == payload_of(
            frames@[readable_prefix(frames@) as int],
        )),
{
    let mut i: usize = 0;
    while i < frames.len()
        invariant
            i <= frames.len(),
            forall|j: int| 0 <= j < i ==> line_of(#[trigger] frames@[j]) is Some,
            log@ == old(log)@ + lines_of(frames@, i as int),
        decreases frames.len() - i,
    {
        let ghost before = log@;
        match tail_events(&frames[i], log) {
            Ok(()) => {
                assert(log@ =~= old(log)@ + lines_of(frames@, i + 1));
            },
            Err(error) => {
                proof {
                    lemma_readable_prefix(frames@, i as int);
                }
                return Err(error);
            },
        }
        i += 1;
    }
    proof {
        lemma_readable_prefix(frames@, i as int);
    }
    Ok(())
}

/// A record of a kind that the decoder does not know is never lost and
/// never an error: whatever its payload, it decodes to itself, and its line
/// gives the tag and the payload as they came.
pub proof fn lemma_unrecognized_passes_through(
    kind: Seq<char>,
    payload: Seq<char>,
    roll: Option<RollView>,
)
    requires
        kind != "roll"@,
        kind != "join"@,
    ensures
        decoded(kind, payload, roll) == Some(EventView::Unrecognized { kind, payload }),
        line_with(kind, payload, roll) == Some(
            "Event type: "@ + kind + "\nEvent data: "@ + payload,
        ),
{
}

/// A frame that carries a record of a kind that the decoder does not know
/// always has a line, so the ingestor appends it.
pub proof fn lemma_unrecognized_frame_has_line(record: Record)
    requires
        record.kind@ != "roll"@,
        record.kind@ != "join"@,
    ensures
        line_of(Frame::Event(record)) == Some(
            "Event type: "@ + record.kind@ + "\nEvent data: "@ + record.payload@,
        ),
{
}

} // verus!
