//! Interactions: the logged moments between people.

use vstd::prelude::*;

use crate::hexfmt::{append_lower_hex, lower_hex};
use crate::text::texts;

verus! {

/// What kind of moment an interaction records.
#[derive(Debug, Clone, Copy, PartialEq, Eq, Structural)]
pub enum InteractionKind {
    /// Recognition of what someone did.
    Appreciation,
    /// Constructive feedback.
    Feedback,
    /// Making amends.
    Apology,
    /// A regular check-in.
    CheckIn,
    /// A look back at a stretch of work.
    Retrospective,
}

impl InteractionKind {
    /// The label that `label` returns.
    pub open spec fn spec_label(self) -> Seq<char> {
        match self {
            InteractionKind::Appreciation => "Appreciation"@,
            InteractionKind::Feedback => "Feedback"@,
            InteractionKind::Apology => "Apology"@,
            InteractionKind::CheckIn => "Check-in"@,
            InteractionKind::Retrospective => "Retrospective"@,
        }
    }

    /// The name of the kind, for a person to read.
    pub fn label(&self) -> (label: &'static str)
        ensures
            label@ == self.spec_label(),
    {
        match self {
            InteractionKind::Appreciation => "Appreciation",
            InteractionKind::Feedback => "Feedback",
            InteractionKind::Apology => "Apology",
            InteractionKind::CheckIn => "Check-in",
            InteractionKind::Retrospective => "Retrospective",
        }
    }
}

/// An instant in UTC: whole seconds since the start of 1970, and the
/// nanoseconds into that second.
#[derive(Debug, Clone, Copy, PartialEq, Eq, Structural, PartialOrd, Ord)]
pub struct Timestamp {
    pub secs: i64,
    pub nanos: u32,
}

impl Timestamp {
    /// Whether `self` is an earlier instant than `other`.
    pub open spec fn before(self, other: Timestamp) -> bool {
        self.secs < other.secs || (self.secs == other.secs && self.nanos < other.nanos)
    }

    /// Whether `self` is `other` or an earlier instant.
    pub open spec fn not_after(self, other: Timestamp) -> bool {
        !other.before(self)
    }

    /// Whether `self` is an earlier instant than `other`.
    pub fn is_before(&self, other: &Timestamp) -> (r: bool)
        ensures
            r == self.before(*other),
    {
        self.secs < other.secs || (self.secs == other.secs && self.nanos < other.nanos)
    }
}

/// One logged interaction. It is written once and never changed.
#[derive(Debug, Clone, PartialEq)]
pub struct Interaction {
    /// The identifier, unique within the directory the interaction is stored in.
    pub id: String,
    /// What kind of moment this was.
    pub kind: InteractionKind,
    /// Who logged the interaction.
    pub from: String,
    /// Who the interaction was with, in the order given.
    pub with: Vec<String>,
    /// What was said.
    pub note: String,
    /// When the interaction was logged.
    pub timestamp: Timestamp,
    /// Whether the whole team may see it.
    pub shared: bool,
}

/// What an interaction is, as mathematical values.
pub struct InteractionView {
    pub id: Seq<char>,
    pub kind: InteractionKind,
    pub from: Seq<char>,
    pub with: Seq<Seq<char>>,
    pub note: Seq<char>,
    pub timestamp: Timestamp,
    pub shared: bool,
}

impl View for Interaction {
    type V = InteractionView;

    open spec fn view(&self) -> InteractionView {
        InteractionView {
            id: self.id@,
            kind: self.kind,
            from: self.from@,
            with: texts(self.with@),
            note: self.note@,
            timestamp: self.timestamp,
            shared: self.shared,
        }
    }
}

/// The identifier made from a reading of the clock: the seconds since the
/// start of 1970 and the nanoseconds into the second, each in lowercase
/// hexadecimal, one after the other.
pub open spec fn clock_id(secs: u64, nanos: u32) -> Seq<char> {
    lower_hex(secs as nat) + lower_hex(nanos as nat)
}

/// Whether `id` is the identifier of some reading of the clock.
pub open spec fn is_clock_id(id: Seq<char>) -> bool {
    exists|secs: u64, nanos: u32| nanos < 1_000_000_000 && id == #[trigger] clock_id(secs, nanos)
}

/// Reads the system clock with `std::time::SystemTime::now` and gives the
/// time since the start of 1970 as whole seconds and nanoseconds; both are
/// zero where the clock stands before 1970. Nothing is claimed of the
/// reading but that the nanoseconds stay below one second, as
/// `Duration::subsec_nanos` documents.
#[verifier::external_body]
pub(crate) fn read_clock() -> (reading: (u64, u32))
    ensures
        reading.1 < 1_000_000_000,
{
    let since = std::time::SystemTime::now().duration_since(std::time::UNIX_EPOCH);
    let elapsed = since.unwrap_or_default();
    (elapsed.as_secs(), elapsed.subsec_nanos())
}

/// The present instant, from `chrono::Utc::now`, as the seconds and
/// nanoseconds that `DateTime::timestamp` and
/// `DateTime::timestamp_subsec_nanos` report. `Utc::now` builds its value
/// from a duration since 1970, so the nanoseconds stay below one second;
/// nothing else is claimed of the instant. `Utc::now` panics where the
/// system clock stands before 1970.
#[verifier::external_body]
fn utc_now() -> (now: Timestamp)
    ensures
        now.nanos < 1_000_000_000,
{
    let now = chrono::Utc::now();
    Timestamp { secs: now.timestamp(), nanos: now.timestamp_subsec_nanos() }
}

/// The identifier for a reading of the clock.
pub fn id_from_clock(secs: u64, nanos: u32) -> (id: String)
    ensures
        id@ == clock_id(secs, nanos),
{
    let mut id = String::new();
    append_lower_hex(&mut id, secs);
    append_lower_hex(&mut id, nanos as u64);
    id
}

/// A new identifier, made from the present reading of the clock. Two calls
/// within the same nanosecond give the same identifier.
pub fn generate_id() -> (id: String)
    ensures
        is_clock_id(id@),
{
    let (secs, nanos) = read_clock();
    let id = id_from_clock(secs, nanos);
    id
}

impl Interaction {
    /// The interaction with every field given: `id` and `timestamp` are
    /// taken as they are, and the interaction is not shared.
    pub fn recorded(
        id: String,
        kind: InteractionKind,
        from: &str,
        with: Vec<String>,
        note: &str,
        timestamp: Timestamp,
    ) -> (interaction: Interaction)
        ensures
            interaction@ == (InteractionView {
                id: id@,
                kind,
                from: from@,
                with: texts(with@),
                note: note@,
                timestamp,
                shared: false,
            }),
    {
        Interaction {
            id,
            kind,
            from: from.to_owned(),
            with,
            note: note.to_owned(),
            timestamp,
            shared: false,
        }
    }

    /// A new interaction, logged now: its identifier comes from the clock,
    /// its timestamp is the present instant, and it is not shared.
    pub fn new(kind: InteractionKind, from: &str, with: Vec<String>, note: &str) -> (interaction:
        Interaction)
        ensures
            interaction@.kind == kind,
            interaction@.from == from@,
            interaction@.with == texts(with@),
            interaction@.note == note@,
            !interaction@.shared,
            is_clock_id(interaction@.id),
            interaction@.timestamp.nanos < 1_000_000_000,
    {
        let id = generate_id();
        let timestamp = utc_now();
        Interaction::recorded(id, kind, from, with, note, timestamp)
    }

    /// The same interaction, shared with the team.
    pub fn shared(self) -> (interaction: Interaction)
        ensures
            interaction@ == (InteractionView { shared: true, ..self@ }),
    {
        let mut interaction = self;
        interaction.shared = true;
        interaction
    }

    /// A new appreciation, logged now.
    pub fn appreciation(from: &str, with: Vec<String>, note: &str) -> (interaction: Interaction)
        ensures
            interaction@.kind == InteractionKind::Appreciation,
            interaction@.from == from@,
            interaction@.with == texts(with@),
            interaction@.note == note@,
            !interaction@.shared,
            is_clock_id(interaction@.id),
            interaction@.timestamp.nanos < 1_000_000_000,
    {
        Interaction::new(InteractionKind::Appreciation, from, with, note)
    }

    /// A new piece of feedback, logged now.
    pub fn feedback(from: &str, with: Vec<String>, note: &str) -> (interaction: Interaction)
        ensures
            interaction@.kind == InteractionKind::Feedback,
            interaction@.from == from@,
            interaction@.with == texts(with@),
            interaction@.note == note@,
            !interaction@.shared,
            is_clock_id(interaction@.id),
            interaction@.timestamp.nanos < 1_000_000_000,
    {
        Interaction::new(InteractionKind::Feedback, from, with, note)
    }
}

} // verus!
