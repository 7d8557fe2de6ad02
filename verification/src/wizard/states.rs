//! What each wizard has gathered so far, and what a key press does to it.
//!
//! Every wizard reads one line at a time into its input buffer. Submitting
//! the line checks it against the rule of the step, keeps it, and moves on
//! to the next step; a line that breaks the rule leaves the wizard where it
//! is, with a message that says why.

use vstd::prelude::*;
use vstd::utf8::*;

use crate::auth::{pincode_long_enough, MIN_PINCODE_LEN};
use crate::models::interaction::{is_clock_id, Interaction, InteractionKind};
use crate::models::member::{Member, MemberView};
use crate::models::team::{Team, TeamView};
use crate::text::{
    contains_char, lowercase_text, lowercased, opt_text, pop_char, push_char, text_eq, texts,
    trim_text, trimmed,
};
use crate::wizard::steps::{AddMemberStep, FeedbackStep, InitStep, KudosStep};

verus! {

/// Whether `text` has the shape of an email address, as far as the wizards
/// look: it is not empty and holds an `@`.
pub open spec fn is_email_shaped(text: Seq<char>) -> bool {
    text.len() > 0 && text.contains('@')
}

/// Whether `answer`, in lower case, says yes.
pub open spec fn says_yes(answer: Seq<char>) -> bool {
    lowercased(answer) == "y"@ || lowercased(answer) == "yes"@
}

/// What typing the character `c` makes of the buffer `buffer`.
pub open spec fn typed(buffer: Seq<char>, c: char) -> Seq<char> {
    buffer.push(c)
}

/// What a backspace makes of the buffer `buffer`.
pub open spec fn erased(buffer: Seq<char>) -> Seq<char> {
    if buffer.len() > 0 {
        buffer.drop_last()
    } else {
        buffer
    }
}

/// Whether `text` has the shape of an email address.
pub fn email_shaped(text: &str) -> (r: bool)
    ensures
        r == is_email_shaped(text@),
{
    text.unicode_len() > 0 && contains_char(text, '@')
}

/// Whether `answer` says yes: `y` or `yes`, in either case.
pub fn answer_says_yes(answer: &str) -> (r: bool)
    ensures
        r == says_yes(answer@),
{
    let lower = lowercase_text(answer);
    text_eq(lower.as_str(), "y") || text_eq(lower.as_str(), "yes")
}

/// The profile made from an email and a name that may have been left
/// empty: an empty name is no name.
pub open spec fn gathered_member(email: Seq<char>, name: Seq<char>) -> MemberView {
    MemberView {
        email,
        name: if name.len() == 0 {
            None
        } else {
            Some(name)
        },
        bio: None,
        timezone: None,
    }
}

/// The profile made from an email and a name that may have been left empty.
pub fn member_of(email: &str, name: &str) -> (member: Member)
    ensures
        member@ == gathered_member(email@, name@),
{
    let member = Member::new(email);
    if name.unicode_len() == 0 {
        member
    } else {
        member.with_name(name)
    }
}

/// Who an interaction is logged by: the person at the store, or `unknown`
/// where nobody is known to be there.
pub open spec fn sender(from: Option<&str>) -> Seq<char> {
    match from {
        Some(from) => from@,
        None => "unknown"@,
    }
}

/// Who an interaction is logged by.
pub fn sender_name<'a>(from: Option<&'a str>) -> (name: &'a str)
    ensures
        name@ == sender(from),
{
    match from {
        Some(from) => from,
        None => "unknown",
    }
}

/// The wizard that sets up a team.
#[derive(Debug, Clone)]
pub struct InitState {
    pub step: InitStep,
    pub team_name: String,
    pub leader_email: String,
    pub leader_name: String,
    pub pincode: String,
    pub confirm_pincode: String,
    pub input_buffer: String,
    pub error_message: Option<String>,
}

/// What the wizard that sets up a team is, as mathematical values.
pub struct InitStateView {
    pub step: InitStep,
    pub team_name: Seq<char>,
    pub leader_email: Seq<char>,
    pub leader_name: Seq<char>,
    pub pincode: Seq<char>,
    pub confirm_pincode: Seq<char>,
    pub input_buffer: Seq<char>,
    pub error_message: Option<Seq<char>>,
}

impl View for InitState {
    type V = InitStateView;

    open spec fn view(&self) -> InitStateView {
        InitStateView {
            step: self.step,
            team_name: self.team_name@,
            leader_email: self.leader_email@,
            leader_name: self.leader_name@,
            pincode: self.pincode@,
            confirm_pincode: self.confirm_pincode@,
            input_buffer: self.input_buffer@,
            error_message: opt_text(self.error_message),
        }
    }
}

impl InitStateView {
    /// The wizard at its start.
    pub open spec fn start() -> InitStateView {
        InitStateView {
            step: InitStep::TeamName,
            team_name: Seq::empty(),
            leader_email: Seq::empty(),
            leader_name: Seq::empty(),
            pincode: Seq::empty(),
            confirm_pincode: Seq::empty(),
            input_buffer: Seq::empty(),
            error_message: None,
        }
    }

    /// The wizard with the line refused for the reason `message`.
    pub open spec fn refused(self, message: Seq<char>) -> (InitStateView, bool) {
        (InitStateView { error_message: Some(message), ..self }, false)
    }

    /// The wizard moved on: to the next step with an empty buffer, or, at
    /// the last step, done as it stands.
    pub open spec fn advanced(self) -> (InitStateView, bool) {
        match self.step.spec_next() {
            Some(next) => (InitStateView { step: next, input_buffer: Seq::empty(), ..self }, false),
            None => (self, true),
        }
    }

    /// What submitting the line makes of the wizard, and whether the wizard
    /// is then done. The line counts without the white space around it.
    /// The team name must not be empty; the email must have the shape of
    /// one; the name may be anything; the pincode needs its least length;
    /// and the confirmation must repeat the pincode, or else the buffer is
    /// emptied for another try.
    pub open spec fn submitted(self) -> (InitStateView, bool) {
        let input = trimmed(self.input_buffer);
        match self.step {
            InitStep::TeamName => if input.len() == 0 {
                self.refused("Team name cannot be empty"@)
            } else {
                (InitStateView { team_name: input, ..self }).advanced()
            },
            InitStep::LeaderEmail => if !is_email_shaped(input) {
                self.refused("Please enter a valid email address"@)
            } else {
                (InitStateView { leader_email: input, ..self }).advanced()
            },
            InitStep::LeaderName => (InitStateView { leader_name: input, ..self }).advanced(),
            InitStep::Pincode => if !pincode_long_enough(encode_utf8(input)) {
                self.refused("Pincode must be at least 4 characters"@)
            } else {
                (InitStateView { pincode: input, ..self }).advanced()
            },
            InitStep::ConfirmPincode => if input != self.pincode {
                (InitStateView { input_buffer: Seq::empty(), ..self }).refused(
                    "Pincodes do not match"@,
                )
            } else {
                (InitStateView { confirm_pincode: input, ..self }).advanced()
            },
        }
    }
}

impl Default for InitState {
    fn default() -> (state: InitState)
        ensures
            state@ == InitStateView::start(),
    {
        InitState {
            step: InitStep::TeamName,
            team_name: String::new(),
            leader_email: String::new(),
            leader_name: String::new(),
            pincode: String::new(),
            confirm_pincode: String::new(),
            input_buffer: String::new(),
            error_message: None,
        }
    }
}

impl InitState {
    /// Types one character: it goes to the end of the buffer, and the
    /// message of an earlier refusal goes away.
    pub fn input_char(&mut self, c: char)
        ensures
            final(self)@ == (InitStateView {
                input_buffer: typed(old(self)@.input_buffer, c),
                error_message: None,
                ..old(self)@
            }),
    {
        push_char(&mut self.input_buffer, c);
        self.error_message = None;
    }

    /// Takes the last character off the buffer, if there is one.
    pub fn input_backspace(&mut self)
        ensures
            final(self)@ == (InitStateView {
                input_buffer: erased(old(self)@.input_buffer),
                ..old(self)@
            }),
    {
        pop_char(&mut self.input_buffer);
    }

    /// The team that was gathered: of the name given, led by the leader
    /// given, and with nothing else set.
    pub fn team(&self) -> (team: Team)
        ensures
            team@ == (TeamView {
                name: self@.team_name,
                manifesto: None,
                vision: None,
                leaders: seq![self@.leader_email],
                members: Seq::empty(),
            }),
    {
        let mut team = Team::new(self.team_name.as_str());
        team.add_leader(self.leader_email.as_str());
        team
    }

    /// The profile of the leader that was gathered: the email, and the
    /// name where one was given.
    pub fn leader(&self) -> (leader: Member)
        ensures
            leader@ == gathered_member(self@.leader_email, self@.leader_name),
    {
        member_of(self.leader_email.as_str(), self.leader_name.as_str())
    }

    /// Submits the line in the buffer. Gives `true` when the last step
    /// took it, and the team can be set up from what was gathered.
    pub fn submit(&mut self) -> (done: bool)
        ensures
            (final(self)@, done) == old(self)@.submitted(),
    {
        let input = trim_text(self.input_buffer.as_str());
        match self.step {
            InitStep::TeamName => {
                if input.unicode_len() == 0 {
                    self.error_message = Some("Team name cannot be empty".to_owned());
                    return false;
                }
                self.team_name = input;
            },
            InitStep::LeaderEmail => {
                if !email_shaped(input.as_str()) {
                    self.error_message = Some("Please enter a valid email address".to_owned());
                    return false;
                }
                self.leader_email = input;
            },
            InitStep::LeaderName => {
                self.leader_name = input;
            },
            InitStep::Pincode => {
                if input.as_str().as_bytes().len() < MIN_PINCODE_LEN {
                    self.error_message = Some("Pincode must be at least 4 characters".to_owned());
                    return false;
                }
                self.pincode = input;
            },
            InitStep::ConfirmPincode => {
                if !text_eq(input.as_str(), self.pincode.as_str()) {
                    self.error_message = Some("Pincodes do not match".to_owned());
                    self.input_buffer = String::new();
                    return false;
                }
                self.confirm_pincode = input;
            },
        }
        match self.step.next() {
            Some(next) => {
                self.step = next;
                self.input_buffer = String::new();
                false
            },
            None => true,
        }
    }
}

/// The wizard that adds a member.
#[derive(Debug, Clone)]
pub struct AddMemberState {
    pub step: AddMemberStep,
    pub email: String,
    pub name: String,
    pub input_buffer: String,
    pub error_message: Option<String>,
}

/// What the wizard that adds a member is, as mathematical values.
pub struct AddMemberStateView {
    pub step: AddMemberStep,
    pub email: Seq<char>,
    pub name: Seq<char>,
    pub input_buffer: Seq<char>,
    pub error_message: Option<Seq<char>>,
}

impl View for AddMemberState {
    type V = AddMemberStateView;

    open spec fn view(&self) -> AddMemberStateView {
        AddMemberStateView {
            step: self.step,
            email: self.email@,
            name: self.name@,
            input_buffer: self.input_buffer@,
            error_message: opt_text(self.error_message),
        }
    }
}

/// Whether `email` belongs to the team at hand already; with no team at
/// hand, nobody does.
pub open spec fn already_in(team: Option<TeamView>, email: Seq<char>) -> bool {
    match team {
        Some(team) => team.is_member(email),
        None => false,
    }
}

impl AddMemberStateView {
    /// The wizard at its start.
    pub open spec fn start() -> AddMemberStateView {
        AddMemberStateView {
            step: AddMemberStep::Email,
            email: Seq::empty(),
            name: Seq::empty(),
            input_buffer: Seq::empty(),
            error_message: None,
        }
    }

    /// The wizard with the line refused for the reason `message`.
    pub open spec fn refused(self, message: Seq<char>) -> (AddMemberStateView, bool) {
        (AddMemberStateView { error_message: Some(message), ..self }, false)
    }

    /// The wizard moved on: to the next step with an empty buffer, or, at
    /// the last step, done as it stands.
    pub open spec fn advanced(self) -> (AddMemberStateView, bool) {
        match self.step.spec_next() {
            Some(next) => (
                AddMemberStateView { step: next, input_buffer: Seq::empty(), ..self },
                false,
            ),
            None => (self, true),
        }
    }

    /// What submitting the line makes of the wizard, and whether the wizard
    /// is then done. The email must have the shape of one and must not
    /// belong to the team already; the name may be anything.
    pub open spec fn submitted(self, team: Option<TeamView>) -> (AddMemberStateView, bool) {
        let input = trimmed(self.input_buffer);
        match self.step {
            AddMemberStep::Email => if !is_email_shaped(input) {
                self.refused("Please enter a valid email address"@)
            } else if already_in(team, input) {
                self.refused("This person is already a team member"@)
            } else {
                (AddMemberStateView { email: input, ..self }).advanced()
            },
            AddMemberStep::Name => (AddMemberStateView { name: input, ..self }).advanced(),
        }
    }
}

impl Default for AddMemberState {
    fn default() -> (state: AddMemberState)
        ensures
            state@ == AddMemberStateView::start(),
    {
        AddMemberState {
            step: AddMemberStep::Email,
            email: String::new(),
            name: String::new(),
            input_buffer: String::new(),
            error_message: None,
        }
    }
}

/// The view of the team at hand, if there is one.
pub open spec fn team_view(team: Option<&Team>) -> Option<TeamView> {
    match team {
        Some(team) => Some(team@),
        None => None,
    }
}

impl AddMemberState {
    /// Types one character: it goes to the end of the buffer, and the
    /// message of an earlier refusal goes away.
    pub fn input_char(&mut self, c: char)
        ensures
            final(self)@ == (AddMemberStateView {
                input_buffer: typed(old(self)@.input_buffer, c),
                error_message: None,
                ..old(self)@
            }),
    {
        push_char(&mut self.input_buffer, c);
        self.error_message = None;
    }

    /// Takes the last character off the buffer, if there is one.
    pub fn input_backspace(&mut self)
        ensures
            final(self)@ == (AddMemberStateView {
                input_buffer: erased(old(self)@.input_buffer),
                ..old(self)@
            }),
    {
        pop_char(&mut self.input_buffer);
    }

    /// The profile of the member that was gathered: the email, and the
    /// name where one was given.
    pub fn member(&self) -> (member: Member)
        ensures
            member@ == gathered_member(self@.email, self@.name),
    {
        member_of(self.email.as_str(), self.name.as_str())
    }

    /// The name to show for the member that was gathered: the name where
    /// one was given, else the email.
    pub fn display_name(&self) -> (shown: &str)
        ensures
            shown@ == gathered_member(self@.email, self@.name).display_name(),
    {
        if self.name.as_str().unicode_len() == 0 {
            self.email.as_str()
        } else {
            self.name.as_str()
        }
    }

    /// Submits the line in the buffer, with the team at hand to check the
    /// email against. Gives `true` when the last step took it, and the
    /// member can be added from what was gathered.
    pub fn submit(&mut self, team: Option<&Team>) -> (done: bool)
        ensures
            (final(self)@, done) == old(self)@.submitted(team_view(team)),
    {
        let input = trim_text(self.input_buffer.as_str());
        match self.step {
            AddMemberStep::Email => {
                if !email_shaped(input.as_str()) {
                    self.error_message = Some("Please enter a valid email address".to_owned());
                    return false;
                }
                let known = match team {
                    Some(team) => team.is_member(input.as_str()),
                    None => false,
                };
                if known {
                    self.error_message = Some("This person is already a team member".to_owned());
                    return false;
                }
                self.email = input;
            },
            AddMemberStep::Name => {
                self.name = input;
            },
        }
        match self.step.next() {
            Some(next) => {
                self.step = next;
                self.input_buffer = String::new();
                false
            },
            None => true,
        }
    }
}

/// The wizard that gives kudos.
#[derive(Debug, Clone)]
pub struct KudosState {
    pub step: KudosStep,
    pub recipient: String,
    pub note: String,
    pub shared: bool,
    pub input_buffer: String,
    pub error_message: Option<String>,
}

/// What the wizard that gives kudos is, as mathematical values.
pub struct KudosStateView {
    pub step: KudosStep,
    pub recipient: Seq<char>,
    pub note: Seq<char>,
    pub shared: bool,
    pub input_buffer: Seq<char>,
    pub error_message: Option<Seq<char>>,
}

impl View for KudosState {
    type V = KudosStateView;

    open spec fn view(&self) -> KudosStateView {
        KudosStateView {
            step: self.step,
            recipient: self.recipient@,
            note: self.note@,
            shared: self.shared,
            input_buffer: self.input_buffer@,
            error_message: opt_text(self.error_message),
        }
    }
}

impl KudosStateView {
    /// The wizard at its start.
    pub open spec fn start() -> KudosStateView {
        KudosStateView {
            step: KudosStep::Recipient,
            recipient: Seq::empty(),
            note: Seq::empty(),
            shared: false,
            input_buffer: Seq::empty(),
            error_message: None,
        }
    }

    /// The wizard with the line refused for the reason `message`.
    pub open spec fn refused(self, message: Seq<char>) -> (KudosStateView, bool) {
        (KudosStateView { error_message: Some(message), ..self }, false)
    }

    /// The wizard moved on: to the next step with an empty buffer, or, at
    /// the last step, done as it stands.
    pub open spec fn advanced(self) -> (KudosStateView, bool) {
        match self.step.spec_next() {
            Some(next) => (KudosStateView { step: next, input_buffer: Seq::empty(), ..self }, false),
            None => (self, true),
        }
    }

    /// What submitting the line makes of the wizard, and whether the wizard
    /// is then done. Neither the recipient nor the note may be empty; the
    /// kudos are shared where the last answer says yes.
    pub open spec fn submitted(self) -> (KudosStateView, bool) {
        let input = trimmed(self.input_buffer);
        match self.step {
            KudosStep::Recipient => if input.len() == 0 {
                self.refused("Please enter a recipient"@)
            } else {
                (KudosStateView { recipient: input, ..self }).advanced()
            },
            KudosStep::Note => if input.len() == 0 {
                self.refused("Please write a note"@)
            } else {
                (KudosStateView { note: input, ..self }).advanced()
            },
            KudosStep::Share => (KudosStateView { shared: says_yes(input), ..self }).advanced(),
        }
    }
}

impl Default for KudosState {
    fn default() -> (state: KudosState)
        ensures
            state@ == KudosStateView::start(),
    {
        KudosState {
            step: KudosStep::Recipient,
            recipient: String::new(),
            note: String::new(),
            shared: false,
            input_buffer: String::new(),
            error_message: None,
        }
    }
}

impl KudosState {
    /// Types one character: it goes to the end of the buffer, and the
    /// message of an earlier refusal goes away.
    pub fn input_char(&mut self, c: char)
        ensures
            final(self)@ == (KudosStateView {
                input_buffer: typed(old(self)@.input_buffer, c),
                error_message: None,
                ..old(self)@
            }),
    {
        push_char(&mut self.input_buffer, c);
        self.error_message = None;
    }

    /// Takes the last character off the buffer, if there is one.
    pub fn input_backspace(&mut self)
        ensures
            final(self)@ == (KudosStateView {
                input_buffer: erased(old(self)@.input_buffer),
                ..old(self)@
            }),
    {
        pop_char(&mut self.input_buffer);
    }

    /// The appreciation that was gathered, logged now by `from`, or by
    /// `unknown` where nobody is known to be at the store.
    pub fn interaction(&self, from: Option<&str>) -> (interaction: Interaction)
        ensures
            interaction@.kind == InteractionKind::Appreciation,
            interaction@.from == sender(from),
            interaction@.with == seq![self@.recipient],
            interaction@.note == self@.note,
            interaction@.shared == self@.shared,
            is_clock_id(interaction@.id),
            interaction@.timestamp.nanos < 1_000_000_000,
    {
        let mut with: Vec<String> = Vec::new();
        with.push(self.recipient.clone());
        let interaction = Interaction::appreciation(
            sender_name(from),
            with,
            self.note.as_str(),
        );
        if self.shared {
            interaction.shared()
        } else {
            interaction
        }
    }

    /// Submits the line in the buffer. Gives `true` when the last step
    /// took it, and the kudos can be given from what was gathered.
    pub fn submit(&mut self) -> (done: bool)
        ensures
            (final(self)@, done) == old(self)@.submitted(),
    {
        let input = trim_text(self.input_buffer.as_str());
        match self.step {
            KudosStep::Recipient => {
                if input.unicode_len() == 0 {
                    self.error_message = Some("Please enter a recipient".to_owned());
                    return false;
                }
                self.recipient = input;
            },
            KudosStep::Note => {
                if input.unicode_len() == 0 {
                    self.error_message = Some("Please write a note".to_owned());
                    return false;
                }
                self.note = input;
            },
            KudosStep::Share => {
                self.shared = answer_says_yes(input.as_str());
            },
        }
        match self.step.next() {
            Some(next) => {
                self.step = next;
                self.input_buffer = String::new();
                false
            },
            None => true,
        }
    }
}

/// The wizard that gives feedback.
#[derive(Debug, Clone)]
pub struct FeedbackState {
    pub step: FeedbackStep,
    pub recipient: String,
    pub note: String,
    pub shared: bool,
    pub input_buffer: String,
    pub error_message: Option<String>,
}

/// What the wizard that gives feedback is, as mathematical values.
pub struct FeedbackStateView {
    pub step: FeedbackStep,
    pub recipient: Seq<char>,
    pub note: Seq<char>,
    pub shared: bool,
    pub input_buffer: Seq<char>,
    pub error_message: Option<Seq<char>>,
}

impl View for FeedbackState {
    type V = FeedbackStateView;

    open spec fn view(&self) -> FeedbackStateView {
        FeedbackStateView {
            step: self.step,
            recipient: self.recipient@,
            note: self.note@,
            shared: self.shared,
            input_buffer: self.input_buffer@,
            error_message: opt_text(self.error_message),
        }
    }
}

impl FeedbackStateView {
    /// The wizard at its start.
    pub open spec fn start() -> FeedbackStateView {
        FeedbackStateView {
            step: FeedbackStep::Recipient,
            recipient: Seq::empty(),
            note: Seq::empty(),
            shared: false,
            input_buffer: Seq::empty(),
            error_message: None,
        }
    }

    /// The wizard with the line refused for the reason `message`.
    pub open spec fn refused(self, message: Seq<char>) -> (FeedbackStateView, bool) {
        (FeedbackStateView { error_message: Some(message), ..self }, false)
    }

    /// The wizard moved on: to the next step with an empty buffer, or, at
    /// the last step, done as it stands.
    pub open spec fn advanced(self) -> (FeedbackStateView, bool) {
        match self.step.spec_next() {
            Some(next) => (
                FeedbackStateView { step: next, input_buffer: Seq::empty(), ..self },
                false,
            ),
            None => (self, true),
        }
    }

    /// What submitting the line makes of the wizard, and whether the wizard
    /// is then done. Neither the recipient nor the feedback may be empty;
    /// the feedback is shared where the last answer says yes.
    pub open spec fn submitted(self) -> (FeedbackStateView, bool) {
        let input = trimmed(self.input_buffer);
        match self.step {
            FeedbackStep::Recipient => if input.len() == 0 {
                self.refused("Please enter a recipient"@)
            } else {
                (FeedbackStateView { recipient: input, ..self }).advanced()
            },
            FeedbackStep::Note => if input.len() == 0 {
                self.refused("Please write your feedback"@)
            } else {
                (FeedbackStateView { note: input, ..self }).advanced()
            },
            FeedbackStep::Share => (FeedbackStateView {
                shared: says_yes(input),
                ..self
            }).advanced(),
        }
    }
}

impl Default for FeedbackState {
    fn default() -> (state: FeedbackState)
        ensures
            state@ == FeedbackStateView::start(),
    {
        FeedbackState {
            step: FeedbackStep::Recipient,
            recipient: String::new(),
            note: String::new(),
            shared: false,
            input_buffer: String::new(),
            error_message: None,
        }
    }
}

impl FeedbackState {
    /// Types one character: it goes to the end of the buffer, and the
    /// message of an earlier refusal goes away.
    pub fn input_char(&mut self, c: char)
        ensures
            final(self)@ == (FeedbackStateView {
                input_buffer: typed(old(self)@.input_buffer, c),
                error_message: None,
                ..old(self)@
            }),
    {
        push_char(&mut self.input_buffer, c);
        self.error_message = None;
    }

    /// Takes the last character off the buffer, if there is one.
    pub fn input_backspace(&mut self)
        ensures
            final(self)@ == (FeedbackStateView {
                input_buffer: erased(old(self)@.input_buffer),
                ..old(self)@
            }),
    {
        pop_char(&mut self.input_buffer);
    }

    /// The feedback that was gathered, logged now by `from`, or by
    /// `unknown` where nobody is known to be at the store.
    pub fn interaction(&self, from: Option<&str>) -> (interaction: Interaction)
        ensures
            interaction@.kind == InteractionKind::Feedback,
            interaction@.from == sender(from),
            interaction@.with == seq![self@.recipient],
            interaction@.note == self@.note,
            interaction@.shared == self@.shared,
            is_clock_id(interaction@.id),
            interaction@.timestamp.nanos < 1_000_000_000,
    {
        let mut with: Vec<String> = Vec::new();
        with.push(self.recipient.clone());
        let interaction = Interaction::feedback(sender_name(from), with, self.note.as_str());
        if self.shared {
            interaction.shared()
        } else {
            interaction
        }
    }

    /// Submits the line in the buffer. Gives `true` when the last step
    /// took it, and the feedback can be given from what was gathered.
    pub fn submit(&mut self) -> (done: bool)
        ensures
            (final(self)@, done) == old(self)@.submitted(),
    {
        let input = trim_text(self.input_buffer.as_str());
        match self.step {
            FeedbackStep::Recipient => {
                if input.unicode_len() == 0 {
                    self.error_message = Some("Please enter a recipient".to_owned());
                    return false;
                }
                self.recipient = input;
            },
            FeedbackStep::Note => {
                if input.unicode_len() == 0 {
                    self.error_message = Some("Please write your feedback".to_owned());
                    return false;
                }
                self.note = input;
            },
            FeedbackStep::Share => {
                self.shared = answer_says_yes(input.as_str());
            },
        }
        match self.step.next() {
            Some(next) => {
                self.step = next;
                self.input_buffer = String::new();
                false
            },
            None => true,
        }
    }
}

} // verus!
