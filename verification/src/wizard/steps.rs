//! The steps of each wizard: what a step asks for, and which step follows.

use vstd::prelude::*;

verus! {

/// The steps of setting up a team.
#[derive(Debug, Clone, Copy, PartialEq, Eq, Structural)]
pub enum InitStep {
    TeamName,
    LeaderEmail,
    LeaderName,
    Pincode,
    ConfirmPincode,
}

impl Default for InitStep {
    fn default() -> (step: InitStep)
        ensures
            step == InitStep::TeamName,
    {
        InitStep::TeamName
    }
}

impl InitStep {
    /// The prompt that `prompt` returns.
    pub open spec fn spec_prompt(self) -> Seq<char> {
        match self {
            InitStep::TeamName => "Enter your team name:"@,
            InitStep::LeaderEmail => "Enter your email (team leader):"@,
            InitStep::LeaderName => "Enter your name (press Enter to skip):"@,
            InitStep::Pincode => "Create a pincode (min 4 chars, hidden):"@,
            InitStep::ConfirmPincode => "Confirm your pincode:"@,
        }
    }

    /// The step that `next` returns.
    pub open spec fn spec_next(self) -> Option<InitStep> {
        match self {
            InitStep::TeamName => Some(InitStep::LeaderEmail),
            InitStep::LeaderEmail => Some(InitStep::LeaderName),
            InitStep::LeaderName => Some(InitStep::Pincode),
            InitStep::Pincode => Some(InitStep::ConfirmPincode),
            InitStep::ConfirmPincode => None,
        }
    }

    /// What the step asks for.
    pub fn prompt(&self) -> (prompt: &'static str)
        ensures
            prompt@ == self.spec_prompt(),
    {
        match self {
            InitStep::TeamName => "Enter your team name:",
            InitStep::LeaderEmail => "Enter your email (team leader):",
            InitStep::LeaderName => "Enter your name (press Enter to skip):",
            InitStep::Pincode => "Create a pincode (min 4 chars, hidden):",
            InitStep::ConfirmPincode => "Confirm your pincode:",
        }
    }

    /// The step that follows; `None` after the last.
    pub fn next(&self) -> (next: Option<InitStep>)
        ensures
            next == self.spec_next(),
    {
        match self {
            InitStep::TeamName => Some(InitStep::LeaderEmail),
            InitStep::LeaderEmail => Some(InitStep::LeaderName),
            InitStep::LeaderName => Some(InitStep::Pincode),
            InitStep::Pincode => Some(InitStep::ConfirmPincode),
            InitStep::ConfirmPincode => None,
        }
    }
}

/// The steps of adding a member.
#[derive(Debug, Clone, Copy, PartialEq, Eq, Structural)]
pub enum AddMemberStep {
    Email,
    Name,
}

impl Default for AddMemberStep {
    fn default() -> (step: AddMemberStep)
        ensures
            step == AddMemberStep::Email,
    {
        AddMemberStep::Email
    }
}

impl AddMemberStep {
    /// The prompt that `prompt` returns.
    pub open spec fn spec_prompt(self) -> Seq<char> {
        match self {
            AddMemberStep::Email => "Enter member's email:"@,
            AddMemberStep::Name => "Enter member's name (press Enter to skip):"@,
        }
    }

    /// The step that `next` returns.
    pub open spec fn spec_next(self) -> Option<AddMemberStep> {
        match self {
            AddMemberStep::Email => Some(AddMemberStep::Name),
            AddMemberStep::Name => None,
        }
    }

    /// What the step asks for.
    pub fn prompt(&self) -> (prompt: &'static str)
        ensures
            prompt@ == self.spec_prompt(),
    {
        match self {
            AddMemberStep::Email => "Enter member's email:",
            AddMemberStep::Name => "Enter member's name (press Enter to skip):",
        }
    }

    /// The step that follows; `None` after the last.
    pub fn next(&self) -> (next: Option<AddMemberStep>)
        ensures
            next == self.spec_next(),
    {
        match self {
            AddMemberStep::Email => Some(AddMemberStep::Name),
            AddMemberStep::Name => None,
        }
    }
}

/// The steps of giving kudos.
#[derive(Debug, Clone, Copy, PartialEq, Eq, Structural)]
pub enum KudosStep {
    Recipient,
    Note,
    Share,
}

impl Default for KudosStep {
    fn default() -> (step: KudosStep)
        ensures
            step == KudosStep::Recipient,
    {
        KudosStep::Recipient
    }
}

impl KudosStep {
    /// The prompt that `prompt` returns.
    pub open spec fn spec_prompt(self) -> Seq<char> {
        match self {
            KudosStep::Recipient => "Who are you giving kudos to? (email or name)"@,
            KudosStep::Note => "What would you like to say?"@,
            KudosStep::Share => "Share with the team? (y/n)"@,
        }
    }

    /// The step that `next` returns.
    pub open spec fn spec_next(self) -> Option<KudosStep> {
        match self {
            KudosStep::Recipient => Some(KudosStep::Note),
            KudosStep::Note => Some(KudosStep::Share),
            KudosStep::Share => None,
        }
    }

    /// What the step asks for.
    pub fn prompt(&self) -> (prompt: &'static str)
        ensures
            prompt@ == self.spec_prompt(),
    {
        match self {
            KudosStep::Recipient => "Who are you giving kudos to? (email or name)",
            KudosStep::Note => "What would you like to say?",
            KudosStep::Share => "Share with the team? (y/n)",
        }
    }

    /// The step that follows; `None` after the last.
    pub fn next(&self) -> (next: Option<KudosStep>)
        ensures
            next == self.spec_next(),
    {
        match self {
            KudosStep::Recipient => Some(KudosStep::Note),
            KudosStep::Note => Some(KudosStep::Share),
            KudosStep::Share => None,
        }
    }
}

/// The steps of giving feedback.
#[derive(Debug, Clone, Copy, PartialEq, Eq, Structural)]
pub enum FeedbackStep {
    Recipient,
    Note,
    Share,
}

impl Default for FeedbackStep {
    fn default() -> (step: FeedbackStep)
        ensures
            step == FeedbackStep::Recipient,
    {
        FeedbackStep::Recipient
    }
}

impl FeedbackStep {
    /// The prompt that `prompt` returns.
    pub open spec fn spec_prompt(self) -> Seq<char> {
        match self {
            FeedbackStep::Recipient => "Who is this feedback for? (email or name)"@,
            FeedbackStep::Note => "What feedback would you like to share?"@,
            FeedbackStep::Share => "Share with the team? (y/n)"@,
        }
    }

    /// The step that `next` returns.
    pub open spec fn spec_next(self) -> Option<FeedbackStep> {
        match self {
            FeedbackStep::Recipient => Some(FeedbackStep::Note),
            FeedbackStep::Note => Some(FeedbackStep::Share),
            FeedbackStep::Share => None,
        }
    }

    /// What the step asks for.
    pub fn prompt(&self) -> (prompt: &'static str)
        ensures
            prompt@ == self.spec_prompt(),
    {
        match self {
            FeedbackStep::Recipient => "Who is this feedback for? (email or name)",
            FeedbackStep::Note => "What feedback would you like to share?",
            FeedbackStep::Share => "Share with the team? (y/n)",
        }
    }

    /// The step that follows; `None` after the last.
    pub fn next(&self) -> (next: Option<FeedbackStep>)
        ensures
            next == self.spec_next(),
    {
        match self {
            FeedbackStep::Recipient => Some(FeedbackStep::Note),
            FeedbackStep::Note => Some(FeedbackStep::Share),
            FeedbackStep::Share => None,
        }
    }
}

} // verus!
