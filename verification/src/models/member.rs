//! A member of a team and their profile.

use vstd::prelude::*;

use crate::text::opt_text;

verus! {

/// The profile of one member. The email address identifies the member
/// within the team.
#[derive(Debug, Clone, PartialEq)]
pub struct Member {
    /// The email address, unique within a team.
    pub email: String,
    /// The name to show for the member.
    pub name: Option<String>,
    /// A short description of the member.
    pub bio: Option<String>,
    /// The timezone the member lives in.
    pub timezone: Option<String>,
}

/// What a member is, as mathematical values.
pub struct MemberView {
    pub email: Seq<char>,
    pub name: Option<Seq<char>>,
    pub bio: Option<Seq<char>>,
    pub timezone: Option<Seq<char>>,
}

impl MemberView {
    /// The name to show: the display name where one is set, else the email.
    pub open spec fn display_name(self) -> Seq<char> {
        match self.name {
            Some(name) => name,
            None => self.email,
        }
    }
}

impl View for Member {
    type V = MemberView;

    open spec fn view(&self) -> MemberView {
        MemberView {
            email: self.email@,
            name: opt_text(self.name),
            bio: opt_text(self.bio),
            timezone: opt_text(self.timezone),
        }
    }
}

impl Member {
    /// A member known by their email alone.
    pub fn new(email: &str) -> (member: Member)
        ensures
            member@ == (MemberView { email: email@, name: None, bio: None, timezone: None }),
    {
        Member { email: email.to_owned(), name: None, bio: None, timezone: None }
    }

    /// The same member with a display name.
    pub fn with_name(self, name: &str) -> (member: Member)
        ensures
            member@ == (MemberView { name: Some(name@), ..self@ }),
    {
        let mut member = self;
        member.name = Some(name.to_owned());
        member
    }

    /// The same member with a bio.
    pub fn with_bio(self, bio: &str) -> (member: Member)
        ensures
            member@ == (MemberView { bio: Some(bio@), ..self@ }),
    {
        let mut member = self;
        member.bio = Some(bio.to_owned());
        member
    }

    /// The same member with a timezone.
    pub fn with_timezone(self, timezone: &str) -> (member: Member)
        ensures
            member@ == (MemberView { timezone: Some(timezone@), ..self@ }),
    {
        let mut member = self;
        member.timezone = Some(timezone.to_owned());
        member
    }

    /// The name to show for the member: the display name where one is set,
    /// else the email.
    pub fn display_name(&self) -> (shown: &str)
        ensures
            shown@ == self@.display_name(),
    {
        match &self.name {
            Some(name) => name.as_str(),
            None => self.email.as_str(),
        }
    }
}

} // verus!
