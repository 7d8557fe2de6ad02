//! A team: its name, what it stands for, and who belongs to it.

use vstd::prelude::*;

use crate::text::{contains_text, opt_text, texts};

verus! {

/// A team with its manifesto, its vision, its leaders and its members.
///
/// A leader counts as a member whether or not the member list names them.
#[derive(Debug, Clone, PartialEq)]
pub struct Team {
    /// The name that identifies the team.
    pub name: String,
    /// The norms and principles the team strives for.
    pub manifesto: Option<String>,
    /// What the team aims to achieve.
    pub vision: Option<String>,
    /// Identifiers of the leaders, in the order they were added.
    pub leaders: Vec<String>,
    /// Identifiers of the members, in the order they were added.
    pub members: Vec<String>,
}

/// What a team is, as mathematical values.
pub struct TeamView {
    pub name: Seq<char>,
    pub manifesto: Option<Seq<char>>,
    pub vision: Option<Seq<char>>,
    pub leaders: Seq<Seq<char>>,
    pub members: Seq<Seq<char>>,
}

impl TeamView {
    /// Whether `email` is among the leaders.
    pub open spec fn is_leader(self, email: Seq<char>) -> bool {
        self.leaders.contains(email)
    }

    /// Whether `email` belongs to the team: as a listed member, or as a leader.
    pub open spec fn is_member(self, email: Seq<char>) -> bool {
        self.members.contains(email) || self.is_leader(email)
    }
}

impl View for Team {
    type V = TeamView;

    open spec fn view(&self) -> TeamView {
        TeamView {
            name: self.name@,
            manifesto: opt_text(self.manifesto),
            vision: opt_text(self.vision),
            leaders: texts(self.leaders@),
            members: texts(self.members@),
        }
    }
}

impl Team {
    /// A team of the given name, with nothing else set and nobody in it.
    pub fn new(name: &str) -> (team: Team)
        ensures
            team@ == (TeamView {
                name: name@,
                manifesto: None,
                vision: None,
                leaders: Seq::empty(),
                members: Seq::empty(),
            }),
    {
        let team = Team {
            name: name.to_owned(),
            manifesto: None,
            vision: None,
            leaders: Vec::new(),
            members: Vec::new(),
        };
        assert(texts(team.leaders@) =~= Seq::empty());
        team
    }

    /// The same team with its manifesto set.
    pub fn with_manifesto(self, manifesto: &str) -> (team: Team)
        ensures
            team@ == (TeamView { manifesto: Some(manifesto@), ..self@ }),
    {
        let mut team = self;
        team.manifesto = Some(manifesto.to_owned());
        team
    }

    /// The same team with its vision set.
    pub fn with_vision(self, vision: &str) -> (team: Team)
        ensures
            team@ == (TeamView { vision: Some(vision@), ..self@ }),
    {
        let mut team = self;
        team.vision = Some(vision.to_owned());
        team
    }

    /// Adds `email` at the end of the leaders.
    pub fn add_leader(&mut self, email: &str)
        ensures
            final(self)@ == (TeamView { leaders: old(self)@.leaders.push(email@), ..old(self)@ }),
    {
        self.leaders.push(email.to_owned());
        assert(texts(self.leaders@) =~= texts(old(self).leaders@).push(email@));
    }

    /// Adds `email` at the end of the members.
    pub fn add_member(&mut self, email: &str)
        ensures
            final(self)@ == (TeamView { members: old(self)@.members.push(email@), ..old(self)@ }),
    {
        self.members.push(email.to_owned());
        assert(texts(self.members@) =~= texts(old(self).members@).push(email@));
    }

    /// Whether `email` is one of the leaders.
    pub fn is_leader(&self, email: &str) -> (r: bool)
        ensures
            r == self@.is_leader(email@),
    {
        contains_text(&self.leaders, email)
    }

    /// Whether `email` belongs to the team, leaders included.
    pub fn is_member(&self, email: &str) -> (r: bool)
        ensures
            r == self@.is_member(email@),
    {
        contains_text(&self.members, email) || self.is_leader(email)
    }
}

/// Every leader is a member, whatever the member list holds.
pub proof fn lemma_leader_is_member(team: TeamView, email: Seq<char>)
    requires
        team.is_leader(email),
    ensures
        team.is_member(email),
{
}

/// Someone named only among the leaders is still a member.
pub proof fn lemma_leader_only_is_member(team: TeamView, email: Seq<char>)
    requires
        team.leaders.contains(email),
        !team.members.contains(email),
    ensures
        team.is_member(email),
{
}

} // verus!
