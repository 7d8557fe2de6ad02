//! Objectives and the key results that measure them.
//!
//! Progress is a fraction between nothing and all, held in millionths: the
//! whole is `FULL_PROGRESS`.

use vstd::prelude::*;

use crate::hexfmt::append_lower_hex;
use crate::models::interaction::{clock_id, read_clock};
use crate::text::opt_text;

verus! {

/// The progress of a key result that has been reached in full, in millionths.
pub const FULL_PROGRESS: u32 = 1_000_000;

/// Who may see an objective.
#[derive(Debug, Clone, Copy, PartialEq, Eq, Structural)]
pub enum OkrVisibility {
    /// Only the owner.
    Private,
    /// Every member of the team.
    Shared,
}

impl Default for OkrVisibility {
    fn default() -> (visibility: OkrVisibility)
        ensures
            visibility == OkrVisibility::Private,
    {
        OkrVisibility::Private
    }
}

/// A result by which progress toward an objective is measured.
#[derive(Debug, Clone, PartialEq)]
pub struct KeyResult {
    /// What is to be reached.
    pub description: String,
    /// How much of it has been reached, in millionths of the whole.
    pub progress: u32,
    /// Remarks on the progress.
    pub notes: Option<String>,
}

/// What a key result is, as mathematical values.
pub struct KeyResultView {
    pub description: Seq<char>,
    pub progress: u32,
    pub notes: Option<Seq<char>>,
}

impl View for KeyResult {
    type V = KeyResultView;

    open spec fn view(&self) -> KeyResultView {
        KeyResultView {
            description: self.description@,
            progress: self.progress,
            notes: opt_text(self.notes),
        }
    }
}

/// `value` brought into the range from nothing to `FULL_PROGRESS`.
pub open spec fn clamp_progress(value: int) -> int {
    if value < 0 {
        0
    } else if value > FULL_PROGRESS {
        FULL_PROGRESS as int
    } else {
        value
    }
}

impl KeyResult {
    /// Whether the progress lies within the whole.
    pub open spec fn wf(&self) -> bool {
        self.progress <= FULL_PROGRESS
    }

    /// A key result on which no progress has been made.
    pub fn new(description: &str) -> (result: KeyResult)
        ensures
            result@ == (KeyResultView { description: description@, progress: 0, notes: None }),
            result.wf(),
    {
        KeyResult { description: description.to_owned(), progress: 0, notes: None }
    }

    /// Sets the progress to `millionths`, brought into the range from
    /// nothing to the whole: less than nothing counts as nothing, more than
    /// the whole as the whole.
    pub fn set_progress(&mut self, millionths: i64)
        ensures
            final(self)@ == (KeyResultView {
                progress: clamp_progress(millionths as int) as u32,
                ..old(self)@
            }),
            final(self).wf(),
    {
        if millionths < 0 {
            self.progress = 0;
        } else if millionths > FULL_PROGRESS as i64 {
            self.progress = FULL_PROGRESS;
        } else {
            self.progress = millionths as u32;
        }
    }

    /// The same key result with a remark.
    pub fn with_note(self, note: &str) -> (result: KeyResult)
        ensures
            result@ == (KeyResultView { notes: Some(note@), ..self@ }),
            self.wf() ==> result.wf(),
    {
        let mut result = self;
        result.notes = Some(note.to_owned());
        result
    }
}

/// An objective with the key results that measure it.
#[derive(Debug, Clone, PartialEq)]
pub struct Objective {
    /// The identifier, unique within the directory the objective is stored in.
    pub id: String,
    /// What is aimed at, in a line.
    pub title: String,
    /// What is aimed at, at length.
    pub description: Option<String>,
    /// The key results, in the order they were added.
    pub key_results: Vec<KeyResult>,
    /// Who may see the objective.
    pub visibility: OkrVisibility,
    /// Whose objective it is, where it belongs to one person.
    pub owner: Option<String>,
    /// The quarter the objective is set for, such as `2026-Q1`.
    pub quarter: Option<String>,
}

/// What an objective is, as mathematical values.
pub struct ObjectiveView {
    pub id: Seq<char>,
    pub title: Seq<char>,
    pub description: Option<Seq<char>>,
    pub key_results: Seq<KeyResultView>,
    pub visibility: OkrVisibility,
    pub owner: Option<Seq<char>>,
    pub quarter: Option<Seq<char>>,
}

/// The views of a list of key results, in order.
pub open spec fn key_result_views(list: Seq<KeyResult>) -> Seq<KeyResultView> {
    Seq::new(list.len(), |i: int| list[i]@)
}

/// The sum of the progress of the key results in `list`.
pub open spec fn progress_sum(list: Seq<KeyResultView>) -> int
    decreases list.len(),
{
    if list.len() == 0 {
        0
    } else {
        progress_sum(list.drop_last()) + list.last().progress
    }
}

/// The arithmetic mean of the progress of the key results in `list`,
/// rounded down to a whole millionth; nothing where the list is empty.
pub open spec fn mean_progress(list: Seq<KeyResultView>) -> int {
    if list.len() == 0 {
        0
    } else {
        progress_sum(list) / (list.len() as int)
    }
}

impl ObjectiveView {
    /// The progress toward the objective as a whole.
    pub open spec fn overall_progress(self) -> int {
        mean_progress(self.key_results)
    }
}

impl View for Objective {
    type V = ObjectiveView;

    open spec fn view(&self) -> ObjectiveView {
        ObjectiveView {
            id: self.id@,
            title: self.title@,
            description: opt_text(self.description),
            key_results: key_result_views(self.key_results@),
            visibility: self.visibility,
            owner: opt_text(self.owner),
            quarter: opt_text(self.quarter),
        }
    }
}

/// The identifier of an objective made from a reading of the clock: `okr-`
/// and then the identifier of that reading.
pub open spec fn okr_clock_id(secs: u64, nanos: u32) -> Seq<char> {
    "okr-"@ + clock_id(secs, nanos)
}

/// Whether `id` is the objective identifier of some reading of the clock.
pub open spec fn is_okr_clock_id(id: Seq<char>) -> bool {
    exists|secs: u64, nanos: u32|
        nanos < 1_000_000_000 && id == #[trigger] okr_clock_id(secs, nanos)
}

/// The objective identifier for a reading of the clock.
pub fn okr_id_from_clock(secs: u64, nanos: u32) -> (id: String)
    ensures
        id@ == okr_clock_id(secs, nanos),
{
    let mut id = String::new();
    id.append("okr-");
    append_lower_hex(&mut id, secs);
    append_lower_hex(&mut id, nanos as u64);
    id
}

/// A new identifier for an objective, made from the present reading of the
/// clock.
pub fn generate_okr_id() -> (id: String)
    ensures
        is_okr_clock_id(id@),
{
    let (secs, nanos) = read_clock();
    let id = okr_id_from_clock(secs, nanos);
    id
}

/// The sum of values that are each at most `bound` is at most their number
/// times `bound`.
proof fn lemma_progress_sum_bounded(list: Seq<KeyResultView>, bound: int)
    requires
        forall|i: int| 0 <= i < list.len() ==> list[i].progress <= bound,
    ensures
        0 <= progress_sum(list) <= list.len() * bound,
    decreases list.len(),
{
    if list.len() > 0 {
        lemma_progress_sum_bounded(list.drop_last(), bound);
        assert((list.len() - 1) * bound + bound == list.len() * bound) by (nonlinear_arith);
    }
}

/// The mean of values that are each at most `bound` is at most `bound`.
pub proof fn lemma_mean_progress_bounded(list: Seq<KeyResultView>, bound: int)
    requires
        0 <= bound,
        forall|i: int| 0 <= i < list.len() ==> list[i].progress <= bound,
    ensures
        0 <= mean_progress(list) <= bound,
{
    if list.len() > 0 {
        lemma_progress_sum_bounded(list, bound);
        let n = list.len() as int;
        let sum = progress_sum(list);
        assert(0 <= sum / n <= bound) by (nonlinear_arith)
            requires
                n > 0,
                0 <= sum <= n * bound,
        ;
    }
}

impl Objective {
    /// Whether every key result is well formed.
    pub open spec fn wf(&self) -> bool {
        forall|i: int| 0 <= i < self.key_results@.len() ==> #[trigger] self.key_results@[i].wf()
    }

    /// The objective with every field given but the key results, of which
    /// it has none yet: private, with neither description, owner nor
    /// quarter.
    pub fn titled(id: String, title: &str) -> (objective: Objective)
        ensures
            objective@ == (ObjectiveView {
                id: id@,
                title: title@,
                description: None,
                key_results: Seq::empty(),
                visibility: OkrVisibility::Private,
                owner: None,
                quarter: None,
            }),
            objective.wf(),
    {
        let objective = Objective {
            id,
            title: title.to_owned(),
            description: None,
            key_results: Vec::new(),
            visibility: OkrVisibility::Private,
            owner: None,
            quarter: None,
        };
        assert(key_result_views(objective.key_results@) =~= Seq::empty());
        objective
    }

    /// A new objective with an identifier from the clock: private, with no
    /// key results and neither description, owner nor quarter.
    pub fn new(title: &str) -> (objective: Objective)
        ensures
            is_okr_clock_id(objective@.id),
            objective@ == (ObjectiveView {
                id: objective@.id,
                title: title@,
                description: None,
                key_results: Seq::empty(),
                visibility: OkrVisibility::Private,
                owner: None,
                quarter: None,
            }),
            objective.wf(),
    {
        Objective::titled(generate_okr_id(), title)
    }

    /// The same objective with a description.
    pub fn with_description(self, description: &str) -> (objective: Objective)
        ensures
            objective@ == (ObjectiveView { description: Some(description@), ..self@ }),
            self.wf() ==> objective.wf(),
    {
        let mut objective = self;
        objective.description = Some(description.to_owned());
        objective
    }

    /// Adds `result` at the end of the key results.
    pub fn add_key_result(&mut self, result: KeyResult)
        ensures
            final(self)@ == (ObjectiveView {
                key_results: old(self)@.key_results.push(result@),
                ..old(self)@
            }),
            old(self).wf() && result.wf() ==> final(self).wf(),
    {
        self.key_results.push(result);
        assert(key_result_views(self.key_results@) =~= key_result_views(
            old(self).key_results@,
        ).push(result@));
    }

    /// The same objective with the given visibility.
    pub fn with_visibility(self, visibility: OkrVisibility) -> (objective: Objective)
        ensures
            objective@ == (ObjectiveView { visibility, ..self@ }),
            self.wf() ==> objective.wf(),
    {
        let mut objective = self;
        objective.visibility = visibility;
        objective
    }

    /// The same objective with an owner.
    pub fn with_owner(self, owner: &str) -> (objective: Objective)
        ensures
            objective@ == (ObjectiveView { owner: Some(owner@), ..self@ }),
            self.wf() ==> objective.wf(),
    {
        let mut objective = self;
        objective.owner = Some(owner.to_owned());
        objective
    }

    /// The same objective with a quarter.
    pub fn with_quarter(self, quarter: &str) -> (objective: Objective)
        ensures
            objective@ == (ObjectiveView { quarter: Some(quarter@), ..self@ }),
            self.wf() ==> objective.wf(),
    {
        let mut objective = self;
        objective.quarter = Some(quarter.to_owned());
        objective
    }

    /// The progress toward the objective as a whole: the arithmetic mean of
    /// the progress of its key results, in millionths and rounded down, and
    /// nothing where there are no key results.
    pub fn overall_progress(&self) -> (progress: u32)
        ensures
            progress == self@.overall_progress(),
            self.wf() ==> progress <= FULL_PROGRESS,
    {
        let count = self.key_results.len();
        if count == 0 {
            return 0;
        }
        let ghost views = key_result_views(self.key_results@);
        let mut sum: u128 = 0;
        let mut i: usize = 0;
        while i < count
            invariant
                i <= count,
                count == self.key_results@.len(),
                views == key_result_views(self.key_results@),
                sum == progress_sum(views.take(i as int)),
                sum <= i * u32::MAX,
            decreases count - i,
        {
            assert(views.take(i + 1).drop_last() =~= views.take(i as int));
            assert((i + 1) * u32::MAX <= usize::MAX * u32::MAX) by (nonlinear_arith)
                requires
                    i + 1 <= usize::MAX,
            ;
            sum = sum + self.key_results[i].progress as u128;
            i += 1;
        }
        assert(views.take(count as int) =~= views);
        proof {
            lemma_mean_progress_bounded(views, u32::MAX as int);
            if self.wf() {
                assert forall|i: int| 0 <= i < views.len() implies views[i].progress
                    <= FULL_PROGRESS by {
                    assert(self.key_results@[i].wf());
                }
                lemma_mean_progress_bounded(views, FULL_PROGRESS as int);
            }
        }
        (sum / count as u128) as u32
    }
}

} // verus!
