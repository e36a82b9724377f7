//! Back/forward navigation over parameter sets.

use crate::params::VFParams;
use vstd::prelude::*;

verus! {

/// What a history holds: the sets behind the active one (oldest first), the
/// active set, and the sets that were stepped back from (the one stepped back
/// from last is the last element).
pub struct HistoryModel {
    pub back: Seq<VFParams>,
    pub active: VFParams,
    pub forward: Seq<VFParams>,
}

impl HistoryModel {
    /// A history that holds only `active`.
    pub open spec fn start(active: VFParams) -> HistoryModel {
        HistoryModel { back: Seq::empty(), active, forward: Seq::empty() }
    }

    /// One step back: the newest set of `back` becomes active and the set that
    /// was active goes onto `forward`. With nothing behind, nothing changes.
    pub open spec fn undo(self) -> HistoryModel {
        if self.back.len() > 0 {
            HistoryModel {
                back: self.back.drop_last(),
                active: self.back.last(),
                forward: self.forward.push(self.active),
            }
        } else {
            self
        }
    }

    /// One step forward into a set that was stepped back from: it becomes
    /// active again and the set that was active goes onto `back`.
    pub open spec fn redo(self) -> HistoryModel
        recommends
            self.forward.len() > 0,
    {
        HistoryModel {
            back: self.back.push(self.active),
            active: self.forward.last(),
            forward: self.forward.drop_last(),
        }
    }

    /// One step forward past the newest set: `fresh` becomes active and the
    /// set that was active goes onto `back`.
    pub open spec fn branch(self, fresh: VFParams) -> HistoryModel
        recommends
            self.forward.len() == 0,
    {
        HistoryModel { back: self.back.push(self.active), active: fresh, forward: Seq::empty() }
    }

    /// Every set of the history in the order in which stepping forward visits
    /// them.
    pub open spec fn timeline(self) -> Seq<VFParams> {
        self.back.push(self.active) + self.forward.reverse()
    }
}

/// The active parameter set with the sets that can be stepped back and forward
/// to.
pub struct ParameterHistory {
    back: Vec<VFParams>,
    active: VFParams,
    forward: Vec<VFParams>,
}

impl View for ParameterHistory {
    type V = HistoryModel;

    closed spec fn view(&self) -> HistoryModel {
        HistoryModel { back: self.back@, active: self.active, forward: self.forward@ }
    }
}

impl ParameterHistory {
    /// A history that holds only `active`.
    pub fn new(active: VFParams) -> (history: ParameterHistory)
        ensures
            history@ == HistoryModel::start(active),
    {
        ParameterHistory { back: Vec::new(), active, forward: Vec::new() }
    }

    /// The active parameter set.
    pub fn active(&self) -> (params: &VFParams)
        ensures
            *params == self@.active,
    {
        &self.active
    }

    /// Whether there is a set to step back to.
    pub fn can_go_back(&self) -> (yes: bool)
        ensures
            yes == (self@.back.len() > 0),
    {
        self.back.len() > 0
    }

    /// Whether stepping forward returns to a set that was stepped back from,
    /// rather than asking for a new one.
    pub fn can_redo(&self) -> (yes: bool)
        ensures
            yes == (self@.forward.len() > 0),
    {
        self.forward.len() > 0
    }

    /// Steps back if there is a set behind the active one, and says whether it
    /// did. With nothing behind, the history is left as it was.
    pub fn navigate_back(&mut self) -> (moved: bool)
        ensures
            final(self)@ == old(self)@.undo(),
            moved == (old(self)@.back.len() > 0),
            !moved ==> final(self)@ == old(self)@,
    {
        match self.back.pop() {
            Some(previous) => {
                self.forward.push(self.active);
                self.active = previous;
                true
            },
            None => false,
        }
    }

    /// Steps forward. The set that was active goes onto the back stack. If a
    /// set was stepped back from, it becomes active again; otherwise `generate`
    /// is called once and what it returns becomes active. Says whether
    /// `generate` was called.
    pub fn navigate_forward<G: FnOnce() -> VFParams>(&mut self, generate: G) -> (generated: bool)
        requires
            old(self)@.forward.len() == 0 ==> call_requires(generate, ()),
        ensures
            generated == (old(self)@.forward.len() == 0),
            !generated ==> final(self)@ == old(self)@.redo(),
            generated ==> call_ensures(generate, (), final(self)@.active),
            generated ==> final(self)@ == old(self)@.branch(final(self)@.active),
    {
        self.back.push(self.active);
        match self.forward.pop() {
            Some(next) => {
                self.active = next;
                false
            },
            None => {
                self.active = generate();
                assert(self.forward@ =~= Seq::empty());
                true
            },
        }
    }
}

/// Stepping forward into a set that was stepped back from, and then back,
/// leaves the history exactly as it was: the active set and both stacks.
pub proof fn lemma_redo_then_undo(h: HistoryModel)
    requires
        h.forward.len() > 0,
    ensures
        h.redo().undo() == h,
{
    let r = h.redo();
    assert(r.back.drop_last() =~= h.back);
    assert(r.forward.push(r.active) =~= h.forward);
}

/// Stepping forward past the newest set, and then back, restores the active
/// set and the back stack; the forward stack then holds the new set alone.
pub proof fn lemma_branch_then_undo(h: HistoryModel, fresh: VFParams)
    requires
        h.forward.len() == 0,
    ensures
        h.branch(fresh).undo() == (HistoryModel {
            back: h.back,
            active: h.active,
            forward: seq![fresh],
        }),
{
    let b = h.branch(fresh);
    assert(b.back.drop_last() =~= h.back);
}

/// Stepping back into a set, and then forward, leaves the history exactly as
/// it was, and the step forward asks for no new set.
pub proof fn lemma_undo_then_redo(h: HistoryModel)
    requires
        h.back.len() > 0,
    ensures
        h.undo().forward.len() > 0,
        h.undo().redo() == h,
{
    let u = h.undo();
    assert(u.back.push(u.active) =~= h.back);
    assert(u.forward.drop_last() =~= h.forward);
}

/// With nothing to step back to, stepping back changes nothing.
pub proof fn lemma_undo_at_start(h: HistoryModel)
    requires
        h.back.len() == 0,
    ensures
        h.undo() == h,
{
}

/// Stepping back, and stepping forward into a set that was stepped back from,
/// move the active position along the timeline and leave the timeline itself
/// unchanged: no set is lost and none is copied.
pub proof fn lemma_timeline_kept(h: HistoryModel)
    ensures
        h.undo().timeline() == h.timeline(),
        h.forward.len() > 0 ==> h.redo().timeline() == h.timeline(),
{
}

/// Stepping forward past the newest set appends the new set to the timeline.
pub proof fn lemma_branch_extends_timeline(h: HistoryModel, fresh: VFParams)
    requires
        h.forward.len() == 0,
    ensures
        h.branch(fresh).timeline() == h.timeline().push(fresh),
{
}

} // verus!
