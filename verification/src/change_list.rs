use vstd::prelude::*;

use crate::parameter::DatabaseParameter;

verus! {

/// The pending-change ledger: one optional slot per ordinal of the parameter
/// space. A slot is filled when the corresponding field is written and
/// emptied when the pending changes are drained for notification.
///
/// A slot is overwritten, not queued, by repeated writes before the next
/// drain: the last value written before the drain wins.
pub struct ParameterChangeList<Parameter, const PARAMETER_COUNT: usize> {
    slots: Vec<Option<Parameter>>,
}

impl<Parameter, const PARAMETER_COUNT: usize> View for ParameterChangeList<
    Parameter,
    PARAMETER_COUNT,
> {
    type V = Seq<Option<Parameter>>;

    closed spec fn view(&self) -> Seq<Option<Parameter>> {
        self.slots@
    }
}

/// Holds when no slot of the ledger view `s` carries a pending change.
pub open spec fn all_slots_clear<Parameter>(s: Seq<Option<Parameter>>) -> bool {
    forall|i: int| 0 <= i < s.len() ==> s[i] is None
}

impl<Parameter, const PARAMETER_COUNT: usize> ParameterChangeList<Parameter, PARAMETER_COUNT> where
    Parameter: DatabaseParameter,
 {
    /// The ledger invariant: one slot per ordinal, and a non-empty slot at
    /// index `i` always holds a parameter whose ordinal is `i`.
    pub open spec fn wf(&self) -> bool {
        &&& self@.len() == PARAMETER_COUNT as int
        &&& forall|i: int|
            0 <= i < self@.len() && self@[i] is Some ==> (#[trigger] self@[i])->0.ordinal() == i
    }

    /// Create a ledger with every slot empty.
    pub fn new() -> (r: Self)
        ensures
            r.wf(),
            all_slots_clear(r@),
    {
        let mut slots: Vec<Option<Parameter>> = Vec::new();
        let mut i: usize = 0;
        while i < PARAMETER_COUNT
            invariant
                i <= PARAMETER_COUNT,
                slots@.len() == i as int,
                forall|j: int| 0 <= j < i as int ==> slots@[j] is None,
            decreases PARAMETER_COUNT - i,
        {
            slots.push(None);
            i = i + 1;
        }
        ParameterChangeList { slots }
    }

    /// Read the slot of ordinal `index`.
    pub fn slot(&self, index: usize) -> (r: Option<Parameter>)
        requires
            self.wf(),
            index < PARAMETER_COUNT,
        ensures
            r == self@[index as int],
    {
        self.slots[index]
    }

    /// Record a pending change for the ordinal of `parameter`, coalescing
    /// with any change already pending there: the earlier value is
    /// overwritten, never queued.
    pub fn record(&mut self, parameter: Parameter)
        requires
            old(self).wf(),
            0 <= parameter.ordinal() < PARAMETER_COUNT as int,
        ensures
            final(self).wf(),
            final(self)@ =~= old(self)@.update(parameter.ordinal(), Some(parameter)),
    {
        let index = parameter.ordinal_index();
        self.slots[index] = Some(parameter);
    }

    /// Drain the ledger: hand the caller a snapshot of every slot and reset
    /// every live slot to empty.
    pub fn take_all(&mut self) -> (snapshot: Self)
        requires
            old(self).wf(),
        ensures
            final(self).wf(),
            snapshot.wf(),
            snapshot@ =~= old(self)@,
            all_slots_clear(final(self)@),
    {
        let mut taken: Vec<Option<Parameter>> = Vec::new();
        let mut i: usize = 0;
        while i < PARAMETER_COUNT
            invariant
                i <= PARAMETER_COUNT,
                self.wf(),
                self@ =~= old(self)@,
                taken@.len() == i as int,
                forall|j: int| 0 <= j < i as int ==> taken@[j] == self@[j],
            decreases PARAMETER_COUNT - i,
        {
            taken.push(self.slots[i]);
            i = i + 1;
        }
        let mut i: usize = 0;
        while i < PARAMETER_COUNT
            invariant
                i <= PARAMETER_COUNT,
                self@.len() == PARAMETER_COUNT as int,
                forall|j: int| 0 <= j < i as int ==> self@[j] is None,
                forall|j: int| i as int <= j < PARAMETER_COUNT as int ==> self@[j] == old(self)@[j],
                taken@.len() == PARAMETER_COUNT as int,
                forall|j: int| 0 <= j < PARAMETER_COUNT as int ==> taken@[j] == old(self)@[j],
            decreases PARAMETER_COUNT - i,
        {
            self.slots[i] = None;
            i = i + 1;
        }
        ParameterChangeList { slots: taken }
    }

    /// Merge a drained snapshot back after a failed notification: fill each
    /// currently-empty slot from the snapshot, and never overwrite a value
    /// that arrived after the snapshot was taken.
    pub fn restore(&mut self, snapshot: &Self)
        requires
            old(self).wf(),
            snapshot.wf(),
        ensures
            final(self).wf(),
            final(self)@.len() == PARAMETER_COUNT as int,
            forall|i: int|
                0 <= i < PARAMETER_COUNT as int ==> final(self)@[i] == (if old(self)@[i] is Some {
                    old(self)@[i]
                } else {
                    snapshot@[i]
                }),
    {
        let mut i: usize = 0;
        while i < PARAMETER_COUNT
            invariant
                i <= PARAMETER_COUNT,
                self.wf(),
                snapshot.wf(),
                forall|j: int|
                    0 <= j < i as int ==> self@[j] == (if old(self)@[j] is Some {
                        old(self)@[j]
                    } else {
                        snapshot@[j]
                    }),
                forall|j: int| i as int <= j < PARAMETER_COUNT as int ==> self@[j] == old(self)@[j],
            decreases PARAMETER_COUNT - i,
        {
            if self.slots[i].is_none() {
                self.slots[i] = snapshot.slots[i];
            }
            i = i + 1;
        }
    }
}

} // verus!
