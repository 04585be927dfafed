//! A two-slot holder for a document: the committed value and at most one
//! draft of it. Changes are staged in the draft and then either applied,
//! which makes the draft the committed value, or discarded.

use vstd::prelude::*;

verus! {

/// The mathematical content of a [`Draft`]: the committed value and the
/// pending draft, if there is one.
pub struct Slots<T> {
    pub committed: T,
    pub draft: Option<T>,
}

impl<T> Slots<T> {
    /// The value a reader of "the latest" sees: the draft where one exists,
    /// the committed value otherwise.
    pub open spec fn latest(self) -> T {
        match self.draft {
            Some(d) => d,
            None => self.committed,
        }
    }

    /// The slots after the draft was overwritten with `value`.
    pub open spec fn edited(self, value: T) -> Self {
        Slots { committed: self.committed, draft: Some(value) }
    }

    /// The slots after an apply: the latest value is committed, no draft is left.
    pub open spec fn applied(self) -> Self {
        Slots { committed: self.latest(), draft: None }
    }

    /// What an apply hands back: the superseded committed value, or nothing
    /// where there was no draft to apply.
    pub open spec fn superseded(self) -> Option<T> {
        match self.draft {
            Some(_) => Some(self.committed),
            None => None,
        }
    }

    /// The slots after a discard: the committed value alone.
    pub open spec fn discarded(self) -> Self {
        Slots { committed: self.committed, draft: None }
    }
}

/// One operation on a store, as far as its content is concerned.
pub enum Step<T> {
    /// The draft is created if need be and then overwritten with the value.
    Edit(T),
    /// The draft, if any, becomes the committed value.
    Apply,
    /// The draft, if any, is dropped.
    Discard,
}

impl<T> Slots<T> {
    /// The slots after one operation.
    pub open spec fn step(self, op: Step<T>) -> Self {
        match op {
            Step::Edit(value) => self.edited(value),
            Step::Apply => self.applied(),
            Step::Discard => self.discarded(),
        }
    }

    /// The slots after the operations of `ops`, first to last.
    pub open spec fn run(self, ops: Seq<Step<T>>) -> Self
        decreases ops.len(),
    {
        if ops.len() == 0 {
            self
        } else {
            self.run(ops.drop_last()).step(ops.last())
        }
    }
}

/// Edits alone never touch the committed value.
pub proof fn lemma_edits_keep_committed<T>(s: Slots<T>, ops: Seq<Step<T>>)
    requires
        forall|i: int| 0 <= i < ops.len() ==> ops[i] is Edit,
    ensures
        s.run(ops).committed == s.committed,
    decreases ops.len(),
{
    if ops.len() > 0 {
        lemma_edits_keep_committed(s, ops.drop_last());
    }
}

/// After any run of draft edits, a discard leaves the committed value as it
/// was before the first edit and no draft behind: the next draft starts from
/// that committed value again.
pub proof fn law_discard_restores_committed<T>(s: Slots<T>, edits: Seq<Step<T>>)
    requires
        forall|i: int| 0 <= i < edits.len() ==> edits[i] is Edit,
    ensures
        s.run(edits.push(Step::Discard)).committed == s.committed,
        s.run(edits.push(Step::Discard)).draft is None,
        s.run(edits.push(Step::Discard)).latest() == s.committed,
{
    let ops = edits.push(Step::Discard);
    assert(ops.drop_last() =~= edits);
    lemma_edits_keep_committed(s, edits);
}

/// After any run of operations that ends in an apply, the committed value is
/// what the latest value was just before it (the draft, where one existed),
/// no draft is left, and a second apply right after it has nothing to apply.
pub proof fn law_apply_commits_latest<T>(s: Slots<T>, ops: Seq<Step<T>>)
    ensures
        s.run(ops.push(Step::Apply)).committed == s.run(ops).latest(),
        s.run(ops).draft is Some ==> s.run(ops.push(Step::Apply)).committed == s.run(ops).draft->0,
        s.run(ops.push(Step::Apply)).draft is None,
        s.run(ops.push(Step::Apply)).superseded() is None,
        s.run(ops.push(Step::Apply).push(Step::Apply)) == s.run(ops.push(Step::Apply)),
{
    let once = ops.push(Step::Apply);
    let twice = once.push(Step::Apply);
    assert(once.drop_last() =~= ops);
    assert(twice.drop_last() =~= once);
}

/// Holder of a committed value and an optional draft of it.
pub struct Draft<T> {
    committed: T,
    draft: Option<T>,
}

impl<T> View for Draft<T> {
    type V = Slots<T>;

    closed spec fn view(&self) -> Slots<T> {
        Slots { committed: self.committed, draft: self.draft }
    }
}

impl<T> From<T> for Draft<T> {
    fn from(data: T) -> (store: Self) {
        Draft { committed: data, draft: None }
    }
}

impl<T> vstd::std_specs::convert::FromSpecImpl<T> for Draft<T> {
    open spec fn obeys_from_spec() -> bool {
        true
    }

    open spec fn from_spec(data: T) -> Self {
        Self::holding(Slots { committed: data, draft: None })
    }
}

impl<T> Draft<T> {
    /// The store whose content is `slots`.
    pub closed spec fn holding(slots: Slots<T>) -> Self {
        Draft { committed: slots.committed, draft: slots.draft }
    }

    /// A store and its content determine each other.
    pub proof fn lemma_holding(self)
        ensures
            Self::holding(self@) == self,
            forall|s: Slots<T>| (#[trigger] Self::holding(s))@ == s,
    {
    }
}

impl<T: Clone> Draft<T> {
    /// Writable access to the committed value; the draft is left as it is.
    pub fn data_mut(&mut self) -> (data: &mut T)
        ensures
            *data == old(self)@.committed,
            final(self)@.committed == *final(data),
            final(self)@.draft == old(self)@.draft,
    {
        &mut self.committed
    }

    /// Read-only access to the committed value, whatever the draft holds.
    pub fn data_ref(&self) -> (data: &T)
        ensures
            *data == self@.committed,
    {
        &self.committed
    }

    /// Writable access to the draft. Where no draft exists yet, one is made
    /// first as a clone of the committed value.
    pub fn draft_mut(&mut self) -> (draft: &mut T)
        ensures
            old(self)@.draft is Some ==> *draft == old(self)@.draft->0,
            old(self)@.draft is None ==> cloned::<T>(old(self)@.committed, *draft),
            final(self)@ == old(self)@.edited(*final(draft)),
    {
        if self.draft.is_none() {
            let fresh = self.committed.clone();
            self.draft = Some(fresh);
        }
        self.draft.as_mut().unwrap()
    }

    /// Read-only access to the latest value: the draft if there is one, the
    /// committed value otherwise. Nothing is copied.
    pub fn latest_ref(&self) -> (latest: &T)
        ensures
            *latest == self@.latest(),
    {
        match &self.draft {
            Some(d) => d,
            None => &self.committed,
        }
    }

    /// Makes the draft the committed value and returns the value it
    /// supersedes. Without a draft nothing changes and `None` is returned.
    pub fn apply(&mut self) -> (previous: Option<T>)
        ensures
            previous == old(self)@.superseded(),
            final(self)@ == old(self)@.applied(),
    {
        match self.draft.take() {
            Some(d) => {
                let mut previous = d;
                std::mem::swap(&mut self.committed, &mut previous);
                Some(previous)
            },
            None => None,
        }
    }

    /// Drops the draft and returns it, if there was one. The committed value
    /// is untouched.
    pub fn discard(&mut self) -> (dropped: Option<T>)
        ensures
            dropped == old(self)@.draft,
            final(self)@ == old(self)@.discarded(),
    {
        self.draft.take()
    }
}

} // verus!
