//! Automatic reference counting over foreign objects.
use crate::core_foundation::cf_type::CFType;
use crate::runtime::{count_after, decrements, increments, Call, ForeignCall};
use vstd::prelude::*;

verus! {

/// A counted stake in a foreign object: one increment of the object's retain
/// count, owned by this value and given back exactly once.
///
/// The wrapper is not `Clone` and not `Copy`. A second wrapper on the same
/// object comes only from [`Owned::clone`] or [`CFType::retain`], each of
/// which asks the runtime for a new increment, and the increment leaves with
/// [`Owned::drop`], which consumes the wrapper.
#[must_use]
#[derive(Debug)]
pub struct Owned {
    object: CFType,
}

impl Owned {
    /// The address of the object held.
    pub closed spec fn address(&self) -> usize {
        self.object.address()
    }

    pub(crate) fn from_stake(object: CFType) -> (wrapper: Owned)
        ensures
            wrapper.address() == object.address(),
    {
        Owned { object }
    }

    /// Wraps an address that already carries one increment which nobody owns
    /// yet, such as the result of a foreign function that creates an object.
    /// The runtime is not asked for anything: the increment changes hands.
    pub fn adopt(owned_address: usize) -> (wrapper: Owned)
        requires
            owned_address != 0,
        ensures
            wrapper.address() == owned_address,
    {
        Owned { object: CFType::at(owned_address) }
    }

    /// A second, independent wrapper on the same object, for which the
    /// runtime is to add one to the retain count. `self` is left as it was.
    pub fn clone(&self) -> (cloned: (Owned, ForeignCall))
        ensures
            cloned.0.address() == self.address(),
            cloned.1@ == (Call::Retain { handle: self.address() }),
            increments(cloned.1@, self.address()),
    {
        CFType::retain(&self.object)
    }

    /// Ends the wrapper: the runtime is to take the one increment it owned
    /// from the retain count.
    pub fn drop(self) -> (call: ForeignCall)
        ensures
            call@ == (Call::Release { handle: self.address() }),
            decrements(call@, self.address()),
    {
        CFType::release(self.object)
    }

    /// The object held, lent out for as long as the wrapper is borrowed.
    pub fn as_borrowed(&self) -> (object: &CFType)
        ensures
            object.address() == self.address(),
    {
        &self.object
    }
}

/// One step in the life of the wrappers on a single foreign object.
pub enum Step {
    /// [`Owned::adopt`]: a wrapper takes over an increment that nobody owned.
    Adopt,
    /// [`CFType::retain`]: a wrapper is made from a borrowed object.
    Retain,
    /// [`Owned::clone`]: a wrapper is made from another.
    Clone,
    /// [`Owned::drop`]: a wrapper ends.
    Drop,
}

/// The call that a step on the object at `handle` asks of the runtime, if it
/// asks for one.
pub open spec fn call_of(step: Step, handle: usize) -> Option<Call> {
    match step {
        Step::Adopt => None,
        Step::Retain => Some(Call::Retain { handle }),
        Step::Clone => Some(Call::Retain { handle }),
        Step::Drop => Some(Call::Release { handle }),
    }
}

/// How often `step` occurs in `steps`.
pub open spec fn occurrences(steps: Seq<Step>, step: Step) -> nat
    decreases steps.len(),
{
    if steps.len() == 0 {
        0
    } else {
        occurrences(steps.drop_last(), step) + if steps.last() == step {
            1nat
        } else {
            0nat
        }
    }
}

/// One foreign object as the bridge accounts for it: the retain count that
/// the runtime reports, and the number of wrappers alive on the object.
pub struct ObjectState {
    pub handle: usize,
    pub retain_count: nat,
    pub wrappers: nat,
}

impl ObjectState {
    /// Every live wrapper stands for an increment of its own, so the retain
    /// count is at least the number of wrappers. It may be more: code outside
    /// the bridge may hold references too.
    pub open spec fn consistent(self) -> bool {
        self.wrappers <= self.retain_count
    }

    /// The runtime has destroyed the object.
    pub open spec fn destroyed(self) -> bool {
        self.retain_count == 0
    }

    /// Whether the step may be taken: adopting needs an increment that no
    /// wrapper owns, retaining needs a live object, and cloning and dropping
    /// need a wrapper.
    pub open spec fn permits(self, step: Step) -> bool {
        match step {
            Step::Adopt => self.wrappers < self.retain_count,
            Step::Retain => self.retain_count > 0,
            Step::Clone => self.wrappers > 0,
            Step::Drop => self.wrappers > 0,
        }
    }

    /// The object once the step is taken and the runtime has performed the
    /// call that the step asks for.
    pub open spec fn after(self, step: Step) -> ObjectState {
        ObjectState {
            handle: self.handle,
            retain_count: match call_of(step, self.handle) {
                Some(call) => count_after(self.retain_count, self.handle, call),
                None => self.retain_count,
            },
            wrappers: match step {
                Step::Drop => (self.wrappers - 1) as nat,
                _ => self.wrappers + 1,
            },
        }
    }

    /// The object once all the steps are taken, first to last.
    pub open spec fn after_all(self, steps: Seq<Step>) -> ObjectState
        decreases steps.len(),
    {
        if steps.len() == 0 {
            self
        } else {
            self.after_all(steps.drop_last()).after(steps.last())
        }
    }

    /// Whether each of the steps may be taken when its turn comes.
    pub open spec fn permits_all(self, steps: Seq<Step>) -> bool {
        forall|i: int|
            0 <= i < steps.len() ==> #[trigger] self.after_all(steps.take(i)).permits(steps[i])
    }
}

/// The bridge's accounting stays sound: a step that may be taken leaves the
/// retain count at least as large as the number of wrappers.
pub proof fn lemma_step_keeps_consistent(object: ObjectState, step: Step)
    requires
        object.consistent(),
        object.permits(step),
    ensures
        object.after(step).consistent(),
{
}

/// Retain counts round-trip. After any sequence of steps on one object, each
/// taken when it may be, the retain count is the count at the start, plus one
/// for each retain and each clone, less one for each drop; adopting changes
/// nothing. The number of wrappers moves with it, and the object is destroyed
/// exactly when the drops have used up the count at the start and every
/// increment made since: for a fresh object, whose count is one, when there
/// is one drop more than there are retains and clones together.
pub proof fn lemma_retain_count_round_trip(object: ObjectState, steps: Seq<Step>)
    requires
        object.consistent(),
        object.permits_all(steps),
    ensures
        ({
            let adopts = occurrences(steps, Step::Adopt);
            let retains = occurrences(steps, Step::Retain);
            let clones = occurrences(steps, Step::Clone);
            let drops = occurrences(steps, Step::Drop);
            let end = object.after_all(steps);
            &&& end.retain_count == object.retain_count + retains + clones - drops
            &&& end.wrappers == object.wrappers + adopts + retains + clones - drops
            &&& end.consistent()
            &&& end.destroyed() <==> drops == object.retain_count + retains + clones
        }),
    decreases steps.len(),
{
    if steps.len() > 0 {
        // By induction on the steps before the last, which may be taken as
        // they could within the whole sequence.
        let earlier = steps.drop_last();
        assert forall|i: int| 0 <= i < earlier.len() implies #[trigger] object.after_all(
            earlier.take(i),
        ).permits(earlier[i]) by {
            assert(earlier.take(i) =~= steps.take(i));
            assert(object.after_all(steps.take(i)).permits(steps[i]));
        }
        lemma_retain_count_round_trip(object, earlier);
        // The last step may be taken after them, and it moves the count by
        // one as the sums say.
        assert(steps.take(steps.len() - 1) =~= earlier);
        assert(object.after_all(steps.take(steps.len() - 1)).permits(steps[steps.len() - 1]));
        lemma_step_keeps_consistent(object.after_all(earlier), steps.last());
    }
}

/// Clones are independent. Where a wrapper is alive on an object, cloning it
/// and dropping the clone leaves the object as it was, and not destroyed; and
/// whenever a drop leaves at least one wrapper behind, the object is still
/// alive for it.
pub proof fn lemma_clone_independence(object: ObjectState)
    requires
        object.consistent(),
        object.wrappers > 0,
    ensures
        object.after(Step::Clone).permits(Step::Drop),
        object.after(Step::Clone).after(Step::Drop) == object,
        !object.after(Step::Clone).after(Step::Drop).destroyed(),
        object.after(Step::Drop).wrappers > 0 ==> !object.after(Step::Drop).destroyed(),
{
}

} // verus!
