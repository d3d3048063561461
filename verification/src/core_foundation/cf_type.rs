use crate::ownership::Owned;
use crate::runtime::{decrements, increments, Call, ForeignCall, IdentityAnswers, Request};
use vstd::prelude::*;

verus! {

/// Unique constant integer value that identifies a particular opaque type of
/// the foreign runtime.
pub type CFTypeID = usize;

/// A code that stands for an object in a hashing structure.
pub type CFHashCode = usize;

/// A signed count or index, as the foreign runtime reports it.
pub type CFIndex = isize;

/// An automatically-reference-counted pointer to a type-erased foreign object.
pub type CFTypeRef = Owned;

/// An instance of a foreign type.
///
/// Nothing of the object is known here but its address, which is never null
/// and stays the same for as long as the object lives. A `CFType` cannot be
/// made or copied by hand: it is only ever seen behind a reference that an
/// [`Owned`] lends out, so the borrow checker keeps every view of the object
/// within the life of a wrapper that holds it.
///
/// Equality, hashing and the type identifier belong to the foreign runtime.
/// The methods below ask the runtime; none of them decides anything from the
/// address.
#[derive(Debug)]
pub struct CFType {
    address: usize,
}

impl AsRef<CFType> for CFType {
    fn as_ref(&self) -> (this: &CFType)
        ensures
            this == self,
    {
        self
    }
}

impl CFType {
    #[verifier::type_invariant]
    spec fn non_null(&self) -> bool {
        self.address != 0
    }

    /// The object at `address`, which the caller knows to be alive.
    pub(crate) fn at(address: usize) -> (object: CFType)
        requires
            address != 0,
        ensures
            object.address() == address,
    {
        CFType { address }
    }

    /// The object's address.
    pub closed spec fn address_spec(&self) -> usize {
        self.address
    }

    /// The object's address.
    #[verifier::when_used_as_spec(address_spec)]
    pub fn address(&self) -> (address: usize)
        ensures
            address == self.address(),
            address != 0,
    {
        proof {
            use_type_invariant(self);
        }
        self.address
    }

    /// Retains the object: the runtime is to add one to its retain count, and
    /// the wrapper returned owns that increment.
    pub fn retain(obj: &Self) -> (retained: (Owned, ForeignCall))
        ensures
            retained.0.address() == obj.address(),
            retained.1@ == (Call::Retain { handle: obj.address() }),
            increments(retained.1@, obj.address()),
    {
        let address: usize = obj.address();
        (Owned::from_stake(CFType::at(address)), ForeignCall::Retain { handle: address })
    }

    /// Gives up the increment that `obj` stands for: the runtime is to take
    /// one from the object's retain count.
    pub(crate) fn release(obj: Self) -> (call: ForeignCall)
        ensures
            call@ == (Call::Release { handle: obj.address() }),
            decrements(call@, obj.address()),
    {
        ForeignCall::Release { handle: obj.address() }
    }

    /// Asks whether the runtime considers `self` and `other` equal. The
    /// runtime's equality may go by value, so the question is put to it
    /// whatever the two addresses are, also where they are the same.
    pub fn eq(&self, other: &Self) -> (request: Request<bool>)
        ensures
            request@ == (Call::Equal { left: self.address(), right: other.address() }),
    {
        Request::new(ForeignCall::Equal { left: self.address(), right: other.address() })
    }

    /// Asks for this object's reference count.
    ///
    /// The count is only useful for debugging certain objects.
    pub fn retain_count(&self) -> (request: Request<CFIndex>)
        ensures
            request@ == (Call::GetRetainCount { handle: self.address() }),
    {
        Request::new(ForeignCall::GetRetainCount { handle: self.address() })
    }

    /// Asks for a code that can be used to identify `self` in a hashing
    /// structure.
    pub fn hash(&self) -> (request: Request<CFHashCode>)
        ensures
            request@ == (Call::Hash { handle: self.address() }),
    {
        Request::new(ForeignCall::Hash { handle: self.address() })
    }

    /// Asks for the unique identifier of the opaque type to which `self`
    /// belongs.
    pub fn get_type_id(&self) -> (request: Request<CFTypeID>)
        ensures
            request@ == (Call::GetTypeId { handle: self.address() }),
    {
        Request::new(ForeignCall::GetTypeId { handle: self.address() })
    }
}

/// Equality of handles is the runtime's own, so every object equals itself:
/// the query for an object against itself names that object twice, and a
/// runtime whose answers are consistent says yes to it.
pub proof fn lemma_object_equals_itself(runtime: IdentityAnswers, a: CFType)
    requires
        runtime.consistent(),
    ensures
        runtime.says_equal(Call::Equal { left: a.address(), right: a.address() }),
{
}

/// Equality and hashing of handles agree: two objects that the runtime says
/// are equal are given one hash code. This holds of every runtime whose
/// answers are consistent, because the queries name the objects and nothing
/// else.
pub proof fn lemma_equal_objects_hash_alike(runtime: IdentityAnswers, a: CFType, b: CFType)
    requires
        runtime.consistent(),
        runtime.says_equal(Call::Equal { left: a.address(), right: b.address() }),
    ensures
        runtime.says_hash(Call::Hash { handle: a.address() }) == runtime.says_hash(
            Call::Hash { handle: b.address() },
        ),
{
}

} // verus!
