//! Owning handles on reference-counted native resources.
//!
//! The native framework creates a resource with one reference, adds one on
//! retain, drops one on release, and destroys the resource with its last
//! reference.  A [`Handle`] stands for exactly one of those references.  It
//! cannot be copied, and the only ways to part with it are [`Handle::release`]
//! and [`Handle::into_raw`], each of which consumes it: the reference it
//! stands for is given back once and never twice.
//!
//! Nothing here calls the native framework.  Where a reference has to be
//! added or dropped, the operation returns the [`NativeCall`] to make, and
//! whoever holds the native function table makes it.

use vstd::prelude::*;

verus! {

/// The address by which a factory reports that it created nothing.
pub const NULL_ADDRESS: usize = 0;

/// The address of a native resource: never the null sentinel.
#[derive(Clone, Copy, Debug, PartialEq, Eq, Structural)]
pub struct Address {
    raw: usize,
}

impl Address {
    #[verifier::type_invariant]
    pub closed spec fn well_formed(self) -> bool {
        self.raw != NULL_ADDRESS
    }

    /// The address as the native framework wrote it.
    pub closed spec fn spec_raw(self) -> usize {
        self.raw
    }

    /// Accepts every address but the null sentinel.
    pub fn new(raw: usize) -> (address: Option<Address>)
        ensures
            raw == NULL_ADDRESS <==> address is None,
            address matches Some(a) ==> a.spec_raw() == raw && a.well_formed(),
    {
        if raw == NULL_ADDRESS {
            None
        } else {
            Some(Address { raw })
        }
    }

    #[verifier::when_used_as_spec(spec_raw)]
    pub fn raw(self) -> (raw: usize)
        ensures
            raw == self.spec_raw(),
            raw != NULL_ADDRESS,
    {
        proof {
            use_type_invariant(self);
        }
        self.raw
    }

    /// An address is what it is by its raw value alone.
    pub proof fn lemma_raw_determines(self, other: Address)
        requires
            self.spec_raw() == other.spec_raw(),
        ensures
            self == other,
    {
    }
}

/// How a handle came by the reference it stands for.
#[derive(Clone, Copy, Debug, PartialEq, Eq, Structural)]
pub enum Ownership {
    /// The reference was handed over by the native side (a create or copy
    /// function returned it).
    Owned,
    /// The address was only shown by the native side (an accessor or a
    /// callback argument), and a reference was added to keep it.
    Borrowed,
}

/// A factory returned the null sentinel.
#[derive(Clone, Copy, Debug, PartialEq, Eq, Structural)]
pub struct CreationFailed;

/// A change of a resource's reference count that the native framework is to
/// be asked for.
#[derive(Clone, Copy, Debug, PartialEq, Eq, Structural)]
pub enum NativeCall {
    /// Add one reference to the resource at the address.
    Retain(Address),
    /// Drop one reference to the resource at the address.
    Release(Address),
}

impl NativeCall {
    /// The address the call is about.
    pub open spec fn spec_address(self) -> Address {
        match self {
            NativeCall::Retain(address) => address,
            NativeCall::Release(address) => address,
        }
    }

    #[verifier::when_used_as_spec(spec_address)]
    pub fn address(self) -> (address: Address)
        ensures
            address == self.spec_address(),
    {
        match self {
            NativeCall::Retain(address) => address,
            NativeCall::Release(address) => address,
        }
    }

    pub fn is_retain(self) -> (yes: bool)
        ensures
            yes == (self is Retain),
    {
        match self {
            NativeCall::Retain(_) => true,
            NativeCall::Release(_) => false,
        }
    }

    pub fn is_release(self) -> (yes: bool)
        ensures
            yes == (self is Release),
    {
        match self {
            NativeCall::Retain(_) => false,
            NativeCall::Release(_) => true,
        }
    }
}

/// One owned reference to a native resource.
#[derive(Debug)]
pub struct Handle {
    address: Address,
    ownership: Ownership,
}

impl Handle {
    /// The resource the handle refers to.
    pub closed spec fn spec_address(&self) -> Address {
        self.address
    }

    /// How the handle came by its reference.
    pub closed spec fn spec_ownership(&self) -> Ownership {
        self.ownership
    }

    /// Takes over a reference that the native side handed out.  No native
    /// call is owed: the reference exists already.
    pub fn wrap_owned(address: Address) -> (handle: Handle)
        ensures
            handle.spec_address() == address,
            handle.spec_ownership() == Ownership::Owned,
    {
        Handle { address, ownership: Ownership::Owned }
    }

    /// Keeps an address that the native side only showed.  The handle that
    /// comes back owns a reference of its own, which the returned retain
    /// adds: make that call before the address can go stale.
    pub fn wrap_borrowed(address: Address) -> (out: (Handle, NativeCall))
        ensures
            out.0.spec_address() == address,
            out.0.spec_ownership() == Ownership::Borrowed,
            out.1 == NativeCall::Retain(address),
    {
        (Handle { address, ownership: Ownership::Borrowed }, NativeCall::Retain(address))
    }

    /// Wraps what a native factory returned: a failure for the null
    /// sentinel, an owned handle on the new resource for any other address.
    pub fn from_factory(raw: usize) -> (created: Result<Handle, CreationFailed>)
        ensures
            raw == NULL_ADDRESS <==> created is Err,
            created matches Ok(handle) ==> handle.spec_address().spec_raw() == raw
                && handle.spec_ownership() == Ownership::Owned,
    {
        match Address::new(raw) {
            Some(address) => Ok(Handle::wrap_owned(address)),
            None => Err(CreationFailed),
        }
    }

    /// Wraps what a native accessor or a callback argument showed: nothing
    /// for the null address, and for any other a handle together with the
    /// retain that makes the handle's reference its own.
    pub fn from_accessor(raw: usize) -> (seen: Option<(Handle, NativeCall)>)
        ensures
            raw == NULL_ADDRESS <==> seen is None,
            seen matches Some(out) ==> out.0.spec_address().spec_raw() == raw
                && out.0.spec_ownership() == Ownership::Borrowed
                && out.1 == NativeCall::Retain(out.0.spec_address()),
    {
        match Address::new(raw) {
            Some(address) => Some(Handle::wrap_borrowed(address)),
            None => None,
        }
    }

    /// A second handle on the same resource, owning a reference of its own,
    /// which the returned retain adds.
    pub fn duplicate(&self) -> (out: (Handle, NativeCall))
        ensures
            out.0.spec_address() == self.spec_address(),
            out.0.spec_ownership() == Ownership::Owned,
            out.1 == NativeCall::Retain(self.spec_address()),
    {
        (Handle { address: self.address, ownership: Ownership::Owned }, NativeCall::Retain(self.address))
    }

    /// Ends the handle.  The reference it stood for is dropped by the
    /// returned release; the handle is gone, so no second release can follow.
    pub fn release(self) -> (call: NativeCall)
        ensures
            call == NativeCall::Release(self.spec_address()),
    {
        NativeCall::Release(self.address)
    }

    /// Ends the handle without dropping its reference: the reference goes
    /// back to the native side with the address.
    pub fn into_raw(self) -> (raw: usize)
        ensures
            raw == self.spec_address().spec_raw(),
            raw != NULL_ADDRESS,
    {
        self.address.raw()
    }

    #[verifier::when_used_as_spec(spec_address)]
    pub fn address(&self) -> (address: Address)
        ensures
            address == self.spec_address(),
    {
        self.address
    }

    #[verifier::when_used_as_spec(spec_ownership)]
    pub fn ownership(&self) -> (ownership: Ownership)
        ensures
            ownership == self.spec_ownership(),
    {
        self.ownership
    }

    /// The address to pass to a native operation on the resource.
    pub fn as_raw(&self) -> (raw: usize)
        ensures
            raw == self.spec_address().spec_raw(),
            raw != NULL_ADDRESS,
    {
        self.address.raw()
    }
}

/// The address to pass for an argument that may be left out: that of the
/// handle, or the null address for none.
pub fn optional_raw(handle: Option<&Handle>) -> (raw: usize)
    ensures
        raw == match handle {
            Some(handle) => handle.spec_address().spec_raw(),
            None => NULL_ADDRESS,
        },
        handle is None <==> raw == NULL_ADDRESS,
{
    match handle {
        Some(handle) => handle.as_raw(),
        None => NULL_ADDRESS,
    }
}

/// Who frees the client state that was handed to a native factory as
/// opaque context (a boxed closure, a buffer that is kept alive).
///
/// Such state is handed over by address and has to be freed exactly once.
/// Where the factory made a resource, the resource holds the address and
/// the native framework calls the release hook that was registered with
/// it, when it tears the resource down: nothing else may free the state.
/// Where the factory failed, no hook will ever be called: the state is
/// freed by whoever called the factory, at once.
#[derive(Clone, Copy, Debug, PartialEq, Eq, Structural)]
pub enum ContextOwner {
    /// The native resource: the release hook frees the state.
    ReleaseHook,
    /// The caller of the factory: it frees the state now.
    Caller,
}

impl Handle {
    /// Wraps what a native factory returned that was given client state as
    /// opaque context, and says who is to free that state.
    pub fn from_factory_with_context(raw: usize) -> (out: (
        Result<Handle, CreationFailed>,
        ContextOwner,
    ))
        ensures
            raw == NULL_ADDRESS <==> out.0 is Err,
            out.0 matches Ok(handle) ==> handle.spec_address().spec_raw() == raw
                && handle.spec_ownership() == Ownership::Owned,
            out.1 == if raw == NULL_ADDRESS {
                ContextOwner::Caller
            } else {
                ContextOwner::ReleaseHook
            },
    {
        match Handle::from_factory(raw) {
            Ok(handle) => (Ok(handle), ContextOwner::ReleaseHook),
            Err(failed) => (Err(failed), ContextOwner::Caller),
        }
    }
}

} // verus!
