use core_graphics2::handle::{
    optional_raw, Address, ContextOwner, CreationFailed, Handle, NativeCall, Ownership,
    NULL_ADDRESS,
};

fn address(raw: usize) -> Address {
    Address::new(raw).expect("a non-null address")
}

#[test]
fn null_is_not_an_address() {
    assert!(Address::new(NULL_ADDRESS).is_none());
    assert!(Address::new(0).is_none());
}

#[test]
fn address_keeps_its_raw_value() {
    assert_eq!(address(0x1000).raw(), 0x1000);
    assert_eq!(address(1).raw(), 1);
    assert_eq!(address(usize::MAX).raw(), usize::MAX);
    assert_eq!(address(0x20), address(0x20));
    assert_ne!(address(0x20), address(0x21));
}

#[test]
fn wrap_owned_owes_no_native_call() {
    let handle = Handle::wrap_owned(address(0x1000));
    assert_eq!(handle.address(), address(0x1000));
    assert_eq!(handle.as_raw(), 0x1000);
    assert_eq!(handle.ownership(), Ownership::Owned);
}

#[test]
fn wrap_borrowed_owes_one_retain() {
    let (handle, call) = Handle::wrap_borrowed(address(0x2000));
    assert_eq!(handle.address(), address(0x2000));
    assert_eq!(handle.ownership(), Ownership::Borrowed);
    assert_eq!(call, NativeCall::Retain(address(0x2000)));
    assert!(call.is_retain());
    assert!(!call.is_release());
    assert_eq!(call.address(), address(0x2000));
}

#[test]
fn factory_sentinel_is_a_failure() {
    let created = Handle::from_factory(NULL_ADDRESS);
    assert!(matches!(created, Err(CreationFailed)));
}

#[test]
fn factory_address_is_an_owned_handle() {
    let handle = Handle::from_factory(0xdead_beef).expect("a handle");
    assert_eq!(handle.as_raw(), 0xdead_beef);
    assert_eq!(handle.ownership(), Ownership::Owned);
}

#[test]
fn accessor_null_is_absent() {
    assert!(Handle::from_accessor(NULL_ADDRESS).is_none());
}

#[test]
fn accessor_address_is_borrowed_and_retained() {
    let (handle, call) = Handle::from_accessor(0x3000).expect("a handle");
    assert_eq!(handle.as_raw(), 0x3000);
    assert_eq!(handle.ownership(), Ownership::Borrowed);
    assert_eq!(call, NativeCall::Retain(address(0x3000)));
}

#[test]
fn duplicate_is_a_second_owner_of_the_same_resource() {
    let first = Handle::wrap_owned(address(0x4000));
    let (second, call) = first.duplicate();
    assert_eq!(second.address(), first.address());
    assert_eq!(second.ownership(), Ownership::Owned);
    assert_eq!(call, NativeCall::Retain(address(0x4000)));
    // The first handle is still there and still owns its reference.
    assert_eq!(first.as_raw(), 0x4000);
}

#[test]
fn duplicate_of_a_borrowed_handle_is_owned() {
    let (borrowed, _) = Handle::wrap_borrowed(address(0x4100));
    let (second, call) = borrowed.duplicate();
    assert_eq!(second.ownership(), Ownership::Owned);
    assert_eq!(call, NativeCall::Retain(address(0x4100)));
}

#[test]
fn release_is_one_release_of_the_wrapped_address() {
    let handle = Handle::wrap_owned(address(0x5000));
    let call = handle.release();
    assert_eq!(call, NativeCall::Release(address(0x5000)));
    assert!(call.is_release());
    assert!(!call.is_retain());
}

#[test]
fn release_of_a_borrowed_handle_drops_the_reference_it_added() {
    let (handle, retain) = Handle::wrap_borrowed(address(0x5100));
    let release = handle.release();
    assert_eq!(retain.address(), release.address());
    assert_eq!(release, NativeCall::Release(address(0x5100)));
}

#[test]
fn into_raw_gives_the_address_back() {
    let handle = Handle::wrap_owned(address(0x6000));
    assert_eq!(handle.into_raw(), 0x6000);
}

#[test]
fn optional_raw_is_null_for_none() {
    assert_eq!(optional_raw(None), NULL_ADDRESS);
    let handle = Handle::wrap_owned(address(0x7000));
    assert_eq!(optional_raw(Some(&handle)), 0x7000);
}

#[test]
fn failed_factory_leaves_the_context_to_the_caller() {
    let (created, owner) = Handle::from_factory_with_context(NULL_ADDRESS);
    assert!(created.is_err());
    assert_eq!(owner, ContextOwner::Caller);
}

#[test]
fn successful_factory_leaves_the_context_to_the_release_hook() {
    let (created, owner) = Handle::from_factory_with_context(0x8000);
    assert_eq!(created.expect("a handle").as_raw(), 0x8000);
    assert_eq!(owner, ContextOwner::ReleaseHook);
}
