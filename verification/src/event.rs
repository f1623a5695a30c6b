//! Events and event taps: the mask a tap is created with, and what a tap's
//! callback gives back to the native framework.

use vstd::prelude::*;

use crate::event_types::{CGEventMask, CGEventType};
use crate::handle::{Handle, NativeCall};

verus! {

/// The width of an event mask in bits.
pub const EVENT_MASK_BITS: u32 = 64;

/// Whether an event type has a bit in an event mask.  The two types by
/// which a tap is told that it was disabled have none: they are never asked
/// for, only received.
pub open spec fn has_mask_bit(event_type: CGEventType) -> bool {
    event_type.spec_code() < EVENT_MASK_BITS
}

/// The mask with the one bit of the event type.
pub open spec fn spec_event_mask_bit(event_type: CGEventType) -> CGEventMask {
    1u64 << (event_type.spec_code() as u64)
}

/// The mask with the bits of all the event types in the list.
pub open spec fn spec_event_mask(events: Seq<CGEventType>) -> CGEventMask
    decreases events.len(),
{
    if events.len() == 0 {
        0
    } else {
        spec_event_mask(events.drop_last()) | spec_event_mask_bit(events.last())
    }
}

/// Whether the bit at `place` is set in `mask`.
pub open spec fn mask_has(mask: CGEventMask, place: u64) -> bool {
    (mask >> place) & 1 == 1
}

/// The mask with the one bit of the event type, or nothing for a type
/// that has no bit.
pub fn event_mask_bit(event_type: CGEventType) -> (bit: Option<CGEventMask>)
    ensures
        bit == if has_mask_bit(event_type) {
            Some(spec_event_mask_bit(event_type))
        } else {
            None
        },
{
    let code: u32 = event_type.code();
    if code < EVENT_MASK_BITS {
        Some(1u64 << (code as u64))
    } else {
        None
    }
}

/// The mask to create a tap with that is to see the event types in the
/// list.
pub fn event_mask(events: &Vec<CGEventType>) -> (mask: CGEventMask)
    requires
        forall|i: int| 0 <= i < events@.len() ==> has_mask_bit(#[trigger] events@[i]),
    ensures
        mask == spec_event_mask(events@),
{
    let mut mask: CGEventMask = 0;
    let mut i: usize = 0;
    while i < events.len()
        invariant
            i <= events.len(),
            forall|j: int| 0 <= j < events@.len() ==> has_mask_bit(#[trigger] events@[j]),
            mask == spec_event_mask(events@.subrange(0, i as int)),
        decreases events.len() - i,
    {
        let code: u32 = events[i].code();
        assert(has_mask_bit(events@[i as int]));
        mask = mask | (1u64 << (code as u64));
        i = i + 1;
        assert(events@.subrange(0, i as int).drop_last() =~= events@.subrange(0, i - 1));
    }
    assert(events@.subrange(0, i as int) =~= events@);
    mask
}

/// The mask to create a tap with, for any list of event types: nothing if
/// one of them has no bit in a mask.
pub fn checked_event_mask(events: &Vec<CGEventType>) -> (mask: Option<CGEventMask>)
    ensures
        mask == if forall|i: int| 0 <= i < events@.len() ==> has_mask_bit(#[trigger] events@[i]) {
            Some(spec_event_mask(events@))
        } else {
            None
        },
{
    let mut i: usize = 0;
    while i < events.len()
        invariant
            i <= events.len(),
            forall|j: int| 0 <= j < i ==> has_mask_bit(#[trigger] events@[j]),
        decreases events.len() - i,
    {
        if events[i].code() >= EVENT_MASK_BITS {
            assert(!has_mask_bit(events@[i as int]));
            return None;
        }
        i = i + 1;
    }
    Some(event_mask(events))
}

/// A mask holds exactly the bits of the event types it was made from: the
/// bit at a place is set if and only if the list holds a type with that
/// code.
pub proof fn lemma_event_mask_bits(events: Seq<CGEventType>, place: u64)
    requires
        forall|i: int| 0 <= i < events.len() ==> has_mask_bit(#[trigger] events[i]),
        place < EVENT_MASK_BITS,
    ensures
        mask_has(spec_event_mask(events), place) <==> exists|i: int|
            0 <= i < events.len() && (#[trigger] events[i]).spec_code() == place,
    decreases events.len(),
{
    if events.len() == 0 {
        assert(!mask_has(0u64, place)) by (bit_vector);
    } else {
        let front = events.drop_last();
        let last_code = events.last().spec_code() as u64;
        let before = spec_event_mask(front);
        assert(has_mask_bit(events[events.len() - 1]));
        lemma_event_mask_bits(front, place);
        assert(((before | (1u64 << last_code)) >> place) & 1 == 1 <==> ((before >> place) & 1
            == 1 || place == last_code)) by (bit_vector)
            requires
                last_code < 64,
                place < 64,
        ;
        if mask_has(spec_event_mask(events), place) {
            if place == last_code {
                assert(events[events.len() - 1].spec_code() == place);
            } else {
                let i = choose|i: int|
                    0 <= i < front.len() && (#[trigger] front[i]).spec_code() == place;
                assert(events[i] == front[i]);
            }
        }
        if exists|i: int| 0 <= i < events.len() && (#[trigger] events[i]).spec_code() == place {
            let i = choose|i: int|
                0 <= i < events.len() && (#[trigger] events[i]).spec_code() == place;
            if i < front.len() {
                assert(front[i] == events[i]);
            }
        }
    }
}

/// What the callback of an event tap hands back to the native framework.
///
/// The callback was shown `event`, kept it by a reference of its own, and
/// asked the client.  If the client gave a `replacement`, that event goes
/// back, together with the reference the client held on it, and the
/// reference on the event shown is dropped by the returned release.  If
/// not, the event shown goes back with the reference that was added.
pub fn tap_callback_result(event: Handle, replacement: Option<Handle>) -> (out: (
    usize,
    Option<NativeCall>,
))
    ensures
        out.0 == match replacement {
            Some(other) => other.spec_address().spec_raw(),
            None => event.spec_address().spec_raw(),
        },
        out.1 == match replacement {
            Some(_) => Some(NativeCall::Release(event.spec_address())),
            None => None,
        },
        out.0 != crate::handle::NULL_ADDRESS,
{
    match replacement {
        Some(other) => {
            let call = event.release();
            (other.into_raw(), Some(call))
        },
        None => (event.into_raw(), None),
    }
}

} // verus!
