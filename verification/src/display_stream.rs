//! Display streams: a long-lived native producer of frames that calls back
//! into client code for every frame, on a thread of its own choosing.
//!
//! A [`CGDisplayStream`] is the session.  It owns the handle on the native
//! stream and follows its life from created through running to stopped.
//! The native calls are made elsewhere; the session is told what they
//! returned and says what that means.
//!
//! [`frame_available`] is the body of the callback that the native framework
//! invokes: it turns the raw arguments of one invocation into the values the
//! client closure receives, and says which references have to be added
//! before the closure may run.

use vstd::prelude::*;

use crate::error::CGError;
use crate::handle::{CreationFailed, Handle, NativeCall, Ownership, NULL_ADDRESS};

verus! {

/// The categories of rectangles that a frame update lists.
#[derive(Clone, Copy, Debug, PartialEq, Eq, Structural)]
pub enum CGDisplayStreamUpdateRectType {
    /// `kCGDisplayStreamUpdateRefreshedRects`
    RefreshedRects,
    /// `kCGDisplayStreamUpdateMovedRects`
    MovedRects,
    /// `kCGDisplayStreamUpdateDirtyRects`
    DirtyRects,
    /// `kCGDisplayStreamUpdateReducedDirtyRects`
    ReducedDirtyRects,
}

impl CGDisplayStreamUpdateRectType {
    /// The integer by which the native framework knows this rectangle category.
    pub open spec fn spec_code(self) -> int {
        match self {
            CGDisplayStreamUpdateRectType::RefreshedRects => 0,
            CGDisplayStreamUpdateRectType::MovedRects => 1,
            CGDisplayStreamUpdateRectType::DirtyRects => 2,
            CGDisplayStreamUpdateRectType::ReducedDirtyRects => 3,
        }
    }

    /// The rectangle category with the native code `code`, if there is one.
    pub open spec fn spec_from_code(code: int) -> Option<CGDisplayStreamUpdateRectType> {
        if code == 0 {
            Some(CGDisplayStreamUpdateRectType::RefreshedRects)
        } else if code == 1 {
            Some(CGDisplayStreamUpdateRectType::MovedRects)
        } else if code == 2 {
            Some(CGDisplayStreamUpdateRectType::DirtyRects)
        } else if code == 3 {
            Some(CGDisplayStreamUpdateRectType::ReducedDirtyRects)
        } else {
            None
        }
    }

    pub fn code(self) -> (code: i32)
        ensures
            code == self.spec_code(),
    {
        match self {
            CGDisplayStreamUpdateRectType::RefreshedRects => 0,
            CGDisplayStreamUpdateRectType::MovedRects => 1,
            CGDisplayStreamUpdateRectType::DirtyRects => 2,
            CGDisplayStreamUpdateRectType::ReducedDirtyRects => 3,
        }
    }

    pub fn from_code(code: i32) -> (rect_type: Option<CGDisplayStreamUpdateRectType>)
        ensures
            rect_type == Self::spec_from_code(code as int),
    {
        match code {
            0 => Some(CGDisplayStreamUpdateRectType::RefreshedRects),
            1 => Some(CGDisplayStreamUpdateRectType::MovedRects),
            2 => Some(CGDisplayStreamUpdateRectType::DirtyRects),
            3 => Some(CGDisplayStreamUpdateRectType::ReducedDirtyRects),
            _ => None,
        }
    }

    /// Every rectangle category is found again from its own code.
    pub proof fn lemma_code_round_trip(self)
        ensures
            Self::spec_from_code(self.spec_code()) == Some(self),
    {
    }

    /// A code names at most one rectangle category: the one whose code it is.
    pub proof fn lemma_from_code_sound(code: int)
        ensures
            match Self::spec_from_code(code) {
                Some(rect_type) => rect_type.spec_code() == code,
                None => forall|rect_type: CGDisplayStreamUpdateRectType| rect_type.spec_code() != code,
            },
    {
    }
}

/// What a frame callback reports about the frame it carries.
#[derive(Clone, Copy, Debug, PartialEq, Eq, Structural)]
pub enum CGDisplayStreamFrameStatus {
    /// `kCGDisplayStreamFrameStatusFrameComplete`
    FrameComplete,
    /// `kCGDisplayStreamFrameStatusFrameIdle`
    FrameIdle,
    /// `kCGDisplayStreamFrameStatusFrameBlank`
    FrameBlank,
    /// `kCGDisplayStreamFrameStatusStopped`
    Stopped,
}

impl CGDisplayStreamFrameStatus {
    /// The integer by which the native framework knows this frame status.
    pub open spec fn spec_code(self) -> int {
        match self {
            CGDisplayStreamFrameStatus::FrameComplete => 0,
            CGDisplayStreamFrameStatus::FrameIdle => 1,
            CGDisplayStreamFrameStatus::FrameBlank => 2,
            CGDisplayStreamFrameStatus::Stopped => 3,
        }
    }

    /// The frame status with the native code `code`, if there is one.
    pub open spec fn spec_from_code(code: int) -> Option<CGDisplayStreamFrameStatus> {
        if code == 0 {
            Some(CGDisplayStreamFrameStatus::FrameComplete)
        } else if code == 1 {
            Some(CGDisplayStreamFrameStatus::FrameIdle)
        } else if code == 2 {
            Some(CGDisplayStreamFrameStatus::FrameBlank)
        } else if code == 3 {
            Some(CGDisplayStreamFrameStatus::Stopped)
        } else {
            None
        }
    }

    pub fn code(self) -> (code: i32)
        ensures
            code == self.spec_code(),
    {
        match self {
            CGDisplayStreamFrameStatus::FrameComplete => 0,
            CGDisplayStreamFrameStatus::FrameIdle => 1,
            CGDisplayStreamFrameStatus::FrameBlank => 2,
            CGDisplayStreamFrameStatus::Stopped => 3,
        }
    }

    pub fn from_code(code: i32) -> (status: Option<CGDisplayStreamFrameStatus>)
        ensures
            status == Self::spec_from_code(code as int),
    {
        match code {
            0 => Some(CGDisplayStreamFrameStatus::FrameComplete),
            1 => Some(CGDisplayStreamFrameStatus::FrameIdle),
            2 => Some(CGDisplayStreamFrameStatus::FrameBlank),
            3 => Some(CGDisplayStreamFrameStatus::Stopped),
            _ => None,
        }
    }

    /// Every frame status is found again from its own code.
    pub proof fn lemma_code_round_trip(self)
        ensures
            Self::spec_from_code(self.spec_code()) == Some(self),
    {
    }

    /// A code names at most one frame status: the one whose code it is.
    pub proof fn lemma_from_code_sound(code: int)
        ensures
            match Self::spec_from_code(code) {
                Some(status) => status.spec_code() == code,
                None => forall|status: CGDisplayStreamFrameStatus| status.spec_code() != code,
            },
    {
    }
}

/// How the frames of a stream reach the client.
#[derive(Clone, Copy, Debug, PartialEq, Eq, Structural)]
pub enum Delivery {
    /// Through a run-loop source that the client attaches to a run loop of
    /// its own: the callback runs on the thread that runs that loop.
    RunLoopSource,
    /// Through a serial dispatch queue that the native framework drives:
    /// the callback runs on a worker thread of that queue, so the client
    /// closure has to be fit to be shared with and sent to another thread.
    DispatchQueue,
}

/// Where a session is in its life.
#[derive(Clone, Copy, Debug, PartialEq, Eq, Structural)]
pub enum StreamState {
    /// The native stream exists and the callback is registered; no frames
    /// are delivered yet.
    Created,
    /// The native framework may invoke the callback at any time.
    Running,
    /// No new invocation begins; one that began before may still end.
    Stopped,
}

impl StreamState {
    /// The state after a native start call returned `status`: running if it
    /// succeeded, unchanged if it did not.
    pub open spec fn after_start(self, status: CGError) -> StreamState {
        if status == CGError::Success {
            StreamState::Running
        } else {
            self
        }
    }

    /// The state after a native stop call returned `status`: stopped if it
    /// succeeded, unchanged if it did not.
    pub open spec fn after_stop(self, status: CGError) -> StreamState {
        if status == CGError::Success {
            StreamState::Stopped
        } else {
            self
        }
    }

    /// Once a stop has succeeded, a second stop leaves the session stopped
    /// whatever the native framework says to it.
    pub proof fn lemma_stop_is_idempotent(self, second: CGError)
        ensures
            self.after_stop(CGError::Success).after_stop(second) == self.after_stop(
                CGError::Success,
            ),
            self.after_stop(CGError::Success) == StreamState::Stopped,
    {
    }

    /// A call that the native framework failed moves nothing.
    pub proof fn lemma_failure_keeps_state(self, status: CGError)
        requires
            status != CGError::Success,
        ensures
            self.after_start(status) == self,
            self.after_stop(status) == self,
    {
    }
}

/// A description of what changed between two frames.  The native framework
/// owns it and may reuse it as soon as the callback returns; the handle
/// held here keeps it alive by a reference of its own.
#[derive(Debug)]
pub struct CGDisplayStreamUpdate {
    handle: Handle,
}

impl CGDisplayStreamUpdate {
    pub closed spec fn spec_handle(&self) -> Handle {
        self.handle
    }

    /// Wraps an owned handle on an update description.
    pub fn from_handle(handle: Handle) -> (update: CGDisplayStreamUpdate)
        ensures
            update.spec_handle() == handle,
    {
        CGDisplayStreamUpdate { handle }
    }

    /// Wraps what the native merge of two updates returned: a failure for
    /// the null sentinel, else the merged update, owned.
    pub fn new_merged_update(merged: usize) -> (update: Result<
        CGDisplayStreamUpdate,
        CreationFailed,
    >)
        ensures
            merged == NULL_ADDRESS <==> update is Err,
            update matches Ok(u) ==> u.spec_handle().spec_address().spec_raw() == merged
                && u.spec_handle().spec_ownership() == Ownership::Owned,
    {
        match Handle::from_factory(merged) {
            Ok(handle) => Ok(CGDisplayStreamUpdate { handle }),
            Err(failed) => Err(failed),
        }
    }

    pub fn handle(&self) -> (handle: &Handle)
        ensures
            *handle == self.spec_handle(),
    {
        &self.handle
    }

    /// Gives the handle up: the reference stays with it.
    pub fn into_handle(self) -> (handle: Handle)
        ensures
            handle == self.spec_handle(),
    {
        self.handle
    }

    /// A second update on the same description, to keep it beyond the
    /// callback, with the retain that this owes.
    pub fn duplicate(&self) -> (out: (CGDisplayStreamUpdate, NativeCall))
        ensures
            out.0.spec_handle().spec_address() == self.spec_handle().spec_address(),
            out.0.spec_handle().spec_ownership() == Ownership::Owned,
            out.1 == NativeCall::Retain(self.spec_handle().spec_address()),
    {
        let (handle, call) = self.handle.duplicate();
        (CGDisplayStreamUpdate { handle }, call)
    }

    /// Ends the update; the returned release drops its reference.
    pub fn release(self) -> (call: NativeCall)
        ensures
            call == NativeCall::Release(self.spec_handle().spec_address()),
    {
        self.handle.release()
    }
}

/// How many rectangles a list of an update holds: as many as the native
/// framework counted, and none where it gave no list at all.
pub fn listed_rect_count(list: usize, counted: usize) -> (count: usize)
    ensures
        count == if list == NULL_ADDRESS { 0 } else { counted },
{
    if list == NULL_ADDRESS {
        0
    } else {
        counted
    }
}

/// What the client closure receives for one frame.
#[derive(Debug)]
pub struct FrameDelivery {
    pub status: CGDisplayStreamFrameStatus,
    /// The display time of the frame, in the native framework's units.
    pub timestamp: u64,
    /// The frame buffer, where the invocation carried one.
    pub surface: Option<Handle>,
    /// The description of what changed, where the invocation carried one.
    pub update: Option<CGDisplayStreamUpdate>,
}

/// The references that have to be added before a frame may be delivered.
#[derive(Clone, Copy, Debug, PartialEq, Eq, Structural)]
pub struct FrameRetains {
    pub surface: Option<NativeCall>,
    pub update: Option<NativeCall>,
}

/// The view that a delivery gives of one raw address: nothing for the null
/// address, and else a borrowed handle on it.
pub open spec fn shows(seen: Option<Handle>, raw: usize) -> bool {
    match seen {
        None => raw == NULL_ADDRESS,
        Some(handle) => raw != NULL_ADDRESS && handle.spec_address().spec_raw() == raw
            && handle.spec_ownership() == Ownership::Borrowed,
    }
}

/// The retain that a delivery owes for one raw address: none for the null
/// address, and else one on that address.
pub open spec fn owes(retain: Option<NativeCall>, raw: usize) -> bool {
    match retain {
        None => raw == NULL_ADDRESS,
        Some(call) => raw != NULL_ADDRESS && call is Retain && call.spec_address().spec_raw()
            == raw,
    }
}

/// The body of the native frame callback.  A null frame buffer or update
/// address is absent in the delivery; any other is wrapped as a borrowed
/// view, whose retain is returned beside it and is to be made before the
/// client closure runs.  Status and timestamp pass through.
pub fn frame_available(
    status: CGDisplayStreamFrameStatus,
    timestamp: u64,
    surface: usize,
    update: usize,
) -> (out: (FrameDelivery, FrameRetains))
    ensures
        out.0.status == status,
        out.0.timestamp == timestamp,
        shows(out.0.surface, surface),
        owes(out.1.surface, surface),
        shows(
            match out.0.update {
                Some(u) => Some(u.spec_handle()),
                None => None,
            },
            update,
        ),
        owes(out.1.update, update),
{
    let (surface, surface_retain) = match Handle::from_accessor(surface) {
        Some((handle, call)) => (Some(handle), Some(call)),
        None => (None, None),
    };
    let (update, update_retain) = match Handle::from_accessor(update) {
        Some((handle, call)) => (Some(CGDisplayStreamUpdate { handle }), Some(call)),
        None => (None, None),
    };
    (
        FrameDelivery { status, timestamp, surface, update },
        FrameRetains { surface: surface_retain, update: update_retain },
    )
}

impl FrameDelivery {
    /// Invokes the client closure with the frame.
    pub fn deliver_to<F>(self, closure: &F) where
        F: Fn(
            CGDisplayStreamFrameStatus,
            u64,
            Option<Handle>,
            Option<CGDisplayStreamUpdate>,
        ),

        requires
            call_requires(closure, (self.status, self.timestamp, self.surface, self.update)),
        ensures
            call_ensures(closure, (self.status, self.timestamp, self.surface, self.update), ()),
    {
        closure(self.status, self.timestamp, self.surface, self.update)
    }
}

/// A stream session: the owned handle on a native display stream, the way
/// its frames are delivered, and its place in the life of a stream.
///
/// The native framework does not say what happens to a stream that is
/// released while it runs: stop it first.
#[derive(Debug)]
pub struct CGDisplayStream {
    handle: Handle,
    delivery: Delivery,
    state: StreamState,
}

impl CGDisplayStream {
    pub closed spec fn spec_handle(&self) -> Handle {
        self.handle
    }

    pub closed spec fn spec_delivery(&self) -> Delivery {
        self.delivery
    }

    pub closed spec fn spec_state(&self) -> StreamState {
        self.state
    }

    /// A new session on what a native create function returned.
    pub open spec fn is_new_session_on(&self, raw: usize, delivery: Delivery) -> bool {
        &&& self.spec_handle().spec_address().spec_raw() == raw
        &&& self.spec_handle().spec_ownership() == Ownership::Owned
        &&& self.spec_delivery() == delivery
        &&& self.spec_state() == StreamState::Created
    }

    /// Wraps what the native create function for run-loop delivery
    /// returned: a failure for the null sentinel, else a session in the
    /// created state that owns the stream.
    pub fn new(created: usize) -> (stream: Result<CGDisplayStream, CreationFailed>)
        ensures
            created == NULL_ADDRESS <==> stream is Err,
            stream matches Ok(s) ==> s.is_new_session_on(created, Delivery::RunLoopSource),
    {
        match Handle::from_factory(created) {
            Ok(handle) => Ok(
                CGDisplayStream {
                    handle,
                    delivery: Delivery::RunLoopSource,
                    state: StreamState::Created,
                },
            ),
            Err(failed) => Err(failed),
        }
    }

    /// Wraps what the native create function for delivery on a dispatch
    /// queue returned: a failure for the null sentinel, else a session in
    /// the created state that owns the stream.
    pub fn new_with_dispatch_queue(created: usize) -> (stream: Result<
        CGDisplayStream,
        CreationFailed,
    >)
        ensures
            created == NULL_ADDRESS <==> stream is Err,
            stream matches Ok(s) ==> s.is_new_session_on(created, Delivery::DispatchQueue),
    {
        match Handle::from_factory(created) {
            Ok(handle) => Ok(
                CGDisplayStream {
                    handle,
                    delivery: Delivery::DispatchQueue,
                    state: StreamState::Created,
                },
            ),
            Err(failed) => Err(failed),
        }
    }

    /// Takes note of what the native start call returned and hands it on.
    /// The session runs from now on if the call succeeded; a failure
    /// leaves it where it was.
    pub fn start(&mut self, status: CGError) -> (surfaced: CGError)
        ensures
            surfaced == status,
            final(self).spec_state() == old(self).spec_state().after_start(status),
            final(self).spec_handle() == old(self).spec_handle(),
            final(self).spec_delivery() == old(self).spec_delivery(),
    {
        if status == CGError::Success {
            self.state = StreamState::Running;
        }
        status
    }

    /// Takes note of what the native stop call returned and hands it on.
    /// The session is stopped from now on if the call succeeded; a failure
    /// leaves it where it was.  Stopping gives up no reference, however
    /// often it is done.
    pub fn stop(&mut self, status: CGError) -> (surfaced: CGError)
        ensures
            surfaced == status,
            final(self).spec_state() == old(self).spec_state().after_stop(status),
            final(self).spec_handle() == old(self).spec_handle(),
            final(self).spec_delivery() == old(self).spec_delivery(),
    {
        if status == CGError::Success {
            self.state = StreamState::Stopped;
        }
        status
    }

    /// Wraps what the native accessor for the run-loop source showed:
    /// nothing for the null address, else a borrowed handle on the source
    /// with the retain that this owes.
    pub fn run_loop_source(&self, source: usize) -> (seen: Option<(Handle, NativeCall)>)
        ensures
            source == NULL_ADDRESS <==> seen is None,
            seen matches Some(out) ==> out.0.spec_address().spec_raw() == source
                && out.0.spec_ownership() == Ownership::Borrowed
                && out.1 == NativeCall::Retain(out.0.spec_address()),
    {
        Handle::from_accessor(source)
    }

    pub fn handle(&self) -> (handle: &Handle)
        ensures
            *handle == self.spec_handle(),
    {
        &self.handle
    }

    #[verifier::when_used_as_spec(spec_delivery)]
    pub fn delivery(&self) -> (delivery: Delivery)
        ensures
            delivery == self.spec_delivery(),
    {
        self.delivery
    }

    #[verifier::when_used_as_spec(spec_state)]
    pub fn state(&self) -> (state: StreamState)
        ensures
            state == self.spec_state(),
    {
        self.state
    }

    /// Whether the native framework may be delivering frames.
    pub fn is_running(&self) -> (running: bool)
        ensures
            running == (self.spec_state() == StreamState::Running),
    {
        self.state == StreamState::Running
    }

    /// Ends the session; the returned release drops its reference on the
    /// native stream.
    pub fn release(self) -> (call: NativeCall)
        ensures
            call == NativeCall::Release(self.spec_handle().spec_address()),
    {
        self.handle.release()
    }
}

/// The properties a display stream can be created with.
#[derive(Clone, Copy, Debug, PartialEq, Eq, Structural)]
pub enum CGDisplayStreamProperties {
    SourceRect,
    DestinationRect,
    PreserveAspectRatio,
    ColorSpace,
    MinimumFrameTime,
    ShowCursor,
    QueueDepth,
    YCbCrMatrix,
}

impl CGDisplayStreamProperties {
    /// The native constant that holds the string for this property.
    pub open spec fn spec_symbol(self) -> Seq<char> {
        match self {
            CGDisplayStreamProperties::SourceRect => "kCGDisplayStreamSourceRect"@,
            CGDisplayStreamProperties::DestinationRect => "kCGDisplayStreamDestinationRect"@,
            CGDisplayStreamProperties::PreserveAspectRatio => "kCGDisplayStreamPreserveAspectRatio"@,
            CGDisplayStreamProperties::ColorSpace => "kCGDisplayStreamColorSpace"@,
            CGDisplayStreamProperties::MinimumFrameTime => "kCGDisplayStreamMinimumFrameTime"@,
            CGDisplayStreamProperties::ShowCursor => "kCGDisplayStreamShowCursor"@,
            CGDisplayStreamProperties::QueueDepth => "kCGDisplayStreamQueueDepth"@,
            CGDisplayStreamProperties::YCbCrMatrix => "kCGDisplayStreamYCbCrMatrix"@,
        }
    }

    pub fn symbol(self) -> (symbol: &'static str)
        ensures
            symbol@ == self.spec_symbol(),
    {
        match self {
            CGDisplayStreamProperties::SourceRect => "kCGDisplayStreamSourceRect",
            CGDisplayStreamProperties::DestinationRect => "kCGDisplayStreamDestinationRect",
            CGDisplayStreamProperties::PreserveAspectRatio => "kCGDisplayStreamPreserveAspectRatio",
            CGDisplayStreamProperties::ColorSpace => "kCGDisplayStreamColorSpace",
            CGDisplayStreamProperties::MinimumFrameTime => "kCGDisplayStreamMinimumFrameTime",
            CGDisplayStreamProperties::ShowCursor => "kCGDisplayStreamShowCursor",
            CGDisplayStreamProperties::QueueDepth => "kCGDisplayStreamQueueDepth",
            CGDisplayStreamProperties::YCbCrMatrix => "kCGDisplayStreamYCbCrMatrix",
        }
    }

    /// No two of them share a native constant: where two names are of one
    /// length, they differ at the place named in the proof.
    pub proof fn lemma_symbol_injective(self, other: CGDisplayStreamProperties)
        requires
            self.spec_symbol() == other.spec_symbol(),
        ensures
            self == other,
    {
        reveal_strlit("kCGDisplayStreamSourceRect");
        reveal_strlit("kCGDisplayStreamDestinationRect");
        reveal_strlit("kCGDisplayStreamPreserveAspectRatio");
        reveal_strlit("kCGDisplayStreamColorSpace");
        reveal_strlit("kCGDisplayStreamMinimumFrameTime");
        reveal_strlit("kCGDisplayStreamShowCursor");
        reveal_strlit("kCGDisplayStreamQueueDepth");
        reveal_strlit("kCGDisplayStreamYCbCrMatrix");
        assert("kCGDisplayStreamSourceRect"@.len() == 26);
        assert("kCGDisplayStreamDestinationRect"@.len() == 31);
        assert("kCGDisplayStreamPreserveAspectRatio"@.len() == 35);
        assert("kCGDisplayStreamColorSpace"@.len() == 26);
        assert("kCGDisplayStreamMinimumFrameTime"@.len() == 32);
        assert("kCGDisplayStreamShowCursor"@.len() == 26);
        assert("kCGDisplayStreamQueueDepth"@.len() == 26);
        assert("kCGDisplayStreamYCbCrMatrix"@.len() == 27);
        assert("kCGDisplayStreamSourceRect"@[16] != "kCGDisplayStreamColorSpace"@[16]);
        assert("kCGDisplayStreamSourceRect"@[17] != "kCGDisplayStreamShowCursor"@[17]);
        assert("kCGDisplayStreamSourceRect"@[16] != "kCGDisplayStreamQueueDepth"@[16]);
        assert("kCGDisplayStreamColorSpace"@[16] != "kCGDisplayStreamShowCursor"@[16]);
        assert("kCGDisplayStreamColorSpace"@[16] != "kCGDisplayStreamQueueDepth"@[16]);
        assert("kCGDisplayStreamShowCursor"@[16] != "kCGDisplayStreamQueueDepth"@[16]);
    }
}

/// The matrices for the conversion of a stream to YCbCr.
#[derive(Clone, Copy, Debug, PartialEq, Eq, Structural)]
pub enum CGDisplayStreamYCbCrMatrices {
    ITU_R_709_2,
    ITU_R_601_4,
    SMPTE_240M_1995,
}

impl CGDisplayStreamYCbCrMatrices {
    /// The native constant that holds the string for this matrix.
    pub open spec fn spec_symbol(self) -> Seq<char> {
        match self {
            CGDisplayStreamYCbCrMatrices::ITU_R_709_2 => "kCGDisplayStreamYCbCrMatrix_ITU_R_709_2"@,
            CGDisplayStreamYCbCrMatrices::ITU_R_601_4 => "kCGDisplayStreamYCbCrMatrix_ITU_R_601_4"@,
            CGDisplayStreamYCbCrMatrices::SMPTE_240M_1995 => "kCGDisplayStreamYCbCrMatrix_SMPTE_240M_1995"@,
        }
    }

    pub fn symbol(self) -> (symbol: &'static str)
        ensures
            symbol@ == self.spec_symbol(),
    {
        match self {
            CGDisplayStreamYCbCrMatrices::ITU_R_709_2 => "kCGDisplayStreamYCbCrMatrix_ITU_R_709_2",
            CGDisplayStreamYCbCrMatrices::ITU_R_601_4 => "kCGDisplayStreamYCbCrMatrix_ITU_R_601_4",
            CGDisplayStreamYCbCrMatrices::SMPTE_240M_1995 => "kCGDisplayStreamYCbCrMatrix_SMPTE_240M_1995",
        }
    }

    /// No two of them share a native constant: where two names are of one
    /// length, they differ at the place named in the proof.
    pub proof fn lemma_symbol_injective(self, other: CGDisplayStreamYCbCrMatrices)
        requires
            self.spec_symbol() == other.spec_symbol(),
        ensures
            self == other,
    {
        reveal_strlit("kCGDisplayStreamYCbCrMatrix_ITU_R_709_2");
        reveal_strlit("kCGDisplayStreamYCbCrMatrix_ITU_R_601_4");
        reveal_strlit("kCGDisplayStreamYCbCrMatrix_SMPTE_240M_1995");
        assert("kCGDisplayStreamYCbCrMatrix_ITU_R_709_2"@.len() == 39);
        assert("kCGDisplayStreamYCbCrMatrix_ITU_R_601_4"@.len() == 39);
        assert("kCGDisplayStreamYCbCrMatrix_SMPTE_240M_1995"@.len() == 43);
        assert("kCGDisplayStreamYCbCrMatrix_ITU_R_709_2"@[34] != "kCGDisplayStreamYCbCrMatrix_ITU_R_601_4"@[34]);
    }
}

} // verus!
