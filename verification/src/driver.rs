//! The top-level `Driver` trait and its framework-side wrapper.
//!
//! A *driver* is what a consumer of this framework implements: a
//! type carrying the per-plug-in state of an AudioServerPlugin. The
//! framework wraps every user `Driver` in a [`DriverInstance<T>`] —
//! the object that owns the user state, tracks the lifecycle
//! [`State`], and holds the CFPlugIn [`Refcount`] — and drives the
//! `Initialize → StartIO → IOProc → StopIO` lifecycle through it.

use vstd::prelude::*;

use crate::device::DeviceSpec;
use crate::error::OsStatus;
use crate::io::{cycle_view, CycleView, IoBuffer};
use crate::realtime::{RealtimeContext, Refcount, State, StateCell};

verus! {

/// A snapshot of a driver type's identity constants.
#[derive(Copy, Clone, PartialEq, Eq, Hash, Debug)]
pub struct DriverInfo {
    /// Human-readable plug-in name (`T::NAME`).
    pub name: &'static str,
    /// Plug-in manufacturer / vendor string (`T::MANUFACTURER`).
    pub manufacturer: &'static str,
    /// Plug-in version string (`T::VERSION`), e.g. `"0.1.0"`.
    pub version: &'static str,
}

impl DriverInfo {
    /// Capture the identity constants of a `T: Driver`.
    pub fn of<T: Driver>() -> (r: Self)
        ensures
            r == (DriverInfo { name: T::NAME, manufacturer: T::MANUFACTURER, version: T::VERSION }),
    {
        DriverInfo { name: T::NAME, manufacturer: T::MANUFACTURER, version: T::VERSION }
    }
}

/// A user-implemented AudioServerPlugin driver.
///
/// The framework instantiates the type via [`Self::new`], answers
/// the HAL's property queries from [`Self::device`] and the identity
/// constants, drives the lifecycle, and routes each IO cycle into
/// [`Self::process_io`], which runs on the realtime thread and must
/// be allocation-free and lock-free.
pub trait Driver: Sized + Send {
    /// Human-readable plug-in name.
    const NAME: &'static str;

    /// Plug-in manufacturer / vendor string.
    const MANUFACTURER: &'static str;

    /// Plug-in version string, e.g. `"0.1.0"`.
    const VERSION: &'static str;

    /// Construct a fresh driver instance (heap allocation allowed).
    fn new() -> Self;

    /// Describe the audio device this driver exposes.
    fn device(&self) -> DeviceSpec;

    /// Prepare the driver for use; a failure aborts plug-in
    /// initialisation. The default succeeds without doing anything.
    fn initialize(&mut self) -> (r: Result<(), OsStatus>)
        default_ensures
            r == Ok::<(), OsStatus>(()),
    {
        Ok(())
    }

    /// Begin device IO; a failure aborts the start and leaves the
    /// device idle. The default succeeds without doing anything.
    fn start_io(&mut self) -> (r: Result<(), OsStatus>)
        default_ensures
            r == Ok::<(), OsStatus>(()),
    {
        Ok(())
    }

    /// End device IO. The default does nothing.
    fn stop_io(&mut self) {
    }

    /// Process one IO cycle (realtime-critical).
    fn process_io(&mut self, rt: &RealtimeContext, buffer: &mut IoBuffer<'_>);
}

/// A type-erased view of a [`DriverInstance<T>`]: every method it
/// exposes, so a bridge can drive a driver without naming `T`.
pub trait AnyDriver {
    /// The current lifecycle state.
    spec fn lifecycle_state(&self) -> State;

    /// The current CFPlugIn reference count.
    spec fn reference_count(&self) -> u32;

    /// The driver's identity constants.
    spec fn identity(&self) -> DriverInfo;

    /// `true` iff `device` is a description the user's driver gives
    /// of the device it exposes.
    spec fn exposes(&self, device: DeviceSpec) -> bool;

    /// The cycle most recently handed to the user's driver, if any.
    spec fn last_cycle(&self) -> Option<CycleView>;

    /// CFPlugIn `IUnknown::AddRef`: the incremented count. The count
    /// must not already be `u32::MAX` (a runaway reference leak).
    fn add_ref(&mut self) -> (r: u32)
        requires
            old(self).reference_count() < u32::MAX,
        ensures
            r == old(self).reference_count() + 1,
            final(self).reference_count() == r,
            final(self).lifecycle_state() == old(self).lifecycle_state(),
    ;

    /// CFPlugIn `IUnknown::Release`: the decremented count. The count
    /// must be positive (releasing at zero is a release-after-free).
    fn release(&mut self) -> (r: u32)
        requires
            old(self).reference_count() > 0,
        ensures
            r == old(self).reference_count() - 1,
            final(self).reference_count() == r,
            final(self).lifecycle_state() == old(self).lifecycle_state(),
    ;

    /// Current CFPlugIn reference count.
    fn refcount(&self) -> (r: u32)
        ensures
            r == self.reference_count(),
    ;

    /// Current lifecycle [`State`].
    fn state(&self) -> (r: State)
        ensures
            r == self.lifecycle_state(),
    ;

    /// Lifecycle: `Uninitialized → Initialized`; outside
    /// `Uninitialized` an illegal operation that changes nothing, and
    /// on the user's failure a rollback to `Uninitialized`.
    fn initialize(&mut self) -> (r: Result<(), OsStatus>)
        ensures
            final(self).reference_count() == old(self).reference_count(),
            old(self).lifecycle_state() != State::Uninitialized ==> r == Err::<(), OsStatus>(illegal_operation())
                && final(self).lifecycle_state() == old(self).lifecycle_state(),
            old(self).lifecycle_state() == State::Uninitialized ==> (r is Ok ==> final(self).lifecycle_state()
                == State::Initialized) && (r is Err ==> final(self).lifecycle_state() == State::Uninitialized),
    ;

    /// Lifecycle: `Initialized → Running`; outside `Initialized` an
    /// illegal operation that changes nothing, and on the user's
    /// failure a rollback to `Initialized`.
    fn start_io(&mut self) -> (r: Result<(), OsStatus>)
        ensures
            final(self).reference_count() == old(self).reference_count(),
            old(self).lifecycle_state() != State::Initialized ==> r == Err::<(), OsStatus>(illegal_operation())
                && final(self).lifecycle_state() == old(self).lifecycle_state(),
            old(self).lifecycle_state() == State::Initialized ==> (r is Ok ==> final(self).lifecycle_state()
                == State::Running) && (r is Err ==> final(self).lifecycle_state() == State::Initialized),
    ;

    /// Lifecycle: `Running → Initialized`; outside `Running` an
    /// illegal operation that changes nothing.
    fn stop_io(&mut self) -> (r: Result<(), OsStatus>)
        ensures
            final(self).reference_count() == old(self).reference_count(),
            old(self).lifecycle_state() != State::Running ==> r == Err::<(), OsStatus>(illegal_operation())
                && final(self).lifecycle_state() == old(self).lifecycle_state(),
            old(self).lifecycle_state() == State::Running ==> r == Ok::<(), OsStatus>(())
                && final(self).lifecycle_state() == State::Initialized,
    ;

    /// Realtime: drive one IO cycle. Outside `Running` it fails with
    /// `kAudioHardwareNotRunningError` and leaves the buffer's output
    /// untouched; while running it succeeds, handing the cycle in
    /// `buffer` to the user's driver as it was given.
    fn process_io(&mut self, rt: &RealtimeContext, buffer: &mut IoBuffer<'_>) -> (r: Result<(), OsStatus>)
        ensures
            final(self).reference_count() == old(self).reference_count(),
            final(self).lifecycle_state() == old(self).lifecycle_state(),
            old(self).lifecycle_state() != State::Running ==> r == Err::<(), OsStatus>(not_running())
                && final(buffer).output@ == old(buffer).output@,
            old(self).lifecycle_state() == State::Running ==> r == Ok::<(), OsStatus>(()),
            old(self).lifecycle_state() == State::Running ==> final(self).last_cycle() == Some(
                cycle_view(*old(buffer)),
            ),
            old(self).lifecycle_state() != State::Running ==> final(self).last_cycle()
                == old(self).last_cycle(),
    ;

    /// The device this driver exposes.
    fn device(&self) -> (r: DeviceSpec)
        ensures
            self.exposes(r),
    ;

    /// The driver's identity constants.
    fn info(&self) -> (r: DriverInfo)
        ensures
            r == self.identity(),
    ;
}

/// `kAudioHardwareIllegalOperationError` (`'nope'`).
pub open spec fn illegal_operation() -> OsStatus {
    OsStatus(0x6E6F7065)
}

/// `kAudioHardwareNotRunningError` (`'stop'`).
pub open spec fn not_running() -> OsStatus {
    OsStatus(0x73746F70)
}

/// The framework-side wrapper around a user `T: Driver`: the user's
/// state, its lifecycle [`StateCell`], and its CFPlugIn
/// [`Refcount`].
pub struct DriverInstance<T: Driver> {
    inner: T,
    state: StateCell,
    refcount: Refcount,
    handed: Ghost<Option<CycleView>>,
}

impl<T: Driver> DriverInstance<T> {
    /// The current lifecycle state.
    pub closed spec fn spec_state(&self) -> State {
        self.state@
    }

    /// The current reference count.
    pub closed spec fn spec_refcount(&self) -> u32 {
        self.refcount@
    }

    /// The cycle most recently handed to the user's
    /// [`Driver::process_io`], if any.
    pub closed spec fn spec_last_cycle(&self) -> Option<CycleView> {
        self.handed@
    }

    /// A fresh instance in [`State::Uninitialized`] with CFPlugIn
    /// refcount 1, around a driver built by [`Driver::new`].
    pub fn new() -> (r: Self)
        ensures
            r.spec_state() == State::Uninitialized,
            r.spec_refcount() == 1,
    {
        DriverInstance {
            inner: T::new(),
            state: StateCell::new(),
            refcount: Refcount::new(),
            handed: Ghost(None),
        }
    }

    /// Current lifecycle [`State`].
    pub fn state(&self) -> (r: State)
        ensures
            r == self.spec_state(),
    {
        self.state.load()
    }

    /// Current CFPlugIn reference count.
    pub fn refcount(&self) -> (r: u32)
        ensures
            r == self.spec_refcount(),
    {
        self.refcount.count()
    }

    /// Increment the reference count, returning the new value.
    pub fn add_ref(&mut self) -> (r: u32)
        requires
            old(self).spec_refcount() < u32::MAX,
        ensures
            r == old(self).spec_refcount() + 1,
            final(self).spec_refcount() == r,
            final(self).spec_state() == old(self).spec_state(),
    {
        self.refcount.add_ref()
    }

    /// Decrement the reference count, returning the new value.
    pub fn release(&mut self) -> (r: u32)
        requires
            old(self).spec_refcount() > 0,
        ensures
            r == old(self).spec_refcount() - 1,
            final(self).spec_refcount() == r,
            final(self).spec_state() == old(self).spec_state(),
    {
        self.refcount.release()
    }

    /// Transition `Uninitialized → Initialized` and call
    /// [`Driver::initialize`] on the user.
    ///
    /// Outside `Uninitialized` this fails with
    /// `kAudioHardwareIllegalOperationError` and changes nothing.
    /// Otherwise the user's hook decides: on success the instance is
    /// `Initialized`; on failure the state machine rolls back to
    /// `Uninitialized`, so the HAL can retry, and the user's error is
    /// returned.
    pub fn initialize(&mut self) -> (r: Result<(), OsStatus>)
        ensures
            final(self).spec_refcount() == old(self).spec_refcount(),
            old(self).spec_state() != State::Uninitialized ==> r == Err::<(), OsStatus>(illegal_operation()) && final(self).spec_state() == old(self).spec_state(),
            old(self).spec_state() == State::Uninitialized ==> (r is Ok ==> final(self).spec_state() == State::Initialized) && (r is Err ==> final(self).spec_state()
                == State::Uninitialized),
    {
        if self.state.initialize().is_err() {
            return Err(OsStatus::ILLEGAL_OPERATION());
        }
        match self.inner.initialize() {
            Ok(()) => Ok(()),
            Err(status) => {
                let _ = self.state.reset();
                Err(status)
            },
        }
    }

    /// Transition `Initialized → Running` and call
    /// [`Driver::start_io`] on the user.
    ///
    /// Outside `Initialized` this fails with
    /// `kAudioHardwareIllegalOperationError` and changes nothing.
    /// Otherwise, on the user's success the instance is `Running`; on
    /// failure it rolls back to `Initialized` and the user's error is
    /// returned.
    pub fn start_io(&mut self) -> (r: Result<(), OsStatus>)
        ensures
            final(self).spec_refcount() == old(self).spec_refcount(),
            old(self).spec_state() != State::Initialized ==> r == Err::<(), OsStatus>(illegal_operation()) && final(self).spec_state() == old(self).spec_state(),
            old(self).spec_state() == State::Initialized ==> (r is Ok ==> final(self).spec_state()
                == State::Running) && (r is Err ==> final(self).spec_state() == State::Initialized),
    {
        if self.state.start().is_err() {
            return Err(OsStatus::ILLEGAL_OPERATION());
        }
        match self.inner.start_io() {
            Ok(()) => Ok(()),
            Err(status) => {
                let _ = self.state.stop();
                Err(status)
            },
        }
    }

    /// Call [`Driver::stop_io`] on the user and transition
    /// `Running → Initialized`.
    ///
    /// Outside `Running` this fails with
    /// `kAudioHardwareIllegalOperationError` and changes nothing.
    pub fn stop_io(&mut self) -> (r: Result<(), OsStatus>)
        ensures
            final(self).spec_refcount() == old(self).spec_refcount(),
            old(self).spec_state() != State::Running ==> r == Err::<(), OsStatus>(illegal_operation()) && final(self).spec_state() == old(self).spec_state(),
            old(self).spec_state() == State::Running ==> r == Ok::<(), OsStatus>(()) && final(self).spec_state() == State::Initialized,
    {
        if !self.state.is_running() {
            return Err(OsStatus::ILLEGAL_OPERATION());
        }
        self.inner.stop_io();
        if self.state.stop().is_err() {
            return Err(OsStatus::ILLEGAL_OPERATION());
        }
        Ok(())
    }

    /// Forward one IO cycle into the user's [`Driver::process_io`].
    ///
    /// Outside `Running` this fails with
    /// `kAudioHardwareNotRunningError` and leaves the buffer
    /// untouched.
    pub fn process_io(&mut self, rt: &RealtimeContext, buffer: &mut IoBuffer<'_>) -> (r: Result<
        (),
        OsStatus,
    >)
        ensures
            final(self).spec_refcount() == old(self).spec_refcount(),
            final(self).spec_state() == old(self).spec_state(),
            old(self).spec_state() != State::Running ==> r == Err::<(), OsStatus>(not_running())
                && final(buffer).output@ == old(buffer).output@,
            old(self).spec_state() == State::Running ==> r == Ok::<(), OsStatus>(()),
            old(self).spec_state() == State::Running ==> final(self).spec_last_cycle() == Some(
                cycle_view(*old(buffer)),
            ),
            old(self).spec_state() != State::Running ==> final(self).spec_last_cycle()
                == old(self).spec_last_cycle(),
    {
        if !self.state.is_running() {
            return Err(OsStatus::NOT_RUNNING());
        }
        self.hand_over(rt, buffer);
        Ok(())
    }

    /// Hand the cycle in `buffer` to the user's
    /// [`Driver::process_io`], recording what was handed over.
    fn hand_over(&mut self, rt: &RealtimeContext, buffer: &mut IoBuffer<'_>)
        ensures
            final(self).spec_last_cycle() == Some(cycle_view(*old(buffer))),
            final(self).spec_state() == old(self).spec_state(),
            final(self).spec_refcount() == old(self).spec_refcount(),
    {
        self.handed = Ghost(Some(cycle_view(*buffer)));
        self.inner.process_io(rt, buffer);
    }

    /// The user's driver value.
    pub closed spec fn spec_user(&self) -> T {
        self.inner
    }

    /// A shared view of the user's driver value.
    pub fn user(&self) -> (r: &T)
        ensures
            *r == self.spec_user(),
    {
        &self.inner
    }

    /// The device the user driver exposes (`T::device`).
    pub fn device(&self) -> (r: DeviceSpec)
        ensures
            call_ensures(T::device, (&self.spec_user(),), r),
    {
        self.inner.device()
    }

    /// The driver's identity constants.
    pub fn info(&self) -> (r: DriverInfo)
        ensures
            r == (DriverInfo { name: T::NAME, manufacturer: T::MANUFACTURER, version: T::VERSION }),
    {
        DriverInfo::of::<T>()
    }
}

impl<T: Driver> Default for DriverInstance<T> {
    fn default() -> (r: Self)
        ensures
            r.spec_state() == State::Uninitialized,
            r.spec_refcount() == 1,
    {
        Self::new()
    }
}

impl<T: Driver> AnyDriver for DriverInstance<T> {
    open spec fn lifecycle_state(&self) -> State {
        self.spec_state()
    }

    open spec fn reference_count(&self) -> u32 {
        self.spec_refcount()
    }

    open spec fn identity(&self) -> DriverInfo {
        DriverInfo { name: T::NAME, manufacturer: T::MANUFACTURER, version: T::VERSION }
    }

    open spec fn last_cycle(&self) -> Option<CycleView> {
        self.spec_last_cycle()
    }

    open spec fn exposes(&self, device: DeviceSpec) -> bool {
        call_ensures(T::device, (&self.spec_user(),), device)
    }

    fn add_ref(&mut self) -> u32 {
        DriverInstance::add_ref(self)
    }

    fn release(&mut self) -> u32 {
        DriverInstance::release(self)
    }

    fn refcount(&self) -> u32 {
        DriverInstance::refcount(self)
    }

    fn state(&self) -> State {
        DriverInstance::state(self)
    }

    fn initialize(&mut self) -> Result<(), OsStatus> {
        DriverInstance::initialize(self)
    }

    fn start_io(&mut self) -> Result<(), OsStatus> {
        DriverInstance::start_io(self)
    }

    fn stop_io(&mut self) -> Result<(), OsStatus> {
        DriverInstance::stop_io(self)
    }

    fn process_io(&mut self, rt: &RealtimeContext, buffer: &mut IoBuffer<'_>) -> Result<(), OsStatus> {
        DriverInstance::process_io(self, rt, buffer)
    }

    fn device(&self) -> DeviceSpec {
        DriverInstance::device(self)
    }

    fn info(&self) -> DriverInfo {
        DriverInstance::info(self)
    }
}

/// The lifecycle law: from `Uninitialized`, a successful
/// `initialize`, `start_io`, `stop_io` sequence ends in
/// `Initialized`, and from there start/stop may repeat.
pub proof fn lemma_lifecycle_round_trip(s0: State, s1: State, s2: State, s3: State)
    requires
        s0 == State::Uninitialized,
        s1 == crate::realtime::state::transition_state(s0, State::Uninitialized, State::Initialized),
        s2 == crate::realtime::state::transition_state(s1, State::Initialized, State::Running),
        s3 == crate::realtime::state::transition_state(s2, State::Running, State::Initialized),
    ensures
        s1 == State::Initialized,
        s2 == State::Running,
        s3 == State::Initialized,
        crate::realtime::state::transition_state(s3, State::Initialized, State::Running)
            == State::Running,
{
}

} // verus!
