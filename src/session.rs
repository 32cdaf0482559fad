//! Shared state of the sensors backend: the record that lets at most one
//! library instance be live, and the slot that routes the backend's error
//! reports to a listener.

use crate::errors::{Error, IoErrorKind};
use vstd::prelude::*;

verus! {

/// Name of the backend procedure that initializes the library.
pub const SENSORS_INIT: &'static str = "sensors_init()";

/// Whether a library instance is live.
#[derive(Debug)]
pub struct InitState {
    live: bool,
}

impl InitState {
    /// An instance is live.
    pub closed spec fn spec_live(&self) -> bool {
        self.live
    }

    /// What asking to start an instance answers: a refusal while one is live.
    pub open spec fn begin_result(live: bool) -> Result<(), Error> {
        if live {
            Err(Error::IO { operation: SENSORS_INIT, kind: IoErrorKind::AlreadyExists })
        } else {
            Ok(())
        }
    }

    /// Return a gate with no live instance.
    pub fn new() -> (r: InitState)
        ensures
            !r.spec_live(),
    {
        InitState { live: false }
    }

    /// Return whether an instance is live.
    pub fn is_live(&self) -> (r: bool)
        ensures
            r == self.spec_live(),
    {
        self.live
    }

    /// Ask to start an instance. It is refused, as already existing, while
    /// one is live.
    pub fn begin(&self) -> (r: Result<(), Error>)
        ensures
            r == InitState::begin_result(self.spec_live()),
    {
        if self.live {
            Err(Error::from_io(SENSORS_INIT, IoErrorKind::AlreadyExists))
        } else {
            Ok(())
        }
    }

    /// Record the status that the backend's initialization returned, which
    /// it describes as `description`: zero makes the instance live, any other
    /// status is an error and leaves no instance live.
    pub fn finish(&mut self, status: i32, description: String) -> (r: Result<(), Error>)
        requires
            status != i32::MIN,
        ensures
            status == 0 ==> r is Ok && final(self).spec_live(),
            status != 0 ==> !final(self).spec_live() && r == Err::<(), Error>(
                Error::LMSensors {
                    operation: SENSORS_INIT,
                    number: (if status < 0 { -status } else { status as int }) as i32,
                    description,
                },
            ),
    {
        if status == 0 {
            self.live = true;
            Ok(())
        } else {
            self.live = false;
            Err(Error::from_lm_sensors(SENSORS_INIT, status, description))
        }
    }

    /// Record that the live instance was released.
    pub fn release(&mut self)
        ensures
            !final(self).spec_live(),
    {
        self.live = false;
    }
}

/// While an instance is live, a second initialization is refused as already
/// existing; once the instance is released, initialization is accepted
/// again, and a successful one makes an instance live.
pub proof fn lemma_single_live_instance(live: InitState, released: InitState)
    requires
        live.spec_live(),
        !released.spec_live(),
    ensures
        InitState::begin_result(live.spec_live()) == Err::<(), Error>(
            Error::IO { operation: SENSORS_INIT, kind: IoErrorKind::AlreadyExists },
        ),
        InitState::begin_result(released.spec_live()) is Ok,
{
}

/// What a library instance keeps to put the listener slot back as it found it.
#[derive(Debug)]
pub struct Reporter<L> {
    previous: Option<L>,
}

impl<L> Reporter<L> {
    /// The listener that was installed before this instance's own.
    pub closed spec fn spec_previous(&self) -> Option<L> {
        self.previous
    }
}

/// The slot holding the listener of the backend's error reports; an empty
/// slot routes reports to the default listener.
#[derive(Debug)]
pub struct ListenerSlot<L> {
    current: Option<L>,
}

impl<L> ListenerSlot<L> {
    /// The installed listener, if any.
    pub closed spec fn spec_current(&self) -> Option<L> {
        self.current
    }

    /// Return an empty slot, routing to the default listener.
    pub fn new() -> (r: ListenerSlot<L>)
        ensures
            r.spec_current() is None,
    {
        ListenerSlot { current: None }
    }

    /// Install `listener` (none for the default one), and return what is
    /// needed to restore the slot.
    pub fn install(&mut self, listener: Option<L>) -> (r: Reporter<L>)
        ensures
            final(self).spec_current() == listener,
            r.spec_previous() == old(self).spec_current(),
    {
        let previous = self.current.take();
        self.current = listener;
        Reporter { previous }
    }

    /// Put back the listener that was installed before `reporter` was made,
    /// and return the one that is removed.
    pub fn restore(&mut self, reporter: Reporter<L>) -> (r: Option<L>)
        ensures
            final(self).spec_current() == reporter.spec_previous(),
            r == old(self).spec_current(),
    {
        let removed = self.current.take();
        self.current = reporter.previous;
        removed
    }

    /// Return whether reports go to the default listener.
    pub fn routes_to_default(&self) -> (r: bool)
        ensures
            r == self.spec_current() is None,
    {
        self.current.is_none()
    }

    /// Return the installed listener, if any.
    pub fn current(&self) -> (r: Option<&L>)
        ensures
            r matches Some(l) ==> self.spec_current() == Some(*l),
            r is None <==> self.spec_current() is None,
    {
        match &self.current {
            Some(l) => Some(l),
            None => None,
        }
    }
}

/// Installing a listener and then restoring the slot with the reporter that
/// the installation returned leaves the slot as it was; a slot that routed
/// to the default listener routes to it again, and the restoring hands back
/// the listener that was installed.
pub proof fn lemma_install_then_restore<L>(
    before: ListenerSlot<L>,
    listener: Option<L>,
    installed: ListenerSlot<L>,
    reporter: Reporter<L>,
    after: ListenerSlot<L>,
    removed: Option<L>,
)
    requires
        installed.spec_current() == listener,
        reporter.spec_previous() == before.spec_current(),
        after.spec_current() == reporter.spec_previous(),
        removed == installed.spec_current(),
    ensures
        after.spec_current() == before.spec_current(),
        before.spec_current() is None ==> after.spec_current() is None,
        removed == listener,
{
}

} // verus!
