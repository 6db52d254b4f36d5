//! TTY bridge capability: terminal echo / line-buffering state for a guest's
//! pseudo-console, kept behind an internal lock so that several execution
//! sessions may query and mutate it concurrently.

use vstd::prelude::*;
use vstd::rwlock::RwLock;

verus! {

/// Terminal state of a guest pseudo-console: whether input is echoed back,
/// whether input is delivered line by line, and whether line feeds are
/// emitted on output.
#[derive(Clone, Copy, PartialEq, Eq, Structural, Debug)]
pub struct WasiTtyState {
    pub echo: bool,
    pub line_buffered: bool,
    pub line_feeds: bool,
}

impl WasiTtyState {
    /// The state a reset forces: all three flags cleared.
    pub open spec fn cleared_spec() -> WasiTtyState {
        WasiTtyState { echo: false, line_buffered: false, line_feeds: false }
    }

    /// What a whole-state write leaves in the bridge: exactly the written
    /// state, with no field of the prior state surviving.
    pub open spec fn set_spec(prior: WasiTtyState, written: WasiTtyState) -> WasiTtyState {
        written
    }

    /// What a read observes of a stored state: the stored state itself.
    pub open spec fn get_spec(stored: WasiTtyState) -> WasiTtyState {
        stored
    }

    /// Executable counterpart of [`WasiTtyState::cleared_spec`].
    pub fn cleared() -> (r: WasiTtyState)
        ensures
            r == WasiTtyState::cleared_spec(),
    {
        WasiTtyState { echo: false, line_buffered: false, line_feeds: false }
    }

    /// Clear all three flags: whatever the prior state, the result is the
    /// cleared state.
    pub fn reset(&mut self)
        ensures
            *final(self) == WasiTtyState::cleared_spec(),
    {
        *self = WasiTtyState::cleared();
    }
}

impl Default for WasiTtyState {
    /// A bridge starts out with every flag cleared.
    fn default() -> (r: Self)
        ensures
            r == WasiTtyState::cleared_spec(),
    {
        WasiTtyState::cleared()
    }
}

/// Resetting is deterministic and idempotent: the cleared state does not
/// depend on the prior state, and clearing a cleared state changes nothing.
pub proof fn lemma_reset_deterministic_idempotent(prior: WasiTtyState)
    ensures
        WasiTtyState::set_spec(prior, WasiTtyState::cleared_spec()) == WasiTtyState::cleared_spec(),
        WasiTtyState::set_spec(
            WasiTtyState::cleared_spec(),
            WasiTtyState::cleared_spec(),
        ) == WasiTtyState::cleared_spec(),
{
}

/// Round-trip law: writing a whole state `written` over any prior state and
/// immediately reading yields exactly `written` — no field mixing between the
/// prior and the written state is possible, because writes replace the whole
/// state.
pub proof fn lemma_set_get_round_trip(prior: WasiTtyState, written: WasiTtyState)
    ensures
        WasiTtyState::get_spec(WasiTtyState::set_spec(prior, written)) == written,
{
}

/// Operation set of a TTY capability provider.  Embedders may implement this
/// for a concrete terminal backend; [`DefaultTty`] is the in-memory default.
pub trait TtyBridge {
    /// Force the terminal state back to the cleared state.
    fn reset(&self);

    /// Read a consistent snapshot of the whole terminal state.
    fn tty_get(&self) -> WasiTtyState;

    /// Atomically replace the whole terminal state.
    fn tty_set(&self, tty_state: WasiTtyState);
}

/// The default in-memory TTY bridge: a whole-state record behind a lock, so
/// concurrent readers and writers never observe a torn state.
pub struct DefaultTty {
    state: RwLock<WasiTtyState, spec_fn(WasiTtyState) -> bool>,
}

impl DefaultTty {
    /// Every state is a legal resting state for the lock.
    pub open spec fn lock_pred() -> spec_fn(WasiTtyState) -> bool {
        |s: WasiTtyState| true
    }

    /// The lock of every bridge was built with [`DefaultTty::lock_pred`].
    #[verifier::type_invariant]
    spec fn wf(self) -> bool {
        self.state.pred() == DefaultTty::lock_pred()
    }

    /// A fresh bridge, holding the cleared state.
    pub fn new() -> (r: DefaultTty) {
        DefaultTty { state: RwLock::new(WasiTtyState::cleared(), Ghost(DefaultTty::lock_pred())) }
    }
}

impl Default for DefaultTty {
    fn default() -> (r: Self) {
        DefaultTty::new()
    }
}

impl TtyBridge for DefaultTty {
    fn reset(&self) {
        proof {
            use_type_invariant(self);
        }
        let (mut state, handle) = self.state.acquire_write();
        state.reset();
        handle.release_write(state);
    }

    fn tty_get(&self) -> (r: WasiTtyState) {
        let read_handle = self.state.acquire_read();
        let snapshot: WasiTtyState = *read_handle.borrow();
        read_handle.release_read();
        snapshot
    }

    fn tty_set(&self, tty_state: WasiTtyState) {
        proof {
            use_type_invariant(self);
        }
        let (_prior, handle) = self.state.acquire_write();
        handle.release_write(tty_state);
    }
}

} // verus!
