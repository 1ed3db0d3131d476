use crate::backend::NativeHidApi;
use crate::error::{HidError, HidResult};
use vstd::prelude::*;

verus! {

/// Whether the platform library has been initialised, and in which mode.
///
/// A process keeps one such state: it only ever moves from `NotInit` to
/// `Init`, and the mode it was initialised in is the only one it accepts.
#[derive(Clone, Copy, Debug, PartialEq, Eq, Structural)]
pub enum InitState {
    NotInit,
    Init { enumerate: bool },
}

/// A request for initialisation in mode `do_enumerate` is consistent with `s`.
pub open spec fn init_allows(s: InitState, do_enumerate: bool) -> bool {
    match s {
        InitState::NotInit => true,
        InitState::Init { enumerate } => enumerate == do_enumerate,
    }
}

impl InitState {
    /// Whether a request for mode `do_enumerate` is consistent with this state.
    /// An inconsistent request is a misuse of the process: callers halt on it.
    pub fn allows(&self, do_enumerate: bool) -> (r: bool)
        ensures
            r == init_allows(*self, do_enumerate),
    {
        match *self {
            InitState::NotInit => true,
            InitState::Init { enumerate } => enumerate == do_enumerate,
        }
    }

    /// Records the status that the library's initialisation returned: -1 on failure.
    pub fn record_init(&mut self, do_enumerate: bool, status: i32) -> (r: HidResult<()>)
        requires
            *old(self) == InitState::NotInit,
        ensures
            status == -1 ==> (r matches Err(e) && e is InitializationError && *final(self)
                == InitState::NotInit),
            status != -1 ==> (r is Ok && *final(self) == InitState::Init {
                enumerate: do_enumerate,
            }),
    {
        if status == -1 {
            Err(HidError::InitializationError)
        } else {
            *self = InitState::Init { enumerate: do_enumerate };
            Ok(())
        }
    }
}

/// Initialises the platform library once: the first request runs its
/// initialisation, later ones in the same mode find it done.
pub fn lazy_init<B: NativeHidApi>(native: &B, state: &mut InitState, do_enumerate: bool) -> (r:
    HidResult<()>)
    requires
        init_allows(*old(state), do_enumerate),
    ensures
        (*old(state)) is Init ==> (r is Ok && *final(state) == *old(state)),
        (*old(state)) is NotInit ==> ((r is Ok && *final(state) == InitState::Init {
            enumerate: do_enumerate,
        }) || (r matches Err(e) && e is InitializationError && *final(state)
            == InitState::NotInit)),
{
    match *state {
        InitState::NotInit => {
            let status = native.init(do_enumerate);
            state.record_init(do_enumerate, status)
        },
        InitState::Init { .. } => Ok(()),
    }
}

/// Once the library is initialised in one mode, a request in that mode is
/// consistent with the state and one in the other mode is not.
pub proof fn lemma_init_mode_is_fixed(s: InitState, mode: bool)
    requires
        s == (InitState::Init { enumerate: mode }),
    ensures
        init_allows(s, mode),
        !init_allows(s, !mode),
{
}

} // verus!
