//! Decisions of the keyboard hot-plug loops.
//!
//! The loops themselves (rescanning handles, opening protocols, running the
//! caller's hooks) are firmware work and stay with the caller; what they do on
//! each pass is decided here.
use vstd::prelude::*;

verus! {

/// How plugged-in keyboards are noticed.
#[derive(Clone, Copy, Debug, PartialEq, Eq, Structural)]
pub enum HotplugMode {
    /// A protocol-install notification sets a dirty flag; the keyboard list is
    /// rebuilt only when the flag is set.
    Notify,
    /// The keyboard list is rebuilt on every pass, from all handles.
    Polling,
}

/// Which handles a rescan opens the input protocol on.
#[derive(Clone, Copy, Debug, PartialEq, Eq, Structural)]
pub enum SearchScope {
    /// The handles that carry the extended input protocol.
    ByProtocol,
    /// Every handle: some are the system's console input, some physical keyboards.
    AllHandles,
}

/// The work of one pass of a hot-plug loop, in this order: clear the dirty flag,
/// rescan, run the update hook on every keyboard, run the tick hook on every
/// keyboard. Passes follow one another until a hook fails.
#[derive(Clone, Copy, Debug, PartialEq, Eq, Structural)]
pub struct Pass {
    /// Reset the dirty flag before the rescan, so that a (un)plug during the
    /// rescan is not missed.
    pub clear_dirty: bool,
    /// Drop all open keyboards and open them again on these handles.
    pub rescan: Option<SearchScope>,
    /// Run the update hook after the rescan.
    pub run_update: bool,
    /// Run the tick hook.
    pub run_tick: bool,
}

/// The handles that the first scan, before the init hook, opens.
pub fn initial_scan(mode: HotplugMode) -> (scope: SearchScope)
    ensures
        scope == (match mode {
            HotplugMode::Notify => SearchScope::ByProtocol,
            HotplugMode::Polling => SearchScope::AllHandles,
        }),
{
    match mode {
        HotplugMode::Notify => SearchScope::ByProtocol,
        HotplugMode::Polling => SearchScope::AllHandles,
    }
}

/// The work of one pass, given whether a notification arrived since the last
/// rescan.
pub fn plan_pass(mode: HotplugMode, dirty: bool) -> (p: Pass)
    ensures
        p.run_tick,
        p.run_update == p.rescan is Some,
        match mode {
            HotplugMode::Notify => {
                &&& p.clear_dirty == dirty
                &&& p.rescan == (if dirty { Some(SearchScope::ByProtocol) } else { None::<SearchScope> })
            },
            HotplugMode::Polling => {
                &&& !p.clear_dirty
                &&& p.rescan == Some(SearchScope::AllHandles)
            },
        },
{
    match mode {
        HotplugMode::Notify => {
            if dirty {
                Pass {
                    clear_dirty: true,
                    rescan: Some(SearchScope::ByProtocol),
                    run_update: true,
                    run_tick: true,
                }
            } else {
                Pass { clear_dirty: false, rescan: None, run_update: false, run_tick: true }
            }
        },
        HotplugMode::Polling => Pass {
            clear_dirty: false,
            rescan: Some(SearchScope::AllHandles),
            run_update: true,
            run_tick: true,
        },
    }
}

} // verus!
