//! The global flags record: the pause flag and the service's bookkeeping
//! cursors.

use vstd::prelude::*;

verus! {

/// The global flags as a mathematical value.
pub struct FlagsState {
    pub paused: bool,
    pub logging_initialized: bool,
    pub log_index: u64,
    pub trace_index: u64,
    pub user_page_end: u64,
}

/// The global flags record.
#[derive(Clone, Copy, Debug)]
pub struct GlobalFlags {
    paused: bool,
    logging_initialized: bool,
    log_index: u64,
    trace_index: u64,
    user_page_end: u64,
}

impl View for GlobalFlags {
    type V = FlagsState;

    closed spec fn view(&self) -> FlagsState {
        FlagsState {
            paused: self.paused,
            logging_initialized: self.logging_initialized,
            log_index: self.log_index,
            trace_index: self.trace_index,
            user_page_end: self.user_page_end,
        }
    }
}

impl FlagsState {
    /// The flags of a freshly initialized service.
    pub open spec fn init(user_page_end: u64) -> FlagsState {
        FlagsState {
            paused: false,
            logging_initialized: false,
            log_index: 0,
            trace_index: 0,
            user_page_end,
        }
    }
}

impl GlobalFlags {
    /// Rebuilds the record from its stored fields.
    pub fn from_parts(
        paused: bool,
        logging_initialized: bool,
        log_index: u64,
        trace_index: u64,
        user_page_end: u64,
    ) -> (flags: GlobalFlags)
        ensures
            flags@ == (FlagsState {
                paused,
                logging_initialized,
                log_index,
                trace_index,
                user_page_end,
            }),
    {
        GlobalFlags { paused, logging_initialized, log_index, trace_index, user_page_end }
    }

    pub fn paused(&self) -> (r: bool)
        ensures
            r == self@.paused,
    {
        self.paused
    }

    pub fn logging_initialized(&self) -> (r: bool)
        ensures
            r == self@.logging_initialized,
    {
        self.logging_initialized
    }

    pub fn log_index(&self) -> (r: u64)
        ensures
            r == self@.log_index,
    {
        self.log_index
    }

    pub fn trace_index(&self) -> (r: u64)
        ensures
            r == self@.trace_index,
    {
        self.trace_index
    }

    /// Sets the pause flag and nothing else.
    pub(crate) fn set_paused(&mut self, paused: bool)
        ensures
            final(self)@ == (FlagsState { paused, ..old(self)@ }),
    {
        self.paused = paused;
    }
}

/// The flags of a freshly initialized service: not paused, logging not yet
/// set up, both cursors at zero.
pub fn global_flags_init(user_page_end: u64) -> (flags: GlobalFlags)
    ensures
        flags@ == FlagsState::init(user_page_end),
{
    GlobalFlags {
        paused: false,
        logging_initialized: false,
        log_index: 0,
        trace_index: 0,
        user_page_end,
    }
}

/// The page at which the embedding service's own memory ends, as
/// configured when the service was set up.
pub fn get_config_user_page_end(flags: &GlobalFlags) -> (r: u64)
    ensures
        r == flags@.user_page_end,
{
    flags.user_page_end
}

} // verus!
