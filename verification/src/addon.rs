//! Bring-up of the native dialog addon.
//!
//! The native layer may be initialised once in a process, and a thread may
//! hold one [`DialogAddon`] at most. Two flags record this: one for the
//! process, one for each thread. An acquisition reads and writes them while
//! the caller holds the lock of the runtime, so acquisitions happen one after
//! another, in some order, over the whole process.
//!
//! The decision is made here; initialising the native layer is the caller's
//! part. [`DialogAddon::init`] takes the native initialisation as a function
//! and calls it only where the process is not initialised yet.
//! [`DialogAddon::begin_init`] and [`DialogAddon::finish_init`] are its two
//! halves, for a caller that makes the native call itself.

use vstd::prelude::*;
use std::marker::PhantomData;
use std::rc::Rc;

verus! {

/// Why an acquisition failed.
#[derive(Clone, Copy, Debug, PartialEq, Eq, Structural)]
pub enum InitError {
    /// The calling thread holds an addon already.
    AlreadyAcquiredOnThread,
    /// The native layer refused to initialise.
    InitializationFailed,
}

impl InitError {
    /// The text of the error.
    pub open spec fn text(self) -> Seq<char> {
        match self {
            InitError::AlreadyAcquiredOnThread =>
                "The dialog addon has already been acquired on this thread."@,
            InitError::InitializationFailed => "Could not initialize the dialog addon."@,
        }
    }

    /// Describes the error to a reader.
    pub fn message(&self) -> (msg: String)
        ensures
            msg@ == self.text(),
    {
        match self {
            InitError::AlreadyAcquiredOnThread =>
                "The dialog addon has already been acquired on this thread.".to_owned(),
            InitError::InitializationFailed => "Could not initialize the dialog addon.".to_owned(),
        }
    }
}

/// The two flags, as the calling thread sees them while it holds the lock.
#[derive(Clone, Copy, Debug, PartialEq, Eq, Structural)]
pub struct AddonState {
    /// The native layer has been initialised in this process.
    pub initialized: bool,
    /// The calling thread has acquired an addon.
    pub spawned_on_this_thread: bool,
}

impl AddonState {
    /// A thread acquires only in an initialised process.
    pub open spec fn wf(self) -> bool {
        self.spawned_on_this_thread ==> self.initialized
    }

    /// Both flags set: the state after every successful acquisition.
    pub open spec fn acquired() -> AddonState {
        AddonState { initialized: true, spawned_on_this_thread: true }
    }

    /// What an acquisition in an initialised process comes to. The native
    /// layer is not consulted.
    pub open spec fn join(self) -> Result<(), InitError> {
        if self.spawned_on_this_thread {
            Err(InitError::AlreadyAcquiredOnThread)
        } else {
            Ok(())
        }
    }

    /// What the native initialisation reported: zero is a refusal.
    pub open spec fn bring_up(native: u8) -> Result<(), InitError> {
        if native != 0 {
            Ok(())
        } else {
            Err(InitError::InitializationFailed)
        }
    }

    /// What an acquisition comes to, where `native` is what the native
    /// initialisation returns if it is called. It is called exactly where the
    /// process is not initialised.
    pub open spec fn verdict(self, native: u8) -> Result<(), InitError> {
        if self.initialized {
            self.join()
        } else {
            Self::bring_up(native)
        }
    }

    /// The flags after an acquisition that came to `verdict`: both set after
    /// a success, unchanged after a failure.
    pub open spec fn settle(self, verdict: Result<(), InitError>) -> AddonState {
        if verdict is Ok {
            Self::acquired()
        } else {
            self
        }
    }

    /// Whether no flag that is set in `earlier` is clear in `self`. No flag
    /// is ever cleared: the native layer is not shut down, and a thread that
    /// has acquired an addon does not acquire another, even after it has
    /// dropped the first.
    pub open spec fn rises_from(self, earlier: AddonState) -> bool {
        &&& earlier.initialized ==> self.initialized
        &&& earlier.spawned_on_this_thread ==> self.spawned_on_this_thread
    }

    /// The flags of a thread that has not acquired, in a process that has not
    /// initialised the native layer.
    pub fn new() -> (state: AddonState)
        ensures
            state == (AddonState { initialized: false, spawned_on_this_thread: false }),
            state.wf(),
    {
        AddonState { initialized: false, spawned_on_this_thread: false }
    }
}

/// The right to use the dialog functions on the thread that acquired it.
///
/// It cannot be sent to another thread, nor shared with one.
#[derive(Debug)]
pub struct DialogAddon {
    no_send_marker: PhantomData<Rc<()>>,
}

/// What is left of a result once the addon itself is set aside.
pub open spec fn verdict_of(result: Result<DialogAddon, InitError>) -> Result<(), InitError> {
    match result {
        Ok(_) => Ok(()),
        Err(e) => Err(e),
    }
}

/// What [`DialogAddon::begin_init`] asks of its caller.
#[derive(Debug)]
pub enum InitStep {
    /// Initialise the native layer, then call [`DialogAddon::finish_init`]
    /// with what it returned.
    CallNative,
    /// The acquisition is over.
    Done(Result<DialogAddon, InitError>),
}

impl DialogAddon {
    /// Starts an acquisition. In an initialised process it is over at once;
    /// else the native layer has to be initialised, and the flags stay as
    /// they are until [`DialogAddon::finish_init`].
    pub fn begin_init(state: &mut AddonState) -> (step: InitStep)
        ensures
            !old(state).initialized ==> step is CallNative && *final(state) == *old(state),
            old(state).initialized ==> step is Done && verdict_of(step->Done_0) == old(state).join()
                && *final(state) == old(state).settle(old(state).join()),
            old(state).wf() ==> final(state).wf(),
            final(state).rises_from(*old(state)),
    {
        if state.initialized {
            InitStep::Done(Self::finish_init(state, 0))
        } else {
            InitStep::CallNative
        }
    }

    /// Concludes an acquisition, given what the native initialisation
    /// returned. In an initialised process `native` is not read.
    pub fn finish_init(state: &mut AddonState, native: u8) -> (result: Result<
        DialogAddon,
        InitError,
    >)
        ensures
            verdict_of(result) == old(state).verdict(native),
            *final(state) == old(state).settle(old(state).verdict(native)),
            old(state).wf() ==> final(state).wf(),
            final(state).rises_from(*old(state)),
    {
        if state.initialized {
            if state.spawned_on_this_thread {
                Err(InitError::AlreadyAcquiredOnThread)
            } else {
                state.spawned_on_this_thread = true;
                Ok(DialogAddon { no_send_marker: PhantomData })
            }
        } else {
            if native != 0 {
                state.initialized = true;
                state.spawned_on_this_thread = true;
                Ok(DialogAddon { no_send_marker: PhantomData })
            } else {
                Err(InitError::InitializationFailed)
            }
        }
    }

    /// Acquires the addon for the calling thread.
    ///
    /// `native_init` initialises the native layer and returns zero if that
    /// failed. It is called only where the process is not initialised.
    pub fn init<F>(state: &mut AddonState, native_init: F) -> (result: Result<
        DialogAddon,
        InitError,
    >) where F: FnOnce() -> u8
        requires
            !old(state).initialized ==> call_requires(native_init, ()),
        ensures
            exists|native: u8|
                {
                    &&& !old(state).initialized ==> call_ensures(native_init, (), native)
                    &&& verdict_of(result) == #[trigger] old(state).verdict(native)
                    &&& *final(state) == old(state).settle(old(state).verdict(native))
                },
            old(state).wf() ==> final(state).wf(),
            final(state).rises_from(*old(state)),
    {
        match Self::begin_init(state) {
            InitStep::Done(result) => {
                assert(old(state).verdict(0) == old(state).join());
                result
            },
            InitStep::CallNative => {
                let native = native_init();
                Self::finish_init(state, native)
            },
        }
    }

    /// The version of the native dialog layer, from the word in which the
    /// native layer reports it: the same 32 bits, read as a signed number.
    pub fn get_version(native_version: u32) -> (version: i32)
        ensures
            version == signed_word(native_version),
    {
        proof {
            lemma_signed_word(native_version);
        }
        native_version as i32
    }
}

/// The 32 bits of `word`, read as a signed number.
pub open spec fn signed_word(word: u32) -> int {
    if word < 0x8000_0000 {
        word as int
    } else {
        word - 0x1_0000_0000
    }
}

/// The cast from `u32` to `i32` keeps the bits.
pub proof fn lemma_signed_word(word: u32)
    ensures
        word as i32 == signed_word(word),
{
    assert(word < 0x8000_0000u32 ==> word as i32 == word) by (bit_vector);
    assert(word >= 0x8000_0000u32 ==> word as i32 == word - 0x1_0000_0000) by (bit_vector);
}

} // verus!
