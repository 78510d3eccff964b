//! The capability interface through which a guest reaches the host: bus,
//! networking, threads, terminal state and process identity. Every
//! capability defaults to the most restrictive behaviour.

use crate::thread_id::WasiThreadId;
use std::sync::atomic::{AtomicU32, Ordering};
use vstd::prelude::*;
use vstd::std_specs::convert::FromSpecImpl;

verus! {

/// The errno reported to a guest that asks for something the host does not
/// support.
pub const WASI_ENOTSUP: u16 = 58;

/// The errno reported to a guest that passes an invalid argument.
pub const WASI_EINVAL: u16 = 28;

/// Why a thread operation failed.
#[derive(Debug, Clone, Copy, PartialEq, Eq, Structural)]
pub enum WasiThreadError {
    /// The runtime does not support multithreading.
    Unsupported,
    /// The method named is not an exported function.
    MethodNotFound,
}

impl WasiThreadError {
    /// The errno that the guest sees for this error.
    pub open spec fn spec_errno(self) -> u16 {
        match self {
            WasiThreadError::Unsupported => WASI_ENOTSUP,
            WasiThreadError::MethodNotFound => WASI_EINVAL,
        }
    }

    /// The text that describes this error.
    pub open spec fn spec_message(self) -> Seq<char> {
        match self {
            WasiThreadError::Unsupported => "Multithreading is not supported"@,
            WasiThreadError::MethodNotFound => "The method named is not an exported function"@,
        }
    }

    /// The text that describes this error.
    pub fn message(&self) -> (text: String)
        ensures
            text@ == self.spec_message(),
    {
        match self {
            WasiThreadError::Unsupported => "Multithreading is not supported".to_owned(),
            WasiThreadError::MethodNotFound => {
                "The method named is not an exported function".to_owned()
            },
        }
    }
}

impl From<WasiThreadError> for u16 {
    fn from(error: WasiThreadError) -> (errno: u16)
    {
        match error {
            WasiThreadError::Unsupported => WASI_ENOTSUP,
            WasiThreadError::MethodNotFound => WASI_EINVAL,
        }
    }
}

impl FromSpecImpl<WasiThreadError> for u16 {
    open spec fn obeys_from_spec() -> bool {
        true
    }

    open spec fn from_spec(error: WasiThreadError) -> u16 {
        error.spec_errno()
    }
}

/// Why guest execution stopped short.
#[derive(Debug, Clone, Copy, PartialEq, Eq, Structural)]
pub enum WasiError {
    /// The guest asked to exit with this code.
    Exit(u32),
    /// The module asks for a version of the interface that is not known.
    UnknownWasiVersion,
}

/// A snapshot of the terminal: its geometry and its modes. It is replaced as
/// a whole, never updated in part.
#[derive(Debug, Clone, Copy, PartialEq, Eq, PartialOrd, Ord, Structural)]
pub struct WasiTtyState {
    pub cols: u32,
    pub rows: u32,
    pub width: u32,
    pub height: u32,
    pub stdin_tty: bool,
    pub stdout_tty: bool,
    pub stderr_tty: bool,
    pub echo: bool,
    pub line_buffered: bool,
}

/// The terminal state of a runtime that has no terminal attached: 80 columns
/// by 25 rows, 800 by 600 pixels, echo on, line-buffered.
pub open spec fn default_tty_state() -> WasiTtyState {
    WasiTtyState {
        cols: 80,
        rows: 25,
        width: 800,
        height: 600,
        stdin_tty: false,
        stdout_tty: false,
        stderr_tty: false,
        echo: true,
        line_buffered: true,
    }
}

/// One swappable capability of a runtime: either nothing, so that every
/// operation on it is unsupported, or the backend that the embedder wired in.
#[derive(Debug)]
pub enum Capability<I> {
    /// No backend: every operation on this capability is unsupported.
    Unsupported,
    /// The backend that the embedder provided.
    Provided(I),
}

impl<I> Capability<I> {
    /// Whether a backend was wired in.
    pub fn is_supported(&self) -> (supported: bool)
        ensures
            supported == (self is Provided),
    {
        match self {
            Capability::Unsupported => false,
            Capability::Provided(_) => true,
        }
    }

    /// The backend, if one was wired in.
    pub fn backend(&self) -> (backend: Option<&I>)
        ensures
            match backend {
                Some(b) => *self == Capability::Provided(*b),
                None => *self == Capability::<I>::Unsupported,
            },
    {
        match self {
            Capability::Unsupported => None,
            Capability::Provided(b) => Some(b),
        }
    }
}

/// An implementation of the runtime's capabilities. Whatever an
/// implementation does not provide is unsupported.
pub trait WasiRuntimeImplementation: Sync {
    /// The message bus between runtimes.
    type Bus;

    /// The networking backend.
    type Networking;

    /// The message bus that lets runtimes pass serialized messages to each
    /// other.
    fn bus(&self) -> &Self::Bus;

    /// Access to sockets and every other networking function.
    fn networking(&self) -> &Self::Networking;

    /// Generates a new thread id.
    fn thread_generate_id(&self) -> WasiThreadId;

    /// Gets the terminal state.
    fn tty_get(&self) -> (state: WasiTtyState)
        default_ensures
            state == default_tty_state(),
    {
        WasiTtyState {
            rows: 25,
            cols: 80,
            width: 800,
            height: 600,
            stdin_tty: false,
            stdout_tty: false,
            stderr_tty: false,
            echo: true,
            line_buffered: true,
        }
    }

    /// Sets the terminal state.
    fn tty_set(&self, _tty_state: WasiTtyState) {
    }

    /// Spawns a thread that runs the exported function `method`.
    fn thread_spawn(&self, _method: &str, _user_data: u64, _reactor: bool) -> (spawned: Result<
        WasiThreadId,
        WasiThreadError,
    >)
        default_ensures
            spawned == Err::<WasiThreadId, WasiThreadError>(WasiThreadError::Unsupported),
    {
        Err(WasiThreadError::Unsupported)
    }

    /// The amount of parallelism that is possible on this platform.
    fn thread_parallelism(&self) -> (width: Result<usize, WasiThreadError>)
        default_ensures
            width == Err::<usize, WasiThreadError>(WasiThreadError::Unsupported),
    {
        Err(WasiThreadError::Unsupported)
    }

    /// Waits for the given thread to exit.
    fn thread_join(&self, _other: WasiThreadId) -> (joined: Result<(), WasiThreadError>)
        default_ensures
            joined == Err::<(), WasiThreadError>(WasiThreadError::Unsupported),
    {
        Err(WasiThreadError::Unsupported)
    }

    /// Called whenever a guest thread goes idle. The embedder gives up the
    /// processor before it calls this; an implementation does here whatever
    /// background work its runtime needs.
    fn yield_now(&self, _id: WasiThreadId) -> (yielded: Result<(), WasiError>)
        default_ensures
            yielded == Ok::<(), WasiError>(()),
    {
        Ok(())
    }

    /// The id of the current process.
    fn getpid(&self) -> (pid: Option<u32>)
        default_ensures
            pid == None::<u32>,
    {
        None
    }
}

/// A runtime whose bus and networking the embedder can swap before a run.
#[derive(Debug)]
pub struct PlugableRuntimeImplementation<B, N> {
    pub bus: Capability<B>,
    pub networking: Capability<N>,
    pub thread_id_seed: AtomicU32,
}

impl<B, N> PlugableRuntimeImplementation<B, N> {
    /// Replaces the bus and leaves the rest of the runtime as it is.
    pub fn set_bus_implementation(&mut self, bus: B)
        ensures
            final(self).bus == Capability::Provided(bus),
            final(self).networking == old(self).networking,
            final(self).thread_id_seed == old(self).thread_id_seed,
    {
        self.bus = Capability::Provided(bus)
    }

    /// Replaces the networking backend and leaves the rest of the runtime as
    /// it is.
    pub fn set_networking_implementation(&mut self, net: N)
        ensures
            final(self).networking == Capability::Provided(net),
            final(self).bus == old(self).bus,
            final(self).thread_id_seed == old(self).thread_id_seed,
    {
        self.networking = Capability::Provided(net)
    }
}

impl<B, N> Default for PlugableRuntimeImplementation<B, N> {
    /// A runtime that grants nothing: no bus, no networking.
    fn default() -> (runtime: Self)
        ensures
            runtime.bus == Capability::<B>::Unsupported,
            runtime.networking == Capability::<N>::Unsupported,
    {
        PlugableRuntimeImplementation {
            bus: Capability::Unsupported,
            networking: Capability::Unsupported,
            thread_id_seed: AtomicU32::new(0),
        }
    }
}

impl<B: Sync, N: Sync> WasiRuntimeImplementation for PlugableRuntimeImplementation<B, N> {
    type Bus = Capability<B>;

    type Networking = Capability<N>;

    fn bus(&self) -> (bus: &Capability<B>)
        ensures
            *bus == self.bus,
    {
        &self.bus
    }

    fn networking(&self) -> (networking: &Capability<N>)
        ensures
            *networking == self.networking,
    {
        &self.networking
    }

    fn thread_generate_id(&self) -> WasiThreadId {
        WasiThreadId::from(self.thread_id_seed.fetch_add(1, Ordering::Relaxed))
    }
}

} // verus!
