//! Decision logic of the bridge's event loop.
//!
//! The loop itself performs I/O: it waits for readiness, reads from the
//! child's pipes and the client socket, and writes to the child's stdin
//! and the outbound sink. Every decision the loop takes, though, is a
//! function of this state: whether it is still running, whether a client
//! is attached, what each buffer holds, and where outbound bytes must go.
//! Those decisions live here, with contracts; the surrounding loop hands
//! in the bytes and events and carries out the returned choices.

use vstd::prelude::*;

use crate::buffer::FlipBuffer;

verus! {

/// Where child output is routed: to the attached client, or to this
/// process's own standard output when no client is attached.
#[derive(Clone, Copy, Debug, PartialEq, Eq, Structural)]
pub enum OutputSink {
    /// Send to the active client's socket.
    Client,
    /// Mirror to this process's own standard output.
    Console,
}

/// What a readiness report on one descriptor means for the bridge.
#[derive(Clone, Copy, Debug, PartialEq, Eq, Structural)]
pub enum ReadyKind {
    /// The shutdown-notification channel: stop the loop at once.
    ShutdownNotice,
    /// The child's stdout has bytes for the outbound buffer.
    ChildStdout,
    /// The child's stderr has bytes for the outbound buffer.
    ChildStderr,
    /// The listener has a pending connection.
    Listener,
    /// The active client's socket has bytes for the inbound buffer.
    Client,
    /// A descriptor of a peer no longer attached: nothing to do.
    Ignored,
}

/// The fixed descriptors the multiplexer watches for the bridge. Their
/// interest never changes once registered; the active client's descriptor
/// is the only one added later, and it is recognised by not being any of
/// these.
pub struct WatchedFds {
    /// The read end of the shutdown-notification channel.
    pub notify: i32,
    /// The child's stdout pipe.
    pub child_stdout: i32,
    /// The child's stderr pipe.
    pub child_stderr: i32,
    /// The listening socket.
    pub listener: i32,
}

impl WatchedFds {
    /// How a ready descriptor is dispatched, in the order the loop tests
    /// them: the named descriptors first, and any other one as the active
    /// client while one is attached, else as a closed, forgotten peer.
    pub open spec fn spec_classify(self, target: i32, client_attached: bool) -> ReadyKind {
        if target == self.notify {
            ReadyKind::ShutdownNotice
        } else if target == self.child_stdout {
            ReadyKind::ChildStdout
        } else if target == self.child_stderr {
            ReadyKind::ChildStderr
        } else if target == self.listener {
            ReadyKind::Listener
        } else if client_attached {
            ReadyKind::Client
        } else {
            ReadyKind::Ignored
        }
    }

    /// Dispatches one readiness report.
    pub fn classify(&self, target: i32, client_attached: bool) -> (k: ReadyKind)
        ensures
            k == self.spec_classify(target, client_attached),
    {
        if target == self.notify {
            ReadyKind::ShutdownNotice
        } else if target == self.child_stdout {
            ReadyKind::ChildStdout
        } else if target == self.child_stderr {
            ReadyKind::ChildStderr
        } else if target == self.listener {
            ReadyKind::Listener
        } else if client_attached {
            ReadyKind::Client
        } else {
            ReadyKind::Ignored
        }
    }
}

/// The bridge's state between two event-loop iterations.
///
/// `inbound` carries client bytes towards the child's stdin; `outbound`
/// carries the child's stdout and stderr bytes towards the client, or
/// towards the console when no client is attached. At most one client is
/// ever attached: a second connection is rejected while one is active.
pub struct BridgeState {
    /// Whether the loop should keep iterating: false once the shutdown
    /// notice has been observed, and never true again after that.
    pub running: bool,
    /// Whether a client is currently attached.
    pub client_attached: bool,
    /// Bytes travelling from the client to the child's stdin.
    pub inbound: FlipBuffer,
    /// Bytes travelling from the child's stdout/stderr to the sink.
    pub outbound: FlipBuffer,
}

impl BridgeState {
    /// Both buffers are well-formed.
    pub open spec fn wf(self) -> bool {
        self.inbound.wf() && self.outbound.wf()
    }

    /// A fresh bridge: running, no client, both buffers empty with pages
    /// of `capacity` bytes.
    pub fn new(capacity: usize) -> (r: BridgeState)
        ensures
            r.wf(),
            r.running,
            !r.client_attached,
            r.inbound@ == Seq::<u8>::empty(),
            r.outbound@ == Seq::<u8>::empty(),
            r.inbound.capacity() == capacity,
            r.outbound.capacity() == capacity,
            r.inbound.readable_len() == 0,
            r.inbound.pending_len() == 0,
            r.outbound.readable_len() == 0,
            r.outbound.pending_len() == 0,
    {
        BridgeState {
            running: true,
            client_attached: false,
            inbound: FlipBuffer::new(capacity),
            outbound: FlipBuffer::new(capacity),
        }
    }

    /// Readiness on the shutdown-notification channel: the controlling
    /// thread reports that the child has exited. The loop stops at once;
    /// bytes still sitting in either buffer are deliberately left there.
    pub fn on_shutdown_notice(&mut self)
        ensures
            !final(self).running,
            final(self).client_attached == old(self).client_attached,
            final(self).inbound == old(self).inbound,
            final(self).outbound == old(self).outbound,
    {
        self.running = false;
    }

    /// Readiness on the listener: a peer wants to connect. The connection
    /// is adopted as the active client only when none is attached;
    /// otherwise the caller must close it unanswered, and the state — in
    /// particular the active client and its buffered bytes — is untouched.
    pub fn on_connection_request(&mut self) -> (adopted: bool)
        ensures
            adopted == !old(self).client_attached,
            final(self).client_attached,
            final(self).running == old(self).running,
            final(self).inbound == old(self).inbound,
            final(self).outbound == old(self).outbound,
    {
        let adopted = !self.client_attached;
        self.client_attached = true;
        adopted
    }

    /// Bytes read from the active client, destined for the child's stdin.
    /// A zero-length read means the client closed its connection: the
    /// client is detached and nothing else changes. Otherwise as much of
    /// `data` as the inbound buffer can take is appended, in order.
    pub fn on_client_data(&mut self, data: &[u8]) -> (n: usize)
        requires
            old(self).wf(),
            old(self).client_attached,
        ensures
            final(self).wf(),
            final(self).running == old(self).running,
            final(self).outbound == old(self).outbound,
            final(self).client_attached == (data@.len() > 0),
            data@.len() == 0 ==> final(self).inbound == old(self).inbound && n == 0,
            data@.len() > 0 ==> n == if data@.len() <= old(self).inbound.spec_write_space() {
                data@.len()
            } else {
                old(self).inbound.spec_write_space()
            },
            data@.len() > 0 ==> final(self).inbound@ == old(self).inbound@ + data@.take(n as int),
            data@.len() > 0 ==> final(self).inbound.readable_len()
                == if old(self).inbound.write_flips() {
                old(self).inbound.capacity()
            } else {
                old(self).inbound.readable_len()
            },
            data@.len() > 0 ==> final(self).inbound.pending_len()
                == if old(self).inbound.write_flips() {
                n as int
            } else {
                old(self).inbound.pending_len() + n
            },
            final(self).inbound.capacity() == old(self).inbound.capacity(),
    {
        if data.len() == 0 {
            self.client_attached = false;
            0
        } else {
            self.inbound.with_write(data)
        }
    }

    /// Bytes read from the child's stdout or stderr: as much of `data` as
    /// the outbound buffer can take is appended, in order. The two streams
    /// share one buffer, so they interleave in readiness order.
    pub fn on_child_output(&mut self, data: &[u8]) -> (n: usize)
        requires
            old(self).wf(),
        ensures
            final(self).wf(),
            final(self).running == old(self).running,
            final(self).client_attached == old(self).client_attached,
            final(self).inbound == old(self).inbound,
            final(self).outbound.capacity() == old(self).outbound.capacity(),
            n == if data@.len() <= old(self).outbound.spec_write_space() {
                data@.len()
            } else {
                old(self).outbound.spec_write_space()
            },
            final(self).outbound@ == old(self).outbound@ + data@.take(n as int),
            final(self).outbound.readable_len() == if old(self).outbound.write_flips() {
                old(self).outbound.capacity()
            } else {
                old(self).outbound.readable_len()
            },
            final(self).outbound.pending_len() == if old(self).outbound.write_flips() {
                n as int
            } else {
                old(self).outbound.pending_len() + n
            },
    {
        self.outbound.with_write(data)
    }

    /// The single sink outbound bytes are routed to: the active client
    /// when one is attached, else this process's own standard output.
    /// Exactly one of the two, never both, never neither.
    pub fn output_sink(&self) -> (s: OutputSink)
        ensures
            (s == OutputSink::Client) <==> self.client_attached,
            (s == OutputSink::Console) <==> !self.client_attached,
    {
        if self.client_attached {
            OutputSink::Client
        } else {
            OutputSink::Console
        }
    }

    /// Whether the loop should run another iteration.
    pub fn is_running(&self) -> (r: bool)
        ensures
            r == self.running,
    {
        self.running
    }

    /// Whether a client is currently attached.
    pub fn has_client(&self) -> (r: bool)
        ensures
            r == self.client_attached,
    {
        self.client_attached
    }
}

} // verus!
