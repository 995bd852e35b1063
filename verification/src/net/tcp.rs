use vstd::prelude::*;
use std::collections::BTreeMap;
use crate::logger::{decimal_digits, padded_int, push_padded};
use crate::net::dns::Ipv4Addr;
use crate::strings::{c_string, push_char};
use vstd::string::StringSliceAdditionalSpecFns;

verus! {

/// Events the platform reports on a TCP connection.
pub const VM_TCP_EVT_CONNECTED: i32 = 1;
pub const VM_TCP_EVT_CAN_WRITE: i32 = 2;
pub const VM_TCP_EVT_CAN_READ: i32 = 3;
pub const VM_TCP_EVT_PIPE_BROKEN: i32 = 4;
pub const VM_TCP_EVT_HOST_NOT_FOUND: i32 = 5;
pub const VM_TCP_EVT_PIPE_CLOSED: i32 = 6;
/// Error code: not enough resources for a connection.
pub const VM_TCP_ERR_NO_ENOUGH_RES: i32 = -1;
/// Result of a read at the end of the stream.
pub const VM_TCP_READ_EOF: i32 = -1;

/// An error of a TCP connection: a platform event or error code.
#[derive(Debug, Clone, Copy, PartialEq, Eq, Structural)]
pub struct MreTcpError(pub i32);

/// Kinds of TCP error.
#[derive(Debug, Clone, Copy, PartialEq, Eq, Structural)]
pub enum TcpErrorKind {
    NotFound,
    ConnectionReset,
    OutOfMemory,
    Other,
}

impl MreTcpError {
    /// The kind of this error.
    pub fn kind(&self) -> (res: TcpErrorKind)
        ensures
            res == (if self.0 == VM_TCP_EVT_HOST_NOT_FOUND {
                TcpErrorKind::NotFound
            } else if self.0 == VM_TCP_EVT_PIPE_BROKEN || self.0 == VM_TCP_EVT_PIPE_CLOSED {
                TcpErrorKind::ConnectionReset
            } else if self.0 == VM_TCP_ERR_NO_ENOUGH_RES {
                TcpErrorKind::OutOfMemory
            } else {
                TcpErrorKind::Other
            }),
    {
        if self.0 == VM_TCP_EVT_HOST_NOT_FOUND {
            TcpErrorKind::NotFound
        } else if self.0 == VM_TCP_EVT_PIPE_BROKEN || self.0 == VM_TCP_EVT_PIPE_CLOSED {
            TcpErrorKind::ConnectionReset
        } else if self.0 == VM_TCP_ERR_NO_ENOUGH_RES {
            TcpErrorKind::OutOfMemory
        } else {
            TcpErrorKind::Other
        }
    }
}

/// Which waiting tasks an event wakes.
#[derive(Debug, Clone, Copy, PartialEq, Eq, Structural)]
pub struct Wakeups {
    pub connect: bool,
    pub read: bool,
    pub write: bool,
}

/// What is known of a connection.
#[derive(Debug, Clone, Copy, PartialEq, Eq, Structural)]
pub struct SocketState {
    pub is_connected: bool,
    pub can_read: bool,
    pub can_write: bool,
    pub is_closed: bool,
    pub error: Option<i32>,
}

/// What a read or write does on a poll.
#[derive(Debug, Clone, Copy, PartialEq, Eq, Structural)]
pub enum IoStep {
    /// The connection is closed: fail with this error.
    Fail(MreTcpError),
    /// Call the platform, then hand its result to `after_read` or `after_write`.
    Attempt,
    /// Register the task to be woken and wait.
    Wait,
}

/// What a connection attempt does on a poll.
#[derive(Debug, Clone, Copy, PartialEq, Eq, Structural)]
pub enum ConnectStep {
    Connected,
    Fail(MreTcpError),
    Wait,
}

/// The error a closed connection fails with: its recorded event, or -1.
pub open spec fn spec_close_error(s: SocketState) -> MreTcpError {
    match s.error {
        Some(e) => MreTcpError(e),
        None => MreTcpError(-1i32),
    }
}

/// Whether an event ends a connection.
pub open spec fn is_failure_event(event: i32) -> bool {
    event == VM_TCP_EVT_PIPE_BROKEN || event == VM_TCP_EVT_PIPE_CLOSED || event == VM_TCP_EVT_HOST_NOT_FOUND
}

/// The state of a connection after a platform event.
pub open spec fn spec_on_event(s: SocketState, event: i32) -> SocketState {
    if event == VM_TCP_EVT_CONNECTED {
        SocketState { is_connected: true, can_write: true, ..s }
    } else if event == VM_TCP_EVT_CAN_READ {
        SocketState { can_read: true, ..s }
    } else if event == VM_TCP_EVT_CAN_WRITE {
        SocketState { can_write: true, ..s }
    } else if is_failure_event(event) {
        SocketState { is_closed: true, error: Some(event), ..s }
    } else {
        s
    }
}

/// The tasks a platform event wakes.
pub open spec fn spec_wakeups(event: i32) -> Wakeups {
    if event == VM_TCP_EVT_CONNECTED {
        Wakeups { connect: true, read: false, write: false }
    } else if event == VM_TCP_EVT_CAN_READ {
        Wakeups { connect: false, read: true, write: false }
    } else if event == VM_TCP_EVT_CAN_WRITE {
        Wakeups { connect: false, read: false, write: true }
    } else if is_failure_event(event) {
        Wakeups { connect: true, read: true, write: true }
    } else {
        Wakeups { connect: false, read: false, write: false }
    }
}

/// One poll of a connection attempt on a connection in state `s`.
pub open spec fn spec_connect_step(s: SocketState) -> ConnectStep {
    if s.is_connected {
        ConnectStep::Connected
    } else if s.is_closed {
        ConnectStep::Fail(spec_close_error(s))
    } else {
        ConnectStep::Wait
    }
}

/// One poll of a read on a connection in state `s`.
pub open spec fn spec_read_step(s: SocketState) -> IoStep {
    if s.is_closed {
        IoStep::Fail(spec_close_error(s))
    } else if s.can_read {
        IoStep::Attempt
    } else {
        IoStep::Wait
    }
}

/// One poll of a write on a connection in state `s`.
pub open spec fn spec_write_step(s: SocketState) -> IoStep {
    if s.is_closed {
        IoStep::Fail(spec_close_error(s))
    } else if s.can_write {
        IoStep::Attempt
    } else {
        IoStep::Wait
    }
}

/// The state of a connection that was just requested.
pub open spec fn spec_new_state() -> SocketState {
    SocketState { is_connected: false, can_read: false, can_write: false, is_closed: false, error: None }
}

impl SocketState {
    /// A connection that was just requested.
    pub fn new() -> (res: SocketState)
        ensures
            res == spec_new_state(),
    {
        SocketState { is_connected: false, can_read: false, can_write: false, is_closed: false, error: None }
    }

    /// Records an event of the platform and says whom it wakes: a
    /// connection wakes the connecting task, readiness the reader or writer,
    /// a failure everybody; other events change nothing.
    pub fn on_event(&mut self, event: i32) -> (res: Wakeups)
        ensures
            *final(self) == spec_on_event(*old(self), event),
            res == spec_wakeups(event),
    {
        if event == VM_TCP_EVT_CONNECTED {
            self.is_connected = true;
            self.can_write = true;
            Wakeups { connect: true, read: false, write: false }
        } else if event == VM_TCP_EVT_CAN_READ {
            self.can_read = true;
            Wakeups { connect: false, read: true, write: false }
        } else if event == VM_TCP_EVT_CAN_WRITE {
            self.can_write = true;
            Wakeups { connect: false, read: false, write: true }
        } else if event == VM_TCP_EVT_PIPE_BROKEN || event == VM_TCP_EVT_PIPE_CLOSED || event == VM_TCP_EVT_HOST_NOT_FOUND {
            self.is_closed = true;
            self.error = Some(event);
            Wakeups { connect: true, read: true, write: true }
        } else {
            Wakeups { connect: false, read: false, write: false }
        }
    }

    /// One poll of a connection attempt.
    pub fn connect_step(&self) -> (res: ConnectStep)
        ensures
            res == spec_connect_step(*self),
    {
        if self.is_connected {
            ConnectStep::Connected
        } else if self.is_closed {
            ConnectStep::Fail(MreTcpError(match self.error { Some(e) => e, None => -1 }))
        } else {
            ConnectStep::Wait
        }
    }

    /// One poll of a read: fail on a closed connection, try when data may be there, wait otherwise.
    pub fn read_step(&self) -> (res: IoStep)
        ensures
            res == spec_read_step(*self),
    {
        if self.is_closed {
            IoStep::Fail(MreTcpError(match self.error { Some(e) => e, None => -1 }))
        } else if self.can_read {
            IoStep::Attempt
        } else {
            IoStep::Wait
        }
    }

    /// The outcome of the platform's read `res`: a positive count is the
    /// answer; end of stream closes the connection and answers 0; anything
    /// else means no data yet (wait).
    pub fn after_read(&mut self, res: i32) -> (out: Option<Result<usize, MreTcpError>>)
        ensures
            res > 0 ==> out == Some(Ok::<usize, MreTcpError>(res as usize)) && *final(self) == *old(self),
            res <= 0 && res == VM_TCP_READ_EOF ==> out == Some(Ok::<usize, MreTcpError>(0))
                && *final(self) == (SocketState { is_closed: true, ..*old(self) }),
            res <= 0 && res != VM_TCP_READ_EOF ==> out is None
                && *final(self) == (SocketState { can_read: false, ..*old(self) }),
    {
        if res > 0 {
            Some(Ok(res as usize))
        } else if res == VM_TCP_READ_EOF {
            self.is_closed = true;
            Some(Ok(0))
        } else {
            self.can_read = false;
            None
        }
    }

    /// One poll of a write: fail on a closed connection, try when writable, wait otherwise.
    pub fn write_step(&self) -> (res: IoStep)
        ensures
            res == spec_write_step(*self),
    {
        if self.is_closed {
            IoStep::Fail(MreTcpError(match self.error { Some(e) => e, None => -1 }))
        } else if self.can_write {
            IoStep::Attempt
        } else {
            IoStep::Wait
        }
    }

    /// The outcome of the platform's write `res`: a count of 0 or more is
    /// the answer; a negative result means not writable yet (wait).
    pub fn after_write(&mut self, res: i32) -> (out: Option<Result<usize, MreTcpError>>)
        ensures
            res >= 0 ==> out == Some(Ok::<usize, MreTcpError>(res as usize)) && *final(self) == *old(self),
            res < 0 ==> out is None && *final(self) == (SocketState { can_write: false, ..*old(self) }),
    {
        if res >= 0 {
            Some(Ok(res as usize))
        } else {
            self.can_write = false;
            None
        }
    }
}

/// The host name as the platform's connect call takes it: its bytes and a
/// zero; a name that holds a zero byte is refused with error -1.
pub fn host_c_string(host: &str) -> (res: Result<Vec<u8>, MreTcpError>)
    ensures
        host.spec_bytes().contains(0u8) ==> res == Err::<Vec<u8>, MreTcpError>(MreTcpError(-1i32)),
        !host.spec_bytes().contains(0u8) ==> (res matches Ok(v) && v@ == host.spec_bytes().push(0u8)),
{
    match c_string(host) {
        Some(v) => Ok(v),
        None => Err(MreTcpError(-1)),
    }
}

/// The outcome of requesting a connection, from the handle the platform returned: negative is the error.
pub fn connect_handle(handle: i32) -> (res: Result<i32, MreTcpError>)
    ensures
        handle < 0 ==> res == Err::<i32, MreTcpError>(MreTcpError(handle)),
        handle >= 0 ==> res == Ok::<i32, MreTcpError>(handle),
{
    if handle < 0 {
        Err(MreTcpError(handle))
    } else {
        Ok(handle)
    }
}

/// Once a connection is closed it stays closed whatever event follows, so
/// every later read and write poll fails.
pub proof fn lemma_closed_stays_closed(s: SocketState, event: i32)
    requires
        s.is_closed,
    ensures
        spec_on_event(s, event).is_closed,
{
}

/// A readiness event wakes the side it names: on a connection that is not
/// closed, after `CAN_WRITE` (or `CONNECTED`) the next write poll calls the
/// platform and after `CAN_READ` the next read poll does; the event turns on
/// its flag and leaves every other part of the state as it was.
pub proof fn lemma_readiness_makes_ready(s: SocketState)
    requires
        !s.is_closed,
    ensures
        spec_on_event(s, VM_TCP_EVT_CAN_WRITE).can_write,
        spec_write_step(spec_on_event(s, VM_TCP_EVT_CAN_WRITE)) == IoStep::Attempt,
        spec_on_event(s, VM_TCP_EVT_CAN_WRITE).can_read == s.can_read,
        spec_on_event(s, VM_TCP_EVT_CAN_WRITE).is_connected == s.is_connected,
        spec_on_event(s, VM_TCP_EVT_CAN_WRITE).is_closed == s.is_closed,
        spec_on_event(s, VM_TCP_EVT_CAN_WRITE).error == s.error,
        spec_on_event(s, VM_TCP_EVT_CAN_READ).can_read,
        spec_read_step(spec_on_event(s, VM_TCP_EVT_CAN_READ)) == IoStep::Attempt,
        spec_on_event(s, VM_TCP_EVT_CAN_READ).can_write == s.can_write,
        spec_on_event(s, VM_TCP_EVT_CAN_READ).is_connected == s.is_connected,
        spec_on_event(s, VM_TCP_EVT_CAN_READ).is_closed == s.is_closed,
        spec_on_event(s, VM_TCP_EVT_CAN_READ).error == s.error,
        spec_on_event(s, VM_TCP_EVT_CONNECTED).is_connected,
        spec_write_step(spec_on_event(s, VM_TCP_EVT_CONNECTED)) == IoStep::Attempt,
{
}

/// A failure event closes the connection with that event as its error:
/// every later read or write poll fails with it.
pub proof fn lemma_failure_fails_io(s: SocketState, event: i32)
    requires
        event == VM_TCP_EVT_PIPE_BROKEN || event == VM_TCP_EVT_PIPE_CLOSED
            || event == VM_TCP_EVT_HOST_NOT_FOUND,
    ensures
        spec_on_event(s, event).is_closed,
        spec_read_step(spec_on_event(s, event)) == IoStep::Fail(MreTcpError(event)),
        spec_write_step(spec_on_event(s, event)) == IoStep::Fail(MreTcpError(event)),
{
}

/// Connecting: once the platform reports the connection made, the connect
/// poll succeeds; a failure before that makes it fail with the failure's
/// event; and every event wakes exactly the tasks it concerns (a failure
/// wakes all three, a readiness event only its own side).
pub proof fn lemma_connect_and_wakeups(s: SocketState, event: i32)
    ensures
        spec_connect_step(spec_on_event(s, VM_TCP_EVT_CONNECTED)) == ConnectStep::Connected,
        !s.is_connected && (event == VM_TCP_EVT_PIPE_BROKEN || event == VM_TCP_EVT_PIPE_CLOSED
            || event == VM_TCP_EVT_HOST_NOT_FOUND)
            ==> spec_connect_step(spec_on_event(s, event)) == ConnectStep::Fail(MreTcpError(event)),
        !s.is_connected && !s.is_closed ==> spec_connect_step(s) == ConnectStep::Wait,
        spec_wakeups(event).connect <==> (event == VM_TCP_EVT_CONNECTED || event == VM_TCP_EVT_PIPE_BROKEN
            || event == VM_TCP_EVT_PIPE_CLOSED || event == VM_TCP_EVT_HOST_NOT_FOUND),
        spec_wakeups(event).read <==> (event == VM_TCP_EVT_CAN_READ || event == VM_TCP_EVT_PIPE_BROKEN
            || event == VM_TCP_EVT_PIPE_CLOSED || event == VM_TCP_EVT_HOST_NOT_FOUND),
        spec_wakeups(event).write <==> (event == VM_TCP_EVT_CAN_WRITE || event == VM_TCP_EVT_PIPE_BROKEN
            || event == VM_TCP_EVT_PIPE_CLOSED || event == VM_TCP_EVT_HOST_NOT_FOUND),
{
}

/// The connections the application has open, by the platform's handle.
pub struct TcpManager {
    sockets: BTreeMap<i32, SocketState>,
}

impl View for TcpManager {
    type V = Map<i32, SocketState>;

    closed spec fn view(&self) -> Map<i32, SocketState> {
        self.sockets@
    }
}

impl TcpManager {
    /// No connection yet.
    pub fn new() -> (res: TcpManager)
        ensures
            res@ == Map::<i32, SocketState>::empty(),
    {
        TcpManager { sockets: BTreeMap::new() }
    }

    /// Starts tracking a connection that was just requested.
    pub fn register(&mut self, handle: i32)
        ensures
            final(self)@ == old(self)@.insert(handle, spec_new_state()),
    {
        broadcast use vstd::laws_cmp::group_laws_cmp;
        self.sockets.insert(handle, SocketState::new());
    }

    /// Stops tracking a connection (it was closed or given up).
    pub fn unregister(&mut self, handle: i32)
        ensures
            final(self)@ == old(self)@.remove(handle),
    {
        broadcast use vstd::laws_cmp::group_laws_cmp, vstd::std_specs::btree::group_btree_axioms;
        self.sockets.remove(&handle);
    }

    /// What is known of a connection, if it is tracked.
    pub fn state(&self, handle: i32) -> (res: Option<SocketState>)
        ensures
            res == (if self@.contains_key(handle) { Some(self@[handle]) } else { None::<SocketState> }),
    {
        broadcast use vstd::laws_cmp::group_laws_cmp, vstd::std_specs::btree::group_btree_axioms;
        match self.sockets.get(&handle) {
            Some(st) => Some(*st),
            None => None,
        }
    }

    /// Records what a poll learnt of a connection.
    pub fn store(&mut self, handle: i32, state: SocketState)
        ensures
            final(self)@ == old(self)@.insert(handle, state),
    {
        broadcast use vstd::laws_cmp::group_laws_cmp;
        self.sockets.insert(handle, state);
    }

    /// One poll of a connection attempt: a connection that is no longer
    /// tracked fails with -1.
    pub fn connect_poll(&self, handle: i32) -> (res: ConnectStep)
        ensures
            self@.contains_key(handle) ==> res == spec_connect_step(self@[handle]),
            !self@.contains_key(handle) ==> res == ConnectStep::Fail(MreTcpError(-1i32)),
    {
        match self.state(handle) {
            Some(st) => st.connect_step(),
            None => ConnectStep::Fail(MreTcpError(-1)),
        }
    }

    /// Records a platform event on a connection and says whom it wakes;
    /// an event for a connection that is not tracked is ignored.
    pub fn on_event(&mut self, handle: i32, event: i32) -> (res: Wakeups)
        ensures
            old(self)@.contains_key(handle) ==> final(self)@ == old(self)@.insert(handle, spec_on_event(old(self)@[handle], event))
                && res == spec_wakeups(event),
            !old(self)@.contains_key(handle) ==> final(self)@ == old(self)@
                && res == (Wakeups { connect: false, read: false, write: false }),
    {
        broadcast use vstd::laws_cmp::group_laws_cmp, vstd::std_specs::btree::group_btree_axioms;
        let current: Option<SocketState> = match self.sockets.get(&handle) {
            Some(st) => Some(*st),
            None => None,
        };
        match current {
            Some(st) => {
                let mut st = st;
                let w = st.on_event(event);
                self.sockets.insert(handle, st);
                w
            },
            None => Wakeups { connect: false, read: false, write: false },
        }
    }
}

/// An event for one connection leaves every other connection as it was.
pub proof fn lemma_event_touches_one_connection(before: Map<i32, SocketState>, after: Map<i32, SocketState>, handle: i32, event: i32, other: i32)
    requires
        before.contains_key(handle),
        after == before.insert(handle, spec_on_event(before[handle], event)),
        other != handle,
    ensures
        after.contains_key(other) == before.contains_key(other),
        before.contains_key(other) ==> after[other] == before[other],
{
}

/// An open TCP connection, by the platform's handle.
pub struct TcpStream {
    handle: i32,
}

impl TcpStream {
    /// The connection with this handle, once the platform reported it connected.
    pub fn from_handle(handle: i32) -> (res: TcpStream)
        ensures
            res.spec_handle() == handle,
    {
        TcpStream { handle }
    }

    /// The platform's handle of the connection.
    pub closed spec fn spec_handle(&self) -> i32 {
        self.handle
    }

    /// The platform's handle of the connection.
    pub fn handle(&self) -> (res: i32)
        ensures
            res == self.spec_handle(),
    {
        self.handle
    }
}

/// The host text of an IPv4 address: its four bytes in decimal, separated by dots.
pub open spec fn spec_dotted_quad(ip: Ipv4Addr) -> Seq<char> {
    decimal_digits(ip.a as nat) + seq!['.'] + decimal_digits(ip.b as nat) + seq!['.']
        + decimal_digits(ip.c as nat) + seq!['.'] + decimal_digits(ip.d as nat)
}

/// The platform's TCP stack, to connect to socket addresses.
pub struct MreTcpStack;

/// The access point through which the stack connects.
pub const MRE_TCP_STACK_APN: i32 = 1;

impl MreTcpStack {
    /// What a connection to `ip` and `port` asks the platform for: the
    /// address written as text, the port, and the stack's access point.
    pub fn connect_target(&self, ip: Ipv4Addr, port: u16) -> (res: (String, u16, i32))
        ensures
            res.0@ == spec_dotted_quad(ip),
            res.1 == port,
            res.2 == MRE_TCP_STACK_APN,
    {
        let mut host = String::new();
        push_padded(&mut host, ip.a as i64, 0);
        push_char(&mut host, '.');
        push_padded(&mut host, ip.b as i64, 0);
        push_char(&mut host, '.');
        push_padded(&mut host, ip.c as i64, 0);
        push_char(&mut host, '.');
        push_padded(&mut host, ip.d as i64, 0);
        proof {
            assert(padded_int(ip.a as int, 0) =~= decimal_digits(ip.a as nat));
            assert(padded_int(ip.b as int, 0) =~= decimal_digits(ip.b as nat));
            assert(padded_int(ip.c as int, 0) =~= decimal_digits(ip.c as nat));
            assert(padded_int(ip.d as int, 0) =~= decimal_digits(ip.d as nat));
        }
        assert(host@ =~= spec_dotted_quad(ip));
        (host, port, MRE_TCP_STACK_APN)
    }
}

} // verus!
