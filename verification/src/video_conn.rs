//! The connection that carries the frames from the camera to the encoder
//! without copying them.

use vstd::prelude::*;
use crate::mmal::{Handles, Outcome, PortRef, Reply, Request, Step};
use crate::video_error::VideoErrorKind;
use crate::video_input_port::VideoInputPort;
use crate::video_output_port::VideoOutputPort;

verus! {

/// Where a connection stands in its life.
#[derive(Clone, Copy, Debug, PartialEq, Eq, Structural)]
pub enum ConnectionState {
    /// No connection exists yet.
    Uninitialized,
    /// The connection exists.
    Created,
    /// The connection is enabled: buffers flow.
    Enabled,
    /// The connection existed and has been destroyed.
    Destroyed,
}

/// A connection as a value.
#[derive(Clone, Copy, Debug)]
pub struct ConnStatus {
    /// Where the connection stands.
    pub state: ConnectionState,
    /// The call that is being made, if one is.
    pub awaiting: Option<Request>,
    /// Why the initialisation is being undone, while it is.
    pub failure: Option<(VideoErrorKind, u32)>,
    /// The creation that is to follow once the old connection is gone.
    pub restart: Option<Request>,
}

/// The request for a tunnel from `output` to `input` whose buffers the input
/// side allocates.
pub open spec fn create_request_spec(input: PortRef, output: PortRef) -> Request {
    Request::CreateConnection { output, input, tunnelling: true, allocation_on_input: true }
}

impl ConnStatus {
    /// No connection.
    pub open spec fn new_spec() -> ConnStatus {
        ConnStatus {
            state: ConnectionState::Uninitialized,
            awaiting: None,
            failure: None,
            restart: None,
        }
    }

    /// Whether a connection exists on the hardware.
    pub open spec fn holds_handle(self) -> bool {
        self.state is Created || self.state is Enabled
    }

    /// Starts an operation with `call`, unless a call is in flight already:
    /// then nothing changes, and that call is handed out again.
    pub open spec fn started(self, call: Request) -> (ConnStatus, Outcome) {
        match self.awaiting {
            Some(pending) => (self, Outcome::Call(pending)),
            None => (ConnStatus { awaiting: Some(call), ..self }, Outcome::Call(call)),
        }
    }

    /// Starts to connect `output` to `input`. A connection that exists is
    /// destroyed first.
    pub open spec fn init_spec(self, input: PortRef, output: PortRef) -> (ConnStatus, Outcome) {
        if self.awaiting is None && self.holds_handle() {
            ConnStatus { restart: Some(create_request_spec(input, output)), ..self }.started(
                Request::DestroyConnection,
            )
        } else {
            self.started(create_request_spec(input, output))
        }
    }

    /// Starts to destroy the connection. Nothing is to do where none exists.
    pub open spec fn destroy_spec(self) -> (ConnStatus, Outcome) {
        if self.awaiting is None && !self.holds_handle() {
            (self, Outcome::Finished)
        } else {
            self.started(Request::DestroyConnection)
        }
    }

    /// Takes the reply to the call in flight.
    ///
    /// A connection that was created is enabled next; one that cannot be
    /// enabled is destroyed, and the error reported after that. A creation
    /// that fails is reported at once: there is nothing to destroy. After a
    /// destruction the error that caused it is reported, or the creation that
    /// waited for it begins, or the operation is over.
    pub open spec fn resume_spec(self, reply: Reply) -> (ConnStatus, Outcome) {
        let rest = ConnStatus { awaiting: None, ..self };
        match self.awaiting {
            None => (self, Outcome::Finished),
            Some(Request::CreateConnection { .. }) => if reply.succeeded_spec() {
                ConnStatus { state: ConnectionState::Created, ..rest }.started(
                    Request::EnableConnection,
                )
            } else {
                (rest, Outcome::Failed(VideoErrorKind::ConnectionCreate, reply.status_spec()))
            },
            Some(Request::EnableConnection) => if reply.succeeded_spec() {
                (ConnStatus { state: ConnectionState::Enabled, ..rest }, Outcome::Finished)
            } else {
                ConnStatus {
                    failure: Some((VideoErrorKind::ConnectionEnable, reply.status_spec())),
                    ..rest
                }.started(Request::DestroyConnection)
            },
            Some(Request::DestroyConnection) => {
                let gone = ConnStatus {
                    state: if self.failure is Some || self.restart is Some {
                        ConnectionState::Uninitialized
                    } else {
                        ConnectionState::Destroyed
                    },
                    failure: None,
                    restart: None,
                    ..rest
                };
                match (self.failure, self.restart) {
                    (Some((kind, status)), _) => (gone, Outcome::Failed(kind, status)),
                    (None, Some(create)) => gone.started(create),
                    (None, None) => (gone, Outcome::Finished),
                }
            },
            Some(_) => (rest, Outcome::Finished),
        }
    }

    /// Whether the call in flight goes with the state: a creation is under
    /// way only while no connection exists, every other call only while one
    /// does; an error or a restart is pending only while the connection is
    /// being destroyed.
    pub open spec fn wf(self) -> bool {
        &&& match self.awaiting {
            None => true,
            Some(Request::CreateConnection { .. }) => !self.holds_handle(),
            Some(Request::EnableConnection) => self.holds_handle(),
            Some(Request::DestroyConnection) => self.holds_handle(),
            Some(_) => false,
        }
        &&& (self.failure is Some || self.restart is Some) ==> self.awaiting == Some(
            Request::DestroyConnection,
        )
        &&& self.restart matches Some(call) ==> call is CreateConnection
    }

    /// The handles that the connection holds.
    pub open spec fn handles(self) -> Handles {
        Handles {
            connections: if self.holds_handle() {
                1
            } else {
                0
            },
            ..Handles::none()
        }
    }
}

/// The connection of a recording session.
#[derive(Debug)]
pub struct VideoConn {
    status: ConnStatus,
}

impl View for VideoConn {
    type V = ConnStatus;

    closed spec fn view(&self) -> ConnStatus {
        self.status
    }
}

impl VideoConn {
    /// No connection yet.
    pub fn new() -> (conn: VideoConn)
        ensures
            conn@ == ConnStatus::new_spec(),
    {
        VideoConn {
            status: ConnStatus {
                state: ConnectionState::Uninitialized,
                awaiting: None,
                failure: None,
                restart: None,
            },
        }
    }

    /// Where the connection stands.
    pub fn state(&self) -> (state: ConnectionState)
        ensures
            state == self@.state,
    {
        self.status.state
    }

    /// The call that is being made, if one is.
    pub fn awaiting(&self) -> (call: Option<Request>)
        ensures
            call == self@.awaiting,
    {
        self.status.awaiting
    }

    /// Whether a connection exists on the hardware.
    pub fn validate_connection(&self) -> (exists: bool)
        ensures
            exists == self@.holds_handle(),
    {
        match self.status.state {
            ConnectionState::Created => true,
            ConnectionState::Enabled => true,
            _ => false,
        }
    }

    /// Starts an operation with `call`, unless a call is in flight.
    fn start(&mut self, call: Request) -> (outcome: Outcome)
        ensures
            final(self)@ == old(self)@.started(call).0,
            outcome == old(self)@.started(call).1,
    {
        match self.status.awaiting {
            Some(pending) => Outcome::Call(pending),
            None => {
                self.status.awaiting = Some(call);
                Outcome::Call(call)
            },
        }
    }

    /// The request for a tunnel from `output` to `input`.
    fn create_connection(input: PortRef, output: PortRef) -> (call: Request)
        ensures
            call == create_request_spec(input, output),
    {
        Request::CreateConnection { output, input, tunnelling: true, allocation_on_input: true }
    }

    /// Takes in that the connection has been destroyed, and goes on with
    /// what waited for that.
    fn destroy_connection(&mut self) -> (outcome: Outcome)
        requires
            old(self)@.awaiting == Some(Request::DestroyConnection),
        ensures
            final(self)@ == old(self)@.resume_spec(Reply::Status(0)).0,
            outcome == old(self)@.resume_spec(Reply::Status(0)).1,
    {
        let failure = self.status.failure;
        let restart = self.status.restart;
        self.status.awaiting = None;
        self.status.state = if failure.is_some() || restart.is_some() {
            ConnectionState::Uninitialized
        } else {
            ConnectionState::Destroyed
        };
        self.status.failure = None;
        self.status.restart = None;
        match (failure, restart) {
            (Some((kind, status)), _) => Outcome::Failed(kind, status),
            (None, Some(create)) => self.start(create),
            (None, None) => Outcome::Finished,
        }
    }

    /// Takes in whether the connection could be enabled; one that could not
    /// is destroyed.
    fn enable_connection(&mut self, reply: &Reply) -> (outcome: Outcome)
        requires
            old(self)@.awaiting == Some(Request::EnableConnection),
        ensures
            final(self)@ == old(self)@.resume_spec(*reply).0,
            outcome == old(self)@.resume_spec(*reply).1,
    {
        self.status.awaiting = None;
        if reply.succeeded() {
            self.status.state = ConnectionState::Enabled;
            Outcome::Finished
        } else {
            self.status.failure = Some((VideoErrorKind::ConnectionEnable, reply.status()));
            self.start(Request::DestroyConnection)
        }
    }

    /// Starts to connect the output port of one component to the input port
    /// of another: create the tunnel, then enable it. If it cannot be
    /// enabled, it is destroyed again; the operation ends with the error of
    /// the step that failed.
    pub fn init<I: VideoInputPort, O: VideoOutputPort>(
        &mut self,
        input_port: &I,
        output_port: &O,
    ) -> (step: Step<()>)
        ensures
            final(self)@ == old(self)@.init_spec(
                input_port.input_port_spec(),
                output_port.output_port_spec(),
            ).0,
            step.is(
                old(self)@.init_spec(
                    input_port.input_port_spec(),
                    output_port.output_port_spec(),
                ).1,
            ),
    {
        let create = VideoConn::create_connection(
            input_port.raw_input_port(),
            output_port.raw_output_port(),
        );
        let outcome = if self.status.awaiting.is_none() && self.validate_connection() {
            self.status.restart = Some(create);
            self.start(Request::DestroyConnection)
        } else {
            self.start(create)
        };
        Step::of(outcome)
    }

    /// Starts to destroy the connection. Where none exists, the operation is
    /// over at once.
    pub fn destroy(&mut self) -> (step: Step<()>)
        ensures
            final(self)@ == old(self)@.destroy_spec().0,
            step.is(old(self)@.destroy_spec().1),
    {
        let outcome = if self.status.awaiting.is_none() && !self.validate_connection() {
            Outcome::Finished
        } else {
            self.start(Request::DestroyConnection)
        };
        Step::of(outcome)
    }

    /// Takes the reply to the call that was handed out last, and goes on with
    /// the operation.
    pub fn resume(&mut self, reply: &Reply) -> (step: Step<()>)
        ensures
            final(self)@ == old(self)@.resume_spec(*reply).0,
            step.is(old(self)@.resume_spec(*reply).1),
    {
        let outcome = match self.status.awaiting {
            None => Outcome::Finished,
            Some(Request::CreateConnection { .. }) => {
                self.status.awaiting = None;
                if reply.succeeded() {
                    self.status.state = ConnectionState::Created;
                    self.start(Request::EnableConnection)
                } else {
                    Outcome::Failed(VideoErrorKind::ConnectionCreate, reply.status())
                }
            },
            Some(Request::EnableConnection) => self.enable_connection(reply),
            Some(Request::DestroyConnection) => self.destroy_connection(),
            Some(_) => {
                self.status.awaiting = None;
                Outcome::Finished
            },
        };
        Step::of(outcome)
    }

}

/// No connection is well formed and holds nothing.
pub proof fn lemma_new_conn()
    ensures
        ConnStatus::new_spec().wf(),
        ConnStatus::new_spec().handles() == Handles::none(),
{
}

/// Every operation keeps the connection well formed; starting one changes no
/// handle.
pub proof fn lemma_conn_operations_keep_wf(conn: ConnStatus, input: PortRef, output: PortRef)
    requires
        conn.wf(),
    ensures
        conn.init_spec(input, output).0.wf(),
        conn.destroy_spec().0.wf(),
        conn.init_spec(input, output).0.handles() == conn.handles(),
        conn.destroy_spec().0.handles() == conn.handles(),
{
}

/// The connection's books follow the hardware: after every reply it is well
/// formed and holds exactly the handle that the call has left.
pub proof fn lemma_conn_follows_hardware(conn: ConnStatus, reply: Reply)
    requires
        conn.wf(),
        conn.awaiting is Some,
    ensures
        conn.resume_spec(reply).0.wf(),
        conn.resume_spec(reply).0.handles() == conn.handles().after(conn.awaiting->Some_0, reply),
{
}

/// An initialisation that fails leaves no connection behind.
pub proof fn lemma_conn_failure_leaves_nothing(conn: ConnStatus, reply: Reply)
    requires
        conn.wf(),
        conn.resume_spec(reply).1 is Failed,
    ensures
        conn.resume_spec(reply).0.handles() == Handles::none(),
        conn.resume_spec(reply).0.awaiting is None,
{
}

/// When both calls succeed, the connection comes up: it is created as a
/// tunnel from the output port to the input port whose buffers the input
/// side allocates, then enabled, and the initialisation ends in success.
pub proof fn lemma_conn_init_succeeds(input: PortRef, output: PortRef, done: Reply)
    requires
        done.succeeded_spec(),
    ensures
        ({
            let s0 = ConnStatus::new_spec().init_spec(input, output);
            let s1 = s0.0.resume_spec(done);
            let s2 = s1.0.resume_spec(done);
            &&& s0.1 == Outcome::Call(
                Request::CreateConnection {
                    output,
                    input,
                    tunnelling: true,
                    allocation_on_input: true,
                },
            )
            &&& s1.1 == Outcome::Call(Request::EnableConnection)
            &&& s2.1 == Outcome::Finished
            &&& s2.0.state is Enabled
            &&& s2.0.awaiting is None
        }),
{
}

/// To destroy a connection twice is to destroy it once: after a destruction
/// nothing exists, and another one changes nothing and succeeds at once.
pub proof fn lemma_conn_destroy_is_idempotent(conn: ConnStatus, reply: Reply)
    requires
        conn.wf(),
        conn.awaiting is None,
    ensures
        !conn.holds_handle() ==> conn.destroy_spec() == (conn, Outcome::Finished),
        conn.holds_handle() ==> ({
            let destroyed = conn.destroy_spec().0.resume_spec(reply);
            &&& destroyed.1 == Outcome::Finished
            &&& !destroyed.0.holds_handle()
            &&& destroyed.0.destroy_spec() == (destroyed.0, Outcome::Finished)
        }),
{
}

} // verus!
