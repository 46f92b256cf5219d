//! The method compiler and the stub call.
//!
//! Per descriptor, exactly one of two bodies is compiled into the
//! running program, selected by build target: the host body runs the
//! original logic directly; the stub body performs one network round
//! trip instead.  The stub body is modelled as a state machine
//! `Idle -> AwaitingConnection -> AwaitingResponse -> Completed | Fatal`:
//! the decisions stand here, verified, while the outside work (acquire
//! the connection, send, await) is the caller's, driven through the
//! returned actions.  There is no retry and no timeout: a missing
//! connection and a mismatched response are both fatal for the call.

use vstd::prelude::*;

use crate::dispatch::{
    clone_values, dispatch_outcome, vals_view, Proto, ProtoModel, QueryMsg, QueryModel, ValModel,
    Value,
};
use crate::registry::RpcEntry;

verus! {

/// Which of the two generated bodies a build compiles in.
#[derive(Debug, Clone, Copy, PartialEq, Eq)]
pub enum BuildTarget {
    Host,
    Remote,
}

/// The body compiled for one descriptor: the direct call, or the stub
/// keyed by the descriptor's id.
#[derive(Debug, Clone, Copy, PartialEq, Eq)]
pub enum MethodBody {
    HostBody,
    StubBody { entry_id: u64 },
}

/// Selects the body for one descriptor: the host body on a host build,
/// the stub for exactly this descriptor on a remote build — never both.
pub fn compile_method(e: &RpcEntry, target: &BuildTarget) -> (b: MethodBody)
    ensures
        match target {
            BuildTarget::Host => b == MethodBody::HostBody,
            BuildTarget::Remote => b == (MethodBody::StubBody { entry_id: e.id }),
        },
{
    match target {
        BuildTarget::Host => MethodBody::HostBody,
        BuildTarget::Remote => MethodBody::StubBody { entry_id: e.id },
    }
}

/// The stub path's two fatal faults: no connection to acquire, or a
/// response that does not match the sent query's variant.
#[derive(Debug, Clone, Copy, PartialEq, Eq)]
pub enum StubFault {
    NoSocket,
    ProtocolDesync,
}

/// Builds the query envelope for one stub call: the query variant with
/// the descriptor's id, carrying copies of the call's actual arguments.
pub fn build_query(entry_id: u64, args: &Vec<Value>) -> (p: Proto)
    ensures
        p@ == ProtoModel::Query(QueryModel { id: entry_id as int, args: vals_view(args@) }),
{
    Proto::Query(QueryMsg { entry_id, args: clone_values(args) })
}

/// The value a received envelope hands to the stub call expecting the
/// response variant `expected`: the carried value when it is exactly
/// that variant, nothing otherwise.
pub open spec fn response_for(expected: int, p: ProtoModel) -> Option<ValModel> {
    match p {
        ProtoModel::Response(m) => if m.id == expected {
            Option::Some(m.value)
        } else {
            Option::None
        },
        ProtoModel::Query(_) => Option::None,
    }
}

/// Matches the received envelope against the response variant the stub
/// call awaits.  Anything but exactly that variant is a protocol
/// desynchronization: the unions are closed, so a mismatch means the
/// wrong response was received.
pub fn match_response(entry_id: u64, p: Proto) -> (r: Result<Value, StubFault>)
    ensures
        match r {
            Result::Ok(v) => response_for(entry_id as int, p@) == Option::Some(v@),
            Result::Err(f) => f == StubFault::ProtocolDesync && response_for(entry_id as int, p@)
                is None,
        },
{
    match p {
        Proto::Response(m) => {
            if m.entry_id == entry_id {
                Result::Ok(m.value)
            } else {
                Result::Err(StubFault::ProtocolDesync)
            }
        },
        Proto::Query(_) => Result::Err(StubFault::ProtocolDesync),
    }
}

/// Where one stub call stands.
#[derive(Debug, Clone, PartialEq, Eq)]
pub enum StubState {
    Idle,
    AwaitingConnection,
    AwaitingResponse,
    Completed(Value),
    Fatal(StubFault),
}

/// Mathematical model of a `StubState`.
pub ghost enum StubStateModel {
    Idle,
    AwaitingConnection,
    AwaitingResponse,
    Completed(ValModel),
    Fatal(StubFault),
}

impl View for StubState {
    type V = StubStateModel;

    open spec fn view(&self) -> StubStateModel {
        match self {
            StubState::Idle => StubStateModel::Idle,
            StubState::AwaitingConnection => StubStateModel::AwaitingConnection,
            StubState::AwaitingResponse => StubStateModel::AwaitingResponse,
            StubState::Completed(v) => StubStateModel::Completed(v@),
            StubState::Fatal(f) => StubStateModel::Fatal(*f),
        }
    }
}

/// What the surroundings report to a stub call.
#[derive(Debug, Clone, PartialEq, Eq)]
pub enum StubEvent {
    Started,
    ConnectionReady,
    ConnectionMissing,
    Arrived(Proto),
}

/// Mathematical model of a `StubEvent`.
pub ghost enum StubEventModel {
    Started,
    ConnectionReady,
    ConnectionMissing,
    Arrived(ProtoModel),
}

impl View for StubEvent {
    type V = StubEventModel;

    open spec fn view(&self) -> StubEventModel {
        match self {
            StubEvent::Started => StubEventModel::Started,
            StubEvent::ConnectionReady => StubEventModel::ConnectionReady,
            StubEvent::ConnectionMissing => StubEventModel::ConnectionMissing,
            StubEvent::Arrived(p) => StubEventModel::Arrived(p@),
        }
    }
}

/// What the surroundings must do next for a stub call.
#[derive(Debug, Clone, PartialEq, Eq)]
pub enum StubAction {
    Acquire,
    Send(Proto),
    Finish,
    Abort,
}

/// Mathematical model of a `StubAction`.
pub ghost enum StubActionModel {
    Acquire,
    Send(ProtoModel),
    Finish,
    Abort,
}

impl View for StubAction {
    type V = StubActionModel;

    open spec fn view(&self) -> StubActionModel {
        match self {
            StubAction::Acquire => StubActionModel::Acquire,
            StubAction::Send(p) => StubActionModel::Send(p@),
            StubAction::Finish => StubActionModel::Finish,
            StubAction::Abort => StubActionModel::Abort,
        }
    }
}

/// Which events a state can take.
pub open spec fn admits(s: StubStateModel, e: StubEventModel) -> bool {
    match (s, e) {
        (StubStateModel::Idle, StubEventModel::Started) => true,
        (StubStateModel::AwaitingConnection, StubEventModel::ConnectionReady) => true,
        (StubStateModel::AwaitingConnection, StubEventModel::ConnectionMissing) => true,
        (StubStateModel::AwaitingResponse, StubEventModel::Arrived(_)) => true,
        _ => false,
    }
}

/// The stub body's transition relation, per call: next state and the
/// action handed back to the surroundings.
pub open spec fn step_spec(
    id: int,
    args: Seq<ValModel>,
    s: StubStateModel,
    e: StubEventModel,
) -> (StubStateModel, StubActionModel) {
    match (s, e) {
        (StubStateModel::Idle, StubEventModel::Started) => (
            StubStateModel::AwaitingConnection,
            StubActionModel::Acquire,
        ),
        (StubStateModel::AwaitingConnection, StubEventModel::ConnectionReady) => (
            StubStateModel::AwaitingResponse,
            StubActionModel::Send(ProtoModel::Query(QueryModel { id, args })),
        ),
        (StubStateModel::AwaitingConnection, StubEventModel::ConnectionMissing) => (
            StubStateModel::Fatal(StubFault::NoSocket),
            StubActionModel::Abort,
        ),
        (StubStateModel::AwaitingResponse, StubEventModel::Arrived(p)) => match response_for(
            id,
            p,
        ) {
            Option::Some(v) => (StubStateModel::Completed(v), StubActionModel::Finish),
            Option::None => (
                StubStateModel::Fatal(StubFault::ProtocolDesync),
                StubActionModel::Abort,
            ),
        },
        _ => (s, StubActionModel::Abort),
    }
}

/// One in-flight stub call: the descriptor it stands for, the call's
/// actual arguments, and where it stands.
pub struct StubCall {
    pub entry_id: u64,
    pub args: Vec<Value>,
    pub state: StubState,
}

/// Mathematical model of a `StubCall`.
pub ghost struct StubCallModel {
    pub id: int,
    pub args: Seq<ValModel>,
    pub state: StubStateModel,
}

impl View for StubCall {
    type V = StubCallModel;

    open spec fn view(&self) -> StubCallModel {
        StubCallModel {
            id: self.entry_id as int,
            args: vals_view(self.args@),
            state: self.state@,
        }
    }
}

impl StubCall {
    /// A fresh stub call for descriptor `entry_id`, not yet started.
    pub fn new(entry_id: u64, args: Vec<Value>) -> (r: StubCall)
        ensures
            r@ == (StubCallModel {
                id: entry_id as int,
                args: vals_view(args@),
                state: StubStateModel::Idle,
            }),
    {
        StubCall { entry_id, args, state: StubState::Idle }
    }

    /// Takes one event and moves the call along the stub body's state
    /// machine, handing back the action the surroundings must perform.
    /// The call's identity and arguments never change.
    pub fn step(&mut self, event: StubEvent) -> (a: StubAction)
        requires
            admits(old(self)@.state, event@),
        ensures
            final(self)@.id == old(self)@.id,
            final(self)@.args == old(self)@.args,
            (final(self)@.state, a@) == step_spec(
                old(self)@.id,
                old(self)@.args,
                old(self)@.state,
                event@,
            ),
    {
        match event {
            StubEvent::Started => {
                self.state = StubState::AwaitingConnection;
                StubAction::Acquire
            },
            StubEvent::ConnectionReady => {
                let q = build_query(self.entry_id, &self.args);
                self.state = StubState::AwaitingResponse;
                StubAction::Send(q)
            },
            StubEvent::ConnectionMissing => {
                self.state = StubState::Fatal(StubFault::NoSocket);
                StubAction::Abort
            },
            StubEvent::Arrived(p) => {
                match match_response(self.entry_id, p) {
                    Result::Ok(v) => {
                        self.state = StubState::Completed(v);
                        StubAction::Finish
                    },
                    Result::Err(f) => {
                        self.state = StubState::Fatal(f);
                        StubAction::Abort
                    },
                }
            },
        }
    }
}

/// The single, globally shared connection.  Access is serialized per
/// call: at most one request is ever outstanding, because there is no
/// correlation id in the envelope to tell interleaved replies apart.
pub struct ConnectionGate {
    in_flight: bool,
}

impl View for ConnectionGate {
    type V = bool;

    closed spec fn view(&self) -> bool {
        self.in_flight
    }
}

/// Effect of trying to take the connection: the try succeeds exactly
/// when nothing is in flight, and afterwards something is.
pub open spec fn begin_spec(busy: bool) -> (bool, bool) {
    (!busy, true)
}

impl ConnectionGate {
    /// A fresh gate with nothing in flight.
    pub fn new() -> (r: ConnectionGate)
        ensures
            r@ == false,
    {
        ConnectionGate { in_flight: false }
    }

    /// Tries to take the connection for one send-and-await round trip.
    pub fn try_begin(&mut self) -> (granted: bool)
        ensures
            (granted, final(self)@) == begin_spec(old(self)@),
    {
        let granted = !self.in_flight;
        self.in_flight = true;
        granted
    }

    /// Releases the connection once the matching response has been
    /// consumed (or the call aborted).
    pub fn finish(&mut self)
        ensures
            final(self)@ == false,
    {
        self.in_flight = false;
    }
}

/// Law: stub calls are serialized.  While one call holds the
/// connection, a second acquisition attempt is refused — only one
/// request is ever in flight, so replies cannot cross-match.
pub proof fn lemma_second_call_blocked(b0: bool, g1: bool, b1: bool, g2: bool, b2: bool)
    requires
        (g1, b1) == begin_spec(b0),
        (g2, b2) == begin_spec(b1),
        g1,
    ensures
        !g2,
{
}

/// Law: one whole wire round trip is lossless.  When the host-side
/// dispatcher answers query `q` whose routed method produced `invoked`,
/// the stub call awaiting that query's id consumes the answer and
/// completes with exactly `invoked` — both unions carry the value
/// across unchanged.
pub proof fn lemma_wire_round_trip(q: QueryModel, invoked: ValModel)
    ensures
        ({
            let m = dispatch_outcome(q, invoked).unwrap();
            &&& response_for(q.id, ProtoModel::Response(m)) == Option::Some(invoked)
            &&& step_spec(
                q.id,
                q.args,
                StubStateModel::AwaitingResponse,
                StubEventModel::Arrived(ProtoModel::Response(m)),
            ) == (StubStateModel::Completed(invoked), StubActionModel::Finish)
        }),
{
}

/// Law: a crossed response is detected, never silently returned.  A
/// response envelope whose variant id differs from the awaited one
/// yields no value: the stub call ends in the desynchronization fault
/// rather than completing with the wrong call's result.
pub proof fn lemma_cross_match_detected(expected: int, args: Seq<ValModel>, p: ProtoModel)
    requires
        p matches ProtoModel::Response(m) && m.id != expected,
    ensures
        response_for(expected, p) is None,
        step_spec(expected, args, StubStateModel::AwaitingResponse, StubEventModel::Arrived(p)) == (
        StubStateModel::Fatal(StubFault::ProtocolDesync), StubActionModel::Abort),
{
}

} // verus!
