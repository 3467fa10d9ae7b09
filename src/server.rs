use vstd::prelude::*;

use crate::error::TransferError;
use crate::transport::{TransferConfig, Transport};

verus! {

/// Where the server stands in its run.
#[derive(Clone, Copy, Debug, PartialEq, Eq, Structural)]
pub enum ServerPhase {
    Idle,
    Receiving,
    Dialing,
    Sending,
    Finished,
}

/// What the program around the server session reports back.
pub enum ServerEvent {
    /// The run begins.
    Start,
    /// The request listener received a whole request.
    Received(Vec<u8>),
    /// The reply connection to the client is open.
    Dialed,
    /// The reply was sent whole.
    Sent,
    /// The last action failed.
    Failed(TransferError),
}

/// What the server session asks the program around it to do next.
pub enum ServerAction {
    /// Listen for one request and receive it.
    Listen { transport: Transport, address: String },
    /// Open the reply connection to the client.
    Dial { transport: Transport, address: String },
    /// Send these bytes as the reply.
    Send(Vec<u8>),
    /// The run is over.
    Finish(Result<(), TransferError>),
}

/// The server's side of a transfer: receive one request, then dial the client
/// back and send the received bytes unchanged.
pub struct ServerSession {
    config: TransferConfig,
    phase: ServerPhase,
    received: Vec<u8>,
}

/// The phase after `ev` arrives in `phase`.
pub open spec fn server_next_phase(phase: ServerPhase, ev: ServerEvent) -> ServerPhase {
    match (phase, ev) {
        (ServerPhase::Idle, ServerEvent::Start) => ServerPhase::Receiving,
        (ServerPhase::Receiving, ServerEvent::Received(_)) => ServerPhase::Dialing,
        (ServerPhase::Dialing, ServerEvent::Dialed) => ServerPhase::Sending,
        _ => ServerPhase::Finished,
    }
}

/// The request kept after `ev` arrives in `phase` with `kept` held.
pub open spec fn server_next_request(phase: ServerPhase, kept: Seq<u8>, ev: ServerEvent) -> Seq<u8> {
    match (phase, ev) {
        (ServerPhase::Receiving, ServerEvent::Received(b)) => b@,
        _ => kept,
    }
}

/// Whether `ev` is one that the session waits for in `phase`.
pub open spec fn server_expects(phase: ServerPhase, ev: ServerEvent) -> bool {
    ||| phase is Idle && ev is Start
    ||| phase is Receiving && ev is Received
    ||| phase is Dialing && ev is Dialed
    ||| phase is Sending && ev is Sent
}

/// Whether `ev` in `phase` makes the session send its reply.
pub open spec fn server_sends(phase: ServerPhase, ev: ServerEvent) -> bool {
    phase is Dialing && ev is Dialed
}

/// The server's phase after the events `evs`, from a fresh session.
pub open spec fn server_phase_after(evs: Seq<ServerEvent>) -> ServerPhase
    decreases evs.len(),
{
    if evs.len() == 0 {
        ServerPhase::Idle
    } else {
        server_next_phase(server_phase_after(evs.drop_last()), evs.last())
    }
}

/// The request that the server holds after the events `evs`.
pub open spec fn server_request_after(evs: Seq<ServerEvent>) -> Seq<u8>
    decreases evs.len(),
{
    if evs.len() == 0 {
        Seq::empty()
    } else {
        server_next_request(
            server_phase_after(evs.drop_last()),
            server_request_after(evs.drop_last()),
            evs.last(),
        )
    }
}

proof fn lemma_held_request_was_received(evs: Seq<ServerEvent>, k: int)
    requires
        0 <= k <= evs.len(),
    ensures
        (server_phase_after(evs.take(k)) is Dialing || server_phase_after(evs.take(k)) is Sending)
            ==> exists|j: int|
            0 <= j < k && server_phase_after(#[trigger] evs.take(j)) is Receiving && (
            evs[j] matches ServerEvent::Received(b) && b@ == server_request_after(evs.take(k))),
    decreases k,
{
    if k > 0 {
        lemma_held_request_was_received(evs, k - 1);
        assert(evs.take(k).drop_last() =~= evs.take(k - 1));
        assert(evs.take(k).last() == evs[k - 1]);
    } else {
        assert(evs.take(0) =~= Seq::<ServerEvent>::empty());
    }
}

/// Echo: along any run of a server session, the reply it sends is the
/// request that it received earlier in that run, byte for byte.
pub proof fn lemma_server_echoes_request(evs: Seq<ServerEvent>, i: int)
    requires
        0 <= i < evs.len(),
        server_sends(server_phase_after(evs.take(i)), evs[i]),
    ensures
        exists|j: int|
            0 <= j < i && server_phase_after(#[trigger] evs.take(j)) is Receiving && (
            evs[j] matches ServerEvent::Received(b) && b@ == server_request_after(evs.take(i))),
{
    lemma_held_request_was_received(evs, i);
}

impl ServerSession {
    pub closed spec fn config(&self) -> &TransferConfig {
        &self.config
    }

    pub closed spec fn phase(&self) -> ServerPhase {
        self.phase
    }

    /// The request received so far.
    pub closed spec fn request(&self) -> Seq<u8> {
        self.received@
    }

    pub fn new(config: TransferConfig) -> (r: Self)
        ensures
            r.config() == config,
            r.phase() is Idle,
            r.request() == Seq::<u8>::empty(),
    {
        ServerSession { config, phase: ServerPhase::Idle, received: Vec::new() }
    }

    pub fn phase_now(&self) -> (r: ServerPhase)
        ensures
            r == self.phase(),
    {
        self.phase
    }

    /// Takes one event and gives the next action.
    pub fn step(&mut self, ev: ServerEvent) -> (r: ServerAction)
        ensures
            final(self).config() == old(self).config(),
            final(self).phase() == server_next_phase(old(self).phase(), ev),
            final(self).request() == server_next_request(old(self).phase(), old(self).request(), ev),
            r is Listen <==> old(self).phase() is Idle && ev is Start,
            r matches ServerAction::Listen { transport, address } ==> transport
                == old(self).config().client_transport && address@
                == old(self).config().server_recv_addr@,
            r is Dial <==> old(self).phase() is Receiving && ev is Received,
            r matches ServerAction::Dial { transport, address } ==> transport
                == old(self).config().server_transport && address@
                == old(self).config().client_recv_addr@,
            r is Send <==> server_sends(old(self).phase(), ev),
            r matches ServerAction::Send(b) ==> b@ == old(self).request(),
            r is Finish <==> final(self).phase() is Finished,
            r matches ServerAction::Finish(Ok(_)) <==> old(self).phase() is Sending && ev is Sent,
            ev matches ServerEvent::Failed(e) ==> (!(old(self).phase() is Finished) ==> (
            r matches ServerAction::Finish(Err(f)) && f == e)),
            old(self).phase() is Finished ==> r matches ServerAction::Finish(
                Err(TransferError::OutOfOrder),
            ),
            !server_expects(old(self).phase(), ev) && !(ev is Failed) ==> r matches ServerAction::Finish(
                Err(TransferError::OutOfOrder),
            ),
    {
        let phase = self.phase;
        match (phase, ev) {
            (ServerPhase::Idle, ServerEvent::Start) => {
                self.phase = ServerPhase::Receiving;
                ServerAction::Listen {
                    transport: self.config.client_transport,
                    address: self.config.server_recv_addr.clone(),
                }
            },
            (ServerPhase::Receiving, ServerEvent::Received(bytes)) => {
                self.phase = ServerPhase::Dialing;
                self.received = bytes;
                ServerAction::Dial {
                    transport: self.config.server_transport,
                    address: self.config.client_recv_addr.clone(),
                }
            },
            (ServerPhase::Dialing, ServerEvent::Dialed) => {
                self.phase = ServerPhase::Sending;
                ServerAction::Send(self.received.clone())
            },
            (ServerPhase::Sending, ServerEvent::Sent) => {
                self.phase = ServerPhase::Finished;
                ServerAction::Finish(Ok(()))
            },
            (ServerPhase::Finished, _) => ServerAction::Finish(Err(TransferError::OutOfOrder)),
            (_, ServerEvent::Failed(e)) => {
                self.phase = ServerPhase::Finished;
                ServerAction::Finish(Err(e))
            },
            _ => {
                self.phase = ServerPhase::Finished;
                ServerAction::Finish(Err(TransferError::OutOfOrder))
            },
        }
    }
}

} // verus!
