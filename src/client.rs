use vstd::prelude::*;

use crate::error::TransferError;
use crate::transport::{TransferConfig, Transport};

verus! {

/// Where the client stands in its run.
#[derive(Clone, Copy, Debug, PartialEq, Eq, Structural)]
pub enum ClientPhase {
    Idle,
    AwaitingListener,
    Dialing,
    Sending,
    AwaitingReply,
    Finished,
}

/// What the program around the client session reports back.
pub enum ClientEvent {
    /// The run begins with a file of this many bytes.
    Start { file_len: u64 },
    /// The reply listener is bound and can take a connection.
    ListenerReady,
    /// The connection to the server is open.
    Dialed,
    /// The file was sent whole.
    FileSent,
    /// The reply listener received the server's reply.
    Reply(Vec<u8>),
    /// The last action failed.
    Failed(TransferError),
}

/// What the client session asks the program around it to do next.
pub enum ClientAction {
    /// Start the reply listener in its own task.
    StartListener { transport: Transport, address: String },
    /// Open the upload connection to the server.
    Dial { transport: Transport, address: String },
    /// Read the file, `size` bytes, and send it over the upload connection.
    SendFile { size: usize },
    /// Join the listener task and report its result.
    AwaitReply,
    /// The run is over, with the reply or the error that ended it.
    Finish(Result<Vec<u8>, TransferError>),
}

/// The client's side of a transfer. It starts its reply listener before it
/// dials the server, so that a fast reply finds the listener bound.
pub struct ClientSession {
    config: TransferConfig,
    phase: ClientPhase,
    size: usize,
}

/// The phase after `ev` arrives in `phase`.
pub open spec fn client_next_phase(phase: ClientPhase, ev: ClientEvent) -> ClientPhase {
    match (phase, ev) {
        (ClientPhase::Idle, ClientEvent::Start { file_len }) => if file_len <= usize::MAX {
            ClientPhase::AwaitingListener
        } else {
            ClientPhase::Finished
        },
        (ClientPhase::AwaitingListener, ClientEvent::ListenerReady) => ClientPhase::Dialing,
        (ClientPhase::Dialing, ClientEvent::Dialed) => ClientPhase::Sending,
        (ClientPhase::Sending, ClientEvent::FileSent) => ClientPhase::AwaitingReply,
        _ => ClientPhase::Finished,
    }
}

/// Whether `ev` in `phase` makes the session start its reply listener.
pub open spec fn client_starts_listener(phase: ClientPhase, ev: ClientEvent) -> bool {
    phase is Idle && (ev matches ClientEvent::Start { file_len } && file_len <= usize::MAX)
}

/// Whether `ev` is one that the session waits for in `phase`.
pub open spec fn client_expects(phase: ClientPhase, ev: ClientEvent) -> bool {
    ||| phase is Idle && ev is Start
    ||| phase is AwaitingListener && ev is ListenerReady
    ||| phase is Dialing && ev is Dialed
    ||| phase is Sending && ev is FileSent
    ||| phase is AwaitingReply && ev is Reply
}

/// Whether `ev` in `phase` makes the session dial the server.
pub open spec fn client_dials(phase: ClientPhase, ev: ClientEvent) -> bool {
    phase is AwaitingListener && ev is ListenerReady
}

/// The client's phase after the events `evs`, from a fresh session.
pub open spec fn client_phase_after(evs: Seq<ClientEvent>) -> ClientPhase
    decreases evs.len(),
{
    if evs.len() == 0 {
        ClientPhase::Idle
    } else {
        client_next_phase(client_phase_after(evs.drop_last()), evs.last())
    }
}

proof fn lemma_active_phase_has_listener(evs: Seq<ClientEvent>, k: int)
    requires
        0 <= k <= evs.len(),
    ensures
        ({
            let p = client_phase_after(evs.take(k));
            p is AwaitingListener || p is Dialing || p is Sending || p is AwaitingReply
        }) ==> exists|j: int|
            0 <= j < k && client_starts_listener(
                #[trigger] client_phase_after(evs.take(j)),
                evs[j],
            ),
    decreases k,
{
    if k > 0 {
        lemma_active_phase_has_listener(evs, k - 1);
        assert(evs.take(k).drop_last() =~= evs.take(k - 1));
        assert(evs.take(k).last() == evs[k - 1]);
        let p = client_phase_after(evs.take(k - 1));
        if client_starts_listener(p, evs[k - 1]) {
            assert(0 <= k - 1 < k && client_starts_listener(
                client_phase_after(evs.take(k - 1)),
                evs[k - 1],
            ));
        }
    } else {
        assert(evs.take(0) =~= Seq::<ClientEvent>::empty());
    }
}

/// Listener before dial: along any run of a client session, an event that
/// makes it dial the server is the listener's report that it is bound, and an
/// earlier event made it start that listener.
pub proof fn lemma_listener_before_dial(evs: Seq<ClientEvent>, i: int)
    requires
        0 <= i < evs.len(),
        client_dials(client_phase_after(evs.take(i)), evs[i]),
    ensures
        evs[i] is ListenerReady,
        exists|j: int|
            0 <= j < i && client_starts_listener(
                #[trigger] client_phase_after(evs.take(j)),
                evs[j],
            ),
{
    lemma_active_phase_has_listener(evs, i);
}

proof fn lemma_oversized_stays_finished(evs: Seq<ClientEvent>, k: int)
    requires
        1 <= k <= evs.len(),
        evs[0] matches ClientEvent::Start { file_len } && file_len > usize::MAX,
    ensures
        client_phase_after(evs.take(k)) is Finished,
    decreases k,
{
    assert(evs.take(k).drop_last() =~= evs.take(k - 1));
    if k > 1 {
        lemma_oversized_stays_finished(evs, k - 1);
    } else {
        assert(evs.take(0) =~= Seq::<ClientEvent>::empty());
    }
}

/// A run that starts with a file too large for `usize` neither listens nor
/// dials: it ends at once, with no network action at all.
pub proof fn lemma_oversized_file_no_network(evs: Seq<ClientEvent>, i: int)
    requires
        0 <= i < evs.len(),
        evs[0] matches ClientEvent::Start { file_len } && file_len > usize::MAX,
    ensures
        !client_starts_listener(client_phase_after(evs.take(i)), evs[i]),
        !client_dials(client_phase_after(evs.take(i)), evs[i]),
{
    if i >= 1 {
        lemma_oversized_stays_finished(evs, i);
    } else {
        assert(evs.take(0) =~= Seq::<ClientEvent>::empty());
    }
}

impl ClientSession {
    pub closed spec fn config(&self) -> &TransferConfig {
        &self.config
    }

    pub closed spec fn phase(&self) -> ClientPhase {
        self.phase
    }

    /// The size of the file, once the run has started.
    pub closed spec fn size(&self) -> nat {
        self.size as nat
    }

    pub fn new(config: TransferConfig) -> (r: Self)
        ensures
            r.config() == config,
            r.phase() is Idle,
    {
        ClientSession { config, phase: ClientPhase::Idle, size: 0 }
    }

    pub fn phase_now(&self) -> (r: ClientPhase)
        ensures
            r == self.phase(),
    {
        self.phase
    }

    /// Takes one event and gives the next action.
    pub fn step(&mut self, ev: ClientEvent) -> (r: ClientAction)
        ensures
            final(self).config() == old(self).config(),
            final(self).phase() == client_next_phase(old(self).phase(), ev),
            r is StartListener <==> client_starts_listener(old(self).phase(), ev),
            r is Dial <==> client_dials(old(self).phase(), ev),
            r matches ClientAction::StartListener { transport, address } ==> transport
                == old(self).config().server_transport && address@
                == old(self).config().client_recv_addr@,
            r matches ClientAction::Dial { transport, address } ==> transport
                == old(self).config().client_transport && address@
                == old(self).config().server_recv_addr@,
            ev matches ClientEvent::Start { file_len } ==> (client_starts_listener(
                old(self).phase(),
                ev,
            ) ==> final(self).size() == file_len),
            !client_starts_listener(old(self).phase(), ev) ==> final(self).size() == old(
                self,
            ).size(),
            r is SendFile <==> old(self).phase() is Dialing && ev is Dialed,
            r matches ClientAction::SendFile { size } ==> size == old(self).size(),
            r is AwaitReply <==> old(self).phase() is Sending && ev is FileSent,
            r is Finish <==> final(self).phase() is Finished,
            ev matches ClientEvent::Reply(b) ==> (old(self).phase() is AwaitingReply ==> (
            r matches ClientAction::Finish(Ok(c)) && c@ == b@)),
            ev matches ClientEvent::Start { file_len } ==> ((old(self).phase() is Idle && file_len
                > usize::MAX) ==> r matches ClientAction::Finish(
                Err(TransferError::SizeConversion),
            )),
            ev matches ClientEvent::Failed(e) ==> (!(old(self).phase() is Finished) ==> (
            r matches ClientAction::Finish(Err(f)) && f == e)),
            old(self).phase() is Finished ==> r matches ClientAction::Finish(
                Err(TransferError::OutOfOrder),
            ),
            r matches ClientAction::Finish(Ok(_)) ==> old(self).phase() is AwaitingReply
                && ev is Reply,
            !client_expects(old(self).phase(), ev) && !(ev is Failed) ==> r matches ClientAction::Finish(
                Err(TransferError::OutOfOrder),
            ),
    {
        let phase = self.phase;
        match (phase, ev) {
            (ClientPhase::Idle, ClientEvent::Start { file_len }) => {
                if (file_len as u128) <= (usize::MAX as u128) {
                    self.phase = ClientPhase::AwaitingListener;
                    self.size = file_len as usize;
                    ClientAction::StartListener {
                        transport: self.config.server_transport,
                        address: self.config.client_recv_addr.clone(),
                    }
                } else {
                    self.phase = ClientPhase::Finished;
                    ClientAction::Finish(Err(TransferError::SizeConversion))
                }
            },
            (ClientPhase::AwaitingListener, ClientEvent::ListenerReady) => {
                self.phase = ClientPhase::Dialing;
                ClientAction::Dial {
                    transport: self.config.client_transport,
                    address: self.config.server_recv_addr.clone(),
                }
            },
            (ClientPhase::Dialing, ClientEvent::Dialed) => {
                self.phase = ClientPhase::Sending;
                ClientAction::SendFile { size: self.size }
            },
            (ClientPhase::Sending, ClientEvent::FileSent) => {
                self.phase = ClientPhase::AwaitingReply;
                ClientAction::AwaitReply
            },
            (ClientPhase::AwaitingReply, ClientEvent::Reply(bytes)) => {
                self.phase = ClientPhase::Finished;
                ClientAction::Finish(Ok(bytes))
            },
            (ClientPhase::Finished, _) => ClientAction::Finish(Err(TransferError::OutOfOrder)),
            (_, ClientEvent::Failed(e)) => {
                self.phase = ClientPhase::Finished;
                ClientAction::Finish(Err(e))
            },
            _ => {
                self.phase = ClientPhase::Finished;
                ClientAction::Finish(Err(TransferError::OutOfOrder))
            },
        }
    }
}

} // verus!
