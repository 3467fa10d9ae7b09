use network_com_hw_soln::error::TransferError;
use network_com_hw_soln::client::{ClientAction, ClientEvent, ClientPhase, ClientSession};
use network_com_hw_soln::server::{ServerAction, ServerEvent, ServerPhase, ServerSession};
use network_com_hw_soln::stream::{StreamReceiver, StreamSender, StreamStep};
use network_com_hw_soln::transport::{TransferConfig, Transport};

fn config(upload: Transport, reply: Transport, client_addr: &str, server_addr: &str) -> TransferConfig {
    TransferConfig {
        client_transport: upload,
        server_transport: reply,
        client_recv_addr: String::from(client_addr),
        server_recv_addr: String::from(server_addr),
    }
}

/// Carries one message over an in-memory link of the given kind: a stream
/// written in pieces of 3 and read in pieces of 4, or one whole message.
fn carry(transport: Transport, payload: &[u8]) -> Vec<u8> {
    match transport {
        Transport::Nng => payload.to_vec(),
        Transport::Tcp => {
            let mut sender = StreamSender::new(payload.to_vec());
            let mut wire = Vec::new();
            while sender.next_step() == StreamStep::Write {
                let n = sender.pending().len().min(3);
                wire.extend_from_slice(&sender.pending()[..n]);
                sender.on_written(n).unwrap();
            }
            assert_eq!(sender.next_step(), StreamStep::HalfClose);
            sender.on_half_closed();
            let mut receiver = StreamReceiver::new();
            let mut pos = 0;
            loop {
                let end = (pos + 4).min(wire.len());
                if let Some(m) = receiver.on_read(&wire[pos..end]) {
                    return m;
                }
                pos = end;
            }
        }
    }
}

/// Runs a client and a server session against each other with `file` as the
/// uploaded file, and returns the client's final result.
fn run_transfer(cfg_client: TransferConfig, cfg_server: TransferConfig, file: &[u8]) -> Result<Vec<u8>, TransferError> {
    let mut client = ClientSession::new(cfg_client);
    let mut server = ServerSession::new(cfg_server);
    let mut listener: Option<(Transport, String)> = None;
    let mut upload: Option<(Transport, String)> = None;

    // The client starts its listener, then dials and sends.
    match client.step(ClientEvent::Start { file_len: file.len() as u64 }) {
        ClientAction::StartListener { transport, address } => listener = Some((transport, address)),
        _ => panic!("client must start its listener first"),
    }
    match client.step(ClientEvent::ListenerReady) {
        ClientAction::Dial { transport, address } => upload = Some((transport, address)),
        _ => panic!("client must dial after the listener is ready"),
    }
    let (up_transport, up_address) = upload.unwrap();
    match client.step(ClientEvent::Dialed) {
        ClientAction::SendFile { size } => assert_eq!(size, file.len()),
        _ => panic!("client must send the file once dialed"),
    }

    // The server listens where the client dialed, with the same transport.
    match server.step(ServerEvent::Start) {
        ServerAction::Listen { transport, address } => {
            assert_eq!(transport, up_transport);
            assert_eq!(address, up_address);
        }
        _ => panic!("server must listen first"),
    }
    let request = carry(up_transport, file);
    let (reply_transport, reply_address) = match server.step(ServerEvent::Received(request)) {
        ServerAction::Dial { transport, address } => (transport, address),
        _ => panic!("server must dial back"),
    };
    let (listen_transport, listen_address) = listener.unwrap();
    assert_eq!(reply_transport, listen_transport);
    assert_eq!(reply_address, listen_address);
    let reply = match server.step(ServerEvent::Dialed) {
        ServerAction::Send(bytes) => bytes,
        _ => panic!("server must send its reply"),
    };
    assert!(matches!(server.step(ServerEvent::Sent), ServerAction::Finish(Ok(()))));
    assert_eq!(server.phase_now(), ServerPhase::Finished);

    assert!(matches!(client.step(ClientEvent::FileSent), ClientAction::AwaitReply));
    let received = carry(reply_transport, &reply);
    let result = match client.step(ClientEvent::Reply(received)) {
        ClientAction::Finish(r) => r,
        _ => panic!("client must finish with the reply"),
    };
    assert_eq!(client.phase_now(), ClientPhase::Finished);
    result
}

#[test]
fn concrete_scenario_stream_up_message_back() {
    let file: Vec<u8> = (1u8..=10).collect();
    let cfg = || config(Transport::Tcp, Transport::Nng, "127.0.0.1:6000", "127.0.0.1:7000");
    assert_eq!(run_transfer(cfg(), cfg(), &file), Ok(file.clone()));
}

#[test]
fn asymmetric_transports_deliver_full_reply() {
    let file: Vec<u8> = (0..1000u32).map(|i| (i % 251) as u8).collect();
    let cfg = || config(Transport::Tcp, Transport::Nng, "127.0.0.1:6001", "127.0.0.1:7001");
    assert_eq!(run_transfer(cfg(), cfg(), &file), Ok(file.clone()));
    let cfg = || config(Transport::Nng, Transport::Tcp, "127.0.0.1:6002", "127.0.0.1:7002");
    assert_eq!(run_transfer(cfg(), cfg(), &file), Ok(file.clone()));
}

#[test]
fn round_trip_every_transport_pair_and_empty_file() {
    for up in [Transport::Tcp, Transport::Nng] {
        for back in [Transport::Tcp, Transport::Nng] {
            for file in [Vec::new(), vec![0u8], vec![5u8; 17]] {
                let cfg = || config(up, back, "[::1]:6000", "[::1]:7000");
                assert_eq!(run_transfer(cfg(), cfg(), &file), Ok(file.clone()));
            }
        }
    }
}

#[test]
fn client_dials_only_after_listener_ready() {
    let mut client = ClientSession::new(config(Transport::Tcp, Transport::Tcp, "a:1", "b:2"));
    // Dialing before the listener is up is refused by the session.
    assert!(matches!(
        client.step(ClientEvent::Dialed),
        ClientAction::Finish(Err(TransferError::OutOfOrder))
    ));
    let mut client = ClientSession::new(config(Transport::Tcp, Transport::Tcp, "a:1", "b:2"));
    assert!(matches!(client.step(ClientEvent::Start { file_len: 3 }), ClientAction::StartListener { .. }));
    assert_eq!(client.phase_now(), ClientPhase::AwaitingListener);
    assert!(matches!(
        client.step(ClientEvent::Dialed),
        ClientAction::Finish(Err(TransferError::OutOfOrder))
    ));
}

#[test]
fn client_listener_uses_reply_leg_settings() {
    let mut client = ClientSession::new(config(Transport::Tcp, Transport::Nng, "127.0.0.1:6000", "127.0.0.1:7000"));
    match client.step(ClientEvent::Start { file_len: 10 }) {
        ClientAction::StartListener { transport, address } => {
            assert_eq!(transport, Transport::Nng);
            assert_eq!(address, "127.0.0.1:6000");
        }
        _ => panic!("expected the listener to start"),
    }
    match client.step(ClientEvent::ListenerReady) {
        ClientAction::Dial { transport, address } => {
            assert_eq!(transport, Transport::Tcp);
            assert_eq!(address, "127.0.0.1:7000");
        }
        _ => panic!("expected a dial"),
    }
}

#[test]
fn client_failure_ends_run_with_that_error() {
    let mut client = ClientSession::new(config(Transport::Tcp, Transport::Tcp, "a:1", "b:2"));
    client.step(ClientEvent::Start { file_len: 3 });
    client.step(ClientEvent::ListenerReady);
    assert!(matches!(
        client.step(ClientEvent::Failed(TransferError::ConnectionRefused)),
        ClientAction::Finish(Err(TransferError::ConnectionRefused))
    ));
    assert!(matches!(
        client.step(ClientEvent::ListenerReady),
        ClientAction::Finish(Err(TransferError::OutOfOrder))
    ));
}

#[test]
fn oversized_file_fails_before_any_network_action() {
    if (usize::MAX as u128) < (u64::MAX as u128) {
        let mut client = ClientSession::new(config(Transport::Tcp, Transport::Tcp, "a:1", "b:2"));
        assert!(matches!(
            client.step(ClientEvent::Start { file_len: u64::MAX }),
            ClientAction::Finish(Err(TransferError::SizeConversion))
        ));
        assert_eq!(client.phase_now(), ClientPhase::Finished);
    }
}

#[test]
fn server_failure_while_receiving() {
    let mut server = ServerSession::new(config(Transport::Tcp, Transport::Tcp, "a:1", "b:2"));
    server.step(ServerEvent::Start);
    assert!(matches!(
        server.step(ServerEvent::Failed(TransferError::AddressBind)),
        ServerAction::Finish(Err(TransferError::AddressBind))
    ));
    assert!(matches!(server.step(ServerEvent::Sent), ServerAction::Finish(Err(TransferError::OutOfOrder))));
}
