//! The client's control logic: one file is sent over one connection and one
//! response is printed. The surrounding runtime performs the connecting,
//! polling, reading and writing; this module decides, from the current state
//! and the outcome of the last operation, what state comes next and which
//! operation to perform. Not-ready outcomes are retried and never treated as
//! errors; genuine errors are fatal, and a missing input file aborts the
//! whole transfer before anything is written to the network.

use vstd::prelude::*;

verus! {

/// Why the transfer failed.
#[derive(Debug, Clone, Copy, PartialEq, Eq, Structural)]
pub enum ClientError {
    /// The connection to the server could not be opened.
    ConnectError,
    /// The requested local file does not exist.
    FileNotFoundError,
    /// Reading or writing the socket failed for good.
    IoError,
}

/// Where the transfer stands.
#[derive(Debug, Clone, Copy, PartialEq, Eq, Structural)]
pub enum ClientState {
    /// Opening the connection.
    Connecting,
    /// Waiting to send the frame.
    AwaitWritable,
    /// Waiting for the server's response.
    AwaitReadable,
    /// The response was received and printed.
    Done,
    /// The transfer was aborted.
    Failed(ClientError),
}

/// What the runtime reports back after performing an action.
#[derive(Debug, Clone, Copy, PartialEq, Eq, Structural)]
pub enum ClientEvent {
    /// The connection is open.
    Connected,
    /// The connection was refused or timed out.
    ConnectFailed,
    /// The local file to send does not exist.
    FileMissing,
    /// The frame was written. Any successful write counts as complete: the
    /// protocol sends one frame in one write and tracks no partial writes.
    WriteOk,
    /// The socket was not ready; the operation must be retried.
    NotReady,
    /// Writing the frame failed for good.
    WriteError,
    /// Response bytes arrived.
    ReadData,
    /// The peer closed the connection before any response arrived.
    EndOfStream,
    /// Reading the response failed for good.
    ReadError,
}

/// What the runtime is to do next.
#[derive(Debug, Clone, Copy, PartialEq, Eq, Structural)]
pub enum ClientAction {
    /// Wait for write readiness, check that the file exists, and attempt to
    /// write the whole encoded frame.
    AwaitAndSend,
    /// Wait for read readiness and attempt to read the response.
    AwaitAndReceive,
    /// Print the received response.
    PrintResponse,
    /// Report the failure and exit without success.
    ReportFailure,
    /// Nothing; the transfer is over.
    NoOp,
}

/// The transition of the client on one event.
pub open spec fn client_step_spec(state: ClientState, event: ClientEvent) -> (ClientState, ClientAction) {
    match state {
        ClientState::Connecting => match event {
            ClientEvent::Connected => (ClientState::AwaitWritable, ClientAction::AwaitAndSend),
            ClientEvent::ConnectFailed => (
                ClientState::Failed(ClientError::ConnectError),
                ClientAction::ReportFailure,
            ),
            _ => (state, ClientAction::NoOp),
        },
        ClientState::AwaitWritable => match event {
            ClientEvent::FileMissing => (
                ClientState::Failed(ClientError::FileNotFoundError),
                ClientAction::ReportFailure,
            ),
            ClientEvent::WriteOk => (ClientState::AwaitReadable, ClientAction::AwaitAndReceive),
            ClientEvent::NotReady => (ClientState::AwaitWritable, ClientAction::AwaitAndSend),
            ClientEvent::WriteError => (
                ClientState::Failed(ClientError::IoError),
                ClientAction::ReportFailure,
            ),
            _ => (state, ClientAction::NoOp),
        },
        ClientState::AwaitReadable => match event {
            ClientEvent::ReadData => (ClientState::Done, ClientAction::PrintResponse),
            ClientEvent::NotReady => (ClientState::AwaitReadable, ClientAction::AwaitAndReceive),
            ClientEvent::EndOfStream => (
                ClientState::Failed(ClientError::IoError),
                ClientAction::ReportFailure,
            ),
            ClientEvent::ReadError => (
                ClientState::Failed(ClientError::IoError),
                ClientAction::ReportFailure,
            ),
            _ => (state, ClientAction::NoOp),
        },
        ClientState::Done => (state, ClientAction::NoOp),
        ClientState::Failed(_) => (state, ClientAction::NoOp),
    }
}

/// Advances the client by one event.
pub fn client_step(state: ClientState, event: ClientEvent) -> (r: (ClientState, ClientAction))
    ensures
        r == client_step_spec(state, event),
{
    match state {
        ClientState::Connecting => match event {
            ClientEvent::Connected => (ClientState::AwaitWritable, ClientAction::AwaitAndSend),
            ClientEvent::ConnectFailed => (
                ClientState::Failed(ClientError::ConnectError),
                ClientAction::ReportFailure,
            ),
            _ => (state, ClientAction::NoOp),
        },
        ClientState::AwaitWritable => match event {
            ClientEvent::FileMissing => (
                ClientState::Failed(ClientError::FileNotFoundError),
                ClientAction::ReportFailure,
            ),
            ClientEvent::WriteOk => (ClientState::AwaitReadable, ClientAction::AwaitAndReceive),
            ClientEvent::NotReady => (ClientState::AwaitWritable, ClientAction::AwaitAndSend),
            ClientEvent::WriteError => (
                ClientState::Failed(ClientError::IoError),
                ClientAction::ReportFailure,
            ),
            _ => (state, ClientAction::NoOp),
        },
        ClientState::AwaitReadable => match event {
            ClientEvent::ReadData => (ClientState::Done, ClientAction::PrintResponse),
            ClientEvent::NotReady => (ClientState::AwaitReadable, ClientAction::AwaitAndReceive),
            ClientEvent::EndOfStream => (
                ClientState::Failed(ClientError::IoError),
                ClientAction::ReportFailure,
            ),
            ClientEvent::ReadError => (
                ClientState::Failed(ClientError::IoError),
                ClientAction::ReportFailure,
            ),
            _ => (state, ClientAction::NoOp),
        },
        ClientState::Done => (state, ClientAction::NoOp),
        ClientState::Failed(_) => (state, ClientAction::NoOp),
    }
}

/// A missing input file ends the transfer with no network write: the event
/// turns the sending state into the file-not-found failure, it never yields
/// a sending action, and a failed state is absorbing, with no action at all.
pub proof fn lemma_file_missing_aborts_without_send()
    ensures
        client_step_spec(ClientState::AwaitWritable, ClientEvent::FileMissing) == (
            ClientState::Failed(ClientError::FileNotFoundError),
            ClientAction::ReportFailure,
        ),
        forall|s: ClientState|
            (#[trigger] client_step_spec(s, ClientEvent::FileMissing)).1 != ClientAction::AwaitAndSend,
        forall|e: ClientEvent, err: ClientError|
            #[trigger] client_step_spec(ClientState::Failed(err), e) == (
                ClientState::Failed(err),
                ClientAction::NoOp,
            ),
{
}

/// A not-ready socket is retried, never surfaced as an error: in each waiting
/// state the not-ready event keeps the state and repeats its operation.
pub proof fn lemma_not_ready_retries()
    ensures
        client_step_spec(ClientState::AwaitWritable, ClientEvent::NotReady) == (
            ClientState::AwaitWritable,
            ClientAction::AwaitAndSend,
        ),
        client_step_spec(ClientState::AwaitReadable, ClientEvent::NotReady) == (
            ClientState::AwaitReadable,
            ClientAction::AwaitAndReceive,
        ),
{
}

} // verus!
