use textframe::client::{client_step, ClientAction, ClientError, ClientEvent, ClientState};

#[test]
fn happy_path_sends_then_receives_then_prints() {
    let (s, a) = client_step(ClientState::Connecting, ClientEvent::Connected);
    assert_eq!(s, ClientState::AwaitWritable);
    assert_eq!(a, ClientAction::AwaitAndSend);
    let (s, a) = client_step(s, ClientEvent::WriteOk);
    assert_eq!(s, ClientState::AwaitReadable);
    assert_eq!(a, ClientAction::AwaitAndReceive);
    let (s, a) = client_step(s, ClientEvent::ReadData);
    assert_eq!(s, ClientState::Done);
    assert_eq!(a, ClientAction::PrintResponse);
}

#[test]
fn not_ready_is_retried_not_reported() {
    let (s, a) = client_step(ClientState::AwaitWritable, ClientEvent::NotReady);
    assert_eq!(s, ClientState::AwaitWritable);
    assert_eq!(a, ClientAction::AwaitAndSend);
    let (s, a) = client_step(ClientState::AwaitReadable, ClientEvent::NotReady);
    assert_eq!(s, ClientState::AwaitReadable);
    assert_eq!(a, ClientAction::AwaitAndReceive);
}

#[test]
fn missing_file_aborts_before_any_send() {
    let (s, a) = client_step(ClientState::AwaitWritable, ClientEvent::FileMissing);
    assert_eq!(s, ClientState::Failed(ClientError::FileNotFoundError));
    assert_eq!(a, ClientAction::ReportFailure);
    // The failure is absorbing: nothing is sent afterwards.
    let (s, a) = client_step(s, ClientEvent::WriteOk);
    assert_eq!(s, ClientState::Failed(ClientError::FileNotFoundError));
    assert_eq!(a, ClientAction::NoOp);
}

#[test]
fn connect_refusal_is_fatal() {
    let (s, a) = client_step(ClientState::Connecting, ClientEvent::ConnectFailed);
    assert_eq!(s, ClientState::Failed(ClientError::ConnectError));
    assert_eq!(a, ClientAction::ReportFailure);
}

#[test]
fn io_errors_are_fatal() {
    let (s, _) = client_step(ClientState::AwaitWritable, ClientEvent::WriteError);
    assert_eq!(s, ClientState::Failed(ClientError::IoError));
    let (s, _) = client_step(ClientState::AwaitReadable, ClientEvent::EndOfStream);
    assert_eq!(s, ClientState::Failed(ClientError::IoError));
    let (s, _) = client_step(ClientState::AwaitReadable, ClientEvent::ReadError);
    assert_eq!(s, ClientState::Failed(ClientError::IoError));
}
