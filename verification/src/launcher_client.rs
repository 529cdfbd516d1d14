//! The error taxonomy of the client that talks to the separate supervising
//! launcher process over an IPC channel: connection failure, pipe-open
//! failure, frame-deserialization failure, transport-receive failure,
//! protocol-level failure, send failure, and timeout, each carrying enough
//! context to render a human-readable message.

use ipc_channel::ipc::IpcError;
use vstd::prelude::*;
use vstd::string::StringExecFns;

verus! {

/// The received-message failures an IPC channel reports, told apart:
/// a frame that would not deserialize, or a transport-level failure.
#[derive(Debug, Clone)]
pub enum IpcFailure {
    Bincode(String),
    Transport(String),
}

/// Mathematical model of an [`Error`]: the same variants, with the carried
/// context as a character sequence.
#[verifier::ext_equal]
pub enum ErrorV {
    AcceptConn,
    BadPipe(Seq<char>),
    Connect(Seq<char>),
    IPCBincode(Seq<char>),
    IPCIO(Seq<char>),
    Protocol(Seq<char>),
    Send(Seq<char>),
    Timeout,
}

/// A failure of the launcher client, carrying the rendered underlying
/// cause where there is one.
#[derive(Debug, Clone)]
pub enum Error {
    AcceptConn,
    BadPipe(String),
    Connect(String),
    IPCBincode(String),
    IPCIO(String),
    Protocol(String),
    Send(String),
    Timeout,
}

impl View for Error {
    type V = ErrorV;

    open spec fn view(&self) -> ErrorV {
        match self {
            Error::AcceptConn => ErrorV::AcceptConn,
            Error::BadPipe(s) => ErrorV::BadPipe(s@),
            Error::Connect(s) => ErrorV::Connect(s@),
            Error::IPCBincode(s) => ErrorV::IPCBincode(s@),
            Error::IPCIO(s) => ErrorV::IPCIO(s@),
            Error::Protocol(s) => ErrorV::Protocol(s@),
            Error::Send(s) => ErrorV::Send(s@),
            Error::Timeout => ErrorV::Timeout,
        }
    }
}

#[verifier::external_type_specification]
#[verifier::external_body]
pub struct ExIpcError(IpcError);

/// Relies on ipc_channel::ipc::IpcError having exactly the variants
/// Bincode, Io and Disconnected: tells a deserialization failure apart
/// from the transport failures and renders each cause as text. Which side
/// comes back depends on the opaque error value, so nothing more is
/// promised of it.
#[verifier::external_body]
fn classify_ipc_error(err: IpcError) -> (k: IpcFailure) {
    match err {
        IpcError::Bincode(e) => IpcFailure::Bincode(e.to_string()),
        other => IpcFailure::Transport(format!("{:?}", other)),
    }
}

/// The human-readable message of each failure.
pub open spec fn message_spec(e: ErrorV) -> Seq<char> {
    match e {
        ErrorV::AcceptConn => "Unable to accept connection from Launcher"@,
        ErrorV::BadPipe(s) => "Unable to open pipe to Launcher, "@ + s,
        ErrorV::Connect(s) => "Unable to connect to Launcher's pipe, "@ + s,
        ErrorV::IPCBincode(s) => "Unable to read message frame from Launcher, "@ + s,
        ErrorV::IPCIO(s) => "Unable to receive message from Launcher, "@ + s,
        ErrorV::Protocol(s) => s,
        ErrorV::Send(s) => "Unable to send to Launcher's pipe, "@ + s,
        ErrorV::Timeout => "Launcher interaction timed out"@,
    }
}

/// The launcher client error that one classified IPC receive failure
/// becomes: a failed deserialization keeps the frame-decoding flavour, any
/// other receive failure keeps the transport flavour.
pub fn ipc_failure_error(k: IpcFailure) -> (e: Error)
    ensures
        k matches IpcFailure::Bincode(s) ==> e@ == ErrorV::IPCBincode(s@),
        k matches IpcFailure::Transport(s) ==> e@ == ErrorV::IPCIO(s@),
{
    match k {
        IpcFailure::Bincode(s) => Error::IPCBincode(s),
        IpcFailure::Transport(s) => Error::IPCIO(s),
    }
}

impl Error {
    /// What a failure to receive over the launcher's IPC channel becomes:
    /// always one of the two receive-failure variants, chosen by
    /// classifying the channel's own error.
    pub fn from_ipc(err: IpcError) -> (e: Error)
        ensures
            e is IPCBincode || e is IPCIO,
    {
        ipc_failure_error(classify_ipc_error(err))
    }

    /// Renders this failure as a human-readable message.
    pub fn message(&self) -> (m: String)
        ensures
            m@ == message_spec(self@),
    {
        match self {
            Error::AcceptConn => "Unable to accept connection from Launcher".to_owned(),
            Error::BadPipe(s) => {
                let mut m = "Unable to open pipe to Launcher, ".to_owned();
                m.append(s.as_str());
                m
            }
            Error::Connect(s) => {
                let mut m = "Unable to connect to Launcher's pipe, ".to_owned();
                m.append(s.as_str());
                m
            }
            Error::IPCBincode(s) => {
                let mut m = "Unable to read message frame from Launcher, ".to_owned();
                m.append(s.as_str());
                m
            }
            Error::IPCIO(s) => {
                let mut m = "Unable to receive message from Launcher, ".to_owned();
                m.append(s.as_str());
                m
            }
            Error::Protocol(s) => s.clone(),
            Error::Send(s) => {
                let mut m = "Unable to send to Launcher's pipe, ".to_owned();
                m.append(s.as_str());
                m
            }
            Error::Timeout => "Launcher interaction timed out".to_owned(),
        }
    }
}

} // verus!
