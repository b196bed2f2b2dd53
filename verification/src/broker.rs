//! Kernel requests and responses, the choice between serving a request in
//! process and sending it to the broker socket, and the broker's framing of
//! answers.
use vstd::prelude::*;

use crate::kernel::{KernelStatus, ReplResponse};
use crate::paths::{join_path, path_join};
use crate::text::{push_str, str_equal};

verus! {

/// How a kernel request is served.
#[derive(Debug, Clone, Copy, PartialEq, Eq, Structural)]
pub enum TransportMode {
    /// Try the broker socket once; serve in process when nobody listens.
    Auto,
    /// Always serve in process.
    Local,
    /// Always send to the broker.
    Socket,
}

/// The transport mode a command-line word names.
pub open spec fn transport_named(value: Seq<char>) -> Option<TransportMode> {
    if value == "auto"@ {
        Some(TransportMode::Auto)
    } else if value == "local"@ {
        Some(TransportMode::Local)
    } else if value == "socket"@ {
        Some(TransportMode::Socket)
    } else {
        None
    }
}

/// Reads a transport mode: `auto`, `local` or `socket`.
pub fn parse_transport(value: &str) -> (r: Result<TransportMode, String>)
    ensures
        transport_named(value@) matches Some(m) ==> r == Ok::<TransportMode, String>(m),
        transport_named(value@) is None ==> (r matches Err(e) && e@
            == "transport must be auto, local, or socket"@),
{
    if str_equal(value, "auto") {
        Ok(TransportMode::Auto)
    } else if str_equal(value, "local") {
        Ok(TransportMode::Local)
    } else if str_equal(value, "socket") {
        Ok(TransportMode::Socket)
    } else {
        Err("transport must be auto, local, or socket".to_owned())
    }
}

impl std::str::FromStr for TransportMode {
    type Err = String;

    fn from_str(value: &str) -> (r: Result<Self, Self::Err>)
        ensures
            transport_named(value@) matches Some(m) ==> r == Ok::<TransportMode, String>(m),
            transport_named(value@) is None ==> (r matches Err(e) && e@
                == "transport must be auto, local, or socket"@),
    {
        parse_transport(value)
    }
}

/// A kernel operation with the manager settings of the caller.
#[derive(Debug, Clone)]
pub struct KernelRequest {
    pub operation: KernelOperation,
    pub kernel_dir: Option<String>,
    pub python: Option<String>,
    pub kernel_script: Option<String>,
}

/// What a kernel request asks for.
#[derive(Debug, Clone)]
pub enum KernelOperation {
    Create { name: String, kernelspec: Option<String> },
    List,
    Attach { name: String, connection_file: String },
    Connect { name: String },
    Delete { name: String },
    Exec { name: String, code: String },
    Complete { name: String, code: String, cursor: Option<usize> },
    Inspect { name: String, code: String, cursor: Option<usize>, detail_level: u8 },
    KernelInfo { name: String },
    IsComplete { name: String, code: String },
    Interrupt { name: String },
    Heartbeat { name: String },
}

/// The answer to a kernel request. Connection documents and Jupyter
/// replies are carried as their JSON text.
#[derive(Debug, Clone)]
pub enum KernelResponse {
    Created { name: String, pid: u32 },
    Listed { kernels: Vec<KernelStatus> },
    Attached { name: String },
    Connected { connection: String },
    Deleted { name: String },
    Executed { response: ReplResponse },
    JupyterReply { message: String },
    Heartbeat { alive: bool },
}

/// What the broker writes back for one request.
#[derive(Debug, Clone)]
pub struct WireResponse {
    pub ok: bool,
    pub response: Option<KernelResponse>,
    pub error: Option<String>,
}

/// Why a request sent to the broker did not get an answer.
#[derive(Debug, Clone)]
pub enum BrokerClientError {
    /// Nobody listens on the socket.
    Unavailable,
    /// The broker failed or refused the request, with the message.
    Failure(String),
}

/// The broker's answer to a request it served.
pub fn wire_response(result: Result<KernelResponse, String>) -> (r: WireResponse)
    ensures
        result matches Ok(resp) ==> r.ok && r.response == Some(resp) && r.error is None,
        result matches Err(e) ==> !r.ok && r.response is None && r.error == Some(e),
{
    match result {
        Ok(response) => WireResponse { ok: true, response: Some(response), error: None },
        Err(error) => WireResponse { ok: false, response: None, error: Some(error) },
    }
}

/// What a client makes of the broker's answer.
pub open spec fn wire_outcome(wire: WireResponse) -> Result<KernelResponse, Option<Seq<char>>> {
    if wire.ok {
        match wire.response {
            Some(resp) => Ok(resp),
            None => Err(Some("broker returned no response payload"@)),
        }
    } else {
        match wire.error {
            Some(e) => Err(Some(e@)),
            None => Err(Some("broker request failed"@)),
        }
    }
}

/// Reads the broker's answer: the response it carries, or its error as a
/// failure.
pub fn read_wire_response(wire: WireResponse) -> (r: Result<KernelResponse, BrokerClientError>)
    ensures
        wire_outcome(wire) matches Ok(resp) ==> r == Ok::<KernelResponse, BrokerClientError>(
            resp,
        ),
        wire_outcome(wire) matches Err(Some(message)) ==> (r matches Err(
            BrokerClientError::Failure(e),
        ) && e@ == message),
{
    if wire.ok {
        match wire.response {
            Some(response) => Ok(response),
            None => Err(
                BrokerClientError::Failure("broker returned no response payload".to_owned()),
            ),
        }
    } else {
        match wire.error {
            Some(error) => Err(BrokerClientError::Failure(error)),
            None => Err(BrokerClientError::Failure("broker request failed".to_owned())),
        }
    }
}

/// What the broker answers is what its client receives: a response comes
/// back unchanged, and an error comes back as a failure with its message.
pub proof fn lemma_wire_round_trip(result: Result<KernelResponse, String>, wire: WireResponse)
    requires
        result matches Ok(resp) ==> wire.ok && wire.response == Some(resp) && wire.error is None,
        result matches Err(e) ==> !wire.ok && wire.response is None && wire.error == Some(e),
    ensures
        result matches Ok(resp) ==> wire_outcome(wire) == Ok::<
            KernelResponse,
            Option<Seq<char>>,
        >(resp),
        result matches Err(e) ==> wire_outcome(wire) == Err::<KernelResponse, Option<Seq<char>>>(
            Some(e@),
        ),
{
}

/// How connecting to the broker socket failed.
#[derive(Debug, Clone, Copy, PartialEq, Eq, Structural)]
pub enum ConnectErrorKind {
    NotFound,
    ConnectionRefused,
    Other,
}

/// Whether a failed connection means that no broker listens.
pub open spec fn nobody_listens(kind: ConnectErrorKind) -> bool {
    kind == ConnectErrorKind::NotFound || kind == ConnectErrorKind::ConnectionRefused
}

/// The client's reading of a failed connection to the broker socket.
pub fn broker_connect_error(socket: &str, kind: ConnectErrorKind, error: &str) -> (r:
    BrokerClientError)
    ensures
        nobody_listens(kind) ==> r is Unavailable,
        !nobody_listens(kind) ==> (r matches BrokerClientError::Failure(e) && e@
            == "cannot connect to broker socket "@ + socket@ + ": "@ + error@),
{
    match kind {
        ConnectErrorKind::NotFound => BrokerClientError::Unavailable,
        ConnectErrorKind::ConnectionRefused => BrokerClientError::Unavailable,
        ConnectErrorKind::Other => {
            let mut e = "cannot connect to broker socket ".to_owned();
            push_str(&mut e, socket);
            push_str(&mut e, ": ");
            push_str(&mut e, error);
            BrokerClientError::Failure(e)
        },
    }
}

/// Whether a request in this mode is first sent to the broker.
pub fn tries_broker(mode: TransportMode) -> (r: bool)
    ensures
        r == (mode != TransportMode::Local),
{
    match mode {
        TransportMode::Local => false,
        _ => true,
    }
}

/// What to do once the broker was tried.
#[derive(Debug)]
pub enum AfterBroker {
    /// The request is settled with this result.
    Settled(Result<KernelResponse, String>),
    /// Nobody listens and the mode allows it: serve the request in process.
    ServeLocally,
}

/// Settles a request that was sent to the broker: in `auto` mode a socket
/// without a listener falls back to serving in process; in `socket` mode it
/// is an error; other failures are returned in both.
pub fn after_broker(
    mode: TransportMode,
    socket: &str,
    outcome: Result<KernelResponse, BrokerClientError>,
) -> (r: AfterBroker)
    ensures
        outcome matches Ok(resp) ==> r == AfterBroker::Settled(
            Ok::<KernelResponse, String>(resp),
        ),
        outcome matches Err(BrokerClientError::Failure(e)) ==> r == AfterBroker::Settled(
            Err::<KernelResponse, String>(e),
        ),
        (outcome matches Err(BrokerClientError::Unavailable) && mode != TransportMode::Socket)
            ==> r == AfterBroker::ServeLocally,
        (outcome matches Err(BrokerClientError::Unavailable) && mode == TransportMode::Socket)
            ==> (r matches AfterBroker::Settled(Err(e)) && e@ == "broker is unavailable at "@
            + socket@),
{
    match outcome {
        Ok(response) => AfterBroker::Settled(Ok(response)),
        Err(BrokerClientError::Failure(error)) => AfterBroker::Settled(Err(error)),
        Err(BrokerClientError::Unavailable) => {
            if mode == TransportMode::Socket {
                let mut e = "broker is unavailable at ".to_owned();
                push_str(&mut e, socket);
                AfterBroker::Settled(Err(e))
            } else {
                AfterBroker::ServeLocally
            }
        },
    }
}

/// What `serve` does with a socket file left at its path, from the attempt
/// to connect to it (`None` when a broker answered): refuse while a broker
/// listens, remove it when nobody does (`Ok(true)`), and fail otherwise.
pub fn stale_socket(socket: &str, probe: Option<(ConnectErrorKind, &str)>) -> (r: Result<
    bool,
    String,
>)
    ensures
        probe is None ==> (r matches Err(e) && e@ == "broker is already running at "@ + socket@),
        probe matches Some((kind, _)) ==> (nobody_listens(kind) ==> r == Ok::<bool, String>(
            true,
        )),
        probe matches Some((kind, error)) ==> (!nobody_listens(kind) ==> (r matches Err(e) && e@
            == "cannot inspect broker socket "@ + socket@ + ": "@ + error@)),
{
    match probe {
        None => {
            let mut e = "broker is already running at ".to_owned();
            push_str(&mut e, socket);
            Err(e)
        },
        Some((kind, error)) => {
            if kind == ConnectErrorKind::Other {
                let mut e = "cannot inspect broker socket ".to_owned();
                push_str(&mut e, socket);
                push_str(&mut e, ": ");
                push_str(&mut e, error);
                Err(e)
            } else {
                Ok(true)
            }
        },
    }
}

/// The broker socket: `MULTIREPL_BROKER_SOCKET`, else `.multirepl/b.sock`
/// under the home directory, else that path relative to the working
/// directory.
pub fn default_socket_path_from(socket_var: Option<String>, home: Option<String>) -> (r: String)
    ensures
        socket_var matches Some(s) ==> r@ == s@,
        socket_var is None ==> (home matches Some(h) ==> r@ == path_join(
            h@,
            ".multirepl/b.sock"@,
        )),
        (socket_var is None && home is None) ==> r@ == ".multirepl/b.sock"@,
{
    match socket_var {
        Some(s) => s,
        None => match home {
            Some(h) => join_path(h.as_str(), ".multirepl/b.sock"),
            None => ".multirepl/b.sock".to_owned(),
        },
    }
}


/// In `auto` mode a request is served in process exactly when connecting
/// to the broker failed because nobody listens on the socket; in `socket`
/// mode it never is. Other connection failures are returned, not bypassed.
pub proof fn lemma_fallback_only_when_nobody_listens(
    mode: TransportMode,
    kind: ConnectErrorKind,
    error: BrokerClientError,
    next: AfterBroker,
)
    requires
        nobody_listens(kind) ==> error is Unavailable,
        !nobody_listens(kind) ==> error is Failure,
        error matches BrokerClientError::Failure(e) ==> next == AfterBroker::Settled(
            Err::<KernelResponse, String>(e),
        ),
        (error is Unavailable && mode != TransportMode::Socket) ==> next
            == AfterBroker::ServeLocally,
        (error is Unavailable && mode == TransportMode::Socket) ==> next is Settled,
    ensures
        next is ServeLocally <==> (mode != TransportMode::Socket && nobody_listens(kind)),
{
}

} // verus!
