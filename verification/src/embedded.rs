//! The embedded SSH engine: what it is told, how it connects, and how its
//! failures are put to the user.
use crate::text::{concat3, contains_text, endpoint, endpoint_text, has_text};
use crate::unicode::in_small;
use vstd::prelude::*;
use vstd::string::StringExecFns;

verus! {

/// The server that the embedded engine connects to.
#[derive(Debug)]
pub struct EmbeddedServer {
    pub name: String,
    pub host: String,
    pub port: u16,
    pub user: String,
    pub key_path: String,
    pub strict_host_key_checking: String,
}

impl Clone for EmbeddedServer {
    fn clone(&self) -> (r: Self)
        ensures
            r == *self,
    {
        EmbeddedServer {
            name: self.name.clone(),
            host: self.host.clone(),
            port: self.port,
            user: self.user.clone(),
            key_path: self.key_path.clone(),
            strict_host_key_checking: self.strict_host_key_checking.clone(),
        }
    }
}

/// The address on which the embedded engine listens.
#[derive(Debug)]
pub struct EmbeddedProxy {
    pub host: String,
    pub port: u16,
}

impl Clone for EmbeddedProxy {
    fn clone(&self) -> (r: Self)
        ensures
            r == *self,
    {
        EmbeddedProxy { host: self.host.clone(), port: self.port }
    }
}

/// What the user is told when the private key cannot be loaded. `lower` is the
/// failure in small letters.
pub open spec fn key_error(key_path: Seq<char>, raw: Seq<char>, lower: Seq<char>) -> Seq<char> {
    if has_text(lower, "encrypted"@) || has_text(lower, "passphrase"@) {
        "Embedded SSH cannot open encrypted private key '"@ + key_path
            + "' yet. Use System OpenSSH or a dedicated key without passphrase for embedded mode."@
    } else if has_text(lower, "no such file"@) || has_text(lower, "not found"@) {
        "SSH key file not found: "@ + key_path
    } else {
        "Cannot load SSH key for embedded engine '"@ + key_path + "': "@ + raw
    }
}

/// Words a failure to load the private key, from the failure as it came and in
/// small letters.
pub fn word_key_error(key_path: &str, raw: &str, lower: &str) -> (r: String)
    ensures
        r@ == key_error(key_path@, raw@, lower@),
{
    if contains_text(lower, "encrypted") || contains_text(lower, "passphrase") {
        return concat3(
            "Embedded SSH cannot open encrypted private key '",
            key_path,
            "' yet. Use System OpenSSH or a dedicated key without passphrase for embedded mode.",
        );
    }
    if contains_text(lower, "no such file") || contains_text(lower, "not found") {
        let mut out = "SSH key file not found: ".to_owned();
        out.append(key_path);
        return out;
    }
    let mut out = "Cannot load SSH key for embedded engine '".to_owned();
    out.append(key_path);
    out.append("': ");
    out.append(raw);
    out
}

/// Words a failure to load the private key.
pub fn friendly_key_error(key_path: &str, raw: &str) -> (r: String)
    ensures
        r@ == key_error(key_path@, raw@, in_small(raw@)),
{
    let lower = raw.to_lowercase();
    word_key_error(key_path, raw, lower.as_str())
}

/// What the user is told when the server cannot be reached. `lower` is the
/// failure in small letters.
pub open spec fn connect_error(
    server: EmbeddedServer,
    raw: Seq<char>,
    lower: Seq<char>,
) -> Seq<char> {
    let place = endpoint(server.host@, server.port);
    if (has_text(lower, "key"@) && has_text(lower, "reject"@)) || has_text(lower, "unknownkey"@) {
        "Embedded SSH rejected the server host key for "@ + place
            + ". Check ~/.ssh/known_hosts or use StrictHostKeyChecking=accept-new for the first connection."@
    } else if has_text(lower, "timed out"@) || has_text(lower, "timeout"@) {
        "Embedded SSH timed out connecting to "@ + place
            + ". Check host, port, firewall, and network reachability."@
    } else if has_text(lower, "connection refused"@) {
        "Embedded SSH connection refused by "@ + place
            + ". Check the SSH port and server firewall."@
    } else {
        "Embedded SSH connect failed for '"@ + server.name@ + "' at "@ + place + ": "@ + raw
    }
}

/// Words a failure to connect, from the failure as it came and in small
/// letters.
pub fn word_connect_error(server: &EmbeddedServer, raw: &str, lower: &str) -> (r: String)
    ensures
        r@ == connect_error(*server, raw@, lower@),
{
    let place = endpoint_text(server.host.as_str(), server.port);
    if (contains_text(lower, "key") && contains_text(lower, "reject")) || contains_text(
        lower,
        "unknownkey",
    ) {
        return concat3(
            "Embedded SSH rejected the server host key for ",
            place.as_str(),
            ". Check ~/.ssh/known_hosts or use StrictHostKeyChecking=accept-new for the first connection.",
        );
    }
    if contains_text(lower, "timed out") || contains_text(lower, "timeout") {
        return concat3(
            "Embedded SSH timed out connecting to ",
            place.as_str(),
            ". Check host, port, firewall, and network reachability.",
        );
    }
    if contains_text(lower, "connection refused") {
        return concat3(
            "Embedded SSH connection refused by ",
            place.as_str(),
            ". Check the SSH port and server firewall.",
        );
    }
    let mut out = "Embedded SSH connect failed for '".to_owned();
    out.append(server.name.as_str());
    out.append("' at ");
    out.append(place.as_str());
    out.append(": ");
    out.append(raw);
    out
}

/// Words a failure to connect.
pub fn friendly_connect_error(server: &EmbeddedServer, raw: &str) -> (r: String)
    ensures
        r@ == connect_error(*server, raw@, in_small(raw@)),
{
    let lower = raw.to_lowercase();
    word_connect_error(server, raw, lower.as_str())
}

/// A user at a host.
pub open spec fn login(user: Seq<char>, host: Seq<char>) -> Seq<char> {
    user + "@"@ + host
}

/// Writes a user at a host.
pub fn login_text(user: &str, host: &str) -> (r: String)
    ensures
        r@ == login(user@, host@),
{
    concat3(user, "@", host)
}

/// What the user is told when authentication breaks down.
pub open spec fn auth_error(server: EmbeddedServer, raw: Seq<char>) -> Seq<char> {
    "Embedded SSH public key authentication failed for "@ + login(server.user@, server.host@)
        + ": "@ + raw
        + ". Check username, key path, authorized_keys, and key permissions."@
}

/// Words a breakdown of authentication.
pub fn friendly_auth_error(server: &EmbeddedServer, raw: &str) -> (r: String)
    ensures
        r@ == auth_error(*server, raw@),
{
    let mut out = "Embedded SSH public key authentication failed for ".to_owned();
    let who = login_text(server.user.as_str(), server.host.as_str());
    out.append(who.as_str());
    out.append(": ");
    out.append(raw);
    out.append(". Check username, key path, authorized_keys, and key permissions.");
    out
}

/// What the user is told when the server does not accept the key.
pub open spec fn auth_rejection(server: EmbeddedServer) -> Seq<char> {
    "Embedded SSH public key authentication failed for "@ + login(server.user@, server.host@)
        + ". Check username, key path, authorized_keys, and key permissions."@
}

/// Words a refusal of the key by the server.
pub fn word_auth_rejection(server: &EmbeddedServer) -> (r: String)
    ensures
        r@ == auth_rejection(*server),
{
    let who = login_text(server.user.as_str(), server.host.as_str());
    concat3(
        "Embedded SSH public key authentication failed for ",
        who.as_str(),
        ". Check username, key path, authorized_keys, and key permissions.",
    )
}

/// What the user is told when the listener cannot be bound.
pub open spec fn bind_error(proxy: EmbeddedProxy, raw: Seq<char>) -> Seq<char> {
    "Cannot bind embedded SOCKS listener on "@ + endpoint(proxy.host@, proxy.port) + ": "@ + raw
}

/// Words a failure to bind the listener.
pub fn word_bind_error(proxy: &EmbeddedProxy, raw: &str) -> (r: String)
    ensures
        r@ == bind_error(*proxy, raw@),
{
    let place = endpoint_text(proxy.host.as_str(), proxy.port);
    let mut out = "Cannot bind embedded SOCKS listener on ".to_owned();
    out.append(place.as_str());
    out.append(": ");
    out.append(raw);
    out
}

/// The stages of a connection to the server, in their order.
#[derive(Clone, Copy, Debug, PartialEq, Eq, Structural)]
pub enum ConnectStage {
    /// The private key is read.
    LoadKey,
    /// The server is reached and its host key checked.
    Connect,
    /// The best signature hash is agreed on.
    AgreeHash,
    /// The user is authenticated.
    Authenticate,
}

/// What became of a stage.
#[derive(Debug)]
pub enum StageOutcome {
    /// It was done, for authentication with this verdict of the server.
    Done { accepted: bool },
    /// It failed.
    Failed(String),
}

/// What comes after a stage.
#[derive(Debug)]
pub enum ConnectNext {
    /// The next stage.
    Stage(ConnectStage),
    /// The session is ready.
    Ready,
    /// The attempt is over, for this reason.
    GiveUp(String),
}

/// What comes after a stage, with its texts.
pub enum AfterStage {
    Stage(ConnectStage),
    Ready,
    GiveUp(Seq<char>),
}

impl View for ConnectNext {
    type V = AfterStage;

    open spec fn view(&self) -> AfterStage {
        match *self {
            ConnectNext::Stage(stage) => AfterStage::Stage(stage),
            ConnectNext::Ready => AfterStage::Ready,
            ConnectNext::GiveUp(reason) => AfterStage::GiveUp(reason@),
        }
    }
}

/// The failure of a stage as the user is told it.
pub open spec fn stage_error(
    server: EmbeddedServer,
    stage: ConnectStage,
    raw: Seq<char>,
) -> Seq<char> {
    match stage {
        ConnectStage::LoadKey => key_error(server.key_path@, raw, in_small(raw)),
        ConnectStage::Connect => connect_error(server, raw, in_small(raw)),
        ConnectStage::AgreeHash => raw,
        ConnectStage::Authenticate => auth_error(server, raw),
    }
}

/// What comes after a stage.
pub open spec fn after_stage(
    server: EmbeddedServer,
    stage: ConnectStage,
    result: StageOutcome,
) -> AfterStage {
    match result {
        StageOutcome::Failed(raw) => AfterStage::GiveUp(stage_error(server, stage, raw@)),
        StageOutcome::Done { accepted } => match stage {
            ConnectStage::LoadKey => AfterStage::Stage(ConnectStage::Connect),
            ConnectStage::Connect => AfterStage::Stage(ConnectStage::AgreeHash),
            ConnectStage::AgreeHash => AfterStage::Stage(ConnectStage::Authenticate),
            ConnectStage::Authenticate => if accepted {
                AfterStage::Ready
            } else {
                AfterStage::GiveUp(auth_rejection(server))
            },
        },
    }
}

/// Decides what comes after a stage of the connection.
pub fn connect_step(server: &EmbeddedServer, stage: ConnectStage, result: StageOutcome) -> (r:
    ConnectNext)
    ensures
        r@ == after_stage(*server, stage, result),
{
    match result {
        StageOutcome::Failed(raw) => {
            let reason = match stage {
                ConnectStage::LoadKey => friendly_key_error(
                    server.key_path.as_str(),
                    raw.as_str(),
                ),
                ConnectStage::Connect => friendly_connect_error(server, raw.as_str()),
                ConnectStage::AgreeHash => raw,
                ConnectStage::Authenticate => friendly_auth_error(server, raw.as_str()),
            };
            ConnectNext::GiveUp(reason)
        },
        StageOutcome::Done { accepted } => match stage {
            ConnectStage::LoadKey => ConnectNext::Stage(ConnectStage::Connect),
            ConnectStage::Connect => ConnectNext::Stage(ConnectStage::AgreeHash),
            ConnectStage::AgreeHash => ConnectNext::Stage(ConnectStage::Authenticate),
            ConnectStage::Authenticate => if accepted {
                ConnectNext::Ready
            } else {
                ConnectNext::GiveUp(word_auth_rejection(server))
            },
        },
    }
}

/// A session is ready only after the server has accepted the user's key.
pub proof fn law_ready_only_if_accepted(
    server: EmbeddedServer,
    stage: ConnectStage,
    result: StageOutcome,
)
    ensures
        after_stage(server, stage, result) is Ready <==> stage == ConnectStage::Authenticate
            && result == (StageOutcome::Done { accepted: true }),
{
}

/// The options of an SSH session. The times are in seconds.
#[derive(Clone, Copy, Debug)]
pub struct SessionOptions {
    pub nodelay: bool,
    pub inactivity_timeout: u64,
    pub keepalive_interval: u64,
    pub keepalive_max: usize,
}

/// The options of every session.
pub fn session_options() -> (r: SessionOptions)
    ensures
        r == (SessionOptions {
            nodelay: true,
            inactivity_timeout: 30,
            keepalive_interval: 15,
            keepalive_max: 3,
        }),
{
    SessionOptions {
        nodelay: true,
        inactivity_timeout: 30,
        keepalive_interval: 15,
        keepalive_max: 3,
    }
}

/// What woke the listener.
#[derive(Debug)]
pub enum ListenerEvent {
    /// The tunnel is to stop.
    StopRequested,
    /// A client has connected.
    Accepted,
    /// Accepting a client failed.
    AcceptFailed(String),
    /// Nothing happened for a while.
    Idle,
}

/// What the listener does then.
#[derive(Debug)]
pub enum ListenerAction {
    /// Close the SSH session and end.
    Disconnect,
    /// Serve the client beside the others and listen on.
    Serve,
    /// End with this failure.
    Fail(String),
    /// Listen on.
    Wait,
}

/// Decides what the listener does about an event.
pub fn listener_step(event: ListenerEvent) -> (r: ListenerAction)
    ensures
        r == match event {
            ListenerEvent::StopRequested => ListenerAction::Disconnect,
            ListenerEvent::Accepted => ListenerAction::Serve,
            ListenerEvent::AcceptFailed(raw) => ListenerAction::Fail(raw),
            ListenerEvent::Idle => ListenerAction::Wait,
        },
{
    match event {
        ListenerEvent::StopRequested => ListenerAction::Disconnect,
        ListenerEvent::Accepted => ListenerAction::Serve,
        ListenerEvent::AcceptFailed(raw) => ListenerAction::Fail(raw),
        ListenerEvent::Idle => ListenerAction::Wait,
    }
}

} // verus!
