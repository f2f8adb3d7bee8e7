//! The credential bootstrap: an operator-driven state machine.
//!
//! The machine accepts a reverse port only once a probe has shown that
//! binding it locally fails with "address in use" — the proof that a
//! reverse tunnel already holds it. It then waits for a key pair, a
//! non-empty username, the operator's acknowledgment that the public key
//! is installed, and a successful handshake. A failed handshake clears the
//! username and keeps the key pair; nothing bounds the retries. The
//! surrounding program performs each action (prompting, binding, key
//! generation, the handshake) and hands the outcome back as the next
//! event.

use vstd::prelude::*;

use crate::util;
use crate::util::dec_str;

verus! {

broadcast use vstd::seq::group_seq_axioms, vstd::string::group_string_axioms;

/// Relies on osshkeys::KeyPair: the ephemeral key material, carried
/// opaquely through the machine's states; the surrounding program
/// generates and encodes it.
#[verifier::external_type_specification]
#[verifier::external_body]
pub struct ExKeyPair(osshkeys::KeyPair);

/// Credentials to reach the target: the chosen username and the ephemeral
/// key pair generated for this run.
pub struct SSHCredentials {
    pub username: String,
    pub keypair: osshkeys::KeyPair,
}

/// What the bootstrap produces: the reverse port and the credentials.
pub struct Setup {
    pub reverse_port: u16,
    pub credentials: SSHCredentials,
}

/// Why a port entry was rejected.
#[derive(Debug, PartialEq, Eq, Structural)]
pub enum PortParseError {
    EmptyInput,
    InvalidDigit,
    TooLarge,
}

/// The rejected entry's description.
pub open spec fn port_err_text(e: PortParseError) -> Seq<char> {
    match e {
        PortParseError::EmptyInput => "cannot parse integer from empty string"@,
        PortParseError::InvalidDigit => "invalid digit found in string"@,
        PortParseError::TooLarge => "number too large to fit in target type"@,
    }
}

impl PortParseError {
    /// The rejected entry's description.
    pub fn message(&self) -> (r: &str)
        ensures
            r@ == port_err_text(*self),
    {
        match self {
            PortParseError::EmptyInput => "cannot parse integer from empty string",
            PortParseError::InvalidDigit => "invalid digit found in string",
            PortParseError::TooLarge => "number too large to fit in target type",
        }
    }
}

/// The value of a digit string read left to right onto an accumulator,
/// stopping at the first non-digit or at the first prefix past the port
/// range.
pub open spec fn scan_port_spec(body: Seq<char>, acc: nat) -> Result<u16, PortParseError>
    decreases body.len(),
{
    if body.len() == 0 {
        Ok(acc as u16)
    } else if !util::is_digit(body[0]) {
        Err(PortParseError::InvalidDigit)
    } else if acc * 10 + util::digit_val(body[0]) > 65535 {
        Err(PortParseError::TooLarge)
    } else {
        scan_port_spec(body.drop_first(), acc * 10 + util::digit_val(body[0]))
    }
}

/// What a port entry means: an optional leading plus sign, then at least
/// one digit, with the value within the port range.
pub open spec fn port_parse_spec(s: Seq<char>) -> Result<u16, PortParseError> {
    if s.len() == 0 {
        Err(PortParseError::EmptyInput)
    } else {
        let body = util::strip_plus(s);
        if body.len() == 0 {
            Err(PortParseError::InvalidDigit)
        } else {
            scan_port_spec(body, 0)
        }
    }
}

/// Reads an operator's port entry.
pub fn parse_port(input: &str) -> (r: Result<u16, PortParseError>)
    ensures
        r == port_parse_spec(input@),
{
    let chars = input.unicode_len();
    if chars == 0 {
        return Err(PortParseError::EmptyInput);
    }
    let start: usize = if input.get_char(0) == '+' {
        1
    } else {
        0
    };
    let ghost body = util::strip_plus(input@);
    proof {
        if start == 1 {
            assert(body =~= input@.skip(1));
        } else {
            assert(body =~= input@.skip(0));
        }
    }
    if chars == start {
        return Err(PortParseError::InvalidDigit);
    }
    proof {
        assert(body.skip(0) =~= body);
    }
    let mut acc: u32 = 0;
    let mut i: usize = start;
    while i < chars
        invariant
            start <= i <= chars,
            chars == input@.len(),
            body == util::strip_plus(input@),
            body == input@.skip(start as int),
            body.len() == chars - start,
            body.len() > 0,
            acc <= 65535,
            scan_port_spec(body, 0) == scan_port_spec(body.skip(i - start), acc as nat),
        decreases chars - i,
    {
        let c = input.get_char(i);
        let ghost tail = body.skip(i - start);
        proof {
            assert(tail[0] == body[i - start]);
            assert(body[i - start] == input@[i as int]);
            assert(tail.drop_first() =~= body.skip(i - start + 1));
        }
        let code = c as u32;
        if !(48 <= code && code <= 57) {
            return Err(PortParseError::InvalidDigit);
        }
        let d = code - 48;
        let next = acc * 10 + d;
        if next > 65535 {
            return Err(PortParseError::TooLarge);
        }
        acc = next;
        i += 1;
    }
    proof {
        assert(body.skip(chars - start) =~= Seq::<char>::empty());
    }
    Ok(acc as u16)
}

/// What binding the local port returned: it bound (nothing was
/// listening), it failed because the address is in use, or it failed for
/// another reason.
pub enum BindOutcome {
    Bound,
    AddrInUse,
    OtherError,
}

impl Setup {
    /// The probe's answer: the port counts as held by a reverse tunnel
    /// exactly when binding it failed with "address in use" — a
    /// successful bind means nothing is listening there.
    pub fn port_is_bound(outcome: &BindOutcome) -> (r: bool)
        ensures
            r == (outcome is AddrInUse),
    {
        matches!(outcome, BindOutcome::AddrInUse)
    }
}

/// The bootstrap's states.
pub enum Bootstrap {
    /// Waiting for the operator to enter the reverse port.
    AwaitPort,
    /// Waiting for the local bind probe's outcome.
    AwaitProbe { port: u16 },
    /// Waiting for the ephemeral key pair.
    AwaitKey { port: u16 },
    /// Waiting for the operator to enter a username.
    AwaitUsername { port: u16, keypair: osshkeys::KeyPair, pubkey: String },
    /// Waiting for the operator to acknowledge installing the public key.
    AwaitAck { port: u16, keypair: osshkeys::KeyPair, pubkey: String, username: String },
    /// Waiting for the handshake's outcome.
    AwaitHandshake { port: u16, keypair: osshkeys::KeyPair, pubkey: String, username: String },
    /// Trust established.
    Complete { setup: Setup },
    /// Key material could not be produced; the run is over.
    Failed { message: String },
}

/// What the surrounding program hands back to the machine.
pub enum BootstrapEvent {
    /// A line the operator entered.
    Line { input: String },
    /// Whether the bind probe found the port held.
    ProbeResult { bound: bool },
    /// The generated key pair and its public half's text.
    KeyReady { keypair: osshkeys::KeyPair, pubkey: String },
    /// Key generation or encoding failed, with its message.
    KeyFailure { message: String },
    /// The handshake's outcome: `None` on success, the error's text
    /// otherwise.
    HandshakeResult { error: Option<String> },
}

/// What the surrounding program must do next.
pub enum BootstrapAction {
    /// Prompt for the reverse port.
    AskPort,
    /// Probe whether the port is held locally.
    ProbePort { port: u16 },
    /// Generate the ephemeral key pair.
    GenerateKey,
    /// Prompt for a username.
    AskUsername,
    /// Show the public key for the username and wait for acknowledgment.
    PresentKey { username: String, pubkey: String },
    /// Attempt the authenticated handshake back through the tunnel.
    RunHandshake { port: u16, username: String },
    /// The run is over with this fatal message.
    Fail { message: String },
    /// Trust is established; the setup is in the state.
    Done,
}

/// One step's outcome: the next state, an error text to show the
/// operator, if any, and the next action.
pub struct StepOutcome {
    pub state: Bootstrap,
    pub notice: Option<String>,
    pub action: BootstrapAction,
}

/// Which events a state accepts.
pub open spec fn accepts(state: Bootstrap, event: BootstrapEvent) -> bool {
    match (state, event) {
        (Bootstrap::AwaitPort, BootstrapEvent::Line { .. }) => true,
        (Bootstrap::AwaitProbe { .. }, BootstrapEvent::ProbeResult { .. }) => true,
        (Bootstrap::AwaitKey { .. }, BootstrapEvent::KeyReady { .. }) => true,
        (Bootstrap::AwaitKey { .. }, BootstrapEvent::KeyFailure { .. }) => true,
        (Bootstrap::AwaitUsername { .. }, BootstrapEvent::Line { .. }) => true,
        (Bootstrap::AwaitAck { .. }, BootstrapEvent::Line { .. }) => true,
        (Bootstrap::AwaitHandshake { .. }, BootstrapEvent::HandshakeResult { .. }) => true,
        _ => false,
    }
}

/// The notice shown for a rejected port entry.
pub open spec fn invalid_port_notice(input: Seq<char>, e: PortParseError) -> Seq<char> {
    "Invalid port specification \""@ + input + "\" ("@ + port_err_text(e) + ")"@
}

/// The notice shown when nothing holds the entered port.
pub open spec fn unbound_port_notice(port: u16) -> Seq<char> {
    "Port is not bound locally: "@ + dec_str(port as nat)
}

/// The notice shown for a failed handshake.
pub open spec fn auth_failed_notice(e: Seq<char>) -> Seq<char> {
    "Authentication test failed: "@ + e
}

/// The notice shown for an empty username entry.
pub open spec fn empty_username_notice() -> Seq<char> {
    "The username cannot be empty"@
}

/// Drives the bootstrap one step: consumes the state and the event, and
/// returns the next state, an error text to show, if any, and the next
/// action.
pub fn step(state: Bootstrap, event: BootstrapEvent) -> (r: StepOutcome)
    requires
        accepts(state, event),
    ensures
// port entry: accepted entries go to the probe, rejected ones re-prompt

        state is AwaitPort ==> (event matches BootstrapEvent::Line { input } ==> (match
        port_parse_spec(input@) {
            Ok(p) => {
                &&& r.state matches Bootstrap::AwaitProbe { port } && port == p
                &&& r.notice is None
                &&& r.action matches BootstrapAction::ProbePort { port } && port == p
            },
            Err(e) => {
                &&& r.state is AwaitPort
                &&& r.notice matches Some(m) && m@ == invalid_port_notice(input@, e)
                &&& r.action is AskPort
            },
        })),
        // the probe's answer: only a held port is accepted
        state matches Bootstrap::AwaitProbe { port } ==> event matches
            BootstrapEvent::ProbeResult { bound } ==> (if bound {
            &&& r.state matches Bootstrap::AwaitKey { port: p } && p == port
            &&& r.notice is None
            &&& r.action is GenerateKey
        } else {
            &&& r.state is AwaitPort
            &&& r.notice matches Some(m) && m@ == unbound_port_notice(port)
            &&& r.action is AskPort
        }),
        // the key pair arrives, or its generation failed fatally
        state matches Bootstrap::AwaitKey { port } ==> event matches BootstrapEvent::KeyReady {
            keypair,
            pubkey,
        } ==> {
            &&& r.state matches Bootstrap::AwaitUsername { port: p, keypair: k, pubkey: pk }
                && p == port && k == keypair && pk == pubkey
            &&& r.notice is None
            &&& r.action is AskUsername
        },
        state is AwaitKey ==> (event matches BootstrapEvent::KeyFailure { message } ==> {
            &&& r.state matches Bootstrap::Failed { message: m } && m == message
            &&& r.notice is None
            &&& r.action matches BootstrapAction::Fail { message: m } && m@ == message@
        }),
        // username entry: empty entries re-prompt, others show the key
        state matches Bootstrap::AwaitUsername { port, keypair, pubkey } ==> event matches
            BootstrapEvent::Line { input } ==> (if input@.len() == 0 {
            &&& r.state matches Bootstrap::AwaitUsername { port: p, keypair: k, pubkey: pk }
                && p == port && k == keypair && pk == pubkey
            &&& r.notice matches Some(m) && m@ == empty_username_notice()
            &&& r.action is AskUsername
        } else {
            &&& r.state matches Bootstrap::AwaitAck { port: p, keypair: k, pubkey: pk, username: u }
                && p == port && k == keypair && pk == pubkey && u == input
            &&& r.notice is None
            &&& r.action matches BootstrapAction::PresentKey { username: u, pubkey: pk }
                && u@ == input@ && pk@ == pubkey@
        }),
        // any acknowledgment moves on to the handshake
        state matches Bootstrap::AwaitAck { port, keypair, pubkey, username } ==> event matches
            BootstrapEvent::Line { input } ==> {
            &&& r.state matches Bootstrap::AwaitHandshake {
                port: p,
                keypair: k,
                pubkey: pk,
                username: u,
            } && p == port && k == keypair && pk == pubkey && u == username
            &&& r.notice is None
            &&& r.action matches BootstrapAction::RunHandshake { port: p, username: u }
                && p == port && u@ == username@
        },
        // the handshake: success is terminal; failure clears the username
        // and keeps the key pair
        state matches Bootstrap::AwaitHandshake { port, keypair, pubkey, username } ==> event
            matches BootstrapEvent::HandshakeResult { error } ==> (match error {
            Option::None => {
                &&& r.state matches Bootstrap::Complete { setup }
                    && setup.reverse_port == port
                    && setup.credentials.username == username
                    && setup.credentials.keypair == keypair
                &&& r.notice is None
                &&& r.action is Done
            },
            Some(e) => {
                &&& r.state matches Bootstrap::AwaitUsername { port: p, keypair: k, pubkey: pk }
                    && p == port && k == keypair && pk == pubkey
                &&& r.notice matches Some(m) && m@ == auth_failed_notice(e@)
                &&& r.action is AskUsername
            },
        }),
{
    match (state, event) {
        (Bootstrap::AwaitPort, BootstrapEvent::Line { input }) => {
            match parse_port(input.as_str()) {
                Ok(p) => StepOutcome {
                    state: Bootstrap::AwaitProbe { port: p },
                    notice: None,
                    action: BootstrapAction::ProbePort { port: p },
                },
                Err(e) => {
                    let mut m = String::from_str("Invalid port specification \"");
                    m.append(input.as_str());
                    m.append("\" (");
                    m.append(e.message());
                    m.append(")");
                    StepOutcome {
                        state: Bootstrap::AwaitPort,
                        notice: Some(m),
                        action: BootstrapAction::AskPort,
                    }
                },
            }
        },
        (Bootstrap::AwaitProbe { port }, BootstrapEvent::ProbeResult { bound }) => {
            if bound {
                StepOutcome {
                    state: Bootstrap::AwaitKey { port },
                    notice: None,
                    action: BootstrapAction::GenerateKey,
                }
            } else {
                let mut m = String::from_str("Port is not bound locally: ");
                let ps = util::u64_to_string(port as u64);
                m.append(ps.as_str());
                StepOutcome {
                    state: Bootstrap::AwaitPort,
                    notice: Some(m),
                    action: BootstrapAction::AskPort,
                }
            }
        },
        (Bootstrap::AwaitKey { port }, BootstrapEvent::KeyReady { keypair, pubkey }) => {
            StepOutcome {
                state: Bootstrap::AwaitUsername { port, keypair, pubkey },
                notice: None,
                action: BootstrapAction::AskUsername,
            }
        },
        (Bootstrap::AwaitKey { .. }, BootstrapEvent::KeyFailure { message }) => {
            let m = message.clone();
            StepOutcome {
                state: Bootstrap::Failed { message },
                notice: None,
                action: BootstrapAction::Fail { message: m },
            }
        },
        (
            Bootstrap::AwaitUsername { port, keypair, pubkey },
            BootstrapEvent::Line { input },
        ) => {
            if input.as_str().is_empty() {
                StepOutcome {
                    state: Bootstrap::AwaitUsername { port, keypair, pubkey },
                    notice: Some(String::from_str("The username cannot be empty")),
                    action: BootstrapAction::AskUsername,
                }
            } else {
                let pk = pubkey.clone();
                let u = input.clone();
                StepOutcome {
                    state: Bootstrap::AwaitAck { port, keypair, pubkey, username: input },
                    notice: None,
                    action: BootstrapAction::PresentKey { username: u, pubkey: pk },
                }
            }
        },
        (
            Bootstrap::AwaitAck { port, keypair, pubkey, username },
            BootstrapEvent::Line { .. },
        ) => {
            let u = username.clone();
            StepOutcome {
                state: Bootstrap::AwaitHandshake { port, keypair, pubkey, username },
                notice: None,
                action: BootstrapAction::RunHandshake { port, username: u },
            }
        },
        (
            Bootstrap::AwaitHandshake { port, keypair, pubkey, username },
            BootstrapEvent::HandshakeResult { error },
        ) => {
            match error {
                None => StepOutcome {
                    state: Bootstrap::Complete {
                        setup: Setup {
                            reverse_port: port,
                            credentials: SSHCredentials { username, keypair },
                        },
                    },
                    notice: None,
                    action: BootstrapAction::Done,
                },
                Some(e) => {
                    let mut m = String::from_str("Authentication test failed: ");
                    m.append(e.as_str());
                    StepOutcome {
                        state: Bootstrap::AwaitUsername { port, keypair, pubkey },
                        notice: Some(m),
                        action: BootstrapAction::AskUsername,
                    }
                },
            }
        },
        _ => {
            proof {
                assert(false);
            }
            StepOutcome {
                state: Bootstrap::AwaitPort,
                notice: None,
                action: BootstrapAction::AskPort,
            }
        },
    }
}


} // verus!
