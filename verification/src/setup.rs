//! Bringing the connection up before any RPC is made.
//!
//! A run needs a long-term key pair first and an authenticated connection to
//! the peer second. Either step can fail, and either failure ends the run.

use vstd::prelude::*;

verus! {

/// How far one step of the setup has come.
#[derive(Debug, PartialEq, Eq)]
pub enum Attempt {
    /// Not tried yet.
    Pending,
    /// Done.
    Succeeded,
    /// Failed, for the reason given.
    Failed(String),
}

/// The IPv6 loopback address, `::1`, as one number.
pub const LOOPBACK: u128 = 1;

/// Where the peer is expected to listen.
#[derive(Clone, Copy, Debug, PartialEq, Eq, Structural)]
pub struct Endpoint {
    /// The IPv6 address, as one number.
    pub address: u128,
    /// The TCP port.
    pub port: u16,
}

impl Endpoint {
    /// The endpoint on this machine at the given port.
    pub open spec fn local(port: u16) -> Endpoint {
        Endpoint { address: LOOPBACK, port }
    }

    /// The endpoint on this machine at the given port.
    pub fn loopback(port: u16) -> (r: Endpoint)
        ensures
            r == Endpoint::local(port),
    {
        Endpoint { address: LOOPBACK, port }
    }
}

/// The two ways in which the setup can fail.
#[derive(Clone, Copy, Debug, PartialEq, Eq, Structural)]
pub enum SetupFailure {
    /// No key pair could be loaded or created.
    KeyStorage,
    /// The peer could not be reached, or the handshake with it failed.
    Handshake,
}

/// What has to happen next to bring the connection up.
#[derive(Debug, PartialEq, Eq)]
pub enum SetupDirective {
    /// Load the long-term key pair, or create one.
    LoadKeys,
    /// Connect to the endpoint and shake hands.
    Connect(Endpoint),
    /// The connection stands: go on with the RPCs.
    Proceed,
    /// The run must stop with the message given.
    Abort(String),
}

/// A setup directive, with its message as mathematical text.
pub enum SetupDirectiveView {
    LoadKeys,
    Connect(Endpoint),
    Proceed,
    Abort(Seq<char>),
}

impl View for SetupDirective {
    type V = SetupDirectiveView;

    open spec fn view(&self) -> SetupDirectiveView {
        match self {
            SetupDirective::LoadKeys => SetupDirectiveView::LoadKeys,
            SetupDirective::Connect(endpoint) => SetupDirectiveView::Connect(*endpoint),
            SetupDirective::Proceed => SetupDirectiveView::Proceed,
            SetupDirective::Abort(message) => SetupDirectiveView::Abort(message@),
        }
    }
}

/// What the setup has come to.
#[derive(Debug, PartialEq, Eq)]
pub struct SetupReport {
    /// The failure that ended the setup, if one did.
    pub failure: Option<SetupFailure>,
    /// The lines to print, oldest first.
    pub printed: Vec<String>,
    /// What has to happen next.
    pub next: SetupDirective,
}

/// The message for a key pair that could not be had.
pub open spec fn key_failure_text(detail: Seq<char>) -> Seq<char> {
    "called `Result::unwrap()` on an `Err` value: "@ + detail
}

/// The advice printed when the peer cannot be reached.
pub open spec fn unreachable_peer_text() -> Seq<char> {
    "Tests only work with an ssb server accepting connections on the default port over localhost\n"@
}

/// The message with which a failed handshake ends the run.
pub open spec fn abort_text() -> Seq<char> {
    "\nAbort test"@
}

/// The failure that ended the setup, if one did. Without keys the state of the
/// connection does not matter.
pub open spec fn setup_failure(keys: Attempt, handshake: Attempt) -> Option<SetupFailure> {
    match keys {
        Attempt::Failed(_) => Some(SetupFailure::KeyStorage),
        Attempt::Succeeded => match handshake {
            Attempt::Failed(_) => Some(SetupFailure::Handshake),
            _ => None,
        },
        Attempt::Pending => None,
    }
}

/// The lines to print: when the handshake has failed, the advice and the
/// reason; otherwise nothing.
pub open spec fn setup_lines(keys: Attempt, handshake: Attempt) -> Seq<Seq<char>> {
    match (keys, handshake) {
        (Attempt::Succeeded, Attempt::Failed(detail)) => seq![unreachable_peer_text(), detail@],
        _ => Seq::empty(),
    }
}

/// What has to happen next: keys first, the connection to the local endpoint
/// second, RPCs only once both stand; a failure of either ends the run.
pub open spec fn setup_next(port: u16, keys: Attempt, handshake: Attempt) -> SetupDirectiveView {
    match keys {
        Attempt::Pending => SetupDirectiveView::LoadKeys,
        Attempt::Failed(detail) => SetupDirectiveView::Abort(key_failure_text(detail@)),
        Attempt::Succeeded => match handshake {
            Attempt::Pending => SetupDirectiveView::Connect(Endpoint::local(port)),
            Attempt::Succeeded => SetupDirectiveView::Proceed,
            Attempt::Failed(_) => SetupDirectiveView::Abort(abort_text()),
        },
    }
}

/// Decides how the setup of a run goes on, given how far the key storage and
/// the handshake have come. The peer is expected on this machine, at the port
/// given.
pub fn run_test(port: u16, keys: &Attempt, handshake: &Attempt) -> (report: SetupReport)
    ensures
        report.failure == setup_failure(*keys, *handshake),
        report.printed.deep_view() == setup_lines(*keys, *handshake),
        report.next@ == setup_next(port, *keys, *handshake),
{
    let mut printed: Vec<String> = Vec::new();
    assert(printed.deep_view() =~= Seq::<Seq<char>>::empty());
    match keys {
        Attempt::Pending => SetupReport { failure: None, printed, next: SetupDirective::LoadKeys },
        Attempt::Failed(detail) => {
            let mut message = String::from_str("called `Result::unwrap()` on an `Err` value: ");
            message.append(detail.as_str());
            SetupReport {
                failure: Some(SetupFailure::KeyStorage),
                printed,
                next: SetupDirective::Abort(message),
            }
        },
        Attempt::Succeeded => match handshake {
            Attempt::Pending => SetupReport {
                failure: None,
                printed,
                next: SetupDirective::Connect(Endpoint::loopback(port)),
            },
            Attempt::Succeeded => SetupReport {
                failure: None,
                printed,
                next: SetupDirective::Proceed,
            },
            Attempt::Failed(detail) => {
                printed.push(
                    String::from_str(
                        "Tests only work with an ssb server accepting connections on the default port over localhost\n",
                    ),
                );
                printed.push(detail.clone());
                assert(printed.deep_view() =~= seq![unreachable_peer_text(), detail@]);
                SetupReport {
                    failure: Some(SetupFailure::Handshake),
                    printed,
                    next: SetupDirective::Abort(String::from_str("\nAbort test")),
                }
            },
        },
    }
}

/// No RPC is made without keys and a connection: the setup lets the run
/// proceed if and only if both steps have succeeded, it asks for a connection
/// only once the keys are there, and a failure of either step ends the run.
pub proof fn law_setup_order(port: u16, keys: Attempt, handshake: Attempt)
    ensures
        setup_next(port, keys, handshake) is Proceed <==> keys is Succeeded
            && handshake is Succeeded,
        setup_next(port, keys, handshake) is Connect ==> keys is Succeeded && handshake is Pending,
        setup_next(port, keys, handshake) is Abort <==> setup_failure(keys, handshake) is Some,
        keys is Failed ==> setup_failure(keys, handshake) == Some(SetupFailure::KeyStorage),
{
}

} // verus!
