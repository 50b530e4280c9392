//! The life of the daemon: which listener it starts, and how it comes to a
//! stop.

use vstd::prelude::*;
use crate::tls::{
    load, material_of, pem_certificates, pem_pkcs8_keys, pem_rsa_keys, pem_sec1_keys,
    single_cert_accepted, InvalidMaterial, Material,
};

verus! {

/// Where the daemon stands.
#[derive(Clone, Copy, Debug, PartialEq, Eq, Structural)]
pub enum Phase {
    /// The listeners are being bound.
    Starting,
    /// Connections are accepted.
    Listening,
    /// The shutdown trigger has fired; the listeners are being dropped.
    ShuttingDown,
    /// The process is to end.
    Stopped,
}

/// What happens to the daemon.
#[derive(Clone, Copy, Debug, PartialEq, Eq, Structural)]
pub enum Signal {
    /// The listeners are bound.
    Bound,
    /// A listener could not be bound.
    BindFailed,
    /// The shutdown trigger fired.
    ShutdownRequested,
    /// All listeners have stopped.
    ListenersStopped,
}

/// What the daemon is to do next.
#[derive(Clone, Copy, Debug, PartialEq, Eq, Structural)]
pub enum Directive {
    /// Accept connections and watch for the shutdown trigger.
    Serve,
    /// Drop the listeners at once; requests in flight are not waited for.
    Halt,
    /// End the process in good order.
    Exit,
    /// End the process with an error.
    Fail,
    /// Go on as before.
    Carry,
}

/// The phase that follows a signal, and what is to be done.
///
/// The daemon stops when its listeners have stopped or the shutdown trigger
/// has fired, whichever comes first.  The trigger counts once; a stopped
/// daemon stays stopped.
pub open spec fn after(phase: Phase, signal: Signal) -> (Phase, Directive) {
    match (phase, signal) {
        (Phase::Starting, Signal::Bound) => (Phase::Listening, Directive::Serve),
        (Phase::Starting, Signal::BindFailed) => (Phase::Stopped, Directive::Fail),
        (Phase::Starting, Signal::ShutdownRequested) => (Phase::Stopped, Directive::Exit),
        (Phase::Listening, Signal::ShutdownRequested) => (Phase::ShuttingDown, Directive::Halt),
        (Phase::Listening, Signal::ListenersStopped) => (Phase::Stopped, Directive::Exit),
        (Phase::ShuttingDown, Signal::ListenersStopped) => (Phase::Stopped, Directive::Exit),
        (Phase::Stopped, _) => (Phase::Stopped, Directive::Exit),
        (p, _) => (p, Directive::Carry),
    }
}

/// Takes the daemon from one phase to the next.
pub fn on_signal(phase: Phase, signal: Signal) -> (r: (Phase, Directive))
    ensures
        r == after(phase, signal),
{
    match (phase, signal) {
        (Phase::Starting, Signal::Bound) => (Phase::Listening, Directive::Serve),
        (Phase::Starting, Signal::BindFailed) => (Phase::Stopped, Directive::Fail),
        (Phase::Starting, Signal::ShutdownRequested) => (Phase::Stopped, Directive::Exit),
        (Phase::Listening, Signal::ShutdownRequested) => (Phase::ShuttingDown, Directive::Halt),
        (Phase::Listening, Signal::ListenersStopped) => (Phase::Stopped, Directive::Exit),
        (Phase::ShuttingDown, Signal::ListenersStopped) => (Phase::Stopped, Directive::Exit),
        (Phase::Stopped, _) => (Phase::Stopped, Directive::Exit),
        (p, _) => (p, Directive::Carry),
    }
}

/// How far a phase is on the way from starting to stopped.
pub open spec fn progress(phase: Phase) -> nat {
    match phase {
        Phase::Starting => 0,
        Phase::Listening => 1,
        Phase::ShuttingDown => 2,
        Phase::Stopped => 3,
    }
}

/// The daemon never goes back: a signal leaves it where it is or takes it
/// further towards stopped, and once the shutdown trigger has been taken
/// note of, a second one changes nothing.
pub proof fn phases_only_advance(phase: Phase, signal: Signal)
    ensures
        progress(after(phase, signal).0) >= progress(phase),
        after(Phase::Stopped, signal).0 == Phase::Stopped,
        after(Phase::ShuttingDown, Signal::ShutdownRequested) == (
            Phase::ShuttingDown,
            Directive::Carry,
        ),
{
}

/// The kind of listener to start.
#[derive(Debug)]
pub enum Listener {
    /// Plain HTTP.
    Plain,
    /// HTTPS with this configuration.
    Tls(rustls::ServerConfig),
}

/// Whether TLS can be served with what was loaded: there is material, and
/// its key is one that `rustls` can use.
pub open spec fn is_usable(material: Option<Material>) -> bool {
    material matches Some(m) && single_cert_accepted(m.chain, m.key)
}

/// Chooses the listener from the PEM text of the configured files.
///
/// With both a certificate and a key configured the listener is a TLS one,
/// and material that does not load or cannot be used is an error: there is
/// no falling back to plain HTTP.  With either missing the listener is plain.
pub fn choose_listener(cert_pem: Option<&[u8]>, key_pem: Option<&[u8]>) -> (r: Result<
    Listener,
    InvalidMaterial,
>)
    ensures
        match (cert_pem, key_pem) {
            (Some(cert), Some(key)) => {
                &&& !(r matches Ok(Listener::Plain))
                &&& r is Ok <==> is_usable(
                    material_of(
                        pem_certificates(cert@),
                        pem_rsa_keys(key@),
                        pem_pkcs8_keys(key@),
                        pem_sec1_keys(key@),
                    ),
                )
            },
            _ => r matches Ok(Listener::Plain),
        },
{
    match (cert_pem, key_pem) {
        (Some(cert), Some(key)) => match load(cert, key) {
            Ok(material) => match material.server_config() {
                Ok(config) => Ok(Listener::Tls(config)),
                Err(e) => Err(e),
            },
            Err(e) => Err(e),
        },
        _ => Ok(Listener::Plain),
    }
}

} // verus!
