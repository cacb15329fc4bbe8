//! A process-local client runtime for a publish/subscribe inter-process
//! bus.  The bus transport itself is an external collaborator; this crate
//! holds the runtime wrapper around it: the registration and ownership
//! model for published objects and event subscriptions
//! ([`server::UbusServer`] over [`container::UbusContainer`]), the
//! process-wide reverse lookup from a bare connection handle to its owning
//! instance ([`registry::ContextRegistry`]), and the decoder for the bus's
//! tag-length-value message format ([`decoder`]).

pub mod container;
pub mod decoder;
pub mod descriptor;
pub mod registry;
pub mod server;

use vstd::prelude::*;

verus! {

/// The error kinds surfaced by the runtime's public operations.
#[derive(PartialEq, Eq, Structural, Clone, Copy, Debug)]
pub enum UbusError {
    /// Connect or reconnect could not reach the bus.
    ConnectionFailed,
    /// The collaborator rejected an add-object or register-event call;
    /// carries the raw status for diagnostics.
    RegistrationFailed(i32),
    /// Reconnect was attempted without connection-loss observation enabled.
    MonitoringNotEnabled,
    /// A context downcast or attribute conversion requested the wrong type.
    TypeMismatch,
}

} // verus!
