//! Client-side session layer for the IEC 60870-5-104 telecontrol protocol.
//!
//! The crate covers the pieces of a controlling station that sit directly
//! above a raw protocol engine: the session lifecycle state machine (a
//! typestate `Connection` that only offers data-transfer commands once the
//! handshake succeeded), the builder that accumulates the connection
//! configuration, the CP56Time2a seven-byte timestamp codec, and the mapping
//! from interrogation qualifiers to their reserved protocol codes.
//!
//! The engine itself (TCP framing, APDU encoding, timers) is an outside
//! collaborator: every call the session layer makes on its handle is recorded
//! as an [`cs104::EngineOp`] in program order, and the contracts state exactly
//! which calls each operation performs and with which arguments.

use vstd::prelude::*;

pub mod cp56;
pub mod cs104;
pub mod hal;
pub mod qoi;

pub use cp56::Timestamp;
pub use cs104::IEC_60870_5_104_DEFAULT_PORT;
pub use qoi::IEC60870_QOI_STATION;
pub use qoi::QualifierOfInterrogation;

verus! {

/// Common address of ASDU: the integer identifying the addressed remote
/// station or sector. The protocol defines the meaning of the value; this
/// layer passes it through unvalidated.
pub struct CommonAddr(pub i32);

} // verus!
