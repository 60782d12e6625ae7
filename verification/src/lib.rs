//! Verified core of GARDENA's BNW gateway libraries: LWM2M value handling,
//! the IPC protocol model, Lemonbeat status codes, the request queue used by
//! task RPC and the plan of the items its interface attribute generates, the
//! XSD and LWM2M object models with what code is generated from them, and
//! the syslog field escaping.

pub mod value;
pub mod encoding;
pub mod includable;
pub mod lemonbeat;
pub mod text;
pub mod syslog;
pub mod ipc;
pub mod protocol;
pub mod endpoint;
pub mod firmware_status;
pub mod mpsc;
pub mod xsd;
pub mod objgen;
pub mod typegen;
pub mod task_rpc;
