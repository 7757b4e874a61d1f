//! Verified core of the `Std.Tui` Turbo Vision bridge: value decoding, the
//! retained object store, outline flattening, headless paint planning and the
//! control input decisions.

pub mod command_map;
pub mod value;
pub mod error;
pub mod decode;
pub mod outline;
pub mod store;
pub mod controls;
pub mod commands;
pub mod readback;
pub mod paint;
pub mod worker;
pub mod session;
pub mod live_patch;
pub mod intrinsics;
pub mod records;
pub mod create;
pub mod tv_bridge;
pub mod laws;
pub mod host_records;
pub mod host_args;
pub mod modal;
pub mod test_events;
pub mod query;
pub mod control_keys;
pub mod control_mouse;
pub mod host;
