//! The interop boundary between a native graphics hook and the managed side that is
//! loaded into the same process.
//!
//! The managed side introduces itself once, through [`handoff::OnInitialized`]: it
//! supplies a table of entry points ([`callbacks::ManagedCallbacks`]) and, on a call
//! back through that table, a configuration record ([`config::ConfData`]). The
//! native side keeps both in its hook state ([`state::HookState`]) and from then on
//! calls the managed side through the table ([`delegate`]).
pub mod callbacks;
pub mod config;
pub mod delegate;
pub mod handoff;
pub mod state;
pub mod wide;

pub use callbacks::{ManagedCallbacks, Operation};
pub use config::ConfData;
pub use delegate::CallError;
pub use handoff::{HandoffError, HandoffReport, OnInitialized};
pub use state::{HookState, InteropState, ModData};
