//! Global hotkeys: a registry from listener-assigned identifiers to callbacks,
//! the decision logic around the OS claim of a key combination, and the
//! dispatch of OS notifications to the matching callback.
//!
//! The OS itself is reached through values handed in by the caller: the claim
//! call is passed to `Listener::register_hotkey` as a closure, and each
//! notification's payload is passed to `Listener::dispatch`.

pub mod keys;
pub mod lemmas;
pub mod listener;
pub mod modifiers;

pub use listener::{Listener, ListenerID};
