//! Turning the rules that PFCP requests carry into the UPF's rules.
pub mod checks;
pub mod far;
pub mod helpers;
pub mod pdr;
pub mod qer;
pub mod urr;
