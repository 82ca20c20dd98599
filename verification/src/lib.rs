//! Color management for a Wayland compositor: the decision logic of a receive-only
//! `wp-color-management-v1` server, and of the per-output blend space that HDR outputs are
//! rendered in.
//!
//! Every function here is pure with respect to the outside world. Objects on the wire, surfaces,
//! renderers and shaders belong to the caller, who hands in plain values and carries out what is
//! returned.

pub mod blend;
pub mod creator;
pub mod description;
pub mod laws;
pub mod manager;
pub mod surface;
pub mod wire;
