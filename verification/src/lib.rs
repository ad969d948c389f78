//! Cursor-mode state machine and drag-selection engine for an RTS-style
//! control scheme.
//!
//! The library decides and the embedding acts. Each frame the embedding
//! hands over what the input devices did, what the pointer ray hit and what
//! the physics engine found inside the selection volume; it gets back the
//! mode changes, the command for the volume entity and the entities that
//! entered or left the selection.
//!
//! Entities are identified by the 64-bit value of their engine handle, screen
//! positions are whole screen units and ground-plane points are fixed-point
//! world units, so every rule in here is stated over integers and sets of
//! integers.

pub mod controls;
pub mod entities;
pub mod overlap;
pub mod picking;
pub mod ui;
