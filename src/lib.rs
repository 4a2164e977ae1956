//! Provisioning of embedded boards: release discovery, assembly of a
//! board-specific root filesystem image, enumeration of attached devices and
//! the sequencing of the flashing steps for each selected device.
//!
//! Every decision lives here and is verified; the caller performs the file
//! system, mount and subprocess work that the decisions ask for.

pub mod text;
pub mod assembly;
pub mod catalog;
pub mod device;
pub mod flash;
pub mod session;
