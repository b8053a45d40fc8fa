//! Decoding and normalisation of the properties a graphics driver reports for
//! its physical devices, together with the text of the terminal report that is
//! drawn from them.

pub mod ascii_art;
pub mod device;
pub mod extension;
pub mod memory;
pub mod native;
pub mod normalizer;
pub mod queue;
pub mod report;
pub mod terminal;
pub mod text;
pub mod vendor;

pub use report::{fetch_device, get_device_info, set_side_by_side};
pub use terminal::{
    ansi_supported_on, enable_virtual_terminal_processing, is_ansi_supported, is_vt_enabled,
};
