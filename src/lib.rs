//! Control core of a voice-assistant appliance: the boot and lifecycle state
//! machine, the button press classifier, the render loop's event mailbox and
//! frame buffer, and the construction of the server endpoint.

pub mod settings;
pub mod lifecycle;
pub mod mailbox;
pub mod identity;
pub mod button;
pub mod render;
