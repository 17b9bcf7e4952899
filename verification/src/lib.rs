//! Resource descriptions for a rasterization renderer: layered texture
//! arrays, bind-group layouts and bind groups, per-instance vertex data and
//! the depth-visualization pass.
//!
//! Every function here computes plain values. A caller that owns a GPU device
//! turns the descriptors into device objects and executes the planned
//! commands; nothing in this crate talks to a device itself.

pub mod bind_group_array;
pub mod depth_state;
pub mod depth_visualisation_bind_group;
pub mod error;
pub mod frame;
pub mod globals;
pub mod instance_buffer;
pub mod layout;
pub mod lifetime;
pub mod main_bind_group;
pub mod main_instance;
pub mod model;
pub mod pipeline;
pub mod pod;
pub mod render_pass;
pub mod sampler;
pub mod tx;
pub mod vertex;
