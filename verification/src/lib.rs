//! Verified core of a live video compositor: colour packing, key parameters,
//! alpha blending, chroma/luma key matte application, frame buffer layout,
//! capture-size decisions and the per-tick compositing plan.

pub mod blender;
pub mod capture;
pub mod color;
pub mod compositor;
pub mod config;
pub mod hybrid_key;
pub mod key_state;
pub mod layers;
pub mod output_state;
pub mod outputs;
pub mod pixel_buffer;
pub mod shared;
pub mod sources;
