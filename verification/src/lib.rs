//! Encoder for version-2 GRF containers: a configuration of toggleable
//! industries goes in, the bytes of a container file come out.

pub mod framing;
pub mod grf;
pub mod layout;
pub mod options;

pub use framing::write_pseudo_sprite;
pub use grf::{write_grf, GrfError};
pub use options::{NewGRFIndustry, NewGRFOptions};
