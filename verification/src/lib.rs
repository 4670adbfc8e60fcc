pub mod bands;
pub mod clock;
pub mod coastline;
pub mod color;
pub mod elements;
pub mod config;
pub mod kc2g;
pub mod maidenhead;
pub mod mesh;
pub mod noaa;
pub mod slots;
pub mod snapshot;
pub mod text;
pub mod textures;
