pub mod circle;
pub mod core_utils;
pub mod cylinder;
pub mod debug_circle;
pub mod level;
pub mod scene;
pub mod sphere;
pub mod text;
pub mod uniforms;
