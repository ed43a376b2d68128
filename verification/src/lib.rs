//! Verified core of the fōrma audio-visual toy: sequencing, song encoding,
//! mesh index generation, ray-tracer scene descriptions and input decoding.
pub mod audio;
pub mod basics;
pub mod cpu_path_tracer;
pub mod cpu_ray_tracer;
pub mod frontend;
pub mod gui;
pub mod material;
