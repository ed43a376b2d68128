pub mod scenes;
pub mod shapes;
pub mod tracer;
