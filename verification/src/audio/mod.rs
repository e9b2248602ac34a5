pub mod engine;
pub mod model;
pub mod single;
pub mod synthesizer;
pub mod theory;
