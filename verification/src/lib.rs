pub mod body;
pub mod camera;
pub mod colors;
pub mod engine;
pub mod factory;
pub mod laws;
pub mod math;
pub mod node;
pub mod objects;
pub mod scene;
pub mod shape;
