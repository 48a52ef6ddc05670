pub mod assembly;
pub mod laws;
pub mod plan;
pub mod render;
pub mod schema;
pub mod text;
