pub mod go;
pub mod node;
pub mod python;
