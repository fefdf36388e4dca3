pub mod editor;
pub mod errors;
pub mod marker;
pub mod notes;
pub mod text;
pub mod workspace;
