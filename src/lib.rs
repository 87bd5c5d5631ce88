pub mod model;
pub mod corpus;
pub mod embedding;
pub mod index;
pub mod prompt;
pub mod hyde;
pub mod stream;
pub mod chunking;
