//! Verified core of the rustle EternalAI provider and of the LanceDB vector
//! index: request assembly, response interpretation and query planning.

pub mod text;
pub mod vecs;
pub mod json;
pub mod http;
pub mod completion;
pub mod embeddings;
pub mod vector_store;
pub mod eternalai;
pub mod lance_index;
