//! Ingestion and retrieval of document slices in a shared vector index.
pub mod segmenter;
pub mod vector_store;
pub mod gateway;
pub mod embedding;
pub mod assembler;
pub mod configuration;
pub mod responses;
