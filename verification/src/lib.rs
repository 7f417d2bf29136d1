//! CPU-only, text-only `SigLIP` ONNX embedding service: its verified core.
//!
//! The modules hold everything the service decides: which environments are a
//! configuration, which tokenizers can encode every text, which requests are
//! served, how a batch is laid out for the graph, which vectors may leave, and
//! what each failure is answered. Reading the environment, running the graph and
//! speaking HTTP happen around them.
pub mod admission;
pub mod batch;
pub mod charsmap;
pub mod config;
pub mod embedder;
pub mod expression;
pub mod failure;
pub mod graph;
pub mod health;
pub mod normalizing;
pub mod post_processing;
pub mod pre_tokenizing;
pub mod prepared;
pub mod request;
pub mod response;
pub mod session_pool;
pub mod soundness;
pub mod text;
pub mod tokenizer;
pub mod vectors;
