//! A small inference engine: tensors, activation functions, dense and
//! flatten layers, and a sequential model built from declarative layer
//! descriptions and a weight store.
pub mod activation;
pub mod error;
pub mod layer;
pub mod model;
pub mod scalar;
pub mod tensor;
pub mod text;
