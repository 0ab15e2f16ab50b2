use vstd::prelude::*;

verus! {

/// Why a forward pass stopped.
#[derive(Debug, Clone, Copy, PartialEq, Eq, Structural)]
pub enum ComputeError {
    /// A dense layer was handed `actual` elements where it takes `expected`.
    ShapeMismatch { expected: usize, actual: usize },
}

/// Why a weight store could not hand out a layer's parameters.
#[derive(Debug, PartialEq, Eq)]
pub enum LookupError {
    /// The store failed, for the reason given.
    Store(String),
    /// The bias holds `actual` entries where the weight matrix has
    /// `expected` columns.
    BiasLength { expected: usize, actual: usize },
}

/// Why a model could not be built.
#[derive(Debug, PartialEq, Eq)]
pub enum BuildError {
    /// An activation tag that names no known function.
    UnknownActivation(String),
    /// A property that a layer description must carry is absent.
    MissingProperty(String),
    /// The weights of the named layer could not be had.
    WeightLookup { name: String, cause: LookupError },
    /// A layer kind that this engine cannot build.
    UnsupportedLayerKind(String),
}

} // verus!
