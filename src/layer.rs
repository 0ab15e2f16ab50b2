use vstd::prelude::*;
use crate::activation::{activated, Activation, ActivationFunction};
use crate::error::{BuildError, ComputeError, LookupError};
use crate::scalar::Scalar;
use crate::tensor::{flattened, saturated, ShapeError, Tensor};

verus! {

/// A two-dimensional array stored in row-major order.
pub struct Matrix<T> {
    rows: usize,
    cols: usize,
    data: Vec<T>,
}

proof fn lemma_index_in_bounds(i: int, j: int, rows: int, cols: int)
    requires
        0 <= i < rows,
        0 <= j < cols,
    ensures
        0 <= i * cols + j < rows * cols,
{
    assert(0 <= i * cols + j < rows * cols) by (nonlinear_arith)
        requires
            0 <= i < rows,
            0 <= j < cols,
    ;
}

impl<T> Matrix<T> {
    #[verifier::type_invariant]
    spec fn inv(&self) -> bool {
        self.data@.len() == self.rows * self.cols
    }

    /// The number of rows.
    pub closed spec fn num_rows(&self) -> usize {
        self.rows
    }

    /// The number of columns.
    pub closed spec fn num_cols(&self) -> usize {
        self.cols
    }

    /// The entries, row after row.
    pub closed spec fn entries(&self) -> Seq<T> {
        self.data@
    }

    /// The entry in row `i` and column `j`.
    pub open spec fn entry(&self, i: int, j: int) -> T {
        self.entries()[i * self.num_cols() + j]
    }

    /// A `rows` by `cols` matrix over `data`, given row after row; fails
    /// where `data` does not hold `rows * cols` entries.
    pub fn from_shape_vec(rows: usize, cols: usize, data: Vec<T>) -> (r: Result<Matrix<T>, ShapeError>)
        ensures
            rows * cols == data@.len() <==> r is Ok,
            r matches Ok(m) ==> m.num_rows() == rows && m.num_cols() == cols && m.entries() == data@,
            r matches Err(e) ==> e == (ShapeError {
                expected: data@.len() as usize,
                actual: saturated((rows * cols) as nat),
            }),
    {
        match rows.checked_mul(cols) {
            Some(n) => {
                if n == data.len() {
                    Ok(Matrix { rows, cols, data })
                } else {
                    Err(ShapeError { expected: data.len(), actual: n })
                }
            },
            None => Err(ShapeError { expected: data.len(), actual: usize::MAX }),
        }
    }

    /// The number of rows.
    pub fn nrows(&self) -> (r: usize)
        ensures
            r == self.num_rows(),
    {
        self.rows
    }

    /// The number of columns.
    pub fn ncols(&self) -> (r: usize)
        ensures
            r == self.num_cols(),
    {
        self.cols
    }

    /// The entries, row after row.
    pub fn as_vec(&self) -> (r: &Vec<T>)
        ensures
            r@ == self.entries(),
            r@.len() == self.num_rows() * self.num_cols(),
    {
        proof {
            use_type_invariant(self);
        }
        &self.data
    }
}

impl<T: Copy> Matrix<T> {
    /// The entry in row `i` and column `j`.
    pub fn get(&self, i: usize, j: usize) -> (r: T)
        requires
            i < self.num_rows(),
            j < self.num_cols(),
        ensures
            r == self.entry(i as int, j as int),
    {
        proof {
            use_type_invariant(self);
            lemma_index_in_bounds(i as int, j as int, self.rows as int, self.cols as int);
        }
        let n = self.data.len();
        assert(i * self.cols + j < n);
        self.data[i * self.cols + j]
    }
}

/// A fully connected layer: `y = x W + b`, followed by the activation
/// function where one is configured.
pub struct Dense<T> {
    weights: Matrix<T>,
    bias: Vec<T>,
    activation: Option<ActivationFunction>,
}

impl<T> Dense<T> {
    /// The weight matrix, of shape `[inputs, outputs]`.
    pub closed spec fn weight_matrix(&self) -> Matrix<T> {
        self.weights
    }

    /// The bias vector, of length `outputs`.
    pub closed spec fn bias_vector(&self) -> Seq<T> {
        self.bias@
    }

    /// The activation function applied to the affine result, if any.
    pub closed spec fn activation_function(&self) -> Option<ActivationFunction> {
        self.activation
    }

    /// The number of elements the layer takes.
    pub open spec fn inputs(&self) -> usize {
        self.weight_matrix().num_rows()
    }

    /// The number of elements the layer gives.
    pub open spec fn outputs(&self) -> usize {
        self.weight_matrix().num_cols()
    }

    /// The bias has one entry per column of the weight matrix.
    pub open spec fn wf(&self) -> bool {
        self.bias_vector().len() == self.outputs()
    }

    pub fn new(weights: Matrix<T>, bias: Vec<T>, activation: Option<ActivationFunction>) -> (r: Dense<T>)
        requires
            bias@.len() == weights.num_cols(),
        ensures
            r.wf(),
            r.weight_matrix() == weights,
            r.bias_vector() == bias@,
            r.activation_function() == activation,
    {
        Dense { weights, bias, activation }
    }

    /// A dense layer over parameters that a weight store handed out for the
    /// layer `name`; fails where the bias does not have one entry per
    /// column of the weight matrix.
    pub fn from_parts(
        name: String,
        weights: Matrix<T>,
        bias: Vec<T>,
        activation: Option<ActivationFunction>,
    ) -> (r: Result<Dense<T>, BuildError>)
        ensures
            bias@.len() == weights.num_cols() <==> r is Ok,
            r matches Ok(d) ==> d.wf() && d.weight_matrix() == weights && d.bias_vector() == bias@
                && d.activation_function() == activation,
            r matches Err(e) ==> e == (BuildError::WeightLookup {
                name,
                cause: LookupError::BiasLength {
                    expected: weights.num_cols(),
                    actual: bias@.len() as usize,
                },
            }),
    {
        let cols = weights.ncols();
        if bias.len() == cols {
            Ok(Dense::new(weights, bias, activation))
        } else {
            Err(BuildError::WeightLookup {
                name,
                cause: LookupError::BiasLength { expected: cols, actual: bias.len() },
            })
        }
    }

    /// The weight matrix.
    pub fn get_weights(&self) -> (r: &Matrix<T>)
        ensures
            *r == self.weight_matrix(),
    {
        &self.weights
    }

    /// The bias vector.
    pub fn get_biases(&self) -> (r: &Vec<T>)
        ensures
            r@ == self.bias_vector(),
    {
        &self.bias
    }

    /// The weight matrix, for changing in place.
    pub fn get_mut_weights(&mut self) -> (r: &mut Matrix<T>)
        ensures
            *r == old(self).weight_matrix(),
            final(self).weight_matrix() == *final(r),
            final(self).bias_vector() == old(self).bias_vector(),
            final(self).activation_function() == old(self).activation_function(),
    {
        &mut self.weights
    }

    /// The activation function applied to the affine result, if any.
    pub fn get_activation(&self) -> (r: Option<ActivationFunction>)
        ensures
            r == self.activation_function(),
    {
        self.activation
    }
}

/// `sum_{i < n} x_i * W[i][j]`, added in order of `i`, starting at zero.
pub open spec fn column_sum<T: Scalar>(x: Seq<T>, w: Matrix<T>, j: int, n: int) -> T
    decreases n,
{
    if n <= 0 {
        T::spec_zero()
    } else {
        column_sum(x, w, j, n - 1).spec_plus(x[n - 1].spec_times(w.entry(n - 1, j)))
    }
}

/// The row vector `x` times the matrix `w`, plus `b`: entry `j` is
/// `sum_i x_i * W[i][j] + b_j`.
pub open spec fn affine_of<T: Scalar>(x: Seq<T>, w: Matrix<T>, b: Seq<T>) -> Seq<T> {
    Seq::new(w.num_cols() as nat, |j: int| column_sum(x, w, j, w.num_rows() as int).spec_plus(b[j]))
}

/// What a dense layer with weights `w`, bias `b` and activation `act` makes
/// of the input elements `x`: the rank-one tensor `x W + b`, then the
/// activation function where one is configured.
pub open spec fn dense_output<T: Scalar>(
    w: Matrix<T>,
    b: Seq<T>,
    act: Option<ActivationFunction>,
    x: Seq<T>,
) -> (Seq<usize>, Seq<T>) {
    let y = (seq![w.num_cols()], affine_of(x, w, b));
    match act {
        Some(f) => activated(f, y),
        None => y,
    }
}

/// What such a dense layer gives for an input tensor `v`: only its elements,
/// in row-major order, count, whatever its shape; their number must be the
/// number of rows of `w`.
pub open spec fn dense_outcome<T: Scalar>(
    w: Matrix<T>,
    b: Seq<T>,
    act: Option<ActivationFunction>,
    v: (Seq<usize>, Seq<T>),
) -> Result<(Seq<usize>, Seq<T>), ComputeError> {
    if v.1.len() == w.num_rows() {
        Ok(dense_output(w, b, act, v.1))
    } else {
        Err(ComputeError::ShapeMismatch { expected: w.num_rows(), actual: v.1.len() as usize })
    }
}

impl<T: Scalar> Dense<T> {
    /// What the layer makes of the input elements `x`.
    pub open spec fn output_of(&self, x: Seq<T>) -> (Seq<usize>, Seq<T>) {
        dense_output(self.weight_matrix(), self.bias_vector(), self.activation_function(), x)
    }

    /// What `compute` gives for an input tensor `v`.
    pub open spec fn outcome(&self, v: (Seq<usize>, Seq<T>)) -> Result<(Seq<usize>, Seq<T>), ComputeError> {
        dense_outcome(self.weight_matrix(), self.bias_vector(), self.activation_function(), v)
    }

    /// `x W + b` for the input flattened to `x`, then the activation
    /// function where one is configured. Fails where the input does not
    /// hold exactly `inputs` elements.
    pub fn compute(&self, incoming: Tensor<T>) -> (r: Result<Tensor<T>, ComputeError>)
        requires
            self.wf(),
            incoming.wf(),
        ensures
            incoming.elems().len() == self.inputs() <==> r is Ok,
            r matches Ok(t) ==> t.wf() && t@ == self.output_of(incoming.elems()),
            r matches Err(e) ==> e == (ComputeError::ShapeMismatch {
                expected: self.inputs(),
                actual: incoming.elems().len() as usize,
            }),
            r matches Ok(t) ==> self.outcome(incoming@) == Ok::<(Seq<usize>, Seq<T>), ComputeError>(t@),
            r matches Err(e) ==> self.outcome(incoming@) == Err::<(Seq<usize>, Seq<T>), ComputeError>(e),
    {
        let count = incoming.len();
        let rows = self.weights.nrows();
        let cols = self.weights.ncols();
        if count != rows {
            return Err(ComputeError::ShapeMismatch { expected: rows, actual: count });
        }
        let x = incoming.into_vec();
        let mut y: Vec<T> = Vec::new();
        let mut j: usize = 0;
        while j < cols
            invariant
                j <= cols,
                cols == self.weights.num_cols(),
                rows == self.weights.num_rows(),
                x@.len() == rows,
                self.bias@.len() == cols,
                y@.len() == j,
                forall|k: int|
                    0 <= k < j ==> #[trigger] y@[k] == column_sum(x@, self.weights, k, rows as int).spec_plus(
                        self.bias@[k],
                    ),
            decreases cols - j,
        {
            let mut acc = T::zero();
            let mut i: usize = 0;
            while i < rows
                invariant
                    i <= rows,
                    j < cols,
                    cols == self.weights.num_cols(),
                    rows == self.weights.num_rows(),
                    x@.len() == rows,
                    acc == column_sum(x@, self.weights, j as int, i as int),
                decreases rows - i,
            {
                acc = acc.plus(x[i].times(self.weights.get(i, j)));
                i = i + 1;
            }
            y.push(acc.plus(self.bias[j]));
            j = j + 1;
        }
        assert(y@ =~= affine_of(x@, self.weights, self.bias@));
        let out = Tensor::from_vec(y);
        match self.activation {
            Some(f) => Ok(f.compute(out)),
            None => Ok(out),
        }
    }
}

/// A dense layer reads only the elements of its input, in row-major order:
/// two inputs that differ only in shape give the same result.
pub proof fn lemma_dense_ignores_input_shape<T: Scalar>(
    d: Dense<T>,
    a: (Seq<usize>, Seq<T>),
    b: (Seq<usize>, Seq<T>),
)
    requires
        a.1 == b.1,
    ensures
        d.outcome(a) == d.outcome(b),
{
}

/// A dense layer with no activation function and one with `Linear`, over
/// the same weights and bias, give the same output.
pub proof fn lemma_linear_same_as_none<T: Scalar>(d1: Dense<T>, d2: Dense<T>, x: Seq<T>)
    requires
        d1.weight_matrix() == d2.weight_matrix(),
        d1.bias_vector() == d2.bias_vector(),
        d1.activation_function() is None,
        d2.activation_function() == Some(ActivationFunction::Linear),
    ensures
        d1.output_of(x) == d2.output_of(x),
{
}

/// A layer that lays its input out as a rank-one tensor, keeping the order
/// of the elements.
#[derive(Debug, Clone, Copy, PartialEq, Eq, Structural)]
pub struct Flatten;

impl Flatten {
    /// The input as a rank-one tensor; this never fails.
    pub fn compute<T>(&self, incoming: Tensor<T>) -> (r: Result<Tensor<T>, ComputeError>)
        requires
            incoming.wf(),
        ensures
            r matches Ok(t) && t.wf() && t@ == flattened(incoming@),
    {
        Ok(incoming.flatten())
    }
}

/// A unit of computation in a model, with optional access to trainable
/// parameters.
pub trait Layer<T: Scalar>: Sized {
    /// Whether the layer's own data is consistent.
    spec fn ready(&self) -> bool;

    /// What `compute` gives for an input tensor `v`.
    spec fn layer_outcome(&self, v: (Seq<usize>, Seq<T>)) -> Result<(Seq<usize>, Seq<T>), ComputeError>;

    /// The weight matrix and the bias, where the layer has trainable
    /// parameters.
    spec fn params(&self) -> Option<(Matrix<T>, Seq<T>)>;

    /// Runs the layer on one input.
    fn compute(&self, incoming: Tensor<T>) -> (r: Result<Tensor<T>, ComputeError>)
        requires
            self.ready(),
            incoming.wf(),
        ensures
            r matches Ok(t) ==> t.wf() && self.layer_outcome(incoming@) == Ok::<(Seq<usize>, Seq<T>), ComputeError>(t@),
            r matches Err(e) ==> self.layer_outcome(incoming@) == Err::<(Seq<usize>, Seq<T>), ComputeError>(e),
    ;

    /// The weight matrix, where the layer has one.
    fn weights(&self) -> (r: Option<&Matrix<T>>)
        ensures
            r is Some <==> self.params() is Some,
            r matches Some(m) ==> *m == self.params().unwrap().0,
    ;

    /// The bias vector, where the layer has one.
    fn biases(&self) -> (r: Option<&Vec<T>>)
        ensures
            r is Some <==> self.params() is Some,
            r matches Some(b) ==> b@ == self.params().unwrap().1,
    ;

    /// The weight matrix for changing in place, where the layer has one;
    /// a layer without one is left as it was.
    fn weights_mut(&mut self) -> (r: Option<&mut Matrix<T>>)
        ensures
            r is Some <==> old(self).params() is Some,
            r matches Some(m) ==> *m == old(self).params().unwrap().0,
            r is None ==> *final(self) == *old(self),
    ;
}

impl<T: Scalar> Layer<T> for Dense<T> {
    open spec fn ready(&self) -> bool {
        self.wf()
    }

    open spec fn layer_outcome(&self, v: (Seq<usize>, Seq<T>)) -> Result<(Seq<usize>, Seq<T>), ComputeError> {
        self.outcome(v)
    }

    open spec fn params(&self) -> Option<(Matrix<T>, Seq<T>)> {
        Some((self.weight_matrix(), self.bias_vector()))
    }

    fn compute(&self, incoming: Tensor<T>) -> (r: Result<Tensor<T>, ComputeError>) {
        Dense::compute(self, incoming)
    }

    fn weights(&self) -> (r: Option<&Matrix<T>>) {
        Some(self.get_weights())
    }

    fn biases(&self) -> (r: Option<&Vec<T>>) {
        Some(self.get_biases())
    }

    fn weights_mut(&mut self) -> (r: Option<&mut Matrix<T>>) {
        Some(self.get_mut_weights())
    }
}

impl<T: Scalar> Layer<T> for Flatten {
    open spec fn ready(&self) -> bool {
        true
    }

    open spec fn layer_outcome(&self, v: (Seq<usize>, Seq<T>)) -> Result<(Seq<usize>, Seq<T>), ComputeError> {
        Ok(flattened(v))
    }

    open spec fn params(&self) -> Option<(Matrix<T>, Seq<T>)> {
        None
    }

    fn compute(&self, incoming: Tensor<T>) -> (r: Result<Tensor<T>, ComputeError>) {
        Flatten::compute(self, incoming)
    }

    fn weights(&self) -> (r: Option<&Matrix<T>>) {
        None
    }

    fn biases(&self) -> (r: Option<&Vec<T>>) {
        None
    }

    fn weights_mut(&mut self) -> (r: Option<&mut Matrix<T>>) {
        None
    }
}

impl<T: Scalar> Layer<T> for Activation {
    open spec fn ready(&self) -> bool {
        true
    }

    open spec fn layer_outcome(&self, v: (Seq<usize>, Seq<T>)) -> Result<(Seq<usize>, Seq<T>), ComputeError> {
        Ok(activated(self.function(), v))
    }

    open spec fn params(&self) -> Option<(Matrix<T>, Seq<T>)> {
        None
    }

    fn compute(&self, incoming: Tensor<T>) -> (r: Result<Tensor<T>, ComputeError>) {
        Activation::compute(self, incoming)
    }

    fn weights(&self) -> (r: Option<&Matrix<T>>) {
        None
    }

    fn biases(&self) -> (r: Option<&Vec<T>>) {
        None
    }

    fn weights_mut(&mut self) -> (r: Option<&mut Matrix<T>>) {
        None
    }
}

} // verus!
