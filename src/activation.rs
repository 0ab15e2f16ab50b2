use vstd::prelude::*;
use crate::error::ComputeError;
use crate::scalar::Scalar;
use crate::tensor::Tensor;
use crate::text::same_text;

verus! {

/// The activation functions that a layer can apply to its output.
#[derive(Debug, Clone, Copy, PartialEq, Eq, PartialOrd, Ord, Structural)]
pub enum ActivationFunction {
    Sigmoid,
    ReLu,
    SoftMax,
    Linear,
}

/// The activation function that a configuration tag names: the lower-case
/// alias or the variant's own name, matched case-sensitively.
pub open spec fn activation_of_tag(tag: Seq<char>) -> Option<ActivationFunction> {
    if tag == "sigmoid"@ || tag == "Sigmoid"@ {
        Some(ActivationFunction::Sigmoid)
    } else if tag == "relu"@ || tag == "ReLu"@ {
        Some(ActivationFunction::ReLu)
    } else if tag == "softmax"@ || tag == "SoftMax"@ {
        Some(ActivationFunction::SoftMax)
    } else if tag == "linear"@ || tag == "Linear"@ {
        Some(ActivationFunction::Linear)
    } else {
        None
    }
}

/// ReLU of one element: `x` where it is positive, else zero.
pub open spec fn relu_of<T: Scalar>(x: T) -> T {
    if x.spec_is_positive() {
        x
    } else {
        T::spec_zero()
    }
}

/// The logistic sigmoid of one element: `1 / (1 + e^(-x))`.
pub open spec fn sigmoid_of<T: Scalar>(x: T) -> T {
    T::spec_one().spec_divided_by(T::spec_one().spec_plus(x.spec_negated().spec_exp()))
}

/// The sum of `s`, added from the first element to the last, starting at
/// zero.
pub open spec fn sum_of<T: Scalar>(s: Seq<T>) -> T
    decreases s.len(),
{
    if s.len() == 0 {
        T::spec_zero()
    } else {
        sum_of(s.drop_last()).spec_plus(s.last())
    }
}

/// `e^x` of every element of `s`.
pub open spec fn exps_of<T: Scalar>(s: Seq<T>) -> Seq<T> {
    s.map_values(|x: T| x.spec_exp())
}

/// Softmax of `s` as one flat vector: `e^(s_i) / sum_j e^(s_j)`, with no
/// shift by the maximum.
pub open spec fn softmax_of<T: Scalar>(s: Seq<T>) -> Seq<T> {
    exps_of(s).map_values(|x: T| x.spec_divided_by(sum_of(exps_of(s))))
}

/// The tensor `v` after the activation function `f`: the shape is kept and
/// the elements are transformed as the function prescribes.
pub open spec fn activated<T: Scalar>(f: ActivationFunction, v: (Seq<usize>, Seq<T>)) -> (Seq<usize>, Seq<T>) {
    match f {
        ActivationFunction::ReLu => (v.0, v.1.map_values(|x: T| relu_of(x))),
        ActivationFunction::Sigmoid => (v.0, v.1.map_values(|x: T| sigmoid_of(x))),
        ActivationFunction::SoftMax => (v.0, softmax_of(v.1)),
        ActivationFunction::Linear => v,
    }
}

/// `max(x, 0)`.
pub fn relu<T: Scalar>(x: T) -> (r: T)
    ensures
        r == relu_of(x),
{
    if x.is_positive() {
        x
    } else {
        T::zero()
    }
}

/// `1 / (1 + e^(-x))`.
pub fn sigmoid<T: Scalar>(x: T) -> (r: T)
    ensures
        r == sigmoid_of(x),
{
    T::one().divided_by(T::one().plus(x.negated().exp()))
}

/// The sum of the elements, added from the first to the last, starting at zero.
pub fn sum_in_order<T: Scalar>(v: &Vec<T>) -> (r: T)
    ensures
        r == sum_of(v@),
{
    let mut acc = T::zero();
    let mut i: usize = 0;
    while i < v.len()
        invariant
            i <= v.len(),
            acc == sum_of(v@.take(i as int)),
        decreases v.len() - i,
    {
        assert(v@.take(i + 1).drop_last() =~= v@.take(i as int));
        acc = acc.plus(v[i]);
        i = i + 1;
    }
    assert(v@.take(v.len() as int) =~= v@);
    acc
}

/// Applies ReLU to every element.
pub fn relu_activation<T: Scalar>(z: Tensor<T>) -> (r: Tensor<T>)
    requires
        z.wf(),
    ensures
        r.wf(),
        r@ == activated(ActivationFunction::ReLu, z@),
{
    let r = z.map(|x: T| -> (y: T) ensures y == relu_of(x) { relu(x) });
    assert(r.elems() =~= z.elems().map_values(|x: T| relu_of(x)));
    r
}

/// Applies the logistic sigmoid to every element.
pub fn sigmoid_activation<T: Scalar>(z: Tensor<T>) -> (r: Tensor<T>)
    requires
        z.wf(),
    ensures
        r.wf(),
        r@ == activated(ActivationFunction::Sigmoid, z@),
{
    let r = z.map(|x: T| -> (y: T) ensures y == sigmoid_of(x) { sigmoid(x) });
    assert(r.elems() =~= z.elems().map_values(|x: T| sigmoid_of(x)));
    r
}

/// Softmax over all the elements taken as one flat vector, whatever the
/// rank: `e^(v_i) / sum_j e^(v_j)`, with no shift by the maximum.
pub fn softmax_activation<T: Scalar>(z: Tensor<T>) -> (r: Tensor<T>)
    requires
        z.wf(),
    ensures
        r.wf(),
        r@ == activated(ActivationFunction::SoftMax, z@),
{
    let ghost v = z.elems();
    let exps = z.map(|x: T| -> (y: T) ensures y == x.spec_exp() { x.exp() });
    assert(exps.elems() =~= exps_of(v));
    let total = sum_in_order(exps.as_vec());
    let r = exps.map(|x: T| -> (y: T) ensures y == x.spec_divided_by(total) { x.divided_by(total) });
    assert(r.elems() =~= softmax_of(v));
    r
}

/// ReLU applied twice gives what it gives once.
pub proof fn lemma_relu_idempotent<T: Scalar>(v: (Seq<usize>, Seq<T>))
    ensures
        activated(ActivationFunction::ReLu, activated(ActivationFunction::ReLu, v))
            == activated(ActivationFunction::ReLu, v),
{
    let once = activated(ActivationFunction::ReLu, v);
    let twice = activated(ActivationFunction::ReLu, once);
    assert(twice.1 =~= once.1);
}

impl ActivationFunction {
    /// The activation function that `tag` names, if any.
    pub fn from_tag(tag: &str) -> (r: Option<ActivationFunction>)
        ensures
            r == activation_of_tag(tag@),
    {
        if same_text(tag, "sigmoid") || same_text(tag, "Sigmoid") {
            Some(ActivationFunction::Sigmoid)
        } else if same_text(tag, "relu") || same_text(tag, "ReLu") {
            Some(ActivationFunction::ReLu)
        } else if same_text(tag, "softmax") || same_text(tag, "SoftMax") {
            Some(ActivationFunction::SoftMax)
        } else if same_text(tag, "linear") || same_text(tag, "Linear") {
            Some(ActivationFunction::Linear)
        } else {
            None
        }
    }

    /// Applies the function to `incoming`. The shape is kept; `Linear`
    /// hands its input back unchanged.
    pub fn compute<T: Scalar>(&self, incoming: Tensor<T>) -> (r: Tensor<T>)
        requires
            incoming.wf(),
        ensures
            r.wf(),
            r@ == activated(*self, incoming@),
            *self == ActivationFunction::Linear ==> r == incoming,
    {
        match self {
            ActivationFunction::ReLu => relu_activation(incoming),
            ActivationFunction::Sigmoid => sigmoid_activation(incoming),
            ActivationFunction::SoftMax => softmax_activation(incoming),
            ActivationFunction::Linear => incoming,
        }
    }
}

/// A layer that only applies an activation function.
pub struct Activation {
    activation_function: ActivationFunction,
}

impl Activation {
    /// The function that the layer applies.
    pub closed spec fn function(&self) -> ActivationFunction {
        self.activation_function
    }

    pub fn new(activation_function: ActivationFunction) -> (r: Activation)
        ensures
            r.function() == activation_function,
    {
        Activation { activation_function }
    }

    /// The function that the layer applies.
    pub fn activation_function(&self) -> (r: ActivationFunction)
        ensures
            r == self.function(),
    {
        self.activation_function
    }

    /// Applies the layer's function; this never fails.
    pub fn compute<T: Scalar>(&self, incoming: Tensor<T>) -> (r: Result<Tensor<T>, ComputeError>)
        requires
            incoming.wf(),
        ensures
            r matches Ok(t) && t.wf() && t@ == activated(self.function(), incoming@),
            self.function() == ActivationFunction::Linear ==> r == Ok::<Tensor<T>, ComputeError>(incoming),
    {
        Ok(self.activation_function.compute(incoming))
    }
}

} // verus!
