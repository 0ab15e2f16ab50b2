use rust_deep_learning::activation::{
    relu_activation, sigmoid_activation, softmax_activation, Activation, ActivationFunction,
};
use rust_deep_learning::error::{BuildError, ComputeError, LookupError};
use rust_deep_learning::layer::{Dense, Flatten, Layer, Matrix};
use rust_deep_learning::model::{
    dense_from_store, plan, LayerSpec, LayerType, PlannedLayer, SequentialModel, WeightStore,
};
use rust_deep_learning::scalar::Scalar;
use rust_deep_learning::tensor::{element_count, ShapeError, Tensor};
use rust_deep_learning::text::same_text;
use std::collections::HashMap;

#[derive(Debug, Clone, Copy, PartialEq)]
struct F(f32);

impl Scalar for F {
    fn spec_zero() -> Self {
        F(0.0)
    }
    fn spec_one() -> Self {
        F(1.0)
    }
    fn spec_plus(self, other: Self) -> Self {
        self.plus(other)
    }
    fn spec_times(self, other: Self) -> Self {
        self.times(other)
    }
    fn spec_divided_by(self, other: Self) -> Self {
        self.divided_by(other)
    }
    fn spec_negated(self) -> Self {
        self.negated()
    }
    fn spec_exp(self) -> Self {
        Scalar::exp(self)
    }
    fn spec_is_positive(self) -> bool {
        self.is_positive()
    }
    fn zero() -> Self {
        F(0.0)
    }
    fn one() -> Self {
        F(1.0)
    }
    fn plus(self, other: Self) -> Self {
        F(self.0 + other.0)
    }
    fn times(self, other: Self) -> Self {
        F(self.0 * other.0)
    }
    fn divided_by(self, other: Self) -> Self {
        F(self.0 / other.0)
    }
    fn negated(self) -> Self {
        F(-self.0)
    }
    fn exp(self) -> Self {
        F(self.0.exp())
    }
    fn is_positive(self) -> bool {
        self.0 > 0.0
    }
}

fn fs(v: &[f32]) -> Vec<F> {
    v.iter().map(|x| F(*x)).collect()
}

fn vector(v: &[f32]) -> Tensor<F> {
    Tensor::from_vec(fs(v))
}

fn values(t: &Tensor<F>) -> Vec<f32> {
    t.as_vec().iter().map(|x| x.0).collect()
}

fn assert_close(actual: &[f32], expected: &[f32], tolerance: f32) {
    assert_eq!(actual.len(), expected.len());
    for (a, e) in actual.iter().zip(expected.iter()) {
        assert!((a - e).abs() <= tolerance, "{} is not within {} of {}", a, tolerance, e);
    }
}

fn matrix(rows: usize, cols: usize, v: &[f32]) -> Matrix<F> {
    Matrix::from_shape_vec(rows, cols, fs(v)).unwrap()
}

struct MemoryStore {
    layers: HashMap<String, (usize, usize, Vec<f32>, Vec<f32>)>,
}

impl MemoryStore {
    fn new() -> Self {
        MemoryStore { layers: HashMap::new() }
    }
    fn with(mut self, name: &str, rows: usize, cols: usize, w: &[f32], b: &[f32]) -> Self {
        self.layers.insert(name.to_string(), (rows, cols, w.to_vec(), b.to_vec()));
        self
    }
}

impl WeightStore<F> for MemoryStore {
    fn matrix_for(&self, name: String) -> Result<Matrix<F>, LookupError> {
        self.get_matrix(&name)
    }
    fn vector_for(&self, name: String) -> Result<Vec<F>, LookupError> {
        self.get_vector(&name)
    }
    fn get_matrix(&self, name: &String) -> Result<Matrix<F>, LookupError> {
        match self.layers.get(name) {
            Some((r, c, w, _)) => Matrix::from_shape_vec(*r, *c, fs(w))
                .map_err(|e| LookupError::Store(format!("{:?}", e))),
            None => Err(LookupError::Store(format!("no layer {}", name))),
        }
    }
    fn get_vector(&self, name: &String) -> Result<Vec<F>, LookupError> {
        match self.layers.get(name) {
            Some((_, _, _, b)) => Ok(fs(b)),
            None => Err(LookupError::Store(format!("no layer {}", name))),
        }
    }
}

fn spec(kind: &str, name: Option<&str>, activation: Option<&str>) -> LayerSpec {
    LayerSpec::new(
        kind.to_string(),
        name.map(|s| s.to_string()),
        activation.map(|s| s.to_string()),
    )
}

const W1: [f32; 9] = [1.0, 2.0, 3.0, 4.0, 5.0, 6.0, 7.0, 8.0, 9.0];
const W2: [f32; 9] = [1.0, -2.0, 3.0, -4.0, 5.0, -6.0, 7.0, -8.0, 9.0];

// The activation functions.

#[test]
fn activations_softmax_activation() {
    let input = Tensor::from_shape_vec(vec![3], fs(&[1.0, 2.0, 3.0])).unwrap();
    let output = softmax_activation(input);
    assert_close(&values(&output), &[0.09003057, 0.24472848, 0.66524094], 1e-6);
}

#[test]
fn activations_sigmoid_activation() {
    let input = Tensor::from_shape_vec(vec![3], fs(&[1.0, 0.0, -1.0])).unwrap();
    let output = sigmoid_activation(input);
    assert_close(&values(&output), &[0.73105858, 0.5, 0.26894142], 1e-6);
}

#[test]
fn activations_relu_activation() {
    let input = Tensor::from_shape_vec(vec![3], fs(&[-1.0, 0.0, 1.0])).unwrap();
    let output = relu_activation(input);
    assert_close(&values(&output), &[0.0, 0.0, 1.0], 1e-6);
}

#[test]
fn activation_layer_relu_activation() {
    let relu_activation = Activation::new(ActivationFunction::ReLu);
    let input = Tensor::from_shape_vec(vec![3], fs(&[-1.0, 0.0, 1.0])).unwrap();
    let output = relu_activation.compute(input).unwrap();
    assert_close(&values(&output), &[0.0, 0.0, 1.0], 1e-6);
}

#[test]
fn activation_layer_sigmoid_activation() {
    let sigmoid_activation = Activation::new(ActivationFunction::Sigmoid);
    let input = Tensor::from_shape_vec(vec![3], fs(&[0.0, 1.0, -1.0])).unwrap();
    let output = sigmoid_activation.compute(input).unwrap();
    assert_close(&values(&output), &[0.5, 0.7310586, 0.26894143], 1e-6);
}

#[test]
fn activation_layer_softmax_activation() {
    let softmax_activation = Activation::new(ActivationFunction::SoftMax);
    let input = Tensor::from_shape_vec(vec![3], fs(&[1.0, 2.0, 3.0])).unwrap();
    let output = softmax_activation.compute(input).unwrap();
    assert_close(&values(&output), &[0.09003057, 0.24472848, 0.66524094], 1e-6);
}

#[test]
fn linear_activation() {
    let linear_activation = Activation::new(ActivationFunction::Linear);
    let input = Tensor::from_shape_vec(vec![3], fs(&[1.0, 2.0, 3.0])).unwrap();
    let output = linear_activation.compute(input).unwrap();
    assert_close(&values(&output), &[1.0, 2.0, 3.0], 1e-6);
}

#[test]
fn test_relu_activation() {
    let relu_activation = Activation::new(ActivationFunction::ReLu);
    let input = Tensor::from_shape_vec(vec![3], fs(&[-1.0, 0.0, 1.0])).unwrap();
    let output = relu_activation.compute(input).unwrap();
    assert_close(&values(&output), &[0.0, 0.0, 1.0], 1e-6);
}

#[test]
fn test_sigmoid_activation() {
    let sigmoid_activation = Activation::new(ActivationFunction::Sigmoid);
    let input = Tensor::from_shape_vec(vec![3], fs(&[0.0, 1.0, -1.0])).unwrap();
    let output = sigmoid_activation.compute(input).unwrap();
    assert_close(&values(&output), &[0.5, 0.7310586, 0.26894143], 1e-6);
}

#[test]
fn test_softmax_activation() {
    let softmax_activation = Activation::new(ActivationFunction::SoftMax);
    let input = Tensor::from_shape_vec(vec![3], fs(&[1.0, 2.0, 3.0])).unwrap();
    let output = softmax_activation.compute(input).unwrap();
    assert_close(&values(&output), &[0.09003057, 0.24472848, 0.66524094], 1e-6);
}

#[test]
fn test_linear_activation() {
    let linear_activation = Activation::new(ActivationFunction::Linear);
    let input = Tensor::from_shape_vec(vec![3], fs(&[1.0, 2.0, 3.0])).unwrap();
    let output = linear_activation.compute(input).unwrap();
    assert_close(&values(&output), &[1.0, 2.0, 3.0], 1e-6);
}

#[test]
fn softmax_sums_to_one_and_stays_in_unit_interval() {
    let input = Tensor::from_shape_vec(vec![2, 3], fs(&[-3.0, 0.5, 2.0, 7.0, -1.25, 0.0])).unwrap();
    let output = softmax_activation(input);
    assert_eq!(output.dims(), &vec![2, 3]);
    let v = values(&output);
    let sum: f32 = v.iter().sum();
    assert!((sum - 1.0).abs() <= 1e-6);
    assert!(v.iter().all(|x| *x >= 0.0 && *x <= 1.0));
}

#[test]
fn sigmoid_is_one_half_at_zero_and_increasing() {
    let output = sigmoid_activation(vector(&[-2.0, -0.5, 0.0, 0.5, 2.0]));
    let v = values(&output);
    assert_eq!(v[2], 0.5);
    for k in 1..v.len() {
        assert!(v[k - 1] < v[k]);
    }
}

#[test]
fn relu_keeps_non_negatives_and_zeroes_negatives() {
    let output = relu_activation(vector(&[-3.5, -0.0, 0.0, 2.5, 100.0]));
    assert_eq!(values(&output), vec![0.0, 0.0, 0.0, 2.5, 100.0]);
}

#[test]
fn activation_tags_are_case_sensitive_aliases() {
    assert_eq!(ActivationFunction::from_tag("relu"), Some(ActivationFunction::ReLu));
    assert_eq!(ActivationFunction::from_tag("ReLu"), Some(ActivationFunction::ReLu));
    assert_eq!(ActivationFunction::from_tag("sigmoid"), Some(ActivationFunction::Sigmoid));
    assert_eq!(ActivationFunction::from_tag("softmax"), Some(ActivationFunction::SoftMax));
    assert_eq!(ActivationFunction::from_tag("linear"), Some(ActivationFunction::Linear));
    assert_eq!(ActivationFunction::from_tag("RELU"), None);
    assert_eq!(ActivationFunction::from_tag("tanh"), None);
    assert_eq!(ActivationFunction::from_tag(""), None);
}

#[test]
fn layer_type_tags() {
    assert_eq!(LayerType::from_tag("Dense"), Some(LayerType::Dense));
    assert_eq!(LayerType::from_tag("Flatten"), Some(LayerType::Flatten));
    assert_eq!(LayerType::from_tag("InputLayer"), Some(LayerType::InputLayer));
    assert_eq!(LayerType::from_tag("dense"), None);
    assert_eq!(LayerType::from_tag("Conv2D"), None);
}

#[test]
fn text_comparison() {
    assert!(same_text("abc", "abc"));
    assert!(!same_text("abc", "abd"));
    assert!(!same_text("abc", "ab"));
    assert!(same_text("", ""));
    assert!(same_text("héllo", "héllo"));
}

// Tensors.

#[test]
fn reshape_then_flatten_keeps_order() {
    let data = [1.0, 2.0, 3.0, 4.0, 5.0, 6.0];
    let t = Tensor::from_shape_vec(vec![2, 3], fs(&data)).unwrap();
    let r = t.reshape(vec![3, 1, 2]).unwrap();
    assert_eq!(r.dims(), &vec![3, 1, 2]);
    let flat = r.flatten();
    assert_eq!(flat.dims(), &vec![6]);
    assert_eq!(values(&flat), data.to_vec());
    let direct = Tensor::from_shape_vec(vec![2, 3], fs(&data)).unwrap().flatten();
    assert_eq!(values(&direct), values(&flat));
    assert_eq!(direct.dims(), flat.dims());
}

#[test]
fn reshape_to_other_count_fails() {
    let t = Tensor::from_shape_vec(vec![2, 3], fs(&[1.0; 6])).unwrap();
    assert_eq!(t.reshape(vec![4, 2]).err(), Some(ShapeError { expected: 6, actual: 8 }));
    let t = vector(&[1.0, 2.0]);
    assert_eq!(
        t.reshape(vec![usize::MAX, 2]).err(),
        Some(ShapeError { expected: 2, actual: usize::MAX })
    );
}

#[test]
fn tensor_from_mismatched_shape_fails() {
    let r = Tensor::from_shape_vec(vec![2, 2], fs(&[1.0, 2.0, 3.0]));
    assert_eq!(r.err(), Some(ShapeError { expected: 3, actual: 4 }));
}

#[test]
fn element_counts() {
    assert_eq!(element_count(&vec![]), Some(1));
    assert_eq!(element_count(&vec![2, 3, 4]), Some(24));
    assert_eq!(element_count(&vec![usize::MAX, 0, 7]), Some(0));
    assert_eq!(element_count(&vec![usize::MAX, 2]), None);
}

#[test]
fn map_applies_to_each_element() {
    let t = Tensor::from_shape_vec(vec![2, 2], fs(&[1.0, 2.0, 3.0, 4.0])).unwrap();
    let m = t.map(|x: F| F(x.0 * 10.0));
    assert_eq!(m.dims(), &vec![2, 2]);
    assert_eq!(values(&m), vec![10.0, 20.0, 30.0, 40.0]);
}

#[test]
fn flatten_layer_gives_rank_one() {
    let t = Tensor::from_shape_vec(vec![2, 1, 2], fs(&[4.0, 3.0, 2.0, 1.0])).unwrap();
    let out = Flatten.compute(t).unwrap();
    assert_eq!(out.dims(), &vec![4]);
    assert_eq!(values(&out), vec![4.0, 3.0, 2.0, 1.0]);
    assert!(Layer::<F>::weights(&Flatten).is_none());
}

#[test]
fn matrix_from_mismatched_data_fails() {
    let r = Matrix::from_shape_vec(2, 3, fs(&[1.0; 5]));
    assert_eq!(r.err().map(|e| (e.expected, e.actual)), Some((5, 6)));
    let m = matrix(2, 3, &[1.0, 2.0, 3.0, 4.0, 5.0, 6.0]);
    assert_eq!(m.get(1, 0), F(4.0));
    assert_eq!(m.get(0, 2), F(3.0));
}

// Dense layers.

#[test]
fn dense_test_dense_constructor() {
    let weights = matrix(3, 3, &[1.0; 9]);
    let bias = fs(&[0.0; 3]);
    let dense_without_activation = Dense::new(weights, bias.clone(), None);
    assert_eq!(dense_without_activation.get_weights().nrows(), 3);
    assert_eq!(dense_without_activation.get_weights().ncols(), 3);
    assert_eq!(dense_without_activation.get_weights().as_vec(), &fs(&[1.0; 9]));
    assert_eq!(dense_without_activation.get_biases(), &bias);
    assert_eq!(dense_without_activation.get_activation(), None);
}

#[test]
fn dense_test_dense_compute_without_activation() {
    let dense_layer = Dense::new(matrix(3, 3, &W1), fs(&[1.0, 2.0, 3.0]), None);
    let input = Tensor::from_shape_vec(vec![3], fs(&[1.0, 2.0, 3.0])).unwrap();
    let output = dense_layer.compute(input).unwrap();
    assert_close(&values(&output), &[31.0, 38.0, 45.0], 1e-6);
}

#[test]
fn dense_test_dense_compute_with_activation() {
    let activation = ActivationFunction::ReLu;
    let dense_layer = Dense::new(matrix(3, 3, &W2), fs(&[1.0, -2.0, 3.0]), Some(activation));
    let input = Tensor::from_shape_vec(vec![3], fs(&[-1.0, 2.0, -3.0])).unwrap();
    let output = dense_layer.compute(input).unwrap();
    assert_close(&values(&output), &[0.0, 34.0, 0.0], 1e-6);
}

#[test]
fn dense_identity_returns_input() {
    let identity = matrix(3, 3, &[1.0, 0.0, 0.0, 0.0, 1.0, 0.0, 0.0, 0.0, 1.0]);
    let dense = Dense::new(identity, fs(&[0.0; 3]), None);
    let out = dense.compute(vector(&[-1.5, 2.25, 8.0])).unwrap();
    assert_eq!(values(&out), vec![-1.5, 2.25, 8.0]);
}

#[test]
fn dense_flattens_its_input() {
    let dense = Dense::new(matrix(4, 1, &[1.0, 1.0, 1.0, 1.0]), fs(&[0.5]), None);
    let input = Tensor::from_shape_vec(vec![2, 2], fs(&[1.0, 2.0, 3.0, 4.0])).unwrap();
    let out = dense.compute(input).unwrap();
    assert_eq!(out.dims(), &vec![1]);
    assert_eq!(values(&out), vec![10.5]);
}

#[test]
fn dense_rejects_wrong_input_size() {
    let dense = Dense::new(matrix(3, 2, &[1.0; 6]), fs(&[0.0; 2]), None);
    let err = dense.compute(vector(&[1.0, 2.0])).err();
    assert_eq!(err, Some(ComputeError::ShapeMismatch { expected: 3, actual: 2 }));
}

#[test]
fn dense_from_parts_checks_bias_length() {
    let r = Dense::from_parts("d".to_string(), matrix(2, 3, &[1.0; 6]), fs(&[0.0; 2]), None);
    assert_eq!(
        r.err(),
        Some(BuildError::WeightLookup {
            name: "d".to_string(),
            cause: LookupError::BiasLength { expected: 3, actual: 2 },
        })
    );
    let ok = Dense::from_parts("d".to_string(), matrix(2, 3, &[1.0; 6]), fs(&[0.0; 3]), None);
    assert!(ok.is_ok());
}

#[test]
fn dense_trait_accessors() {
    let mut dense = Dense::new(matrix(1, 2, &[3.0, 4.0]), fs(&[5.0, 6.0]), None);
    assert_eq!(Layer::weights(&dense).map(|m| m.ncols()), Some(2));
    assert_eq!(Layer::biases(&dense).map(|b| b.len()), Some(2));
    if let Some(w) = Layer::weights_mut(&mut dense) {
        *w = matrix(1, 2, &[1.0, 1.0]);
    }
    let out = dense.compute(vector(&[2.0])).unwrap();
    assert_eq!(values(&out), vec![7.0, 8.0]);
    let act = Activation::new(ActivationFunction::Linear);
    assert!(Layer::<F>::biases(&act).is_none());
}

// Building and running models.

#[test]
fn end_to_end_without_activation() {
    let store = MemoryStore::new().with("dense", 3, 3, &W1, &[1.0, 2.0, 3.0]);
    let specs = vec![spec("InputLayer", Some("input"), None), spec("Dense", Some("dense"), None)];
    let model = SequentialModel::build(&specs, &store).unwrap();
    assert_eq!(model.len(), 1);
    let out = model.compute(vector(&[1.0, 2.0, 3.0])).unwrap();
    assert_close(&values(&out), &[31.0, 38.0, 45.0], 1e-6);
}

#[test]
fn end_to_end_with_relu() {
    let store = MemoryStore::new().with("dense", 3, 3, &W2, &[1.0, -2.0, 3.0]);
    let specs = vec![spec("Dense", Some("dense"), Some("relu"))];
    let model = SequentialModel::build(&specs, &store).unwrap();
    let out = model.compute(vector(&[-1.0, 2.0, -3.0])).unwrap();
    assert_close(&values(&out), &[0.0, 34.0, 0.0], 1e-6);
}

#[test]
fn building_twice_gives_identical_output() {
    let store = MemoryStore::new()
        .with("a", 4, 3, &[0.1, -0.2, 0.3, 0.4, 0.5, -0.6, 0.7, 0.8, 0.9, -1.0, 1.1, 1.2], &[0.01, 0.02, 0.03])
        .with("b", 3, 2, &[1.5, -2.5, 0.25, 0.75, -1.0, 2.0], &[0.5, -0.5]);
    let specs = vec![
        spec("InputLayer", Some("in"), None),
        spec("Flatten", Some("flat"), None),
        spec("Dense", Some("a"), Some("sigmoid")),
        spec("Dense", Some("b"), Some("softmax")),
    ];
    let m1 = SequentialModel::build(&specs, &store).unwrap();
    let m2 = SequentialModel::build(&specs, &store).unwrap();
    let input = || Tensor::from_shape_vec(vec![2, 2], fs(&[0.3, -1.2, 2.2, 0.05])).unwrap();
    let a = values(&m1.compute(input()).unwrap());
    let b = values(&m2.compute(input()).unwrap());
    let c = values(&m1.compute(input()).unwrap());
    assert_eq!(a.iter().map(|x| x.to_bits()).collect::<Vec<_>>(), b.iter().map(|x| x.to_bits()).collect::<Vec<_>>());
    assert_eq!(a.iter().map(|x| x.to_bits()).collect::<Vec<_>>(), c.iter().map(|x| x.to_bits()).collect::<Vec<_>>());
}

#[test]
fn build_rejects_unsupported_kind() {
    let store = MemoryStore::new().with("dense", 3, 3, &W1, &[1.0, 2.0, 3.0]);
    let specs = vec![spec("Dense", Some("dense"), None), spec("Conv2D", Some("conv"), None)];
    let r = SequentialModel::build(&specs, &store);
    assert_eq!(r.err(), Some(BuildError::UnsupportedLayerKind("Conv2D".to_string())));
}

#[test]
fn build_reports_missing_name() {
    let store = MemoryStore::new();
    let specs = vec![spec("Dense", None, Some("relu"))];
    let r = SequentialModel::build(&specs, &store);
    assert_eq!(r.err(), Some(BuildError::MissingProperty("name".to_string())));
}

#[test]
fn build_reports_unknown_activation() {
    let store = MemoryStore::new().with("dense", 3, 3, &W1, &[1.0, 2.0, 3.0]);
    let specs = vec![spec("Dense", Some("dense"), Some("tanh"))];
    let r = SequentialModel::build(&specs, &store);
    assert_eq!(r.err(), Some(BuildError::UnknownActivation("tanh".to_string())));
}

#[test]
fn build_reports_failed_lookup() {
    let store = MemoryStore::new();
    let specs = vec![spec("Flatten", None, None), spec("Dense", Some("missing"), None)];
    let r = SequentialModel::build(&specs, &store);
    assert_eq!(
        r.err(),
        Some(BuildError::WeightLookup {
            name: "missing".to_string(),
            cause: LookupError::Store("no layer missing".to_string()),
        })
    );
}

#[test]
fn build_reports_the_first_error_in_description_order() {
    let store = MemoryStore::new();
    let specs = vec![spec("Dense", Some("missing"), None), spec("Pool", None, None)];
    let r = SequentialModel::build(&specs, &store);
    assert_eq!(
        r.err(),
        Some(BuildError::WeightLookup {
            name: "missing".to_string(),
            cause: LookupError::Store("no layer missing".to_string()),
        })
    );
    let store = MemoryStore::new().with("dense", 3, 3, &W1, &[1.0, 2.0, 3.0]);
    let specs = vec![spec("Dense", Some("dense"), None), spec("Pool", None, None)];
    let r = SequentialModel::build(&specs, &store);
    assert_eq!(r.err(), Some(BuildError::UnsupportedLayerKind("Pool".to_string())));
}

#[test]
fn plan_checks_the_whole_description_without_a_store() {
    let specs = vec![spec("Dense", Some("a"), None), spec("Dense", None, None)];
    assert_eq!(plan(&specs).err(), Some(BuildError::MissingProperty("name".to_string())));
}

#[test]
fn dense_from_lookups_passes_store_errors_on() {
    let r = Dense::<F>::from_lookups("w".to_string(), Err(LookupError::Store("disk".to_string())), None, None);
    assert_eq!(
        r.err(),
        Some(BuildError::WeightLookup { name: "w".to_string(), cause: LookupError::Store("disk".to_string()) })
    );
    let r = Dense::<F>::from_lookups(
        "b".to_string(),
        Ok(matrix(1, 1, &[2.0])),
        Some(Err(LookupError::Store("bias".to_string()))),
        None,
    );
    assert_eq!(
        r.err(),
        Some(BuildError::WeightLookup { name: "b".to_string(), cause: LookupError::Store("bias".to_string()) })
    );
    let d = Dense::<F>::from_lookups("ok".to_string(), Ok(matrix(1, 1, &[2.0])), Some(Ok(fs(&[1.0]))), None).unwrap();
    assert_eq!(values(&d.compute(vector(&[3.0])).unwrap()), vec![7.0]);
}

#[test]
fn dense_from_store_reads_both_parameters() {
    let store = MemoryStore::new().with("d", 2, 1, &[1.0, 2.0], &[0.5]);
    let d = dense_from_store(&store, &"d".to_string(), Some(ActivationFunction::ReLu)).unwrap();
    assert_eq!(values(&d.compute(vector(&[-3.0, 1.0])).unwrap()), vec![0.0]);
    assert!(dense_from_store::<F, _>(&store, &"x".to_string(), None).is_err());
}

#[test]
fn linear_and_no_activation_agree() {
    let a = Dense::new(matrix(2, 2, &[1.0, -2.0, 3.0, 0.5]), fs(&[0.25, -1.0]), None);
    let b = Dense::new(matrix(2, 2, &[1.0, -2.0, 3.0, 0.5]), fs(&[0.25, -1.0]), Some(ActivationFunction::Linear));
    let x = [1.5, -2.0];
    assert_eq!(values(&a.compute(vector(&x)).unwrap()), values(&b.compute(vector(&x)).unwrap()));
}

#[test]
fn relu_twice_is_relu_once() {
    let once = relu_activation(vector(&[-1.0, 0.5, 0.0, 3.0]));
    let v1 = values(&once);
    let twice = relu_activation(once);
    assert_eq!(values(&twice), v1);
}

#[test]
fn plan_skips_input_layers_and_keeps_absent_activation() {
    let specs = vec![
        spec("InputLayer", None, None),
        spec("Flatten", None, None),
        spec("Dense", Some("d1"), None),
        spec("Dense", Some("d2"), Some("linear")),
    ];
    let p = plan(&specs).unwrap();
    assert_eq!(
        p,
        vec![
            PlannedLayer::Flatten,
            PlannedLayer::Dense { name: "d1".to_string(), activation: None },
            PlannedLayer::Dense { name: "d2".to_string(), activation: Some(ActivationFunction::Linear) },
        ]
    );
}

#[test]
fn model_compute_reports_shape_mismatch_and_stays_usable() {
    let store = MemoryStore::new().with("dense", 3, 3, &W1, &[1.0, 2.0, 3.0]);
    let specs = vec![spec("Flatten", None, None), spec("Dense", Some("dense"), None)];
    let model = SequentialModel::build(&specs, &store).unwrap();
    let bad = Tensor::from_shape_vec(vec![2, 2], fs(&[1.0; 4])).unwrap();
    assert_eq!(model.compute(bad).err(), Some(ComputeError::ShapeMismatch { expected: 3, actual: 4 }));
    let out = model.compute(vector(&[1.0, 2.0, 3.0])).unwrap();
    assert_close(&values(&out), &[31.0, 38.0, 45.0], 1e-6);
}

#[test]
fn empty_model_returns_input() {
    let store = MemoryStore::new();
    let specs = vec![spec("InputLayer", None, None), spec("InputLayer", Some("again"), None)];
    let model = SequentialModel::build(&specs, &store).unwrap();
    assert_eq!(model.len(), 0);
    let t = Tensor::from_shape_vec(vec![1, 2], fs(&[5.0, 6.0])).unwrap();
    let out = model.compute(t).unwrap();
    assert_eq!(out.dims(), &vec![1, 2]);
    assert_eq!(values(&out), vec![5.0, 6.0]);
}
