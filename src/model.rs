use vstd::prelude::*;
use vstd::string::*;
use crate::activation::{activation_of_tag, ActivationFunction};
use crate::error::{BuildError, ComputeError, LookupError};
use crate::layer::{dense_outcome, Dense, Flatten, Matrix};
use crate::scalar::Scalar;
use crate::tensor::{flattened, Tensor};
use crate::text::same_text;

verus! {

/// The kinds of layer that a network description may hold.
#[derive(Debug, Clone, Copy, PartialEq, Eq, Structural)]
pub enum LayerType {
    Dense,
    Flatten,
    InputLayer,
}

/// The layer kind that a class name names, matched case-sensitively.
pub open spec fn layer_type_of_tag(tag: Seq<char>) -> Option<LayerType> {
    if tag == "Dense"@ {
        Some(LayerType::Dense)
    } else if tag == "Flatten"@ {
        Some(LayerType::Flatten)
    } else if tag == "InputLayer"@ {
        Some(LayerType::InputLayer)
    } else {
        None
    }
}

impl LayerType {
    /// The layer kind that `tag` names, if any.
    pub fn from_tag(tag: &str) -> (r: Option<LayerType>)
        ensures
            r == layer_type_of_tag(tag@),
    {
        if same_text(tag, "Dense") {
            Some(LayerType::Dense)
        } else if same_text(tag, "Flatten") {
            Some(LayerType::Flatten)
        } else if same_text(tag, "InputLayer") {
            Some(LayerType::InputLayer)
        } else {
            None
        }
    }
}

/// The part of one layer's description that the builder reads: its class
/// name, its `name` property and its `activation` property (each property
/// `None` where absent).
pub struct LayerSpec {
    pub kind: String,
    pub name: Option<String>,
    pub activation: Option<String>,
}

impl LayerSpec {
    pub fn new(kind: String, name: Option<String>, activation: Option<String>) -> (r: LayerSpec)
        ensures
            r == (LayerSpec { kind, name, activation }),
    {
        LayerSpec { kind, name, activation }
    }
}

/// Whether the builder can turn the description `s` into a layer, or skip
/// it, without looking at any weights.
pub open spec fn buildable(s: LayerSpec) -> bool {
    match layer_type_of_tag(s.kind@) {
        None => false,
        Some(LayerType::Dense) => {
            &&& s.name is Some
            &&& (s.activation matches Some(a) ==> activation_of_tag(a@) is Some)
        },
        Some(_) => true,
    }
}

/// `e` is the error that reports what keeps `s` from being built: an
/// unsupported kind, else a missing name, else an unknown activation tag.
pub open spec fn describes_problem(e: BuildError, s: LayerSpec) -> bool {
    match layer_type_of_tag(s.kind@) {
        None => e == BuildError::UnsupportedLayerKind(s.kind),
        Some(LayerType::Dense) => match s.name {
            None => e matches BuildError::MissingProperty(p) && p@ == "name"@,
            Some(_) => match s.activation {
                Some(a) => activation_of_tag(a@) is None && e == BuildError::UnknownActivation(a),
                None => false,
            },
        },
        Some(_) => false,
    }
}

/// Every description in `specs` can be built.
pub open spec fn all_buildable(specs: Seq<LayerSpec>) -> bool {
    forall|i: int| 0 <= i < specs.len() ==> #[trigger] buildable(specs[i])
}

/// `e` reports the problem of the first description in `specs` that cannot
/// be built.
pub open spec fn reports_first_problem(specs: Seq<LayerSpec>, e: BuildError) -> bool {
    exists|k: int|
        0 <= k < specs.len() && all_buildable(specs.take(k)) && !buildable(specs[k])
            && #[trigger] describes_problem(e, specs[k])
}

/// A description whose kind is not one the builder knows keeps the whole
/// description from being planned; where every description before it can
/// be built, the error of `plan` is `UnsupportedLayerKind` with the kind as
/// written.
pub proof fn lemma_unsupported_kind_fails(specs: Seq<LayerSpec>, k: int, e: BuildError)
    requires
        0 <= k < specs.len(),
        layer_type_of_tag(specs[k].kind@) is None,
    ensures
        !all_buildable(specs),
        reports_first_problem(specs, e) && all_buildable(specs.take(k))
            ==> e == BuildError::UnsupportedLayerKind(specs[k].kind),
{
    assert(!buildable(specs[k]));
    if reports_first_problem(specs, e) && all_buildable(specs.take(k)) {
        let j = choose|j: int|
            0 <= j < specs.len() && all_buildable(specs.take(j)) && !buildable(specs[j])
                && #[trigger] describes_problem(e, specs[j]);
        if j < k {
            assert(specs.take(k)[j] == specs[j]);
        } else if j > k {
            assert(specs.take(j)[k] == specs[k]);
        }
    }
}

/// A layer as the builder means to make it, before its weights are fetched.
#[derive(Debug, PartialEq, Eq)]
pub enum PlannedLayer {
    Flatten,
    Dense { name: String, activation: Option<ActivationFunction> },
}

/// The layer that a buildable description asks for; `None` for an input
/// layer, which computes nothing. An absent activation stays absent.
pub open spec fn planned_of(s: LayerSpec) -> Option<PlannedLayer> {
    match layer_type_of_tag(s.kind@) {
        Some(LayerType::Dense) => Some(
            PlannedLayer::Dense {
                name: s.name.unwrap(),
                activation: match s.activation {
                    Some(a) => activation_of_tag(a@),
                    None => None,
                },
            },
        ),
        Some(LayerType::Flatten) => Some(PlannedLayer::Flatten),
        _ => None,
    }
}

/// The layers that `specs` asks for, in order, input layers left out.
pub open spec fn plan_of(specs: Seq<LayerSpec>) -> Seq<PlannedLayer>
    decreases specs.len(),
{
    if specs.len() == 0 {
        Seq::empty()
    } else {
        let before = plan_of(specs.drop_last());
        match planned_of(specs.last()) {
            Some(p) => before.push(p),
            None => before,
        }
    }
}

/// What one description asks for: `None` for an input layer, else the
/// planned layer; fails with what keeps the description from being built.
pub fn plan_layer(s: &LayerSpec) -> (r: Result<Option<PlannedLayer>, BuildError>)
    ensures
        buildable(*s) <==> r is Ok,
        r matches Ok(p) ==> p == planned_of(*s),
        r matches Err(e) ==> describes_problem(e, *s),
{
    match LayerType::from_tag(s.kind.as_str()) {
        None => Err(BuildError::UnsupportedLayerKind(s.kind.clone())),
        Some(LayerType::InputLayer) => Ok(None),
        Some(LayerType::Flatten) => Ok(Some(PlannedLayer::Flatten)),
        Some(LayerType::Dense) => {
            let name = match &s.name {
                Some(n) => n.clone(),
                None => return Err(BuildError::MissingProperty(String::from_str("name"))),
            };
            let activation = match &s.activation {
                None => None,
                Some(a) => match ActivationFunction::from_tag(a.as_str()) {
                    Some(f) => Some(f),
                    None => return Err(BuildError::UnknownActivation(a.clone())),
                },
            };
            Ok(Some(PlannedLayer::Dense { name, activation }))
        },
    }
}

proof fn lemma_take_one_more(specs: Seq<LayerSpec>, i: int)
    requires
        0 <= i < specs.len(),
        all_buildable(specs.take(i)),
        buildable(specs[i]),
    ensures
        all_buildable(specs.take(i + 1)),
        plan_of(specs.take(i + 1)) == match planned_of(specs[i]) {
            Some(p) => plan_of(specs.take(i)).push(p),
            None => plan_of(specs.take(i)),
        },
{
    assert(specs.take(i + 1).drop_last() =~= specs.take(i));
    assert forall|k: int| 0 <= k < i + 1 implies #[trigger] buildable(specs.take(i + 1)[k]) by {
        if k < i {
            assert(specs.take(i + 1)[k] == specs.take(i)[k]);
        }
    }
}

/// Plans the layers of a network description, in order, without looking
/// at any weights; fails with the problem of the first description that
/// cannot be built.
pub fn plan(specs: &Vec<LayerSpec>) -> (r: Result<Vec<PlannedLayer>, BuildError>)
    ensures
        all_buildable(specs@) <==> r is Ok,
        r matches Ok(p) ==> p@ == plan_of(specs@),
        r matches Err(e) ==> reports_first_problem(specs@, e),
{
    let mut out: Vec<PlannedLayer> = Vec::new();
    let mut i: usize = 0;
    while i < specs.len()
        invariant
            i <= specs.len(),
            all_buildable(specs@.take(i as int)),
            out@ == plan_of(specs@.take(i as int)),
        decreases specs.len() - i,
    {
        match plan_layer(&specs[i]) {
            Err(e) => {
                assert(describes_problem(e, specs@[i as int]));
                return Err(e);
            },
            Ok(p) => {
                proof {
                    lemma_take_one_more(specs@, i as int);
                }
                match p {
                    Some(l) => out.push(l),
                    None => {},
                }
            },
        }
        i = i + 1;
    }
    assert(specs@.take(specs.len() as int) =~= specs@);
    Ok(out)
}

/// Where the builder gets the parameters of dense layers from. The store
/// alone decides how a layer's name maps to its stored arrays. It is
/// read-only: it answers a name the same way each time it is asked, and
/// `matrix_for` and `vector_for` are those answers.
pub trait WeightStore<T> {
    /// What `get_matrix` answers for the layer `name`.
    spec fn matrix_for(&self, name: String) -> Result<Matrix<T>, LookupError>;

    /// What `get_vector` answers for the layer `name`.
    spec fn vector_for(&self, name: String) -> Result<Vec<T>, LookupError>;

    /// The weight matrix, of shape `[inputs, outputs]`, of the layer `name`.
    fn get_matrix(&self, name: &String) -> (r: Result<Matrix<T>, LookupError>)
        ensures
            r == self.matrix_for(*name),
    ;

    /// The bias vector, of length `outputs`, of the layer `name`.
    fn get_vector(&self, name: &String) -> (r: Result<Vec<T>, LookupError>)
        ensures
            r == self.vector_for(*name),
    ;
}

/// A built layer as the computation sees it: a flatten layer, or a dense
/// layer with its weight matrix, its bias and its activation function.
pub enum LayerView<T> {
    Flatten,
    Dense { weights: Matrix<T>, bias: Seq<T>, activation: Option<ActivationFunction> },
}

/// One layer of a sequential model.
pub enum ModelLayer<T> {
    Dense(Dense<T>),
    Flatten(Flatten),
}

impl<T> ModelLayer<T> {
    /// The layer as the computation sees it.
    pub open spec fn view_of(&self) -> LayerView<T> {
        match self {
            ModelLayer::Dense(d) => LayerView::Dense {
                weights: d.weight_matrix(),
                bias: d.bias_vector(),
                activation: d.activation_function(),
            },
            ModelLayer::Flatten(_) => LayerView::Flatten,
        }
    }

    /// The layer's own data is consistent.
    pub open spec fn wf(&self) -> bool {
        match self {
            ModelLayer::Dense(d) => d.wf(),
            ModelLayer::Flatten(_) => true,
        }
    }
}

/// What the layer `l` makes of an input tensor `v`.
pub open spec fn layer_outcome<T: Scalar>(l: LayerView<T>, v: (Seq<usize>, Seq<T>)) -> Result<(Seq<usize>, Seq<T>), ComputeError> {
    match l {
        LayerView::Flatten => Ok(flattened(v)),
        LayerView::Dense { weights, bias, activation } => dense_outcome(weights, bias, activation, v),
    }
}

/// What `layers`, run in order on `v`, make of it: each layer takes what
/// the one before it gave, and the first error stops the pass.
pub open spec fn run_layers<T: Scalar>(layers: Seq<LayerView<T>>, v: (Seq<usize>, Seq<T>)) -> Result<(Seq<usize>, Seq<T>), ComputeError>
    decreases layers.len(),
{
    if layers.len() == 0 {
        Ok(v)
    } else {
        match layer_outcome(layers[0], v) {
            Ok(next) => run_layers(layers.skip(1), next),
            Err(e) => Err(e),
        }
    }
}

/// What the builder makes of the store's answers for the dense layer
/// `name`: its weights and bias, or the error that names the layer. The
/// weights are asked for first; a failed answer is the cause, as the store
/// gave it; the bias is asked for only where the weights were had, and
/// must have one entry per column.
pub open spec fn dense_params<T, S: WeightStore<T>>(store: S, name: String) -> Result<(Matrix<T>, Seq<T>), BuildError> {
    match store.matrix_for(name) {
        Err(c) => Err(BuildError::WeightLookup { name, cause: c }),
        Ok(w) => match store.vector_for(name) {
            Err(c) => Err(BuildError::WeightLookup { name, cause: c }),
            Ok(b) => if b@.len() == w.num_cols() {
                Ok((w, b@))
            } else {
                Err(BuildError::WeightLookup {
                    name,
                    cause: LookupError::BiasLength { expected: w.num_cols(), actual: b@.len() as usize },
                })
            },
        },
    }
}

/// The description `s` can be built with the answers of `store`.
pub open spec fn builds<T, S: WeightStore<T>>(s: LayerSpec, store: S) -> bool {
    &&& buildable(s)
    &&& match planned_of(s) {
        Some(PlannedLayer::Dense { name, .. }) => dense_params(store, name) is Ok,
        _ => true,
    }
}

/// Every description in `specs` can be built with the answers of `store`.
pub open spec fn all_build<T, S: WeightStore<T>>(specs: Seq<LayerSpec>, store: S) -> bool {
    forall|i: int| 0 <= i < specs.len() ==> #[trigger] builds(specs[i], store)
}

/// `e` is the error that the builder meets at the description `s`: what
/// keeps it from being built, else the failed lookup of its weights.
pub open spec fn fails_with<T, S: WeightStore<T>>(e: BuildError, s: LayerSpec, store: S) -> bool {
    if !buildable(s) {
        describes_problem(e, s)
    } else {
        match planned_of(s) {
            Some(PlannedLayer::Dense { name, .. }) => dense_params(store, name) == Err::<(Matrix<T>, Seq<T>), BuildError>(e),
            _ => false,
        }
    }
}

/// `e` is the error of the first description in `specs` that cannot be
/// built with the answers of `store`.
pub open spec fn first_failure<T, S: WeightStore<T>>(specs: Seq<LayerSpec>, store: S, e: BuildError) -> bool {
    exists|k: int|
        0 <= k < specs.len() && all_build(specs.take(k), store) && !builds(specs[k], store)
            && #[trigger] fails_with(e, specs[k], store)
}

/// The layer that a description that builds gives, if any: none for an
/// input layer; a flatten layer; or a dense layer with the store's weights
/// and bias for its name and the activation function it names.
pub open spec fn built_layer<T, S: WeightStore<T>>(s: LayerSpec, store: S) -> Option<LayerView<T>> {
    match planned_of(s) {
        Some(PlannedLayer::Flatten) => Some(LayerView::Flatten),
        Some(PlannedLayer::Dense { name, activation }) => {
            let p = dense_params(store, name).unwrap();
            Some(LayerView::Dense { weights: p.0, bias: p.1, activation })
        },
        None => None,
    }
}

/// The layers that descriptions that all build give, in order.
pub open spec fn built_of<T, S: WeightStore<T>>(specs: Seq<LayerSpec>, store: S) -> Seq<LayerView<T>>
    decreases specs.len(),
{
    if specs.len() == 0 {
        Seq::empty()
    } else {
        let before = built_of(specs.drop_last(), store);
        match built_layer(specs.last(), store) {
            Some(l) => before.push(l),
            None => before,
        }
    }
}

/// A description whose kind is not one the builder knows keeps the model
/// from being built; where every description before it builds, the error is
/// `UnsupportedLayerKind` with the kind as written.
pub proof fn lemma_unsupported_kind_stops_build<T, S: WeightStore<T>>(
    specs: Seq<LayerSpec>,
    store: S,
    k: int,
    e: BuildError,
)
    requires
        0 <= k < specs.len(),
        layer_type_of_tag(specs[k].kind@) is None,
    ensures
        !all_build(specs, store),
        first_failure(specs, store, e) && all_build(specs.take(k), store)
            ==> e == BuildError::UnsupportedLayerKind(specs[k].kind),
{
    assert(!builds(specs[k], store));
    if first_failure(specs, store, e) && all_build(specs.take(k), store) {
        let j = choose|j: int|
            0 <= j < specs.len() && all_build(specs.take(j), store) && !builds(specs[j], store)
                && #[trigger] fails_with(e, specs[j], store);
        if j < k {
            assert(specs.take(k)[j] == specs[j]);
        } else if j > k {
            assert(specs.take(j)[k] == specs[k]);
        }
    }
}

/// A description made of input layers only builds a model with no layers,
/// which returns its input as it is.
pub proof fn lemma_input_layers_only_return_input<T: Scalar, S: WeightStore<T>>(
    specs: Seq<LayerSpec>,
    store: S,
    v: (Seq<usize>, Seq<T>),
)
    requires
        forall|i: int| 0 <= i < specs.len() ==> layer_type_of_tag(#[trigger] specs[i].kind@) == Some(LayerType::InputLayer),
    ensures
        all_build(specs, store),
        built_of(specs, store).len() == 0,
        run_layers(built_of(specs, store), v) == Ok::<(Seq<usize>, Seq<T>), ComputeError>(v),
    decreases specs.len(),
{
    assert forall|i: int| 0 <= i < specs.len() implies #[trigger] builds(specs[i], store) by {
        assert(layer_type_of_tag(specs[i].kind@) == Some(LayerType::InputLayer));
    }
    if specs.len() > 0 {
        lemma_input_layers_only_return_input(specs.drop_last(), store, v);
        assert(layer_type_of_tag(specs.last().kind@) == Some(LayerType::InputLayer));
    }
}

/// Two models built from the same description with the same store compute
/// alike on every input.
pub proof fn lemma_builds_compute_alike<T: Scalar, S: WeightStore<T>>(
    a: SequentialModel<T>,
    b: SequentialModel<T>,
    specs: Seq<LayerSpec>,
    store: S,
    v: (Seq<usize>, Seq<T>),
)
    requires
        a@ == built_of(specs, store),
        b@ == built_of(specs, store),
    ensures
        run_layers(a@, v) == run_layers(b@, v),
{
}

impl<T> Dense<T> {
    /// A dense layer from what a weight store answered for the layer
    /// `name`. A failed lookup of the weights is reported with the store's
    /// error as its cause, whatever the bias; `bias` is `None` only where
    /// the weights could not be had, so that it was never asked for. Then a
    /// failed lookup of the bias is reported in the same way, and then a
    /// bias of the wrong length.
    pub fn from_lookups(
        name: String,
        weights: Result<Matrix<T>, LookupError>,
        bias: Option<Result<Vec<T>, LookupError>>,
        activation: Option<ActivationFunction>,
    ) -> (r: Result<Dense<T>, BuildError>)
        requires
            weights is Ok ==> bias is Some,
        ensures
            weights matches Err(c) ==> r == Err::<Dense<T>, BuildError>(BuildError::WeightLookup { name, cause: c }),
            bias matches Some(Err(c)) ==> (weights is Ok ==> r == Err::<Dense<T>, BuildError>(
                BuildError::WeightLookup { name, cause: c },
            )),
            weights matches Ok(w) ==> (bias matches Some(Ok(b)) ==> {
                &&& b@.len() == w.num_cols() <==> r is Ok
                &&& r matches Ok(d) ==> d.wf() && d.weight_matrix() == w && d.bias_vector() == b@
                    && d.activation_function() == activation
                &&& r matches Err(e) ==> e == (BuildError::WeightLookup {
                    name,
                    cause: LookupError::BiasLength { expected: w.num_cols(), actual: b@.len() as usize },
                })
            }),
    {
        match weights {
            Err(cause) => Err(BuildError::WeightLookup { name, cause }),
            Ok(w) => match bias {
                Some(Err(cause)) => Err(BuildError::WeightLookup { name, cause }),
                Some(Ok(b)) => Dense::from_parts(name, w, b, activation),
                // not reached: the bias is given wherever the weights are
                None => Err(BuildError::MissingProperty(name)),
            },
        }
    }
}

/// The dense layer `name`, with its parameters taken from `store`: the
/// weight matrix first, then, only where that succeeded, the bias (see
/// `Dense::from_lookups` for what is made of the answers).
pub fn dense_from_store<T, S: WeightStore<T>>(store: &S, name: &String, activation: Option<ActivationFunction>) -> (r: Result<Dense<T>, BuildError>)
    ensures
        r matches Ok(d) ==> d.wf() && d.activation_function() == activation
            && dense_params(*store, *name) == Ok::<(Matrix<T>, Seq<T>), BuildError>((d.weight_matrix(), d.bias_vector())),
        r matches Err(e) ==> dense_params(*store, *name) == Err::<(Matrix<T>, Seq<T>), BuildError>(e),
{
    let weights = store.get_matrix(name);
    let bias = match &weights {
        Ok(_) => Some(store.get_vector(name)),
        Err(_) => None,
    };
    Dense::from_lookups(name.clone(), weights, bias, activation)
}

/// An ordered pipeline of layers, built once and run on many inputs.
pub struct SequentialModel<T> {
    layers: Vec<ModelLayer<T>>,
}

/// A model seen as its layers, in the order they run.
impl<T> View for SequentialModel<T> {
    type V = Seq<LayerView<T>>;

    closed spec fn view(&self) -> Seq<LayerView<T>> {
        self.layers@.map_values(|l: ModelLayer<T>| l.view_of())
    }
}

proof fn lemma_build_step<T, S: WeightStore<T>>(specs: Seq<LayerSpec>, store: S, i: int)
    requires
        0 <= i < specs.len(),
        all_build(specs.take(i), store),
        builds(specs[i], store),
    ensures
        all_build(specs.take(i + 1), store),
        built_of(specs.take(i + 1), store) == match built_layer(specs[i], store) {
            Some(l) => built_of(specs.take(i), store).push(l),
            None => built_of(specs.take(i), store),
        },
{
    assert(specs.take(i + 1).drop_last() =~= specs.take(i));
    assert forall|k: int| 0 <= k < i + 1 implies #[trigger] builds(specs.take(i + 1)[k], store) by {
        if k < i {
            assert(specs.take(i + 1)[k] == specs.take(i)[k]);
        }
    }
}

impl<T> SequentialModel<T> {
    /// Every layer's own data is consistent.
    pub closed spec fn wf(&self) -> bool {
        forall|i: int| 0 <= i < self.layers@.len() ==> (#[trigger] self.layers@[i]).wf()
    }

    /// A model over the given layers, in the given order.
    pub fn from_layers(layers: Vec<ModelLayer<T>>) -> (r: SequentialModel<T>)
        requires
            forall|i: int| 0 <= i < layers@.len() ==> (#[trigger] layers@[i]).wf(),
        ensures
            r.wf(),
            r@ == layers@.map_values(|l: ModelLayer<T>| l.view_of()),
    {
        SequentialModel { layers }
    }

    /// The number of layers.
    pub fn len(&self) -> (r: usize)
        ensures
            r == self@.len(),
    {
        self.layers.len()
    }

    /// Builds the model that `specs` describes, working through the
    /// descriptions in order: input layers are skipped, and each dense
    /// layer's weights and bias are taken from `store` under its name when
    /// its description is reached. The first error met is returned, and no
    /// model.
    pub fn build<S: WeightStore<T>>(specs: &Vec<LayerSpec>, store: &S) -> (r: Result<SequentialModel<T>, BuildError>)
        ensures
            all_build(specs@, *store) <==> r is Ok,
            r matches Ok(m) ==> m.wf() && m@ == built_of(specs@, *store),
            r matches Err(e) ==> first_failure(specs@, *store, e),
    {
        let mut layers: Vec<ModelLayer<T>> = Vec::new();
        let mut i: usize = 0;
        while i < specs.len()
            invariant
                i <= specs.len(),
                all_build(specs@.take(i as int), *store),
                forall|k: int| 0 <= k < layers@.len() ==> (#[trigger] layers@[k]).wf(),
                layers@.map_values(|l: ModelLayer<T>| l.view_of()) == built_of(specs@.take(i as int), *store),
            decreases specs.len() - i,
        {
            let ghost before = layers@;
            let planned = match plan_layer(&specs[i]) {
                Err(e) => {
                    assert(fails_with(e, specs@[i as int], *store));
                    assert(!builds(specs@[i as int], *store));
                    assert(!all_build(specs@, *store));
                    return Err(e);
                },
                Ok(p) => p,
            };
            match planned {
                None => {},
                Some(PlannedLayer::Flatten) => {
                    layers.push(ModelLayer::Flatten(Flatten));
                },
                Some(PlannedLayer::Dense { name, activation }) => match dense_from_store(store, &name, activation) {
                    Ok(d) => layers.push(ModelLayer::Dense(d)),
                    Err(e) => {
                        assert(fails_with(e, specs@[i as int], *store));
                        assert(!builds(specs@[i as int], *store));
                        assert(!all_build(specs@, *store));
                        return Err(e);
                    },
                },
            }
            proof {
                lemma_build_step(specs@, *store, i as int);
                assert(layers@.map_values(|l: ModelLayer<T>| l.view_of()) =~= built_of(
                    specs@.take(i + 1),
                    *store,
                ));
            }
            i = i + 1;
        }
        assert(specs@.take(specs.len() as int) =~= specs@);
        Ok(SequentialModel { layers })
    }
}

impl<T: Scalar> SequentialModel<T> {
    /// Runs `input` through every layer in order, each layer taking what
    /// the one before it gave; the first layer that fails stops the pass
    /// and its error is returned as it is. The result depends on the
    /// layers and the input alone.
    pub fn compute(&self, input: Tensor<T>) -> (r: Result<Tensor<T>, ComputeError>)
        requires
            self.wf(),
            input.wf(),
        ensures
            r matches Ok(t) ==> t.wf() && run_layers(self@, input@) == Ok::<(Seq<usize>, Seq<T>), ComputeError>(t@),
            r matches Err(e) ==> run_layers(self@, input@) == Err::<(Seq<usize>, Seq<T>), ComputeError>(e),
    {
        let ghost start = input@;
        let ghost views = self@;
        assert(views.skip(0) =~= views);
        let mut current = input;
        let mut i: usize = 0;
        while i < self.layers.len()
            invariant
                i <= self.layers@.len(),
                self.wf(),
                current.wf(),
                start == input@,
                views == self@,
                views.len() == self.layers@.len(),
                run_layers(views, start) == run_layers(views.skip(i as int), current@),
            decreases self.layers@.len() - i,
        {
            let ghost rest = views.skip(i as int);
            assert(rest[0] == self.layers@[i as int].view_of());
            assert(rest.skip(1) =~= views.skip(i + 1));
            assert(self.layers@[i as int].wf());
            let next = match &self.layers[i] {
                ModelLayer::Dense(d) => d.compute(current),
                ModelLayer::Flatten(f) => f.compute(current),
            };
            match next {
                Ok(t) => {
                    current = t;
                },
                Err(e) => {
                    return Err(e);
                },
            }
            i = i + 1;
        }
        assert(views.skip(i as int).len() == 0);
        Ok(current)
    }
}

} // verus!
