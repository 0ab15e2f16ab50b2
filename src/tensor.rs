use vstd::prelude::*;

verus! {

/// How many elements a tensor of shape `s` holds: the product of its
/// dimensions (a shape with no dimensions describes a single element).
pub open spec fn count_of(s: Seq<usize>) -> nat
    decreases s.len(),
{
    if s.len() == 0 {
        1
    } else {
        count_of(s.drop_last()) * (s.last() as nat)
    }
}

/// `n` where it fits in a `usize`, else `usize::MAX`.
pub open spec fn saturated(n: nat) -> usize {
    if n <= usize::MAX {
        n as usize
    } else {
        usize::MAX
    }
}

/// A shape that does not describe the number of elements at hand.
///
/// `expected` is the number of elements present, `actual` the number that
/// the requested shape describes (`usize::MAX` where that product does not
/// fit in a `usize`).
#[derive(Debug, Clone, Copy, PartialEq, Eq, Structural)]
pub struct ShapeError {
    pub expected: usize,
    pub actual: usize,
}

/// A dense array of any rank, stored in row-major order (the last dimension
/// varies fastest).
pub struct Tensor<T> {
    shape: Vec<usize>,
    data: Vec<T>,
}

proof fn lemma_count_zero(s: Seq<usize>, i: int)
    requires
        0 <= i < s.len(),
        s[i] == 0,
    ensures
        count_of(s) == 0,
    decreases s.len(),
{
    let a = count_of(s.drop_last());
    let b = s.last() as nat;
    if i < s.len() - 1 {
        lemma_count_zero(s.drop_last(), i);
        assert(a * b == 0) by (nonlinear_arith)
            requires
                a == 0,
        ;
    } else {
        assert(a * b == 0) by (nonlinear_arith)
            requires
                b == 0,
        ;
    }
}

proof fn lemma_count_grows(s: Seq<usize>, k: int)
    requires
        0 <= k <= s.len(),
        forall|j: int| 0 <= j < s.len() ==> s[j] >= 1,
    ensures
        count_of(s.take(k)) <= count_of(s),
    decreases s.len(),
{
    if k < s.len() {
        assert(s.drop_last().take(k) =~= s.take(k));
        lemma_count_grows(s.drop_last(), k);
        let a = count_of(s.drop_last());
        let b = s.last() as nat;
        assert(a <= a * b) by (nonlinear_arith)
            requires
                b >= 1,
        ;
    } else {
        assert(s.take(k) =~= s);
    }
}

/// The number of elements that `shape` describes, or `None` where it does
/// not fit in a `usize`.
pub fn element_count(shape: &Vec<usize>) -> (r: Option<usize>)
    ensures
        match r {
            Some(n) => n as nat == count_of(shape@),
            None => count_of(shape@) > usize::MAX,
        },
{
    let mut i: usize = 0;
    while i < shape.len()
        invariant
            i <= shape.len(),
            forall|j: int| 0 <= j < i ==> shape@[j] >= 1,
        decreases shape.len() - i,
    {
        if shape[i] == 0 {
            proof {
                lemma_count_zero(shape@, i as int);
            }
            return Some(0);
        }
        i = i + 1;
    }
    let mut acc: usize = 1;
    let mut j: usize = 0;
    while j < shape.len()
        invariant
            j <= shape.len(),
            forall|k: int| 0 <= k < shape.len() ==> shape@[k] >= 1,
            acc as nat == count_of(shape@.take(j as int)),
        decreases shape.len() - j,
    {
        assert(shape@.take(j + 1).drop_last() =~= shape@.take(j as int));
        match acc.checked_mul(shape[j]) {
            Some(p) => {
                acc = p;
            },
            None => {
                proof {
                    lemma_count_grows(shape@, j + 1);
                }
                return None;
            },
        }
        j = j + 1;
    }
    assert(shape@.take(shape.len() as int) =~= shape@);
    Some(acc)
}

/// A tensor seen as its dimensions and its elements in row-major order.
impl<T> View for Tensor<T> {
    type V = (Seq<usize>, Seq<T>);

    closed spec fn view(&self) -> (Seq<usize>, Seq<T>) {
        (self.shape@, self.data@)
    }
}

/// The tensor `v` under shape `s`, where `s` describes as many elements.
pub open spec fn reshaped<T>(v: (Seq<usize>, Seq<T>), s: Seq<usize>) -> Option<(Seq<usize>, Seq<T>)> {
    if count_of(s) == v.1.len() {
        Some((s, v.1))
    } else {
        None
    }
}

/// The tensor `v` as a rank-one tensor over the same elements.
pub open spec fn flattened<T>(v: (Seq<usize>, Seq<T>)) -> (Seq<usize>, Seq<T>) {
    (seq![v.1.len() as usize], v.1)
}

impl<T> Tensor<T> {
    /// The dimensions of the tensor.
    pub open spec fn shape(&self) -> Seq<usize> {
        self@.0
    }

    /// The elements of the tensor, in row-major order.
    pub open spec fn elems(&self) -> Seq<T> {
        self@.1
    }

    /// The shape describes exactly the elements held.
    pub open spec fn wf(&self) -> bool {
        count_of(self.shape()) == self.elems().len()
    }

    /// A tensor of the given shape over the given elements; fails where the
    /// shape does not describe `data.len()` elements.
    pub fn from_shape_vec(shape: Vec<usize>, data: Vec<T>) -> (r: Result<Tensor<T>, ShapeError>)
        ensures
            count_of(shape@) == data@.len() <==> r is Ok,
            r matches Ok(t) ==> t.wf() && t.shape() == shape@ && t.elems() == data@,
            r matches Err(e) ==> e == (ShapeError {
                expected: data@.len() as usize,
                actual: saturated(count_of(shape@)),
            }),
    {
        match element_count(&shape) {
            Some(n) => {
                if n == data.len() {
                    Ok(Tensor { shape, data })
                } else {
                    Err(ShapeError { expected: data.len(), actual: n })
                }
            },
            None => Err(ShapeError { expected: data.len(), actual: usize::MAX }),
        }
    }

    /// A rank-one tensor over the given elements.
    pub fn from_vec(data: Vec<T>) -> (r: Tensor<T>)
        ensures
            r.wf(),
            r.shape() == seq![data@.len() as usize],
            r.elems() == data@,
    {
        let n = data.len();
        let mut shape: Vec<usize> = Vec::new();
        shape.push(n);
        assert(seq![n].drop_last() =~= Seq::<usize>::empty());
        assert(count_of(Seq::<usize>::empty()) == 1);
        assert(seq![n].len() == 1 && seq![n].last() == n);
        assert(count_of(seq![n]) == count_of(seq![n].drop_last()) * (n as nat));
        assert(count_of(seq![n]) == n);
        assert(shape@ =~= seq![n]);
        Tensor { shape, data }
    }

    /// The dimensions of the tensor.
    pub fn dims(&self) -> (r: &Vec<usize>)
        ensures
            r@ == self.shape(),
    {
        &self.shape
    }

    /// The elements of the tensor, in row-major order.
    pub fn as_vec(&self) -> (r: &Vec<T>)
        ensures
            r@ == self.elems(),
    {
        &self.data
    }

    /// The number of elements.
    pub fn len(&self) -> (r: usize)
        ensures
            r == self.elems().len(),
    {
        self.data.len()
    }

    /// The elements of the tensor, in row-major order.
    pub fn into_vec(self) -> (r: Vec<T>)
        ensures
            r@ == self.elems(),
    {
        self.data
    }

    /// The same elements, in the same order, under another shape; fails where
    /// the new shape describes another number of elements.
    pub fn reshape(self, new_shape: Vec<usize>) -> (r: Result<Tensor<T>, ShapeError>)
        ensures
            reshaped(self@, new_shape@) is Some <==> r is Ok,
            r matches Ok(t) ==> t.wf() && reshaped(self@, new_shape@) == Some(t@),
            r matches Err(e) ==> e == (ShapeError {
                expected: self.elems().len() as usize,
                actual: saturated(count_of(new_shape@)),
            }),
    {
        Tensor::from_shape_vec(new_shape, self.data)
    }

    /// The same elements, in the same order, as a rank-one tensor.
    pub fn flatten(self) -> (r: Tensor<T>)
        ensures
            r.wf(),
            r@ == flattened(self@),
    {
        Tensor::from_vec(self.data)
    }
}

impl<T: Copy> Tensor<T> {
    /// Applies `f` to every element independently; the shape is kept.
    pub fn map<F: Fn(T) -> T>(self, f: F) -> (r: Tensor<T>)
        requires
            self.wf(),
            forall|i: int| 0 <= i < self.elems().len() ==> f.requires((self.elems()[i],)),
        ensures
            r.wf(),
            r.shape() == self.shape(),
            r.elems().len() == self.elems().len(),
            forall|i: int|
                0 <= i < r.elems().len() ==> f.ensures((self.elems()[i],), #[trigger] r.elems()[i]),
    {
        let mut out: Vec<T> = Vec::new();
        let mut i: usize = 0;
        while i < self.data.len()
            invariant
                i <= self.data.len(),
                out@.len() == i,
                forall|k: int| 0 <= k < self.data@.len() ==> f.requires((self.data@[k],)),
                forall|k: int| 0 <= k < i ==> f.ensures((self.data@[k],), #[trigger] out@[k]),
            decreases self.data.len() - i,
        {
            let y = f(self.data[i]);
            out.push(y);
            i = i + 1;
        }
        Tensor { shape: self.shape, data: out }
    }
}

/// Flattening after a reshape gives what flattening alone gives: a reshape
/// to any shape that describes as many elements keeps the elements and their
/// order.
pub proof fn lemma_flatten_after_reshape<T>(t: Tensor<T>, s: Seq<usize>)
    requires
        t.wf(),
        count_of(s) == t.elems().len(),
    ensures
        reshaped(t@, s) is Some,
        flattened(reshaped(t@, s).unwrap()) == flattened(t@),
{
}

} // verus!
