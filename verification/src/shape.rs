//! Tensor shapes: element counts and row-major layout checks.

use vstd::prelude::*;

verus! {

/// The product of all extents in `dims`: how many elements a tensor of these
/// dimensions holds. The empty product is 1 (a scalar).
pub open spec fn product(dims: Seq<usize>) -> nat
    decreases dims.len(),
{
    if dims.len() == 0 {
        1
    } else {
        (dims.first() as nat) * product(dims.drop_first())
    }
}

/// The stride, in elements, of dimension `i` in the row-major packing of
/// `dims`: the number of elements spanned by all later dimensions.
pub open spec fn row_major_stride(dims: Seq<usize>, i: int) -> nat {
    product(dims.skip(i + 1))
}

/// `stride` is exactly the row-major packing of `dims`, with no gaps.
pub open spec fn contiguous(dims: Seq<usize>, stride: Seq<usize>) -> bool {
    &&& stride.len() == dims.len()
    &&& forall|i: int|
        0 <= i < dims.len() ==> (#[trigger] stride[i]) as nat == row_major_stride(dims, i)
}

/// Peeling the extent at `i` off the product of the extents from `i` on.
pub proof fn lemma_product_skip(dims: Seq<usize>, i: int)
    requires
        0 <= i < dims.len(),
    ensures
        product(dims.skip(i)) == (dims[i] as nat) * product(dims.skip(i + 1)),
{
    assert(dims.skip(i).drop_first() =~= dims.skip(i + 1));
}

/// A running product that may have left the range of `usize`: either
/// `value` is the product `p`, or `over` records that `p` is too large.
struct Running {
    value: usize,
    over: bool,
}

impl Running {
    spec fn tracks(self, p: nat) -> bool {
        if self.over {
            p > usize::MAX
        } else {
            self.value as nat == p
        }
    }

    /// Multiplies the tracked product by one more extent. A zero extent
    /// brings a product that had grown too large back to zero.
    fn times(self, d: usize, Ghost(p): Ghost<nat>) -> (r: Running)
        requires
            self.tracks(p),
        ensures
            r.tracks((d as nat) * p),
    {
        if d == 0 {
            Running { value: 0, over: false }
        } else if self.over {
            assert((d as nat) * p > usize::MAX) by (nonlinear_arith)
                requires
                    d >= 1,
                    p > usize::MAX,
            ;
            self
        } else {
            match self.value.checked_mul(d) {
                Some(v) => {
                    assert((d as nat) * p == self.value * d) by (nonlinear_arith)
                        requires
                            self.value as nat == p,
                    ;
                    Running { value: v, over: false }
                },
                None => {
                    assert((d as nat) * p == self.value * d) by (nonlinear_arith)
                        requires
                            self.value as nat == p,
                    ;
                    Running { value: self.value, over: true }
                },
            }
        }
    }
}

/// The dimensions of a tensor. Every `Shape` has an element count that fits
/// in `usize`.
#[derive(Debug)]
pub struct Shape {
    dims: Vec<usize>,
    elems: usize,
}

impl View for Shape {
    type V = Seq<usize>;

    closed spec fn view(&self) -> Seq<usize> {
        self.dims@
    }
}

impl Clone for Shape {
    fn clone(&self) -> (r: Shape)
        ensures
            r@ == self@,
    {
        proof {
            use_type_invariant(self);
        }
        Shape { dims: self.dims.clone(), elems: self.elems }
    }
}

impl Shape {
    #[verifier::type_invariant]
    spec fn inv(&self) -> bool {
        self.elems as nat == product(self.dims@)
    }

    /// The number of elements of a tensor of this shape.
    pub open spec fn elem_count_spec(&self) -> nat {
        product(self@)
    }

    /// Builds the shape with the given extents, outermost first. Fails
    /// exactly when the element count does not fit in `usize`.
    pub fn new(dims: Vec<usize>) -> (r: Option<Shape>)
        ensures
            match r {
                Some(s) => s@ == dims@ && product(dims@) <= usize::MAX,
                None => product(dims@) > usize::MAX,
            },
    {
        let mut acc = Running { value: 1, over: false };
        let mut i: usize = dims.len();
        assert(dims@.skip(i as int) =~= Seq::<usize>::empty());
        while i > 0
            invariant
                i <= dims.len(),
                acc.tracks(product(dims@.skip(i as int))),
            decreases i,
        {
            i = i - 1;
            proof {
                lemma_product_skip(dims@, i as int);
            }
            acc = acc.times(dims[i], Ghost(product(dims@.skip(i + 1))));
        }
        assert(dims@.skip(0) =~= dims@);
        if acc.over {
            None
        } else {
            Some(Shape { dims, elems: acc.value })
        }
    }

    /// The extents, outermost first.
    pub fn dims(&self) -> (r: &Vec<usize>)
        ensures
            r@ == self@,
    {
        &self.dims
    }

    /// The number of dimensions.
    pub fn rank(&self) -> (r: usize)
        ensures
            r == self@.len(),
    {
        self.dims.len()
    }

    /// The number of elements of a tensor of this shape.
    pub fn elem_count(&self) -> (n: usize)
        ensures
            n == self.elem_count_spec(),
    {
        proof {
            use_type_invariant(self);
        }
        self.elems
    }

    /// Whether `stride` describes the row-major packing of this shape.
    pub fn is_contiguous(&self, stride: &[usize]) -> (b: bool)
        ensures
            b == contiguous(self@, stride@),
    {
        let n = self.dims.len();
        if stride.len() != n {
            return false;
        }
        let mut acc = Running { value: 1, over: false };
        let mut i: usize = n;
        assert(self.dims@.skip(i as int) =~= Seq::<usize>::empty());
        while i > 0
            invariant
                n == self.dims@.len(),
                n == stride@.len(),
                i <= n,
                acc.tracks(product(self.dims@.skip(i as int))),
                forall|j: int|
                    i <= j < n ==> (#[trigger] stride@[j]) as nat == row_major_stride(
                        self.dims@,
                        j,
                    ),
            decreases i,
        {
            i = i - 1;
            if acc.over || stride[i] != acc.value {
                assert(stride@[i as int] as nat != row_major_stride(self.dims@, i as int));
                return false;
            }
            proof {
                lemma_product_skip(self.dims@, i as int);
            }
            acc = acc.times(self.dims[i], Ghost(product(self.dims@.skip(i + 1))));
        }
        true
    }
}

} // verus!
