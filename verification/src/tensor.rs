//! Tensor descriptors: layout, extents and precision of a tensor.
//!
//! A descriptor is a plain value. Its extents are listed in the order in
//! which the layout tag names the axes, and there are at most eight of them.
//! The number of elements is the product of the extents, whatever the
//! layout; the number of bytes is that product times the width of one
//! element.

use vstd::prelude::*;
use crate::status::InferenceError;
use crate::tags::{Layout, Precision};

verus! {

/// The largest number of extents that a descriptor holds.
pub const MAX_RANK: usize = 8;

/// The product of `dims`; 1 for no extents at all.
pub open spec fn extent_product(dims: Seq<u64>) -> nat
    decreases dims.len(),
{
    if dims.len() == 0 {
        1
    } else {
        extent_product(dims.drop_last()) * (dims.last() as nat)
    }
}

/// What a descriptor says, as mathematics.
pub struct TensorDescView {
    pub layout: Layout,
    pub dims: Seq<u64>,
    pub precision: Precision,
}

impl TensorDescView {
    /// The number of elements: the product of the extents.
    pub open spec fn len(self) -> nat {
        extent_product(self.dims)
    }

    /// The number of bytes that the elements take.
    pub open spec fn byte_len(self) -> nat {
        self.len() * self.precision.spec_width()
    }
}

/// Layout, extents and precision of a tensor.
#[derive(Debug, Clone, Copy, PartialEq, Eq)]
pub struct TensorDesc {
    layout: Layout,
    precision: Precision,
    rank: usize,
    dims: [u64; 8],
}

/// A descriptor in the shape in which it crosses the native boundary: the
/// tags as numbers, the extents in a fixed array of which the first `ranks`
/// count.
#[derive(Debug, Clone, Copy, PartialEq, Eq)]
pub struct RawTensorDesc {
    pub layout: u32,
    pub ranks: u64,
    pub dims: [u64; 8],
    pub precision: u32,
}

impl RawTensorDesc {
    /// Whether this raw descriptor says what `desc` says.
    pub open spec fn describes(self, desc: TensorDescView) -> bool {
        &&& self.layout == desc.layout.spec_code()
        &&& self.precision == desc.precision.spec_code()
        &&& self.ranks == desc.dims.len()
        &&& self.ranks <= MAX_RANK
        &&& self.dims@.take(self.ranks as int) == desc.dims
    }

    /// Why this raw descriptor cannot be read, if it cannot: a tag whose
    /// number the bridge does not know is `NotImplemented`, more than eight
    /// extents are `OutOfBounds`. The layout is looked at first, then the
    /// extents, then the precision.
    pub open spec fn fault(self) -> Option<InferenceError> {
        if Layout::spec_from_code(self.layout) is None {
            Some(InferenceError::NotImplemented)
        } else if self.ranks > MAX_RANK {
            Some(InferenceError::OutOfBounds)
        } else if Precision::spec_from_code(self.precision) is None {
            Some(InferenceError::NotImplemented)
        } else {
            None
        }
    }
}

impl View for TensorDesc {
    type V = TensorDescView;

    closed spec fn view(&self) -> TensorDescView {
        TensorDescView {
            layout: self.layout,
            dims: self.dims@.take(self.rank as int),
            precision: self.precision,
        }
    }
}

impl TensorDesc {
    #[verifier::type_invariant]
    spec fn inv(&self) -> bool {
        &&& self.rank <= MAX_RANK
        &&& forall|i: int| self.rank <= i < MAX_RANK ==> self.dims@[i] == 0
    }

    /// Describes a tensor with the given extents, of which there are at
    /// most eight.
    pub fn new(layout: Layout, dimensions: &[u64], precision: Precision) -> (desc: TensorDesc)
        requires
            dimensions@.len() <= MAX_RANK,
        ensures
            desc@ == (TensorDescView { layout, dims: dimensions@, precision }),
    {
        let mut dims = [0u64;8];
        let rank = dimensions.len();
        let mut i: usize = 0;
        while i < rank
            invariant
                rank == dimensions@.len(),
                rank <= MAX_RANK,
                i <= rank,
                dims@.len() == MAX_RANK,
                forall|j: int| 0 <= j < i ==> dims@[j] == dimensions@[j],
                forall|j: int| i <= j < MAX_RANK ==> dims@[j] == 0,
            decreases rank - i,
        {
            dims[i] = dimensions[i];
            i += 1;
        }
        proof {
            assert(dims@.take(rank as int) =~= dimensions@);
        }
        TensorDesc { layout, precision, rank, dims }
    }

    /// The layout tag.
    pub fn layout(&self) -> (l: Layout)
        ensures
            l == self@.layout,
    {
        self.layout
    }

    /// The precision tag.
    pub fn precision(&self) -> (p: Precision)
        ensures
            p == self@.precision,
    {
        self.precision
    }

    /// The number of extents, never more than eight.
    pub fn rank(&self) -> (r: usize)
        ensures
            r == self@.dims.len(),
            r <= MAX_RANK,
    {
        proof {
            use_type_invariant(self);
        }
        self.rank
    }

    /// The extents, in order.
    pub fn dimensions(&self) -> (d: &[u64])
        ensures
            d@ == self@.dims,
    {
        proof {
            use_type_invariant(self);
        }
        vstd::slice::slice_subrange(self.dims.as_slice(), 0, self.rank)
    }

    /// The number of elements, if a `usize` can hold it.
    pub fn checked_len(&self) -> (r: Option<usize>)
        ensures
            r matches Some(n) ==> n == self@.len(),
            r is None <==> self@.len() > usize::MAX,
    {
        proof {
            use_type_invariant(self);
        }
        let ghost dims = self@.dims;
        let mut i: usize = 0;
        while i < self.rank
            invariant
                self.rank <= MAX_RANK,
                i <= self.rank,
                dims == self.dims@.take(self.rank as int),
                forall|j: int| 0 <= j < i ==> dims[j] != 0,
            decreases self.rank - i,
        {
            if self.dims[i] == 0 {
                proof {
                    extent_product_zero(dims, i as int);
                }
                return Some(0);
            }
            i += 1;
        }
        let mut acc: usize = 1;
        let mut k: usize = 0;
        while k < self.rank
            invariant
                self.rank <= MAX_RANK,
                k <= self.rank,
                dims == self.dims@.take(self.rank as int),
                forall|j: int| 0 <= j < dims.len() ==> dims[j] != 0,
                acc == extent_product(dims.take(k as int)),
            decreases self.rank - k,
        {
            let d: u64 = self.dims[k];
            proof {
                // The product so far is at least 1, and with the next extent
                // it is still no more than the product of them all.
                extent_product_step(dims, k as int);
                extent_product_grows(dims, k as int);
                extent_product_grows(dims, k as int + 1);
                assert(acc * d >= d) by (nonlinear_arith)
                    requires
                        acc >= 1,
                        d >= 0,
                ;
            }
            if d > usize::MAX as u64 {
                return None;
            }
            match acc.checked_mul(d as usize) {
                Some(n) => {
                    acc = n;
                },
                None => {
                    return None;
                },
            }
            k += 1;
        }
        proof {
            assert(dims.take(self.rank as int) =~= dims);
        }
        Some(acc)
    }

    /// The number of elements: the product of the extents.
    pub fn len(&self) -> (n: usize)
        requires
            self@.len() <= usize::MAX,
        ensures
            n == self@.len(),
            n == extent_product(self@.dims),
    {
        match self.checked_len() {
            Some(n) => n,
            None => 0,
        }
    }

    /// The number of bytes that the elements take, if a `usize` can hold it.
    pub fn checked_byte_len(&self) -> (r: Option<usize>)
        ensures
            r matches Some(n) ==> n == self@.byte_len(),
            r is None <==> self@.byte_len() > usize::MAX,
    {
        let width = self.precision.width();
        proof {
            assert(self@.len() * width >= self@.len()) by (nonlinear_arith)
                requires
                    width >= 1,
            ;
        }
        match self.checked_len() {
            Some(n) => n.checked_mul(width),
            None => None,
        }
    }

    /// The number of bytes that the elements take: the number of elements
    /// times the width of one.
    pub fn byte_len(&self) -> (n: usize)
        requires
            self@.byte_len() <= usize::MAX,
        ensures
            n == self@.byte_len(),
            n == self@.len() * self@.precision.spec_width(),
    {
        match self.checked_byte_len() {
            Some(n) => n,
            None => 0,
        }
    }

    /// The descriptor in the shape in which it crosses the native boundary.
    /// The array's entries beyond the rank are zero.
    pub fn to_raw(&self) -> (raw: RawTensorDesc)
        ensures
            raw.describes(self@),
            raw.fault() is None,
            forall|i: int| raw.ranks <= i < MAX_RANK ==> raw.dims@[i] == 0,
    {
        proof {
            use_type_invariant(self);
            Layout::code_round_trip(self.layout);
            Precision::code_round_trip(self.precision);
        }
        RawTensorDesc {
            layout: self.layout.code(),
            ranks: self.rank as u64,
            dims: self.dims,
            precision: self.precision.code(),
        }
    }

    /// Reads a descriptor that the native side handed over. It is read
    /// exactly when both tags are known and there are at most eight extents;
    /// what the array holds beyond them is ignored.
    pub fn from_raw(raw: &RawTensorDesc) -> (r: Result<TensorDesc, InferenceError>)
        ensures
            r is Ok <==> raw.fault() is None,
            r matches Ok(desc) ==> raw.describes(desc@),
            r matches Err(e) ==> raw.fault() == Some(e),
    {
        let layout = match Layout::from_code(raw.layout) {
            Some(l) => l,
            None => {
                return Err(InferenceError::NotImplemented);
            },
        };
        if raw.ranks > MAX_RANK as u64 {
            return Err(InferenceError::OutOfBounds);
        }
        let precision = match Precision::from_code(raw.precision) {
            Some(p) => p,
            None => {
                return Err(InferenceError::NotImplemented);
            },
        };
        let rank = raw.ranks as usize;
        let extents = vstd::slice::slice_subrange(raw.dims.as_slice(), 0, rank);
        Ok(TensorDesc::new(layout, extents, precision))
    }
}

/// A raw descriptor describes at most one descriptor: reading back what
/// `to_raw` wrote gives the descriptor it was written from.
pub proof fn raw_descriptor_is_unique(raw: RawTensorDesc, a: TensorDescView, b: TensorDescView)
    requires
        raw.describes(a),
        raw.describes(b),
    ensures
        a == b,
{
    Layout::code_is_injective(a.layout, b.layout);
    Precision::code_is_injective(a.precision, b.precision);
}

/// The number of bytes is the number of elements times the width of one
/// element, and the number of elements is the product of the extents.
pub proof fn byte_len_is_len_times_width(desc: TensorDescView)
    ensures
        desc.byte_len() == desc.len() * desc.precision.spec_width(),
        desc.len() == extent_product(desc.dims),
{
}

/// An extent of zero makes the product zero.
pub proof fn extent_product_zero(dims: Seq<u64>, i: int)
    requires
        0 <= i < dims.len(),
        dims[i] == 0,
    ensures
        extent_product(dims) == 0,
    decreases dims.len(),
{
    if i < dims.len() - 1 {
        extent_product_zero(dims.drop_last(), i);
        assert(extent_product(dims.drop_last()) * (dims.last() as nat) == 0) by (nonlinear_arith)
            requires
                extent_product(dims.drop_last()) == 0,
        ;
    }
}

/// The product of the first `i + 1` extents is the product of the first `i`
/// times the next one.
pub proof fn extent_product_step(dims: Seq<u64>, i: int)
    requires
        0 <= i < dims.len(),
    ensures
        extent_product(dims.take(i + 1)) == extent_product(dims.take(i)) * (dims[i] as nat),
{
    assert(dims.take(i + 1).drop_last() =~= dims.take(i));
}

/// Where no extent is zero, the product of the first `i` extents is at
/// least 1 and at most the product of them all.
pub proof fn extent_product_grows(dims: Seq<u64>, i: int)
    requires
        0 <= i <= dims.len(),
        forall|j: int| 0 <= j < dims.len() ==> dims[j] != 0,
    ensures
        1 <= extent_product(dims.take(i)) <= extent_product(dims),
    decreases dims.len() - i,
{
    if i == dims.len() {
        assert(dims.take(i) =~= dims);
        extent_product_positive(dims);
    } else {
        extent_product_grows(dims, i + 1);
        extent_product_step(dims, i);
        let p = extent_product(dims.take(i));
        let d = dims[i] as nat;
        assert(p * d >= p && (p * d >= 1 ==> p >= 1)) by (nonlinear_arith)
            requires
                d >= 1,
        ;
    }
}

/// The number of elements does not depend on the order in which the
/// extents are listed: two lists that hold the same extents, each as often
/// in the one as in the other, have the same product.
pub proof fn extent_product_any_order(a: Seq<u64>, b: Seq<u64>)
    requires
        a.to_multiset() == b.to_multiset(),
    ensures
        extent_product(a) == extent_product(b),
    decreases a.len(),
{
    vstd::seq_lib::to_multiset_len(a);
    vstd::seq_lib::to_multiset_len(b);
    if a.len() > 0 {
        let x = a.last();
        let front = a.drop_last();
        assert(a.contains(x)) by {
            assert(a[a.len() - 1] == x);
        }
        vstd::seq_lib::to_multiset_contains(a, x);
        vstd::seq_lib::to_multiset_contains(b, x);
        let i = choose|i: int| 0 <= i < b.len() && b[i] == x;
        assert(front =~= a.remove(a.len() - 1));
        vstd::seq_lib::to_multiset_remove(a, a.len() - 1);
        vstd::seq_lib::to_multiset_remove(b, i);
        extent_product_any_order(front, b.remove(i));
        extent_product_without(b, i);
    }
}

/// The product of all extents is the product of all but one, times that
/// one.
proof fn extent_product_without(dims: Seq<u64>, i: int)
    requires
        0 <= i < dims.len(),
    ensures
        extent_product(dims) == extent_product(dims.remove(i)) * (dims[i] as nat),
    decreases dims.len(),
{
    if i == dims.len() - 1 {
        assert(dims.remove(i) =~= dims.drop_last());
    } else {
        let front = dims.drop_last();
        extent_product_without(front, i);
        assert(dims.remove(i).drop_last() =~= front.remove(i));
        assert(dims.remove(i).last() == dims.last());
        let rest = extent_product(front.remove(i));
        let x = dims[i] as nat;
        let last = dims.last() as nat;
        assert((rest * x) * last == (rest * last) * x) by (nonlinear_arith);
    }
}

proof fn extent_product_positive(dims: Seq<u64>)
    requires
        forall|j: int| 0 <= j < dims.len() ==> dims[j] != 0,
    ensures
        extent_product(dims) >= 1,
    decreases dims.len(),
{
    if dims.len() > 0 {
        extent_product_positive(dims.drop_last());
        let p = extent_product(dims.drop_last());
        let d = dims.last() as nat;
        assert(p * d >= 1) by (nonlinear_arith)
            requires
                p >= 1,
                d >= 1,
        ;
    }
}

} // verus!
