use vstd::prelude::*;
use crate::tensor::{TensorData, TensorView};

verus! {

/// Associates a backend with its full-precision counterpart: an element of the
/// backend widens to an element of the counterpart, and an element of the
/// counterpart narrows back. Elements are bit patterns of the two element types.
pub trait PrecisionBridge {
    /// The counterpart's element that a native element widens to.
    spec fn widen_spec(x: u64) -> u64;

    /// The native element that a counterpart's element narrows to.
    spec fn narrow_spec(x: u64) -> u64;

    fn widen(x: u64) -> (r: u64)
        ensures
            r == Self::widen_spec(x),
    ;

    fn narrow(x: u64) -> (r: u64)
        ensures
            r == Self::narrow_spec(x),
    ;
}

/// The bridge of a backend that is its own full-precision counterpart.
pub struct SameBackend;

impl PrecisionBridge for SameBackend {
    open spec fn widen_spec(x: u64) -> u64 {
        x
    }

    open spec fn narrow_spec(x: u64) -> u64 {
        x
    }

    fn widen(x: u64) -> (r: u64) {
        x
    }

    fn narrow(x: u64) -> (r: u64) {
        x
    }
}

/// A native tensor widened to the full-precision counterpart: same shape, each
/// element widened.
pub open spec fn widen_tensor<B: PrecisionBridge>(t: TensorView) -> TensorView {
    TensorView { shape: t.shape, elems: t.elems.map_values(|x: u64| B::widen_spec(x)) }
}

/// A full-precision tensor narrowed to the native backend: same shape, each
/// element narrowed.
pub open spec fn narrow_tensor<B: PrecisionBridge>(t: TensorView) -> TensorView {
    TensorView { shape: t.shape, elems: t.elems.map_values(|x: u64| B::narrow_spec(x)) }
}

/// Converts a native tensor to the full-precision counterpart.
pub fn into_full_precision<B: PrecisionBridge>(t: TensorData) -> (r: TensorData)
    ensures
        r@ == widen_tensor::<B>(t@),
{
    let TensorData { shape, elems } = t;
    let mut out: Vec<u64> = Vec::with_capacity(elems.len());
    let mut i: usize = 0;
    while i < elems.len()
        invariant
            i <= elems.len(),
            out@ == elems@.take(i as int).map_values(|x: u64| B::widen_spec(x)),
        decreases elems.len() - i,
    {
        let w = B::widen(elems[i]);
        out.push(w);
        i = i + 1;
        assert(out@ =~= elems@.take(i as int).map_values(|x: u64| B::widen_spec(x)));
    }
    assert(elems@.take(elems.len() as int) =~= elems@);
    TensorData { shape, elems: out }
}

/// Converts a full-precision tensor to the native backend.
pub fn from_full_precision<B: PrecisionBridge>(t: TensorData) -> (r: TensorData)
    ensures
        r@ == narrow_tensor::<B>(t@),
{
    let TensorData { shape, elems } = t;
    let mut out: Vec<u64> = Vec::with_capacity(elems.len());
    let mut i: usize = 0;
    while i < elems.len()
        invariant
            i <= elems.len(),
            out@ == elems@.take(i as int).map_values(|x: u64| B::narrow_spec(x)),
        decreases elems.len() - i,
    {
        let n = B::narrow(elems[i]);
        out.push(n);
        i = i + 1;
        assert(out@ =~= elems@.take(i as int).map_values(|x: u64| B::narrow_spec(x)));
    }
    assert(elems@.take(elems.len() as int) =~= elems@);
    TensorData { shape, elems: out }
}

} // verus!
