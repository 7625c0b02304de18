use vstd::prelude::*;

verus! {

/// Stable identifier of a learnable parameter.
#[derive(Clone, Copy, Debug, PartialEq, Eq, Structural)]
pub struct ParamId {
    pub val: u64,
}

/// Identifier of an execution device.
#[derive(Clone, Copy, Debug, PartialEq, Eq, Structural)]
pub struct DeviceId {
    pub val: u64,
}

/// Element kind of a tensor.
#[derive(Clone, Copy, Debug, PartialEq, Eq, Structural)]
pub enum TensorKind {
    Float,
    Int,
    Bool,
}

/// The data of a tensor: its extent along each dimension, and its elements in
/// row-major order, each as the bit pattern of the backend's element type.
pub struct TensorData {
    pub shape: Vec<usize>,
    pub elems: Vec<u64>,
}

/// Mathematical view of a tensor.
pub struct TensorView {
    pub shape: Seq<usize>,
    pub elems: Seq<u64>,
}

impl View for TensorData {
    type V = TensorView;

    open spec fn view(&self) -> TensorView {
        TensorView { shape: self.shape@, elems: self.elems@ }
    }
}

/// Copies a sequence of integers element by element.
pub(crate) fn copy_u64s(v: &Vec<u64>) -> (r: Vec<u64>)
    ensures
        r@ == v@,
{
    let mut r: Vec<u64> = Vec::with_capacity(v.len());
    let mut i: usize = 0;
    while i < v.len()
        invariant
            i <= v.len(),
            r@ == v@.take(i as int),
        decreases v.len() - i,
    {
        r.push(v[i]);
        i = i + 1;
        assert(r@ =~= v@.take(i as int));
    }
    assert(v@.take(v.len() as int) =~= v@);
    r
}

/// Copies a sequence of extents element by element.
pub(crate) fn copy_usizes(v: &Vec<usize>) -> (r: Vec<usize>)
    ensures
        r@ == v@,
{
    let mut r: Vec<usize> = Vec::with_capacity(v.len());
    let mut i: usize = 0;
    while i < v.len()
        invariant
            i <= v.len(),
            r@ == v@.take(i as int),
        decreases v.len() - i,
    {
        r.push(v[i]);
        i = i + 1;
        assert(r@ =~= v@.take(i as int));
    }
    assert(v@.take(v.len() as int) =~= v@);
    r
}

impl TensorData {
    pub fn new(shape: Vec<usize>, elems: Vec<u64>) -> (r: TensorData)
        ensures
            r@.shape == shape@,
            r@.elems == elems@,
    {
        TensorData { shape, elems }
    }

    /// An independent copy of the tensor.
    pub fn duplicate(&self) -> (r: TensorData)
        ensures
            r@ == self@,
    {
        TensorData { shape: copy_usizes(&self.shape), elems: copy_u64s(&self.elems) }
    }

    /// Number of dimensions.
    pub fn rank(&self) -> (r: usize)
        ensures
            r == self@.shape.len(),
    {
        self.shape.len()
    }
}

/// A learnable parameter: its identifier, the device it lives on, its element
/// kind and its data.
pub struct Param {
    pub id: ParamId,
    pub device: DeviceId,
    pub kind: TensorKind,
    pub data: TensorData,
}

/// Mathematical view of a parameter.
pub struct ParamView {
    pub id: ParamId,
    pub device: DeviceId,
    pub kind: TensorKind,
    pub data: TensorView,
}

impl View for Param {
    type V = ParamView;

    open spec fn view(&self) -> ParamView {
        ParamView { id: self.id, device: self.device, kind: self.kind, data: self.data@ }
    }
}

impl Param {
    pub fn new(id: ParamId, device: DeviceId, kind: TensorKind, data: TensorData) -> (r: Param)
        ensures
            r@ == (ParamView { id, device, kind, data: data@ }),
    {
        Param { id, device, kind, data }
    }

    /// An independent copy of the parameter.
    pub fn duplicate(&self) -> (r: Param)
        ensures
            r@ == self@,
    {
        Param { id: self.id, device: self.device, kind: self.kind, data: self.data.duplicate() }
    }
}

/// The view of a list of parameters.
pub open spec fn params_view(ps: Seq<Param>) -> Seq<ParamView> {
    ps.map_values(|p: Param| p@)
}

} // verus!
