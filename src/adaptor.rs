use vstd::prelude::*;
use core::marker::PhantomData;
use crate::bridge::{PrecisionBridge, narrow_tensor, widen_tensor, from_full_precision, into_full_precision};
use crate::module::{ModuleError, ModuleItem, ModuleRecord, ParamModule, add_devices, devices_of, items_of, loaded_all, placed_on};
use crate::tensor::{DeviceId, Param, ParamView, TensorKind};
use crate::traversal::{ModuleMapper, ModuleVisitor, Visit, visit_all, map_all, mapped_at, lemma_visit_all_step, lemma_map_all_step};

verus! {

/// Every parameter holds float data.
pub open spec fn all_float(ps: Seq<ParamView>) -> bool {
    forall|i: int| 0 <= i < ps.len() ==> #[trigger] ps[i].kind == TensorKind::Float
}

/// The parameters kept at full precision, as a traversal under the native
/// backend `B` presents them: same identifiers, data narrowed by `B`'s bridge.
pub open spec fn host_visits<B: PrecisionBridge>(ps: Seq<ParamView>) -> Seq<Visit> {
    ps.map_values(|p: ParamView| (p.id, TensorKind::Float, narrow_tensor::<B>(p.data)))
}

/// A module whose parameters are kept at the full precision of backend `B`'s
/// counterpart, presented as a module of `B`. Every parameter holds float data.
pub struct FullPrecisionAdaptor<B: PrecisionBridge> {
    inner: ParamModule,
    _marker: PhantomData<B>,
}

impl<B: PrecisionBridge> View for FullPrecisionAdaptor<B> {
    type V = Seq<ParamView>;

    /// The inner module's parameters, at full precision.
    closed spec fn view(&self) -> Seq<ParamView> {
        self.inner@
    }
}

impl<B: PrecisionBridge> FullPrecisionAdaptor<B> {
    #[verifier::type_invariant]
    spec fn inv(&self) -> bool {
        all_float(self.inner@)
    }

    /// Wraps a module whose parameters all hold float data; otherwise names the
    /// first parameter that does not.
    pub fn new(inner: ParamModule) -> (r: Result<FullPrecisionAdaptor<B>, ModuleError>)
        ensures
            all_float(inner@) <==> r is Ok,
            r matches Ok(a) ==> a@ == inner@,
            r matches Err(e) ==> exists|k: int|
                0 <= k < inner@.len() && inner@[k].kind != TensorKind::Float && all_float(
                    inner@.take(k),
                ) && e == (ModuleError::UnsupportedKind { id: inner@[k].id, kind: inner@[k].kind }),
    {
        let mut i: usize = 0;
        while i < inner.params.len()
            invariant
                i <= inner.params.len(),
                all_float(inner@.take(i as int)),
            decreases inner.params.len() - i,
        {
            let p = &inner.params[i];
            if p.kind != TensorKind::Float {
                assert(inner@[i as int].kind != TensorKind::Float);
                return Err(ModuleError::UnsupportedKind { id: p.id, kind: p.kind });
            }
            i = i + 1;
            assert(inner@.take(i as int) =~= inner@.take(i - 1).push(inner@[i - 1]));
        }
        assert(inner@.take(i as int) =~= inner@);
        Ok(FullPrecisionAdaptor { inner, _marker: PhantomData })
    }

    /// The wrapped module.
    pub fn inner(&self) -> (r: &ParamModule)
        ensures
            r@ == self@,
            all_float(r@),
    {
        proof {
            use_type_invariant(self);
        }
        &self.inner
    }

    /// Unwraps the module.
    pub fn into_inner(self) -> (r: ParamModule)
        ensures
            r@ == self@,
            all_float(r@),
    {
        proof {
            use_type_invariant(&self);
        }
        self.inner
    }

    /// The inner module's devices, added to `devices` as the inner module adds them.
    pub fn collect_devices(&self, devices: Vec<DeviceId>) -> (r: Vec<DeviceId>)
        ensures
            r@ == add_devices(devices@, devices_of(self@)),
    {
        self.inner.collect_devices(devices)
    }

    /// The wrapper around the inner module forked to `device`.
    pub fn fork(self, device: DeviceId) -> (r: FullPrecisionAdaptor<B>)
        ensures
            r@ == placed_on(self@, device),
    {
        proof {
            use_type_invariant(&self);
        }
        let inner = self.inner.fork(device);
        assert(all_float(inner@));
        FullPrecisionAdaptor { inner, _marker: PhantomData }
    }

    /// The wrapper around the inner module moved to `device`.
    pub fn to_device(self, device: DeviceId) -> (r: FullPrecisionAdaptor<B>)
        ensures
            r@ == placed_on(self@, device),
    {
        proof {
            use_type_invariant(&self);
        }
        let inner = self.inner.to_device(device);
        assert(all_float(inner@));
        FullPrecisionAdaptor { inner, _marker: PhantomData }
    }

    /// Hands each parameter to a visitor of backend `B`, narrowed to `B`'s
    /// precision; the stored parameters stay as they are.
    pub fn visit<V: ModuleVisitor>(&self, visitor: &mut V)
        ensures
            final(visitor)@ == visit_all::<V>(old(visitor)@, host_visits::<B>(self@)),
    {
        let ghost v0 = visitor@;
        let ghost hs = host_visits::<B>(self@);
        let mut i: usize = 0;
        while i < self.inner.params.len()
            invariant
                i <= self.inner.params.len(),
                hs == host_visits::<B>(self@),
                self@ == self.inner@,
                visitor@ == visit_all::<V>(v0, hs.take(i as int)),
            decreases self.inner.params.len() - i,
        {
            proof {
                lemma_visit_all_step::<V>(v0, hs, i as int);
            }
            let p = &self.inner.params[i];
            let t = from_full_precision::<B>(p.data.duplicate());
            visitor.visit_float(&p.id, &t);
            i = i + 1;
        }
        assert(hs.take(i as int) =~= hs);
    }

    /// Rewrites each parameter through a mapper of backend `B`: the stored data
    /// is narrowed to `B`, handed to the mapper, and what it returns is widened
    /// back and stored.
    pub fn map<M: ModuleMapper>(self, mapper: &mut M) -> (r: FullPrecisionAdaptor<B>)
        ensures
            r@.len() == self@.len(),
            forall|i: int|
                0 <= i < self@.len() ==> #[trigger] r@[i] == (ParamView {
                    data: widen_tensor::<B>(mapped_at::<M>(old(mapper)@, host_visits::<B>(self@), i)),
                    ..self@[i]
                }),
            final(mapper)@ == map_all::<M>(old(mapper)@, host_visits::<B>(self@)),
    {
        proof {
            use_type_invariant(&self);
        }
        let ghost m0 = mapper@;
        let ghost ps = self@;
        let ghost hs = host_visits::<B>(self@);
        let n = self.inner.params.len();
        let mut out: Vec<Param> = Vec::with_capacity(n);
        let mut i: usize = 0;
        while i < n
            invariant
                n == self.inner.params.len(),
                i <= n,
                ps == self.inner@,
                all_float(ps),
                hs == host_visits::<B>(ps),
                out@.len() == i,
                forall|j: int|
                    0 <= j < i ==> #[trigger] out@[j]@ == (ParamView {
                        data: widen_tensor::<B>(mapped_at::<M>(m0, hs, j)),
                        ..ps[j]
                    }),
                mapper@ == map_all::<M>(m0, hs.take(i as int)),
            decreases n - i,
        {
            proof {
                lemma_map_all_step::<M>(m0, hs, i as int);
                assert(ps[i as int].kind == TensorKind::Float);
            }
            let p = &self.inner.params[i];
            let t = from_full_precision::<B>(p.data.duplicate());
            let mapped = mapper.map_float(&p.id, t);
            let data = into_full_precision::<B>(mapped);
            out.push(Param { id: p.id, device: p.device, kind: p.kind, data });
            i = i + 1;
        }
        assert(hs.take(i as int) =~= hs);
        let inner = ParamModule { params: out };
        assert(all_float(inner@));
        FullPrecisionAdaptor { inner, _marker: PhantomData }
    }

    /// The inner module's record, wrapped.
    pub fn into_record(self) -> (r: RecordAdaptor<B>)
        ensures
            r@ == self@,
    {
        RecordAdaptor { inner: self.inner.into_record(), _marker: PhantomData }
    }

    /// Loads a record into the inner module and wraps it again. The record must
    /// hold as many parameters as the module, each holding float data.
    pub fn load_record(self, record: RecordAdaptor<B>) -> (r: Result<FullPrecisionAdaptor<B>, ModuleError>)
        ensures
            self@.len() != record@.len() ==> r == Err::<FullPrecisionAdaptor<B>, ModuleError>(
                ModuleError::LengthMismatch,
            ),
            self@.len() == record@.len() ==> match r {
                Ok(m) => {
                    &&& all_float(record@)
                    &&& m@.len() == self@.len()
                    &&& forall|i: int|
                        0 <= i < self@.len() ==> #[trigger] m@[i] == (ParamView {
                            device: self@[i].device,
                            ..record@[i]
                        })
                },
                Err(e) => exists|k: int|
                    0 <= k < self@.len() && record@[k].kind != TensorKind::Float && all_float(
                        record@.take(k),
                    ) && e == ModuleError::KindMismatch { index: k as usize },
            },
    {
        proof {
            use_type_invariant(&self);
        }
        let ghost ps = self@;
        let ghost rs = record@;
        match self.inner.load_record(record.inner) {
            Ok(inner) => {
                assert(all_float(rs));
                assert(all_float(inner@));
                Ok(FullPrecisionAdaptor { inner, _marker: PhantomData })
            },
            Err(e) => {
                proof {
                    if ps.len() == rs.len() {
                        let k = choose|k: int|
                            0 <= k < ps.len() && ps[k].kind != rs[k].kind && (forall|j: int|
                                0 <= j < k ==> ps[j].kind == rs[j].kind) && e
                                == ModuleError::KindMismatch { index: k as usize };
                        assert(ps[k].kind == TensorKind::Float);
                        assert forall|j: int| 0 <= j < rs.take(k).len() implies #[trigger] rs.take(k)[j].kind
                            == TensorKind::Float by {
                            assert(ps[j].kind == TensorKind::Float);
                        }
                    }
                }
                Err(e)
            },
        }
    }
}

/// The record of a wrapped module: the inner module's record, at full precision.
pub struct RecordAdaptor<B: PrecisionBridge> {
    inner: ModuleRecord,
    _marker: PhantomData<B>,
}

impl<B: PrecisionBridge> View for RecordAdaptor<B> {
    type V = Seq<ParamView>;

    /// The inner record's parameters.
    closed spec fn view(&self) -> Seq<ParamView> {
        self.inner@
    }
}

impl<B: PrecisionBridge> RecordAdaptor<B> {
    /// Wraps a record kept at full precision.
    pub fn new(inner: ModuleRecord) -> (r: RecordAdaptor<B>)
        ensures
            r@ == inner@,
    {
        RecordAdaptor { inner, _marker: PhantomData }
    }

    /// The inner record.
    pub fn into_inner(self) -> (r: ModuleRecord)
        ensures
            r@ == self@,
    {
        self.inner
    }

    /// The persisted form under settings `S`: that of the inner record.
    pub fn into_item<S: PrecisionBridge>(self) -> (r: ModuleItem)
        ensures
            r@ == items_of::<S>(self@),
    {
        self.inner.into_item::<S>()
    }

    /// The record that a persisted form under settings `S` holds, on `device`.
    pub fn from_item<S: PrecisionBridge>(item: ModuleItem, device: DeviceId) -> (r: RecordAdaptor<B>)
        ensures
            r@ == loaded_all::<S>(item@, device),
    {
        RecordAdaptor { inner: ModuleRecord::from_item::<S>(item, device), _marker: PhantomData }
    }
}

} // verus!
