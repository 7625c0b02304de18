use vstd::prelude::*;
use crate::bridge::{PrecisionBridge, narrow_tensor, widen_tensor, from_full_precision, into_full_precision};
use crate::tensor::{DeviceId, Param, ParamId, ParamView, TensorData, TensorKind, TensorView};
use crate::traversal::{ModuleMapper, ModuleVisitor, Visit, visit_all, map_all, mapped_at, lemma_visit_all_step, lemma_map_all_step};

verus! {

/// Why a module could not take a record, or could not be adapted.
#[derive(Clone, Copy, Debug, PartialEq, Eq, Structural)]
pub enum ModuleError {
    /// The record holds another number of parameters than the module.
    LengthMismatch,
    /// The record's parameter at this position has another element kind.
    KindMismatch { index: usize },
    /// A parameter whose element kind a precision bridge cannot convert.
    UnsupportedKind { id: ParamId, kind: TensorKind },
}

/// A module as the list of its parameters, in traversal order.
pub struct ParamModule {
    pub params: Vec<Param>,
}

impl View for ParamModule {
    type V = Seq<ParamView>;

    open spec fn view(&self) -> Seq<ParamView> {
        self.params@.map_values(|p: Param| p@)
    }
}

/// The parameters as a traversal presents them.
pub open spec fn visits_of(ps: Seq<ParamView>) -> Seq<Visit> {
    ps.map_values(|p: ParamView| (p.id, p.kind, p.data))
}

/// The device of each parameter, in order.
pub open spec fn devices_of(ps: Seq<ParamView>) -> Seq<DeviceId> {
    ps.map_values(|p: ParamView| p.device)
}

/// The accumulator `acc` after each of `ds` was appended unless already present.
pub open spec fn add_devices(acc: Seq<DeviceId>, ds: Seq<DeviceId>) -> Seq<DeviceId>
    decreases ds.len(),
{
    if ds.len() == 0 {
        acc
    } else {
        let a = add_devices(acc, ds.drop_last());
        if a.contains(ds.last()) {
            a
        } else {
            a.push(ds.last())
        }
    }
}

/// The parameters, each placed on `device`.
pub open spec fn placed_on(ps: Seq<ParamView>, device: DeviceId) -> Seq<ParamView> {
    ps.map_values(|p: ParamView| ParamView { device, ..p })
}

/// Appends `d` to `devices` unless it is already there.
pub fn add_device(devices: &mut Vec<DeviceId>, d: DeviceId)
    ensures
        final(devices)@ == (if old(devices)@.contains(d) {
            old(devices)@
        } else {
            old(devices)@.push(d)
        }),
{
    let mut i: usize = 0;
    while i < devices.len()
        invariant
            i <= devices.len(),
            forall|j: int| 0 <= j < i ==> devices@[j] != d,
        decreases devices.len() - i,
    {
        if devices[i] == d {
            return;
        }
        i = i + 1;
    }
    devices.push(d);
}

impl ParamModule {
    pub fn new(params: Vec<Param>) -> (r: ParamModule)
        ensures
            r.params@ == params@,
    {
        ParamModule { params }
    }

    /// Number of parameters.
    pub fn num_params(&self) -> (r: usize)
        ensures
            r == self@.len(),
    {
        self.params.len()
    }

    /// Adds the device of each parameter to `devices`, unless already present.
    pub fn collect_devices(&self, devices: Vec<DeviceId>) -> (r: Vec<DeviceId>)
        ensures
            r@ == add_devices(devices@, devices_of(self@)),
    {
        let mut acc = devices;
        let mut i: usize = 0;
        while i < self.params.len()
            invariant
                i <= self.params.len(),
                acc@ == add_devices(devices@, devices_of(self@).take(i as int)),
            decreases self.params.len() - i,
        {
            proof {
                assert(devices_of(self@).take(i + 1).drop_last() =~= devices_of(self@).take(i as int));
            }
            add_device(&mut acc, self.params[i].device);
            i = i + 1;
        }
        assert(devices_of(self@).take(i as int) =~= devices_of(self@));
        acc
    }

    /// The module with every parameter on `device`.
    pub fn fork(self, device: DeviceId) -> (r: ParamModule)
        ensures
            r@ == placed_on(self@, device),
    {
        let mut out: Vec<Param> = Vec::with_capacity(self.params.len());
        let mut i: usize = 0;
        while i < self.params.len()
            invariant
                i <= self.params.len(),
                out@.len() == i,
                forall|j: int|
                    0 <= j < i ==> #[trigger] out@[j]@ == (ParamView { device, ..self@[j] }),
            decreases self.params.len() - i,
        {
            let p = &self.params[i];
            out.push(Param { id: p.id, device, kind: p.kind, data: p.data.duplicate() });
            i = i + 1;
        }
        let r = ParamModule { params: out };
        assert(r@ =~= placed_on(self@, device));
        r
    }

    /// The module moved to `device`.
    pub fn to_device(self, device: DeviceId) -> (r: ParamModule)
        ensures
            r@ == placed_on(self@, device),
    {
        self.fork(device)
    }

    /// Hands each parameter to the visitor, in order.
    pub fn visit<V: ModuleVisitor>(&self, visitor: &mut V)
        ensures
            final(visitor)@ == visit_all::<V>(old(visitor)@, visits_of(self@)),
    {
        let ghost v0 = visitor@;
        let mut i: usize = 0;
        while i < self.params.len()
            invariant
                i <= self.params.len(),
                visitor@ == visit_all::<V>(v0, visits_of(self@).take(i as int)),
            decreases self.params.len() - i,
        {
            proof {
                lemma_visit_all_step::<V>(v0, visits_of(self@), i as int);
            }
            let p = &self.params[i];
            match p.kind {
                TensorKind::Float => visitor.visit_float(&p.id, &p.data),
                TensorKind::Int => visitor.visit_int(&p.id, &p.data),
                TensorKind::Bool => visitor.visit_bool(&p.id, &p.data),
            }
            i = i + 1;
        }
        assert(visits_of(self@).take(i as int) =~= visits_of(self@));
    }

    /// Replaces each parameter's data by what the mapper returns for it.
    pub fn map<M: ModuleMapper>(self, mapper: &mut M) -> (r: ParamModule)
        ensures
            r@.len() == self@.len(),
            forall|i: int|
                0 <= i < self@.len() ==> #[trigger] r@[i] == (ParamView {
                    data: mapped_at::<M>(old(mapper)@, visits_of(self@), i),
                    ..self@[i]
                }),
            final(mapper)@ == map_all::<M>(old(mapper)@, visits_of(self@)),
    {
        let ghost m0 = mapper@;
        let ghost vs = visits_of(self@);
        let mut out: Vec<Param> = Vec::with_capacity(self.params.len());
        let mut i: usize = 0;
        while i < self.params.len()
            invariant
                i <= self.params.len(),
                vs == visits_of(self@),
                out@.len() == i,
                forall|j: int|
                    0 <= j < i ==> #[trigger] out@[j]@ == (ParamView {
                        data: mapped_at::<M>(m0, vs, j),
                        ..self@[j]
                    }),
                mapper@ == map_all::<M>(m0, vs.take(i as int)),
            decreases self.params.len() - i,
        {
            proof {
                lemma_map_all_step::<M>(m0, vs, i as int);
            }
            let p = &self.params[i];
            let t = p.data.duplicate();
            let data = match p.kind {
                TensorKind::Float => mapper.map_float(&p.id, t),
                TensorKind::Int => mapper.map_int(&p.id, t),
                TensorKind::Bool => mapper.map_bool(&p.id, t),
            };
            out.push(Param { id: p.id, device: p.device, kind: p.kind, data });
            i = i + 1;
        }
        assert(vs.take(i as int) =~= vs);
        let r = ParamModule { params: out };
        r
    }

    /// The module's record: its parameters, as they are.
    pub fn into_record(self) -> (r: ModuleRecord)
        ensures
            r@ == self@,
    {
        ModuleRecord { params: self.params }
    }

    /// The module with the record's parameters, each on the device of the
    /// module's parameter at the same position. The record must hold as many
    /// parameters as the module, with the same element kinds.
    pub fn load_record(self, record: ModuleRecord) -> (r: Result<ParamModule, ModuleError>)
        ensures
            self@.len() != record@.len() ==> r == Err::<ParamModule, ModuleError>(
                ModuleError::LengthMismatch,
            ),
            self@.len() == record@.len() ==> match r {
                Ok(m) => {
                    &&& forall|i: int| 0 <= i < self@.len() ==> self@[i].kind == record@[i].kind
                    &&& m@.len() == self@.len()
                    &&& forall|i: int|
                        0 <= i < self@.len() ==> #[trigger] m@[i] == (ParamView {
                            device: self@[i].device,
                            ..record@[i]
                        })
                },
                Err(e) => exists|k: int|
                    0 <= k < self@.len() && self@[k].kind != record@[k].kind && (forall|j: int|
                        0 <= j < k ==> self@[j].kind == record@[j].kind) && e
                        == ModuleError::KindMismatch { index: k as usize },
            },
    {
        if self.params.len() != record.params.len() {
            return Err(ModuleError::LengthMismatch);
        }
        let mut out: Vec<Param> = Vec::with_capacity(self.params.len());
        let mut i: usize = 0;
        while i < self.params.len()
            invariant
                i <= self.params.len(),
                self@.len() == record@.len(),
                out@.len() == i,
                forall|j: int| 0 <= j < i ==> self@[j].kind == record@[j].kind,
                forall|j: int|
                    0 <= j < i ==> #[trigger] out@[j]@ == (ParamView {
                        device: self@[j].device,
                        ..record@[j]
                    }),
            decreases self.params.len() - i,
        {
            let rp = &record.params[i];
            if rp.kind != self.params[i].kind {
                assert(self@[i as int].kind != record@[i as int].kind);
                return Err(ModuleError::KindMismatch { index: i });
            }
            out.push(Param { id: rp.id, device: self.params[i].device, kind: rp.kind, data: rp.data.duplicate() });
            i = i + 1;
        }
        Ok(ParamModule { params: out })
    }
}

/// A module's record: its parameters, independent of any persisted format.
pub struct ModuleRecord {
    pub params: Vec<Param>,
}

impl View for ModuleRecord {
    type V = Seq<ParamView>;

    open spec fn view(&self) -> Seq<ParamView> {
        self.params@.map_values(|p: Param| p@)
    }
}

/// One persisted parameter: identifier, element kind and data.
pub struct ItemEntry {
    pub id: ParamId,
    pub kind: TensorKind,
    pub data: TensorData,
}

/// A record in persisted form, its float elements at a chosen precision.
pub struct ModuleItem {
    pub entries: Vec<ItemEntry>,
}

impl View for ModuleItem {
    type V = Seq<Visit>;

    open spec fn view(&self) -> Seq<Visit> {
        self.entries@.map_values(|e: ItemEntry| (e.id, e.kind, e.data@))
    }
}

/// A parameter persisted under settings `S`: float data narrowed by `S`, other
/// data as it is.
pub open spec fn item_of<S: PrecisionBridge>(p: ParamView) -> Visit {
    (p.id, p.kind, if p.kind == TensorKind::Float {
        narrow_tensor::<S>(p.data)
    } else {
        p.data
    })
}

/// A persisted parameter loaded under settings `S` onto `device`.
pub open spec fn loaded_of<S: PrecisionBridge>(e: Visit, device: DeviceId) -> ParamView {
    ParamView {
        id: e.0,
        device,
        kind: e.1,
        data: if e.1 == TensorKind::Float {
            widen_tensor::<S>(e.2)
        } else {
            e.2
        },
    }
}

/// Each parameter persisted under settings `S`.
pub open spec fn items_of<S: PrecisionBridge>(ps: Seq<ParamView>) -> Seq<Visit> {
    ps.map_values(|p: ParamView| item_of::<S>(p))
}

/// Each persisted parameter loaded under settings `S` onto `device`.
pub open spec fn loaded_all<S: PrecisionBridge>(es: Seq<Visit>, device: DeviceId) -> Seq<ParamView> {
    es.map_values(|e: Visit| loaded_of::<S>(e, device))
}

impl ModuleRecord {
    /// The persisted form under settings `S`, whose native elements are the
    /// persisted ones and whose full-precision elements are the record's.
    pub fn into_item<S: PrecisionBridge>(self) -> (r: ModuleItem)
        ensures
            r@ == items_of::<S>(self@),
    {
        let mut out: Vec<ItemEntry> = Vec::with_capacity(self.params.len());
        let mut i: usize = 0;
        while i < self.params.len()
            invariant
                i <= self.params.len(),
                out@.len() == i,
                forall|j: int|
                    0 <= j < i ==> (#[trigger] out@[j]).id == self@[j].id && out@[j].kind
                        == self@[j].kind && out@[j].data@ == item_of::<S>(self@[j]).2,
            decreases self.params.len() - i,
        {
            let p = &self.params[i];
            let t = p.data.duplicate();
            let data = if p.kind == TensorKind::Float {
                from_full_precision::<S>(t)
            } else {
                t
            };
            out.push(ItemEntry { id: p.id, kind: p.kind, data });
            i = i + 1;
        }
        let r = ModuleItem { entries: out };
        assert(r@ =~= items_of::<S>(self@));
        r
    }

    /// The record that a persisted form under settings `S` holds, on `device`.
    pub fn from_item<S: PrecisionBridge>(item: ModuleItem, device: DeviceId) -> (r: ModuleRecord)
        ensures
            r@ == loaded_all::<S>(item@, device),
    {
        let mut out: Vec<Param> = Vec::with_capacity(item.entries.len());
        let mut i: usize = 0;
        while i < item.entries.len()
            invariant
                i <= item.entries.len(),
                out@.len() == i,
                forall|j: int|
                    0 <= j < i ==> #[trigger] out@[j]@ == loaded_of::<S>(item@[j], device),
            decreases item.entries.len() - i,
        {
            let e = &item.entries[i];
            let t = e.data.duplicate();
            let data = if e.kind == TensorKind::Float {
                into_full_precision::<S>(t)
            } else {
                t
            };
            out.push(Param { id: e.id, device, kind: e.kind, data });
            i = i + 1;
        }
        let r = ModuleRecord { params: out };
        assert(r@ =~= loaded_all::<S>(item@, device));
        r
    }
}

} // verus!
