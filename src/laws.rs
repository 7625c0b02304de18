use vstd::prelude::*;
use crate::adaptor::host_visits;
use crate::bridge::{PrecisionBridge, SameBackend, narrow_tensor, widen_tensor};
use crate::module::{add_devices, devices_of, items_of, loaded_all, visits_of};
use crate::tensor::{DeviceId, ParamView, TensorKind};
use crate::traversal::{IdentityMapper, mapped_at};

verus! {

/// Visiting through the wrapper reports, at each position, the same parameter
/// identifier as visiting the inner module directly.
pub proof fn law_wrapper_keeps_identifiers<B: PrecisionBridge>(ps: Seq<ParamView>)
    ensures
        host_visits::<B>(ps).len() == visits_of(ps).len(),
        forall|i: int|
            0 <= i < ps.len() ==> #[trigger] host_visits::<B>(ps)[i].0 == visits_of(ps)[i].0,
{
}

/// Every tensor that a visitor or mapper receives through the wrapper has the
/// rank and extents of the inner module's tensor.
pub proof fn law_wrapper_keeps_shapes<B: PrecisionBridge>(ps: Seq<ParamView>)
    ensures
        host_visits::<B>(ps).len() == ps.len(),
        forall|i: int|
            0 <= i < ps.len() ==> (#[trigger] host_visits::<B>(ps)[i]).2.shape == ps[i].data.shape
                && host_visits::<B>(ps)[i].2.elems.len() == ps[i].data.elems.len(),
{
}

/// Mapping through the wrapper with the identity leaves each parameter as it
/// was, up to one narrowing and one widening of its elements.
pub proof fn law_identity_map_round_trip<B: PrecisionBridge>(
    ps: Seq<ParamView>,
    rs: Seq<ParamView>,
)
    requires
        rs.len() == ps.len(),
        forall|i: int|
            0 <= i < ps.len() ==> #[trigger] rs[i] == (ParamView {
                data: widen_tensor::<B>(mapped_at::<IdentityMapper>((), host_visits::<B>(ps), i)),
                ..ps[i]
            }),
    ensures
        forall|i: int|
            0 <= i < ps.len() ==> #[trigger] rs[i] == (ParamView {
                data: widen_tensor::<B>(narrow_tensor::<B>(ps[i].data)),
                ..ps[i]
            }),
{
}

/// Under a backend that is its own full-precision counterpart, mapping through
/// the wrapper with the identity leaves the parameters exactly as they were.
pub proof fn law_identity_map_same_backend(ps: Seq<ParamView>, rs: Seq<ParamView>)
    requires
        rs.len() == ps.len(),
        forall|i: int|
            0 <= i < ps.len() ==> #[trigger] rs[i] == (ParamView {
                data: widen_tensor::<SameBackend>(
                    mapped_at::<IdentityMapper>((), host_visits::<SameBackend>(ps), i),
                ),
                ..ps[i]
            }),
    ensures
        rs == ps,
{
    assert forall|i: int| 0 <= i < ps.len() implies #[trigger] rs[i] == ps[i] by {
        let d = ps[i].data;
        assert(narrow_tensor::<SameBackend>(d).elems =~= d.elems);
        assert(widen_tensor::<SameBackend>(narrow_tensor::<SameBackend>(d)).elems =~= d.elems);
    }
    assert(rs =~= ps);
}

/// Collecting devices keeps the accumulator as a prefix, so removes nothing
/// from it, and adds exactly the devices it did not hold yet.
pub proof fn law_collect_devices_monotone(acc: Seq<DeviceId>, ds: Seq<DeviceId>)
    ensures
        add_devices(acc, ds).len() >= acc.len(),
        add_devices(acc, ds).subrange(0, acc.len() as int) == acc,
        forall|d: DeviceId|
            #[trigger] add_devices(acc, ds).contains(d) <==> (acc.contains(d) || ds.contains(d)),
    decreases ds.len(),
{
    if ds.len() > 0 {
        let pre = ds.drop_last();
        law_collect_devices_monotone(acc, pre);
        let a = add_devices(acc, pre);
        assert(a.push(ds.last()).subrange(0, acc.len() as int) =~= a.subrange(0, acc.len() as int));
        assert forall|d: DeviceId| #[trigger] add_devices(acc, ds).contains(d) <==> (acc.contains(d)
            || ds.contains(d)) by {
            if ds.contains(d) && !pre.contains(d) {
                let k = choose|k: int| 0 <= k < ds.len() && ds[k] == d;
                if k < ds.len() - 1 {
                    assert(pre[k] == d);
                }
            }
            if pre.contains(d) {
                let k = choose|k: int| 0 <= k < pre.len() && pre[k] == d;
                assert(ds[k] == d);
            }
            if !a.contains(ds.last()) {
                assert(a.push(ds.last())[a.len() as int] == ds.last());
                if a.contains(d) {
                    let k = choose|k: int| 0 <= k < a.len() && a[k] == d;
                    assert(a.push(ds.last())[k] == d);
                }
                if a.push(ds.last()).contains(d) && d != ds.last() {
                    let k = choose|k: int| 0 <= k < a.len() + 1 && a.push(ds.last())[k] == d;
                    assert(a[k] == d);
                }
            }
            assert(ds[ds.len() - 1] == ds.last());
        }
    }
}

/// Collecting the same devices a second time changes nothing.
pub proof fn law_collect_devices_idempotent(acc: Seq<DeviceId>, ds: Seq<DeviceId>)
    ensures
        add_devices(add_devices(acc, ds), ds) == add_devices(acc, ds),
{
    law_collect_devices_monotone(acc, ds);
    assert forall|i: int| 0 <= i < ds.len() implies add_devices(acc, ds).contains(#[trigger] ds[i]) by {
        assert(ds.contains(ds[i]));
    }
    lemma_add_present(add_devices(acc, ds), ds);
}

proof fn lemma_add_present(acc: Seq<DeviceId>, ds: Seq<DeviceId>)
    requires
        forall|i: int| 0 <= i < ds.len() ==> acc.contains(#[trigger] ds[i]),
    ensures
        add_devices(acc, ds) == acc,
    decreases ds.len(),
{
    if ds.len() > 0 {
        lemma_add_present(acc, ds.drop_last());
        assert(acc.contains(ds[ds.len() - 1]));
    }
}

/// The persisted form of a wrapped module is that of its inner module, and
/// loading it back yields each parameter with its identifier and kind, on the
/// loading device, its float data narrowed and widened once by the settings.
pub proof fn law_persisted_round_trip<S: PrecisionBridge>(ps: Seq<ParamView>, device: DeviceId)
    ensures
        loaded_all::<S>(items_of::<S>(ps), device).len() == ps.len(),
        forall|i: int|
            0 <= i < ps.len() ==> #[trigger] loaded_all::<S>(items_of::<S>(ps), device)[i] == (ParamView {
                device,
                data: if ps[i].kind == TensorKind::Float {
                    widen_tensor::<S>(narrow_tensor::<S>(ps[i].data))
                } else {
                    ps[i].data
                },
                ..ps[i]
            }),
{
}

/// Collecting devices into an accumulator without repeats leaves none.
pub proof fn law_collect_devices_no_duplicates(acc: Seq<DeviceId>, ds: Seq<DeviceId>)
    requires
        acc.no_duplicates(),
    ensures
        add_devices(acc, ds).no_duplicates(),
    decreases ds.len(),
{
    if ds.len() > 0 {
        law_collect_devices_no_duplicates(acc, ds.drop_last());
        let a = add_devices(acc, ds.drop_last());
        if !a.contains(ds.last()) {
            let b = a.push(ds.last());
            assert forall|i: int, j: int| 0 <= i < b.len() && 0 <= j < b.len() && i != j implies b[i]
                != b[j] by {
                if i == a.len() {
                    assert(a[j] == b[j]);
                } else if j == a.len() {
                    assert(a[i] == b[i]);
                }
            }
        }
    }
}

} // verus!
