use precision_adaptor::adaptor::FullPrecisionAdaptor;
use precision_adaptor::bridge::{from_full_precision, into_full_precision, PrecisionBridge};
use precision_adaptor::module::ParamModule;
use precision_adaptor::tensor::{DeviceId, Param, ParamId, TensorData, TensorKind, TensorView};
use precision_adaptor::traversal::{ModuleMapper, ParamCollector};

/// A 16-bit host backend (bfloat16) whose full-precision counterpart is f32.
struct Bf16;

impl PrecisionBridge for Bf16 {
    fn widen_spec(x: u64) -> u64 {
        (x & 0xffff) << 16
    }

    fn narrow_spec(x: u64) -> u64 {
        (x & 0xffff_ffff) >> 16
    }

    fn widen(x: u64) -> u64 {
        (x & 0xffff) << 16
    }

    fn narrow(x: u64) -> u64 {
        (x & 0xffff_ffff) >> 16
    }
}

fn bf16_value(bits: u64) -> f32 {
    f32::from_bits((bits as u32) << 16)
}

fn bf16_bits(v: f32) -> u64 {
    (v.to_bits() >> 16) as u64
}

/// Scales every float element by two, in host precision.
struct Doubler {
    calls: usize,
}

impl vstd::view::View for Doubler {
    type V = usize;

    fn view(&self) -> usize {
        self.calls
    }
}

impl ModuleMapper for Doubler {
    fn mapped(_s: usize, _id: ParamId, _kind: TensorKind, _t: TensorView) -> TensorView {
        unreachable!("a description of the mapper, never called at run time")
    }

    fn next(s: usize, _id: ParamId, _kind: TensorKind, _t: TensorView) -> usize {
        s + 1
    }

    fn map_float(&mut self, _id: &ParamId, t: TensorData) -> TensorData {
        self.calls += 1;
        let elems = t.elems.iter().map(|b| bf16_bits(bf16_value(*b) * 2.0)).collect();
        TensorData::new(t.shape, elems)
    }

    fn map_int(&mut self, _id: &ParamId, t: TensorData) -> TensorData {
        t
    }

    fn map_bool(&mut self, _id: &ParamId, t: TensorData) -> TensorData {
        t
    }
}

fn start_values() -> Vec<f32> {
    (0..12).map(|i| i as f32 * 0.75 - 3.0).collect()
}

fn module_3x4() -> ParamModule {
    let elems = start_values().iter().map(|v| v.to_bits() as u64).collect();
    ParamModule::new(vec![Param::new(
        ParamId { val: 42 },
        DeviceId { val: 0 },
        TensorKind::Float,
        TensorData::new(vec![3, 4], elems),
    )])
}

#[test]
fn scale_by_two_then_reload() {
    let wrapped = FullPrecisionAdaptor::<Bf16>::new(module_3x4()).ok().unwrap();
    let mut mapper = Doubler { calls: 0 };
    let mapped = wrapped.map(&mut mapper);
    assert_eq!(mapper.calls, 1);
    let record = mapped.into_record();
    let fresh = FullPrecisionAdaptor::<Bf16>::new(module_3x4()).ok().unwrap();
    let loaded = fresh.load_record(record).ok().unwrap().into_inner();
    let p = &loaded.params[0];
    assert_eq!(p.id, ParamId { val: 42 });
    assert_eq!(p.data.shape, vec![3, 4]);
    let start = start_values();
    for i in 0..12 {
        let got = f32::from_bits(p.data.elems[i] as u32);
        let want = start[i] * 2.0;
        assert!((got - want).abs() <= want.abs() / 128.0, "element {}: {} vs {}", i, got, want);
    }
}

#[test]
fn visit_narrows_to_host_precision() {
    let wrapped = FullPrecisionAdaptor::<Bf16>::new(module_3x4()).ok().unwrap();
    let mut c = ParamCollector::new();
    wrapped.visit(&mut c);
    assert_eq!(c.seen.len(), 1);
    assert_eq!(c.seen[0].0, ParamId { val: 42 });
    assert_eq!(c.seen[0].2, vec![3, 4]);
}

#[test]
fn bridge_conversion_changes_elements_not_shape() {
    let one = 1.0f32.to_bits() as u64;
    let t = TensorData::new(vec![1, 2], vec![one, 0]);
    let n = from_full_precision::<Bf16>(t);
    assert_eq!(n.shape, vec![1, 2]);
    assert_eq!(n.elems, vec![0x3f80, 0]);
    let w = into_full_precision::<Bf16>(n);
    assert_eq!(w.elems, vec![one, 0]);
}

#[test]
fn identity_map_keeps_values_up_to_host_precision() {
    let full = vec![0x3fc0_1234u64, 0x4000_0000u64];
    let wrapped = FullPrecisionAdaptor::<Bf16>::new(ParamModule::new(vec![Param::new(
        ParamId { val: 3 },
        DeviceId { val: 1 },
        TensorKind::Float,
        TensorData::new(vec![2], full),
    )]))
    .ok()
    .unwrap();
    let mut mapper = precision_adaptor::traversal::IdentityMapper;
    let record = wrapped.map(&mut mapper).into_record().into_inner();
    assert_eq!(record.params[0].id, ParamId { val: 3 });
    assert_eq!(record.params[0].data.shape, vec![2]);
    assert_eq!(record.params[0].data.elems, vec![0x3fc0_0000u64, 0x4000_0000u64]);
}
