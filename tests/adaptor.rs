use precision_adaptor::adaptor::{FullPrecisionAdaptor, RecordAdaptor};
use precision_adaptor::bridge::{from_full_precision, into_full_precision, SameBackend};
use precision_adaptor::logging::{keep_event, LogLevel};
use precision_adaptor::module::{ModuleError, ModuleRecord, ParamModule};
use precision_adaptor::tensor::{DeviceId, Param, ParamId, TensorData, TensorKind};
use precision_adaptor::traversal::{IdentityMapper, ParamCollector};

fn float_param(id: u64, device: u64, shape: Vec<usize>, elems: Vec<u64>) -> Param {
    Param::new(
        ParamId { val: id },
        DeviceId { val: device },
        TensorKind::Float,
        TensorData::new(shape, elems),
    )
}

fn sample_module() -> ParamModule {
    ParamModule::new(vec![
        float_param(7, 1, vec![2, 2], vec![10, 11, 12, 13]),
        float_param(9, 2, vec![3], vec![20, 21, 22]),
        float_param(4, 1, vec![1, 1, 2], vec![30, 31]),
    ])
}

#[test]
fn visit_reports_same_ids_and_shapes_as_inner() {
    let inner = sample_module();
    let mut direct = ParamCollector::new();
    inner.visit(&mut direct);
    let wrapped = FullPrecisionAdaptor::<SameBackend>::new(inner).ok().unwrap();
    let mut through = ParamCollector::new();
    wrapped.visit(&mut through);
    assert_eq!(direct.seen.len(), 3);
    assert_eq!(through.seen.len(), 3);
    for i in 0..3 {
        assert_eq!(direct.seen[i].0, through.seen[i].0);
        assert_eq!(direct.seen[i].2, through.seen[i].2);
        assert_eq!(through.seen[i].1, TensorKind::Float);
    }
    assert_eq!(through.seen[0].0, ParamId { val: 7 });
    assert_eq!(through.seen[1].2, vec![3]);
    assert_eq!(through.seen[2].2, vec![1, 1, 2]);
}

#[test]
fn identity_map_keeps_record() {
    let wrapped = FullPrecisionAdaptor::<SameBackend>::new(sample_module()).ok().unwrap();
    let mut mapper = IdentityMapper;
    let mapped = wrapped.map(&mut mapper);
    let record = mapped.into_record().into_inner();
    assert_eq!(record.params.len(), 3);
    assert_eq!(record.params[0].id, ParamId { val: 7 });
    assert_eq!(record.params[0].data.elems, vec![10, 11, 12, 13]);
    assert_eq!(record.params[1].data.shape, vec![3]);
    assert_eq!(record.params[2].data.elems, vec![30, 31]);
    assert_eq!(record.params[1].device, DeviceId { val: 2 });
}

#[test]
fn collect_devices_keeps_accumulator_and_skips_repeats() {
    let inner = sample_module();
    let acc = vec![DeviceId { val: 5 }, DeviceId { val: 2 }];
    let direct = inner.collect_devices(acc.clone());
    let wrapped = FullPrecisionAdaptor::<SameBackend>::new(inner).ok().unwrap();
    let through = wrapped.collect_devices(acc);
    assert_eq!(through, vec![DeviceId { val: 5 }, DeviceId { val: 2 }, DeviceId { val: 1 }]);
    assert_eq!(direct, through);
    let again = wrapped.collect_devices(through.clone());
    assert_eq!(again, through);
}

#[test]
fn collect_devices_from_empty_accumulator() {
    let wrapped = FullPrecisionAdaptor::<SameBackend>::new(sample_module()).ok().unwrap();
    assert_eq!(wrapped.collect_devices(Vec::new()), vec![DeviceId { val: 1 }, DeviceId { val: 2 }]);
}

#[test]
fn fork_and_to_device_place_every_parameter() {
    let wrapped = FullPrecisionAdaptor::<SameBackend>::new(sample_module()).ok().unwrap();
    let forked = wrapped.fork(DeviceId { val: 8 });
    assert_eq!(forked.collect_devices(Vec::new()), vec![DeviceId { val: 8 }]);
    let moved = forked.to_device(DeviceId { val: 3 });
    let inner = moved.into_inner();
    assert_eq!(inner.params[1].device, DeviceId { val: 3 });
    assert_eq!(inner.params[1].id, ParamId { val: 9 });
    assert_eq!(inner.params[1].data.elems, vec![20, 21, 22]);
}

#[test]
fn wrapping_rejects_non_float_parameter() {
    let mut params = sample_module().params;
    params.push(Param::new(
        ParamId { val: 12 },
        DeviceId { val: 1 },
        TensorKind::Int,
        TensorData::new(vec![1], vec![3]),
    ));
    params.push(Param::new(
        ParamId { val: 13 },
        DeviceId { val: 1 },
        TensorKind::Bool,
        TensorData::new(vec![1], vec![1]),
    ));
    let r = FullPrecisionAdaptor::<SameBackend>::new(ParamModule::new(params));
    match r {
        Err(e) => assert_eq!(e, ModuleError::UnsupportedKind { id: ParamId { val: 12 }, kind: TensorKind::Int }),
        Ok(_) => panic!("an int parameter was wrapped"),
    }
}

#[test]
fn empty_module_wraps_and_visits_nothing() {
    let wrapped = FullPrecisionAdaptor::<SameBackend>::new(ParamModule::new(Vec::new())).ok().unwrap();
    let mut c = ParamCollector::new();
    wrapped.visit(&mut c);
    assert!(c.seen.is_empty());
    assert!(wrapped.collect_devices(Vec::new()).is_empty());
}

#[test]
fn load_record_takes_values_and_keeps_devices() {
    let wrapped = FullPrecisionAdaptor::<SameBackend>::new(sample_module()).ok().unwrap();
    let record = ModuleRecord {
        params: vec![
            float_param(7, 9, vec![2, 2], vec![1, 2, 3, 4]),
            float_param(9, 9, vec![3], vec![5, 6, 7]),
            float_param(4, 9, vec![1, 1, 2], vec![8, 9]),
        ],
    };
    let loaded = wrapped.load_record(RecordAdaptor::new(record)).ok().unwrap().into_inner();
    assert_eq!(loaded.params[0].data.elems, vec![1, 2, 3, 4]);
    assert_eq!(loaded.params[0].device, DeviceId { val: 1 });
    assert_eq!(loaded.params[1].device, DeviceId { val: 2 });
    assert_eq!(loaded.params[2].data.elems, vec![8, 9]);
}

#[test]
fn load_record_length_mismatch() {
    let wrapped = FullPrecisionAdaptor::<SameBackend>::new(sample_module()).ok().unwrap();
    let record = ModuleRecord { params: vec![float_param(7, 1, vec![1], vec![1])] };
    match wrapped.load_record(RecordAdaptor::new(record)) {
        Err(e) => assert_eq!(e, ModuleError::LengthMismatch),
        Ok(_) => panic!("a short record was loaded"),
    }
}

#[test]
fn load_record_kind_mismatch() {
    let wrapped = FullPrecisionAdaptor::<SameBackend>::new(sample_module()).ok().unwrap();
    let record = ModuleRecord {
        params: vec![
            float_param(7, 1, vec![2, 2], vec![1, 2, 3, 4]),
            Param::new(ParamId { val: 9 }, DeviceId { val: 1 }, TensorKind::Bool, TensorData::new(vec![3], vec![0, 1, 0])),
            float_param(4, 1, vec![1, 1, 2], vec![8, 9]),
        ],
    };
    match wrapped.load_record(RecordAdaptor::new(record)) {
        Err(e) => assert_eq!(e, ModuleError::KindMismatch { index: 1 }),
        Ok(_) => panic!("a bool record was loaded into a float parameter"),
    }
}

#[test]
fn item_round_trip_on_device() {
    let wrapped = FullPrecisionAdaptor::<SameBackend>::new(sample_module()).ok().unwrap();
    let item = wrapped.into_record().into_item::<SameBackend>();
    assert_eq!(item.entries.len(), 3);
    assert_eq!(item.entries[1].id, ParamId { val: 9 });
    let back = RecordAdaptor::<SameBackend>::from_item::<SameBackend>(item, DeviceId { val: 6 }).into_inner();
    assert_eq!(back.params[0].device, DeviceId { val: 6 });
    assert_eq!(back.params[0].data.elems, vec![10, 11, 12, 13]);
    assert_eq!(back.params[2].id, ParamId { val: 4 });
}

#[test]
fn same_backend_conversion_is_identity() {
    let t = TensorData::new(vec![2], vec![5, 6]);
    let w = into_full_precision::<SameBackend>(t);
    assert_eq!(w.elems, vec![5, 6]);
    let n = from_full_precision::<SameBackend>(w);
    assert_eq!(n.shape, vec![2]);
    assert_eq!(n.elems, vec![5, 6]);
}

#[test]
fn log_filter_drops_verbose_wgpu_events() {
    assert!(!keep_event(Some(b"wgpu_core::device".as_slice()), LogLevel::Info));
    assert!(!keep_event(Some(b"wgpu".as_slice()), LogLevel::Trace));
    assert!(keep_event(Some(b"wgpu_hal".as_slice()), LogLevel::Warn));
    assert!(keep_event(Some(b"burn_train".as_slice()), LogLevel::Info));
    assert!(keep_event(Some(b"wgp".as_slice()), LogLevel::Debug));
    assert!(keep_event(None, LogLevel::Info));
}
