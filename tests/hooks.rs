use wups::hooks::{standard_hooks, weak_target, HookDescriptor, HookTable, HookType, StandardTargets};

fn d(hook_type: HookType, target: usize) -> HookDescriptor {
    HookDescriptor { hook_type, target }
}

fn sorted(t: &HookTable) -> Vec<(usize, String)> {
    let mut v: Vec<(usize, String)> =
        (0..t.len()).map(|i| (t.get(i).target, format!("{:?}", t.get(i).hook_type))).collect();
    v.sort();
    v
}

#[test]
fn one_descriptor_per_pair_whatever_the_order() {
    let a = vec![
        d(HookType::InitPlugin, 0x100),
        d(HookType::DeinitPlugin, 0x200),
        d(HookType::InitPlugin, 0x300),
        d(HookType::ApplicationStarts, 0x100),
    ];
    let b = vec![a[3], a[2], a[1], a[0], a[2]];
    let ta = HookTable::from_hooks(&a);
    let tb = HookTable::from_hooks(&b);
    assert_eq!(ta.len(), 4);
    assert_eq!(tb.len(), 4);
    assert_eq!(sorted(&ta), sorted(&tb));
}

#[test]
fn registering_twice_adds_once() {
    let mut t = HookTable::new();
    assert!(t.register(HookType::InitStorage, 7));
    assert!(!t.register(HookType::InitStorage, 7));
    assert!(t.register(HookType::InitConfig, 7));
    assert_eq!(t.len(), 2);
    assert!(t.contains(d(HookType::InitConfig, 7)));
    assert!(!t.contains(d(HookType::InitConfig, 8)));
    assert_eq!(t.get(0), d(HookType::InitStorage, 7));
}

#[test]
fn absent_weak_symbol_is_not_called() {
    assert_eq!(weak_target(0), None);
    assert_eq!(weak_target(0x1234), Some(0x1234));
}

#[test]
fn standard_hook_table() {
    let t = StandardTargets {
        init_malloc: 1,
        fini_malloc: 2,
        init_newlib: 3,
        fini_newlib: 4,
        init_stdcpp: 5,
        fini_stdcpp: 6,
        init_devoptab: 7,
        fini_devoptab: 8,
        init_sockets: 9,
        fini_sockets: 10,
        init_wrapper: 11,
        fini_wrapper: 12,
        init_config: 13,
        init_storage: 14,
    };
    let table = standard_hooks(&t);
    assert_eq!(table.len(), 14);
    assert_eq!(table.get(0), d(HookType::InitWutMalloc, 1));
    assert_eq!(table.get(2), d(HookType::InitWutSockets, 9));
    assert_eq!(table.get(13), d(HookType::InitStorage, 14));
}
