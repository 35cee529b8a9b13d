//! Lifecycle hooks: one descriptor per registered (hook type, target) pair,
//! built before the loader scans the table.
use vstd::prelude::*;

verus! {

/// The lifecycle events a plugin can subscribe a function to.
#[derive(Clone, Copy, Debug, PartialEq, Eq, Structural)]
pub enum HookType {
    InitWutMalloc,
    FiniWutMalloc,
    InitWutNewlib,
    FiniWutNewlib,
    InitWutStdcpp,
    FiniWutStdcpp,
    InitWutDevoptab,
    FiniWutDevoptab,
    InitWutSockets,
    FiniWutSockets,
    InitWrapper,
    FiniWrapper,
    InitConfig,
    InitStorage,
    InitPlugin,
    DeinitPlugin,
    ApplicationStarts,
    ReleaseForeground,
    AcquiredForeground,
    ApplicationRequestsExit,
    ApplicationEnds,
}

/// A hook type paired with the address of the function that handles it.
#[derive(Clone, Copy, Debug, PartialEq, Eq, Structural)]
pub struct HookDescriptor {
    pub hook_type: HookType,
    pub target: usize,
}

/// The table after registering `d`: a pair already present is not added twice.
pub open spec fn spec_register(s: Seq<HookDescriptor>, d: HookDescriptor) -> Seq<HookDescriptor> {
    if s.contains(d) {
        s
    } else {
        s.push(d)
    }
}

/// The table after registering `hooks` in order, starting from none.
pub open spec fn spec_registered(hooks: Seq<HookDescriptor>) -> Seq<HookDescriptor>
    decreases hooks.len(),
{
    if hooks.len() == 0 {
        Seq::empty()
    } else {
        spec_register(spec_registered(hooks.drop_last()), hooks.last())
    }
}

pub proof fn lemma_registered(hooks: Seq<HookDescriptor>)
    ensures
        spec_registered(hooks).no_duplicates(),
        forall|d: HookDescriptor| #[trigger] spec_registered(hooks).contains(d) <==> hooks.contains(d),
    decreases hooks.len(),
{
    if hooks.len() > 0 {
        let prev = hooks.drop_last();
        lemma_registered(prev);
        let t = spec_registered(prev);
        let last = hooks.last();
        assert forall|d: HookDescriptor| prev.contains(d) || d == last <==> hooks.contains(d) by {
            if prev.contains(d) {
                let i = choose|i: int| 0 <= i < prev.len() && prev[i] == d;
                assert(hooks[i] == d);
            }
            if d == last {
                assert(hooks[hooks.len() - 1] == d);
            }
            if hooks.contains(d) {
                let i = choose|i: int| 0 <= i < hooks.len() && hooks[i] == d;
                if i < hooks.len() - 1 {
                    assert(prev[i] == d);
                }
            }
        }
        if !t.contains(last) {
            let u = t.push(last);
            assert forall|i: int, j: int| 0 <= i < u.len() && 0 <= j < u.len() && i != j implies u[i]
                != u[j] by {
                if i < t.len() && j < t.len() {
                } else if i < t.len() {
                    assert(t.contains(u[i]));
                } else {
                    assert(t.contains(u[j]));
                }
            }
            assert forall|d: HookDescriptor| u.contains(d) <==> t.contains(d) || d == last by {
                if t.contains(d) {
                    let i = choose|i: int| 0 <= i < t.len() && t[i] == d;
                    assert(u[i] == d);
                }
                if d == last {
                    assert(u[u.len() - 1] == d);
                }
                if u.contains(d) {
                    let i = choose|i: int| 0 <= i < u.len() && u[i] == d;
                    if i < t.len() {
                        assert(t[i] == d);
                    }
                }
            }
        }
    }
}

/// The descriptors that the loader scans.
pub struct HookTable {
    descriptors: Vec<HookDescriptor>,
}

impl View for HookTable {
    type V = Seq<HookDescriptor>;

    closed spec fn view(&self) -> Seq<HookDescriptor> {
        self.descriptors@
    }
}

impl HookTable {
    pub fn new() -> (r: HookTable)
        ensures
            r@ == Seq::<HookDescriptor>::empty(),
    {
        HookTable { descriptors: Vec::new() }
    }

    /// Whether `d` is in the table.
    pub fn contains(&self, d: HookDescriptor) -> (r: bool)
        ensures
            r == self@.contains(d),
    {
        let mut i: usize = 0;
        while i < self.descriptors.len()
            invariant
                0 <= i <= self.descriptors@.len(),
                forall|j: int| 0 <= j < i ==> self.descriptors@[j] != d,
            decreases self.descriptors@.len() - i,
        {
            if self.descriptors[i] == d {
                assert(self@[i as int] == d);
                return true;
            }
            i = i + 1;
        }
        false
    }

    /// Registers `target` for `hook_type`; returns whether a descriptor was added.
    pub fn register(&mut self, hook_type: HookType, target: usize) -> (added: bool)
        ensures
            final(self)@ == spec_register(old(self)@, HookDescriptor { hook_type, target }),
            added == !old(self)@.contains(HookDescriptor { hook_type, target }),
    {
        let d = HookDescriptor { hook_type, target };
        if self.contains(d) {
            false
        } else {
            self.descriptors.push(d);
            true
        }
    }

    /// The table that registering `hooks` in order builds.
    pub fn from_hooks(hooks: &[HookDescriptor]) -> (r: HookTable)
        ensures
            r@ == spec_registered(hooks@),
    {
        let mut t = HookTable::new();
        let mut i: usize = 0;
        while i < hooks.len()
            invariant
                0 <= i <= hooks@.len(),
                t@ == spec_registered(hooks@.subrange(0, i as int)),
            decreases hooks@.len() - i,
        {
            assert(hooks@.subrange(0, i as int + 1).drop_last() =~= hooks@.subrange(0, i as int));
            t.register(hooks[i].hook_type, hooks[i].target);
            i = i + 1;
        }
        assert(hooks@.subrange(0, i as int) =~= hooks@);
        t
    }

    pub fn len(&self) -> (r: usize)
        ensures
            r == self@.len(),
    {
        self.descriptors.len()
    }

    /// The descriptor at `index`.
    pub fn get(&self, index: usize) -> (r: HookDescriptor)
        requires
            index < self@.len(),
        ensures
            r == self@[index as int],
    {
        self.descriptors[index]
    }
}

/// Whatever the order of registration, a fixed set of hooks yields the same
/// set of descriptors, with exactly one descriptor for each distinct pair.
pub proof fn law_hook_table_order_independent(a: Seq<HookDescriptor>, b: Seq<HookDescriptor>)
    requires
        a.to_set() == b.to_set(),
    ensures
        spec_registered(a).to_set() == spec_registered(b).to_set(),
        spec_registered(a).no_duplicates(),
        spec_registered(b).no_duplicates(),
        forall|d: HookDescriptor| #[trigger] spec_registered(a).contains(d) <==> a.contains(d),
{
    lemma_registered(a);
    lemma_registered(b);
    assert forall|d: HookDescriptor| spec_registered(a).to_set().contains(d) <==> spec_registered(
        b,
    ).to_set().contains(d) by {
        assert(a.to_set().contains(d) == a.contains(d));
        assert(b.to_set().contains(d) == b.contains(d));
        assert(a.to_set().contains(d) == b.to_set().contains(d));
        assert(spec_registered(a).to_set().contains(d) == spec_registered(a).contains(d));
        assert(spec_registered(b).to_set().contains(d) == spec_registered(b).contains(d));
    }
    assert(spec_registered(a).to_set() =~= spec_registered(b).to_set());
}

/// A weak symbol's address, where it resolved: an absent one is null and is
/// never called.
pub fn weak_target(address: usize) -> (r: Option<usize>)
    ensures
        r == (if address == 0 {
            None
        } else {
            Some(address)
        }),
{
    if address == 0 {
        None
    } else {
        Some(address)
    }
}

/// Registering hooks that are pairwise distinct keeps them all, in order.
pub proof fn lemma_registered_distinct(hooks: Seq<HookDescriptor>)
    requires
        hooks.no_duplicates(),
    ensures
        spec_registered(hooks) == hooks,
    decreases hooks.len(),
{
    if hooks.len() > 0 {
        let prev = hooks.drop_last();
        assert(prev.no_duplicates());
        lemma_registered_distinct(prev);
        if prev.contains(hooks.last()) {
            let i = choose|i: int| 0 <= i < prev.len() && prev[i] == hooks.last();
            assert(hooks[i] == hooks[hooks.len() - 1]);
        }
        assert(prev.push(hooks.last()) =~= hooks);
    }
}

/// The addresses of the handlers every plugin registers: the C runtime's
/// set-up and tear-down, the constructor wrappers, and the configuration and
/// storage initialisers.
pub struct StandardTargets {
    pub init_malloc: usize,
    pub fini_malloc: usize,
    pub init_newlib: usize,
    pub fini_newlib: usize,
    pub init_stdcpp: usize,
    pub fini_stdcpp: usize,
    pub init_devoptab: usize,
    pub fini_devoptab: usize,
    pub init_sockets: usize,
    pub fini_sockets: usize,
    pub init_wrapper: usize,
    pub fini_wrapper: usize,
    pub init_config: usize,
    pub init_storage: usize,
}

/// The fourteen descriptors of the standard hooks, one per hook type.
pub open spec fn spec_standard_hooks(t: StandardTargets) -> Seq<HookDescriptor> {
    seq![
        HookDescriptor { hook_type: HookType::InitWutMalloc, target: t.init_malloc },
        HookDescriptor { hook_type: HookType::FiniWutMalloc, target: t.fini_malloc },
        HookDescriptor { hook_type: HookType::InitWutSockets, target: t.init_sockets },
        HookDescriptor { hook_type: HookType::FiniWutSockets, target: t.fini_sockets },
        HookDescriptor { hook_type: HookType::InitWutNewlib, target: t.init_newlib },
        HookDescriptor { hook_type: HookType::FiniWutNewlib, target: t.fini_newlib },
        HookDescriptor { hook_type: HookType::InitWutStdcpp, target: t.init_stdcpp },
        HookDescriptor { hook_type: HookType::FiniWutStdcpp, target: t.fini_stdcpp },
        HookDescriptor { hook_type: HookType::InitWutDevoptab, target: t.init_devoptab },
        HookDescriptor { hook_type: HookType::FiniWutDevoptab, target: t.fini_devoptab },
        HookDescriptor { hook_type: HookType::InitWrapper, target: t.init_wrapper },
        HookDescriptor { hook_type: HookType::FiniWrapper, target: t.fini_wrapper },
        HookDescriptor { hook_type: HookType::InitConfig, target: t.init_config },
        HookDescriptor { hook_type: HookType::InitStorage, target: t.init_storage },
    ]
}

/// The table of the standard hooks.
pub fn standard_hooks(t: &StandardTargets) -> (r: HookTable)
    ensures
        r@ == spec_standard_hooks(*t),
{
    let hooks = vec![
        HookDescriptor { hook_type: HookType::InitWutMalloc, target: t.init_malloc },
        HookDescriptor { hook_type: HookType::FiniWutMalloc, target: t.fini_malloc },
        HookDescriptor { hook_type: HookType::InitWutSockets, target: t.init_sockets },
        HookDescriptor { hook_type: HookType::FiniWutSockets, target: t.fini_sockets },
        HookDescriptor { hook_type: HookType::InitWutNewlib, target: t.init_newlib },
        HookDescriptor { hook_type: HookType::FiniWutNewlib, target: t.fini_newlib },
        HookDescriptor { hook_type: HookType::InitWutStdcpp, target: t.init_stdcpp },
        HookDescriptor { hook_type: HookType::FiniWutStdcpp, target: t.fini_stdcpp },
        HookDescriptor { hook_type: HookType::InitWutDevoptab, target: t.init_devoptab },
        HookDescriptor { hook_type: HookType::FiniWutDevoptab, target: t.fini_devoptab },
        HookDescriptor { hook_type: HookType::InitWrapper, target: t.init_wrapper },
        HookDescriptor { hook_type: HookType::FiniWrapper, target: t.fini_wrapper },
        HookDescriptor { hook_type: HookType::InitConfig, target: t.init_config },
        HookDescriptor { hook_type: HookType::InitStorage, target: t.init_storage },
    ];
    let ghost s = spec_standard_hooks(*t);
    assert(hooks@ =~= s);
    assert(s.no_duplicates()) by {
        assert forall|i: int, j: int| 0 <= i < s.len() && 0 <= j < s.len() && i != j implies s[i]
            != s[j] by {
            assert(s[i].hook_type != s[j].hook_type);
        }
    }
    proof {
        lemma_registered_distinct(s);
    }
    HookTable::from_hooks(hooks.as_slice())
}

} // verus!
