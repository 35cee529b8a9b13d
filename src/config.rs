//! A stateless settings menu: on each open event the items are attached
//! afresh, each one bound to a storage key that keeps its value.
use vstd::prelude::*;
use vstd::string::StrSliceExecFns;
use vstd::utf8::encode_utf8;
use crate::error::{MenuError, StorageError, CONFIG_SUCCESS, menu_result, spec_menu_status};
use crate::storage::save;
use crate::item_store::ItemStore;
use crate::storage::{
    Items, StorageCompatible, contains_zero, load, spec_load, spec_store_items,
    spec_store_result, store,
};

verus! {

/// `s` holds a 0 byte and cannot be handed to the host as a C string.
pub open spec fn has_nul(s: Seq<char>) -> bool {
    encode_utf8(s).contains(0u8)
}

pub fn text_has_nul(s: &str) -> (r: bool)
    ensures
        r == has_nul(s@),
{
    let b = s.as_bytes_vec();
    contains_zero(b.as_slice())
}

/// A line of text.
pub struct Label {
    pub text: String,
}

/// A value that is on or off, stored as `bool` under `id`.
pub struct Toggle {
    pub text: String,
    pub id: String,
    pub default: bool,
    pub true_value: String,
    pub false_value: String,
}

/// A number in `[min, max]`, stored as `i32` under `id`.
pub struct Range {
    pub text: String,
    pub id: String,
    pub default: i32,
    pub min: i32,
    pub max: i32,
}

/// One of a list of options, its index stored as `u32` under `id`.
pub struct Select {
    pub text: String,
    pub id: String,
    pub default: u32,
    pub options: Vec<String>,
}

/// A sub-menu and the items attached to it so far.
pub struct Menu {
    pub text: String,
    pub items: Vec<ConfigNode>,
}

/// An attached item, with the value it shows.
pub enum ConfigNode {
    Category(Menu),
    Label(Label),
    Toggle(Toggle, bool),
    Range(Range, i32),
    Select(Select, u32),
}

/// The value an item bound to `id` shows, and the items after attaching it:
/// what is stored, or else the default, which is then stored.
pub open spec fn spec_resolve<T: StorageCompatible>(items: Items, id: Seq<char>, default: T::V) -> (
    Result<T::V, MenuError>,
    Items,
) {
    match spec_load::<T>(items, id) {
        Ok(v) => (Ok(v), items),
        Err(StorageError::NotFound) => match spec_store_result::<T>(id, default) {
            Ok(_) => (Ok(default), spec_store_items::<T>(items, id, default)),
            Err(e) => (Err(MenuError::Storage(e)), items),
        },
        Err(e) => (Err(MenuError::Storage(e)), items),
    }
}

/// What attaching does with the outcome of loading an item's value: show
/// the loaded value; where nothing is stored, show the default and store it
/// (the `bool` says so); any other failure ends the attach.
pub open spec fn spec_resolve_loaded<V>(loaded: Result<V, StorageError>, default: V) -> Result<
    (V, bool),
    MenuError,
> {
    match loaded {
        Ok(v) => Ok((v, false)),
        Err(StorageError::NotFound) => Ok((default, true)),
        Err(e) => Err(MenuError::Storage(e)),
    }
}

pub fn resolve_loaded<T>(loaded: Result<T, StorageError>, default: T) -> (r: Result<
    (T, bool),
    MenuError,
>)
    ensures
        r == spec_resolve_loaded(loaded, default),
{
    match loaded {
        Ok(v) => Ok((v, false)),
        Err(StorageError::NotFound) => Ok((default, true)),
        Err(e) => Err(MenuError::Storage(e)),
    }
}

/// Loads the value under `id`, or stores `default` there where nothing is.
pub fn load_or_store_default<T: StorageCompatible + Copy>(
    storage: &mut ItemStore,
    id: &str,
    default: T,
) -> (r: Result<T, MenuError>)
    requires
        old(storage).wf(),
    ensures
        final(storage).wf(),
        final(storage)@.saved == old(storage)@.saved,
        final(storage)@.items == spec_resolve::<T>(old(storage)@.items, id@, default@).1,
        match r {
            Ok(v) => spec_resolve::<T>(old(storage)@.items, id@, default@).0 == Ok::<
                T::V,
                MenuError,
            >(v@),
            Err(e) => spec_resolve::<T>(old(storage)@.items, id@, default@).0 == Err::<
                T::V,
                MenuError,
            >(e),
        },
{
    let loaded = load::<T>(storage, id);
    match resolve_loaded(loaded, default) {
        Err(e) => Err(e),
        Ok((v, false)) => Ok(v),
        Ok((v, true)) => match store::<T>(storage, id, v) {
            Ok(()) => Ok(v),
            Err(e) => Err(MenuError::Storage(e)),
        },
    }
}

/// `v` lies in `[min, max]`.
pub open spec fn in_range(v: i32, min: i32, max: i32) -> bool {
    min <= v <= max
}

/// What attaching a toggle shows, and the items after it.
pub open spec fn spec_attach_toggle(items: Items, t: Toggle) -> (Result<bool, MenuError>, Items) {
    if has_nul(t.text@) || has_nul(t.id@) || has_nul(t.true_value@) || has_nul(t.false_value@) {
        (Err(MenuError::InternalNullByte), items)
    } else {
        spec_resolve::<bool>(items, t.id@, t.default)
    }
}

/// What attaching a range shows, and the items after it: a stored value
/// outside `[min, max]` shows as the default.
pub open spec fn spec_attach_range(items: Items, g: Range) -> (Result<i32, MenuError>, Items) {
    if has_nul(g.text@) || has_nul(g.id@) {
        (Err(MenuError::InternalNullByte), items)
    } else {
        let (r, after) = spec_resolve::<i32>(items, g.id@, g.default);
        match r {
            Ok(v) => (Ok(if in_range(v, g.min, g.max) { v } else { g.default }), after),
            Err(e) => (Err(e), after),
        }
    }
}

/// Some option holds a 0 byte.
pub open spec fn options_have_nul(options: Seq<String>) -> bool {
    exists|i: int| 0 <= i < options.len() && has_nul(#[trigger] options[i]@)
}

/// What attaching a select shows, and the items after it: a stored index
/// past the last option shows as the default.
pub open spec fn spec_attach_select(items: Items, s: Select) -> (Result<u32, MenuError>, Items) {
    if has_nul(s.text@) || has_nul(s.id@) || options_have_nul(s.options@) {
        (Err(MenuError::InternalNullByte), items)
    } else {
        let (r, after) = spec_resolve::<u32>(items, s.id@, s.default);
        match r {
            Ok(v) => (Ok(if (v as int) < s.options@.len() { v } else { s.default }), after),
            Err(e) => (Err(e), after),
        }
    }
}

impl Label {
    pub fn new(text: &str) -> (r: Label)
        ensures
            r.text@ == text@,
    {
        Label { text: text.to_string() }
    }

    /// Attaches the label; it reads nothing from storage.
    pub fn attach(self) -> (r: Result<ConfigNode, MenuError>)
        ensures
            r == (if has_nul(self.text@) {
                Err(MenuError::InternalNullByte)
            } else {
                Ok(ConfigNode::Label(self))
            }),
    {
        if text_has_nul(self.text.as_str()) {
            return Err(MenuError::InternalNullByte);
        }
        Ok(ConfigNode::Label(self))
    }
}

impl Toggle {
    pub fn new(text: &str, id: &str, default: bool, true_value: &str, false_value: &str) -> (r:
        Toggle)
        ensures
            r.text@ == text@,
            r.id@ == id@,
            r.default == default,
            r.true_value@ == true_value@,
            r.false_value@ == false_value@,
    {
        Toggle {
            text: text.to_string(),
            id: id.to_string(),
            default,
            true_value: true_value.to_string(),
            false_value: false_value.to_string(),
        }
    }

    /// Fails with `InternalNullByte` where a text cannot be handed to the host.
    pub fn check_text(&self) -> (r: Result<(), MenuError>)
        ensures
            r == (if has_nul(self.text@) || has_nul(self.id@) || has_nul(self.true_value@)
                || has_nul(self.false_value@) {
                Err(MenuError::InternalNullByte)
            } else {
                Ok(())
            }),
    {
        if text_has_nul(self.text.as_str()) || text_has_nul(self.id.as_str()) || text_has_nul(
            self.true_value.as_str(),
        ) || text_has_nul(self.false_value.as_str()) {
            return Err(MenuError::InternalNullByte);
        }
        Ok(())
    }

    /// Attaches the toggle, showing the stored value, or the default, which
    /// is then stored.
    pub fn attach(self, storage: &mut ItemStore) -> (r: Result<ConfigNode, MenuError>)
        requires
            old(storage).wf(),
        ensures
            final(storage).wf(),
            final(storage)@.saved == old(storage)@.saved,
            final(storage)@.items == spec_attach_toggle(old(storage)@.items, self).1,
            r == (match spec_attach_toggle(old(storage)@.items, self).0 {
                Ok(v) => Ok(ConfigNode::Toggle(self, v)),
                Err(e) => Err(e),
            }),
    {
        if let Err(e) = self.check_text() {
            return Err(e);
        }
        match load_or_store_default::<bool>(storage, self.id.as_str(), self.default) {
            Ok(v) => Ok(ConfigNode::Toggle(self, v)),
            Err(e) => Err(e),
        }
    }
}

impl Range {
    pub fn new(text: &str, id: &str, default: i32, min: i32, max: i32) -> (r: Range)
        ensures
            r.text@ == text@,
            r.id@ == id@,
            r.default == default,
            r.min == min,
            r.max == max,
    {
        Range { text: text.to_string(), id: id.to_string(), default, min, max }
    }

    /// Fails with `InternalNullByte` where a text cannot be handed to the host.
    pub fn check_text(&self) -> (r: Result<(), MenuError>)
        ensures
            r == (if has_nul(self.text@) || has_nul(self.id@) {
                Err(MenuError::InternalNullByte)
            } else {
                Ok(())
            }),
    {
        if text_has_nul(self.text.as_str()) || text_has_nul(self.id.as_str()) {
            return Err(MenuError::InternalNullByte);
        }
        Ok(())
    }

    /// The value shown for a loaded `v`: `v` where it lies in `[min, max]`,
    /// the default otherwise.
    pub fn shown(&self, v: i32) -> (r: i32)
        ensures
            r == (if in_range(v, self.min, self.max) {
                v
            } else {
                self.default
            }),
    {
        if self.min <= v && v <= self.max {
            v
        } else {
            self.default
        }
    }

    /// Attaches the range, showing the stored value where it lies in
    /// `[min, max]` and the default otherwise; where nothing is stored the
    /// default is stored.
    pub fn attach(self, storage: &mut ItemStore) -> (r: Result<ConfigNode, MenuError>)
        requires
            old(storage).wf(),
        ensures
            final(storage).wf(),
            final(storage)@.saved == old(storage)@.saved,
            final(storage)@.items == spec_attach_range(old(storage)@.items, self).1,
            r == (match spec_attach_range(old(storage)@.items, self).0 {
                Ok(v) => Ok(ConfigNode::Range(self, v)),
                Err(e) => Err(e),
            }),
    {
        if let Err(e) = self.check_text() {
            return Err(e);
        }
        match load_or_store_default::<i32>(storage, self.id.as_str(), self.default) {
            Ok(v) => {
                let current = self.shown(v);
                Ok(ConfigNode::Range(self, current))
            },
            Err(e) => Err(e),
        }
    }
}

impl Select {
    pub fn new(text: &str, id: &str, default: u32, options: Vec<&str>) -> (r: Select)
        ensures
            r.text@ == text@,
            r.id@ == id@,
            r.default == default,
            r.options@.len() == options@.len(),
            forall|i: int| 0 <= i < options@.len() ==> #[trigger] r.options@[i]@ == options@[i]@,
    {
        let mut opts: Vec<String> = Vec::new();
        let mut i: usize = 0;
        while i < options.len()
            invariant
                0 <= i <= options@.len(),
                opts@.len() == i,
                forall|j: int| 0 <= j < i ==> #[trigger] opts@[j]@ == options@[j]@,
            decreases options@.len() - i,
        {
            opts.push(options[i].to_string());
            i = i + 1;
        }
        Select { text: text.to_string(), id: id.to_string(), default, options: opts }
    }

    /// Fails with `InternalNullByte` where a text or an option cannot be
    /// handed to the host.
    pub fn check_text(&self) -> (r: Result<(), MenuError>)
        ensures
            r == (if has_nul(self.text@) || has_nul(self.id@) || options_have_nul(self.options@) {
                Err(MenuError::InternalNullByte)
            } else {
                Ok(())
            }),
    {
        if text_has_nul(self.text.as_str()) || text_has_nul(self.id.as_str()) {
            return Err(MenuError::InternalNullByte);
        }
        let mut i: usize = 0;
        while i < self.options.len()
            invariant
                0 <= i <= self.options@.len(),
                forall|j: int| 0 <= j < i ==> !has_nul(#[trigger] self.options@[j]@),
            decreases self.options@.len() - i,
        {
            if text_has_nul(self.options[i].as_str()) {
                return Err(MenuError::InternalNullByte);
            }
            i = i + 1;
        }
        Ok(())
    }

    /// The index shown for a loaded `v`: `v` where it names an option, the
    /// default otherwise.
    pub fn shown(&self, v: u32) -> (r: u32)
        ensures
            r == (if (v as int) < self.options@.len() {
                v
            } else {
                self.default
            }),
    {
        if (v as usize) < self.options.len() {
            v
        } else {
            self.default
        }
    }

    /// Attaches the select, showing the stored index where it names an
    /// option and the default otherwise; where nothing is stored the default
    /// is stored.
    pub fn attach(self, storage: &mut ItemStore) -> (r: Result<ConfigNode, MenuError>)
        requires
            old(storage).wf(),
        ensures
            final(storage).wf(),
            final(storage)@.saved == old(storage)@.saved,
            final(storage)@.items == spec_attach_select(old(storage)@.items, self).1,
            r == (match spec_attach_select(old(storage)@.items, self).0 {
                Ok(v) => Ok(ConfigNode::Select(self, v)),
                Err(e) => Err(e),
            }),
    {
        if let Err(e) = self.check_text() {
            return Err(e);
        }
        match load_or_store_default::<u32>(storage, self.id.as_str(), self.default) {
            Ok(v) => {
                let current = self.shown(v);
                Ok(ConfigNode::Select(self, current))
            },
            Err(e) => Err(e),
        }
    }
}

impl Menu {
    /// A sub-menu titled `text`, with no items yet.
    pub fn new(text: &str) -> (r: Result<Menu, MenuError>)
        ensures
            r is Err <==> has_nul(text@),
            r is Err ==> r == Err::<Menu, MenuError>(MenuError::InternalNullByte),
            r is Ok ==> r->Ok_0.text@ == text@ && r->Ok_0.items@.len() == 0,
    {
        if text_has_nul(text) {
            return Err(MenuError::InternalNullByte);
        }
        Ok(Menu { text: text.to_string(), items: Vec::new() })
    }

    pub fn text(&self) -> (r: String)
        ensures
            r@ == self.text@,
    {
        self.text.clone()
    }

    /// Puts an attached item at the end of the sub-menu.
    pub fn push(&mut self, item: ConfigNode)
        ensures
            final(self).text == old(self).text,
            final(self).items@ == old(self).items@.push(item),
    {
        self.items.push(item);
    }

    /// Attaches the sub-menu, with its items, to its parent.
    pub fn attach(self) -> (r: ConfigNode)
        ensures
            r == ConfigNode::Category(self),
    {
        ConfigNode::Category(self)
    }
}

/// The top of the menu, under the handle the host gives to an open event.
pub struct MenuRoot {
    pub items: Vec<ConfigNode>,
}

impl MenuRoot {
    pub fn new() -> (r: MenuRoot)
        ensures
            r.items@.len() == 0,
    {
        MenuRoot { items: Vec::new() }
    }

    /// Puts an attached item at the end of the menu.
    pub fn push(&mut self, item: ConfigNode)
        ensures
            final(self).items@ == old(self).items@.push(item),
    {
        self.items.push(item);
    }
}

/// A menu registered with the host: its base is a category.
pub struct MenuUI {
    pub root: Menu,
}

/// What registering `ui` gives where `registered` is the menu registered so
/// far: a process registers one menu, whose base is a category with a title
/// the host can read.
pub open spec fn spec_menu_ui_new(registered: Option<MenuUI>, ui: ConfigNode) -> Result<
    MenuUI,
    MenuError,
> {
    if registered is Some {
        Err(MenuError::AlreadyInitialized)
    } else {
        match ui {
            ConfigNode::Category(m) => if has_nul(m.text@) {
                Err(MenuError::InternalNullByte)
            } else {
                Ok(MenuUI { root: m })
            },
            _ => Err(MenuError::MustContainRoot),
        }
    }
}

/// The next step of an open event.
#[derive(Clone, Copy, Debug, PartialEq, Eq, Structural)]
pub enum OpenStep {
    /// Hand the root item at this index to the host.
    Attach(usize),
    /// Answer the host with this code.
    Finish(i32),
}

impl MenuUI {
    /// Checks that `ui` can be registered; nothing is recorded until the
    /// host has answered, see `commit`.
    pub fn new(registered: &Option<MenuUI>, ui: ConfigNode) -> (r: Result<MenuUI, MenuError>)
        ensures
            r == spec_menu_ui_new(*registered, ui),
    {
        if registered.is_some() {
            return Err(MenuError::AlreadyInitialized);
        }
        match ui {
            ConfigNode::Category(m) => {
                if text_has_nul(m.text.as_str()) {
                    Err(MenuError::InternalNullByte)
                } else {
                    Ok(MenuUI { root: m })
                }
            },
            _ => Err(MenuError::MustContainRoot),
        }
    }

    /// Records `ui` as the registered menu once the host's init call has
    /// answered `status`; a menu already registered is never replaced.
    pub fn commit(registered: &mut Option<MenuUI>, ui: MenuUI, status: i32) -> (r: Result<
        (),
        MenuError,
    >)
        ensures
            (*old(registered)) is Some ==> r == Err::<(), MenuError>(MenuError::AlreadyInitialized)
                && *final(registered) == *old(registered),
            (*old(registered)) is None && status == CONFIG_SUCCESS ==> r == Ok::<(), MenuError>(())
                && *final(registered) == Some(ui),
            (*old(registered)) is None && status != CONFIG_SUCCESS ==> r == Err::<(), MenuError>(
                spec_menu_status(status)->Err_0,
            ) && *final(registered) == *old(registered),
    {
        if registered.is_some() {
            return Err(MenuError::AlreadyInitialized);
        }
        match menu_result(status) {
            Ok(()) => {
                *registered = Some(ui);
                Ok(())
            },
            Err(e) => Err(e),
        }
    }

    /// The next step of an open event: `index` is the root item to attach
    /// next and `status` the host's answer to the previous attach (success
    /// before the first). A failed attach ends the event with an error.
    pub fn open_step(&self, index: usize, status: i32) -> (r: OpenStep)
        ensures
            r == (if status != CONFIG_SUCCESS {
                OpenStep::Finish(CALLBACK_ERROR)
            } else if index >= self.root.items@.len() {
                OpenStep::Finish(CALLBACK_SUCCESS)
            } else {
                OpenStep::Attach(index)
            }),
    {
        if status != CONFIG_SUCCESS {
            OpenStep::Finish(CALLBACK_ERROR)
        } else if index >= self.root.items.len() {
            OpenStep::Finish(CALLBACK_SUCCESS)
        } else {
            OpenStep::Attach(index)
        }
    }
}

/// What the host is told of an open event.
pub const CALLBACK_SUCCESS: i32 = 0;
pub const CALLBACK_ERROR: i32 = -1;

/// The host's code for the outcome of an open event.
pub fn callback_status(r: &Result<(), MenuError>) -> (code: i32)
    ensures
        code == (if r is Ok {
            CALLBACK_SUCCESS
        } else {
            CALLBACK_ERROR
        }),
{
    match r {
        Ok(()) => CALLBACK_SUCCESS,
        Err(_) => CALLBACK_ERROR,
    }
}

/// On close, pending writes are flushed without forcing.
pub fn close(storage: &mut ItemStore) -> (r: Result<(), MenuError>)
    requires
        old(storage).wf(),
    ensures
        final(storage).wf(),
        r is Ok,
        final(storage)@.items == old(storage)@.items,
        final(storage)@.saved == old(storage)@.items,
{
    match save(storage, false) {
        Ok(()) => Ok(()),
        Err(e) => Err(MenuError::Storage(e)),
    }
}

/// Change callback of a toggle: stores `value` under the identifier the
/// host hands back with the item. A failed write is dropped, since the host
/// has no way to hear of it.
pub fn toggle_changed(storage: &mut ItemStore, identifier: &str, value: bool)
    requires
        old(storage).wf(),
    ensures
        final(storage).wf(),
        final(storage)@.saved == old(storage)@.saved,
        final(storage)@.items == spec_store_items::<bool>(old(storage)@.items, identifier@, value),
{
    let _ = store::<bool>(storage, identifier, value);
}

/// Change callback of a range: stores `value` under the item's identifier,
/// dropping a failed write.
pub fn range_changed(storage: &mut ItemStore, identifier: &str, value: i32)
    requires
        old(storage).wf(),
    ensures
        final(storage).wf(),
        final(storage)@.saved == old(storage)@.saved,
        final(storage)@.items == spec_store_items::<i32>(old(storage)@.items, identifier@, value),
{
    let _ = store::<i32>(storage, identifier, value);
}

/// Change callback of a select: stores the chosen index under the item's
/// identifier, dropping a failed write.
pub fn select_changed(storage: &mut ItemStore, identifier: &str, index: u32)
    requires
        old(storage).wf(),
    ensures
        final(storage).wf(),
        final(storage)@.saved == old(storage)@.saved,
        final(storage)@.items == spec_store_items::<u32>(old(storage)@.items, identifier@, index),
{
    let _ = store::<u32>(storage, identifier, index);
}

// Laws of attaching.

/// A toggle attached where nothing is stored shows its default and stores
/// it; after the change callback stores a new value, attaching the toggle
/// again shows that value.
pub proof fn law_toggle_attach_then_change(items: Items, t: Toggle, new_value: bool)
    requires
        !has_nul(t.text@),
        !has_nul(t.id@),
        !has_nul(t.true_value@),
        !has_nul(t.false_value@),
        !items.contains_key(encode_utf8(t.id@)),
    ensures
        spec_attach_toggle(items, t).0 == Ok::<bool, MenuError>(t.default),
        spec_load::<bool>(spec_attach_toggle(items, t).1, t.id@) == Ok::<bool, StorageError>(
            t.default,
        ),
        spec_attach_toggle(
            spec_store_items::<bool>(spec_attach_toggle(items, t).1, t.id@, new_value),
            t,
        ).0 == Ok::<bool, MenuError>(new_value),
{
    crate::storage::law_store_then_load::<bool>(items, t.id@, t.default);
    let items1 = spec_attach_toggle(items, t).1;
    crate::storage::law_store_then_load::<bool>(items1, t.id@, new_value);
}

/// A range whose stored value lies outside `[min, max]` shows its default,
/// and attaching it stores nothing.
pub proof fn law_range_out_of_bounds(items: Items, g: Range, stored: i32)
    requires
        !has_nul(g.text@),
        !has_nul(g.id@),
        spec_load::<i32>(items, g.id@) == Ok::<i32, StorageError>(stored),
        !in_range(stored, g.min, g.max),
    ensures
        spec_attach_range(items, g) == (Ok::<i32, MenuError>(g.default), items),
{
}

/// A select whose stored index is not below the number of options shows its
/// default index, and attaching it stores nothing.
pub proof fn law_select_out_of_bounds(items: Items, s: Select, stored: u32)
    requires
        !has_nul(s.text@),
        !has_nul(s.id@),
        !options_have_nul(s.options@),
        spec_load::<u32>(items, s.id@) == Ok::<u32, StorageError>(stored),
        stored as int >= s.options@.len(),
    ensures
        spec_attach_select(items, s) == (Ok::<u32, MenuError>(s.default), items),
{
}

/// An item that can be attached to a menu.
pub trait MenuItem: Sized {
    /// The node that attaching `item` to a store holding `items` gives, or
    /// its error, and the items afterwards.
    spec fn spec_attach(item: Self, items: Items) -> (Result<ConfigNode, MenuError>, Items);

    fn attach_to_menu(self, storage: &mut ItemStore) -> (r: Result<ConfigNode, MenuError>)
        requires
            old(storage).wf(),
        ensures
            final(storage).wf(),
            final(storage)@.saved == old(storage)@.saved,
            r == Self::spec_attach(self, old(storage)@.items).0,
            final(storage)@.items == Self::spec_attach(self, old(storage)@.items).1,
    ;
}

impl MenuItem for Label {
    open spec fn spec_attach(item: Label, items: Items) -> (Result<ConfigNode, MenuError>, Items) {
        if has_nul(item.text@) {
            (Err(MenuError::InternalNullByte), items)
        } else {
            (Ok(ConfigNode::Label(item)), items)
        }
    }

    fn attach_to_menu(self, storage: &mut ItemStore) -> (r: Result<ConfigNode, MenuError>) {
        self.attach()
    }
}

impl MenuItem for Toggle {
    open spec fn spec_attach(item: Toggle, items: Items) -> (Result<ConfigNode, MenuError>, Items) {
        (
            match spec_attach_toggle(items, item).0 {
                Ok(v) => Ok(ConfigNode::Toggle(item, v)),
                Err(e) => Err(e),
            },
            spec_attach_toggle(items, item).1,
        )
    }

    fn attach_to_menu(self, storage: &mut ItemStore) -> (r: Result<ConfigNode, MenuError>) {
        self.attach(storage)
    }
}

impl MenuItem for Range {
    open spec fn spec_attach(item: Range, items: Items) -> (Result<ConfigNode, MenuError>, Items) {
        (
            match spec_attach_range(items, item).0 {
                Ok(v) => Ok(ConfigNode::Range(item, v)),
                Err(e) => Err(e),
            },
            spec_attach_range(items, item).1,
        )
    }

    fn attach_to_menu(self, storage: &mut ItemStore) -> (r: Result<ConfigNode, MenuError>) {
        self.attach(storage)
    }
}

impl MenuItem for Select {
    open spec fn spec_attach(item: Select, items: Items) -> (Result<ConfigNode, MenuError>, Items) {
        (
            match spec_attach_select(items, item).0 {
                Ok(v) => Ok(ConfigNode::Select(item, v)),
                Err(e) => Err(e),
            },
            spec_attach_select(items, item).1,
        )
    }

    fn attach_to_menu(self, storage: &mut ItemStore) -> (r: Result<ConfigNode, MenuError>) {
        self.attach(storage)
    }
}

impl MenuItem for Menu {
    open spec fn spec_attach(item: Menu, items: Items) -> (Result<ConfigNode, MenuError>, Items) {
        (Ok(ConfigNode::Category(item)), items)
    }

    fn attach_to_menu(self, storage: &mut ItemStore) -> (r: Result<ConfigNode, MenuError>) {
        Ok(self.attach())
    }
}

/// A menu that items are added to.
pub trait Attachable {
    /// The items attached so far, in order.
    spec fn spec_items(&self) -> Seq<ConfigNode>;

    /// `self` and `other` differ at most in their items.
    spec fn spec_same_but_items(&self, other: &Self) -> bool;

    /// Attaches `item` and adds the node it gives at the end; on failure the
    /// error is returned and nothing is added.
    fn add<I: MenuItem>(&mut self, item: I, storage: &mut ItemStore) -> (r: Result<(), MenuError>)
        requires
            old(storage).wf(),
        ensures
            final(storage).wf(),
            final(storage)@.saved == old(storage)@.saved,
            final(storage)@.items == I::spec_attach(item, old(storage)@.items).1,
            final(self).spec_same_but_items(old(self)),
            match I::spec_attach(item, old(storage)@.items).0 {
                Ok(node) => r == Ok::<(), MenuError>(()) && final(self).spec_items() == old(
                    self,
                ).spec_items().push(node),
                Err(e) => r == Err::<(), MenuError>(e) && final(self).spec_items() == old(
                    self,
                ).spec_items(),
            },
    ;
}

impl Attachable for MenuRoot {
    open spec fn spec_items(&self) -> Seq<ConfigNode> {
        self.items@
    }

    open spec fn spec_same_but_items(&self, other: &MenuRoot) -> bool {
        true
    }

    fn add<I: MenuItem>(&mut self, item: I, storage: &mut ItemStore) -> (r: Result<(), MenuError>) {
        match item.attach_to_menu(storage) {
            Ok(node) => {
                self.items.push(node);
                Ok(())
            },
            Err(e) => Err(e),
        }
    }
}

impl Attachable for Menu {
    open spec fn spec_items(&self) -> Seq<ConfigNode> {
        self.items@
    }

    open spec fn spec_same_but_items(&self, other: &Menu) -> bool {
        self.text == other.text
    }

    fn add<I: MenuItem>(&mut self, item: I, storage: &mut ItemStore) -> (r: Result<(), MenuError>) {
        match item.attach_to_menu(storage) {
            Ok(node) => {
                self.items.push(node);
                Ok(())
            },
            Err(e) => Err(e),
        }
    }
}

} // verus!
