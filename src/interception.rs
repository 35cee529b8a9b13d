//! Function interception entries: a replacement for a system function and a
//! slot that the loader fills with the original's address.
use vstd::prelude::*;
use vstd::string::StringExecFns;

verus! {

/// Whether the loader must resolve an entry.
#[derive(Clone, Copy, Debug, PartialEq, Eq, Structural)]
pub enum EntryType {
    Mandatory,
    Optional,
}

/// Where an entry stands: its slot empty, filled by the loader, or filled
/// with the plugin's initialisation done.
#[derive(Clone, Copy, Debug, PartialEq, Eq, Structural)]
pub enum EntryState {
    Unbound,
    LoaderFilled,
    Active,
}

/// One intercepted function. A slot holding 0 is empty.
pub struct LoadEntry {
    pub entry_type: EntryType,
    pub symbol_name: String,
    pub library: u32,
    pub my_function_name: String,
    pub target: usize,
    pub target_process: u32,
    pub original_slot: usize,
    pub initialized: bool,
}

/// The original function of an entry was read before the loader filled its slot.
pub struct NotHooked {
    pub symbol_name: String,
}

pub open spec fn spec_state(e: LoadEntry) -> EntryState {
    if e.original_slot == 0 {
        EntryState::Unbound
    } else if !e.initialized {
        EntryState::LoaderFilled
    } else {
        EntryState::Active
    }
}

/// The diagnostic that names the function left unresolved.
pub open spec fn spec_not_hooked_message(symbol: Seq<char>) -> Seq<char> {
    "The function \""@ + symbol + "\" was not properly hooked."@
}

impl LoadEntry {
    /// An entry whose slot is still empty.
    pub fn new(
        entry_type: EntryType,
        symbol_name: &str,
        library: u32,
        my_function_name: &str,
        target: usize,
        target_process: u32,
    ) -> (r: LoadEntry)
        ensures
            r.entry_type == entry_type,
            r.symbol_name@ == symbol_name@,
            r.library == library,
            r.my_function_name@ == my_function_name@,
            r.target == target,
            r.target_process == target_process,
            spec_state(r) == EntryState::Unbound,
            !r.initialized,
    {
        LoadEntry {
            entry_type,
            symbol_name: symbol_name.to_string(),
            library,
            my_function_name: my_function_name.to_string(),
            target,
            target_process,
            original_slot: 0,
            initialized: false,
        }
    }

    pub fn state(&self) -> (r: EntryState)
        ensures
            r == spec_state(*self),
    {
        if self.original_slot == 0 {
            EntryState::Unbound
        } else if !self.initialized {
            EntryState::LoaderFilled
        } else {
            EntryState::Active
        }
    }

    /// The loader writes the original function's address into the slot.
    pub fn fill_original(&mut self, address: usize)
        ensures
            *final(self) == (LoadEntry { original_slot: address, ..*old(self) }),
    {
        self.original_slot = address;
    }

    /// The plugin's initialisation has run.
    pub fn mark_initialized(&mut self)
        ensures
            *final(self) == (LoadEntry { initialized: true, ..*old(self) }),
    {
        self.initialized = true;
    }

    /// The original function's address; an empty slot means linking was
    /// never completed, which the caller must treat as fatal.
    pub fn original(&self) -> (r: Result<usize, NotHooked>)
        ensures
            match r {
                Ok(a) => self.original_slot != 0 && a == self.original_slot,
                Err(e) => self.original_slot == 0 && e.symbol_name@ == self.symbol_name@,
            },
    {
        if self.original_slot == 0 {
            Err(NotHooked { symbol_name: self.symbol_name.clone() })
        } else {
            Ok(self.original_slot)
        }
    }
}

impl NotHooked {
    /// The diagnostic to abort with.
    pub fn message(&self) -> (r: String)
        ensures
            r@ == spec_not_hooked_message(self.symbol_name@),
    {
        let mut m = String::from_str("The function \"");
        m.append(self.symbol_name.as_str());
        m.append("\" was not properly hooked.");
        m
    }
}

} // verus!
