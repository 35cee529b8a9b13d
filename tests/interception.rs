use wups::interception::{EntryState, EntryType, LoadEntry};

fn entry() -> LoadEntry {
    LoadEntry::new(EntryType::Mandatory, "VPADRead", 3, "my_VPADRead", 0x8000, 1)
}

#[test]
fn states_in_order() {
    let mut e = entry();
    assert_eq!(e.state(), EntryState::Unbound);
    e.fill_original(0x1234);
    assert_eq!(e.state(), EntryState::LoaderFilled);
    e.mark_initialized();
    assert_eq!(e.state(), EntryState::Active);
    assert_eq!(e.original().ok(), Some(0x1234));
}

#[test]
fn empty_slot_names_the_missing_symbol() {
    let e = entry();
    let err = e.original().err().unwrap();
    assert_eq!(err.symbol_name, "VPADRead");
    assert_eq!(err.message(), "The function \"VPADRead\" was not properly hooked.");
}

#[test]
fn entry_fields() {
    let e = entry();
    assert_eq!(e.entry_type, EntryType::Mandatory);
    assert_eq!(e.symbol_name, "VPADRead");
    assert_eq!(e.my_function_name, "my_VPADRead");
    assert_eq!(e.library, 3);
    assert_eq!(e.target, 0x8000);
    assert_eq!(e.target_process, 1);
}

#[test]
fn filling_keeps_other_fields() {
    let mut e = entry();
    e.fill_original(0x1234);
    e.mark_initialized();
    assert_eq!(e.original_slot, 0x1234);
    assert!(e.initialized);
    assert_eq!(e.symbol_name, "VPADRead");
    assert_eq!(e.my_function_name, "my_VPADRead");
    assert_eq!(e.library, 3);
    assert_eq!(e.target_process, 1);
}
