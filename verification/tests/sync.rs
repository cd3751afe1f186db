use kernel_core::sync::init::InitData;

#[test]
fn slot_is_set_once() {
    let mut slot: InitData<u64> = InitData::uninit();
    assert!(!slot.is_init());
    assert_eq!(slot.get(), None);
    assert!(slot.init(7));
    assert!(slot.is_init());
    assert_eq!(slot.get(), Some(&7));
    assert!(!slot.init(9));
    assert_eq!(slot.get(), Some(&7));
}
