use stabilized_intrinsics::table::{lookup, STABILIZED_INTRINSIC_NAMES, TABLE_LEN};

#[test]
fn table_has_all_its_rows() {
    assert_eq!(TABLE_LEN, 71);
    assert_eq!(STABILIZED_INTRINSIC_NAMES.len(), TABLE_LEN);
}

#[test]
fn no_two_rows_share_a_name() {
    for i in 0..TABLE_LEN {
        for j in (i + 1)..TABLE_LEN {
            assert_ne!(STABILIZED_INTRINSIC_NAMES[i].0, STABILIZED_INTRINSIC_NAMES[j].0);
        }
    }
}

#[test]
fn lookup_finds_every_row_with_its_own_guidance() {
    for (name, guidance) in STABILIZED_INTRINSIC_NAMES {
        assert_eq!(lookup(name), Some(guidance));
    }
}

#[test]
fn lookup_gives_the_guidance_of_the_row() {
    assert_eq!(lookup("atomic_load"), Some("`load` on std::sync::atomic types"));
    assert_eq!(lookup("atomic_load_acq"), Some("`load` on std::sync::atomic types"));
    assert_eq!(lookup("atomic_nand"), Some("`fetch_nand` on std::sync::atomic::AtomicBool"));
    assert_eq!(
        lookup("atomic_cxchgweak_acqrel_failrelaxed"),
        Some("`compare_exchange_weak` on std::sync::atomic types")
    );
    assert_eq!(lookup("overflowing_add"), Some("`wrapping_add` on integer types"));
    assert_eq!(lookup("volatile_store"), Some("`std::ptr::store_volatile`"));
    assert_eq!(lookup("size_of"), Some("`std::mem::size_of`"));
    assert_eq!(lookup("transmute"), Some("`std::mem::transmute`"));
}

#[test]
fn lookup_finds_the_first_and_the_last_row() {
    assert_eq!(STABILIZED_INTRINSIC_NAMES[0].0, "add_with_oveflow");
    assert_eq!(lookup("add_with_oveflow"), Some("`overflowing_add` on integer types"));
    assert_eq!(STABILIZED_INTRINSIC_NAMES[TABLE_LEN - 1].0, "transmute");
    assert_eq!(lookup("transmute"), Some("`std::mem::transmute`"));
}

#[test]
fn lookup_misses_an_unlisted_name() {
    assert_eq!(lookup("frobnicate"), None);
    assert_eq!(lookup("copy_nonoverlapping"), None);
    assert_eq!(lookup(""), None);
}

#[test]
fn lookup_keeps_the_key_as_it_is_spelled() {
    assert!(lookup("add_with_oveflow").is_some());
    assert_eq!(lookup("add_with_overflow"), None);
}

#[test]
fn lookup_matches_the_whole_name_only() {
    assert_eq!(lookup("atomic"), None);
    assert_eq!(lookup("atomic_"), None);
    assert_eq!(lookup("atomic_load_"), None);
    assert_eq!(lookup("atomic_load_acq_rel"), None);
    assert_eq!(lookup("size_o"), None);
    assert_eq!(lookup("size_off"), None);
    assert_eq!(lookup(" size_of"), None);
    assert_eq!(lookup("Size_of"), None);
    assert_eq!(lookup("intrinsics::size_of"), None);
}

#[test]
fn lookup_does_not_take_a_guidance_for_a_name() {
    assert_eq!(lookup("`std::mem::size_of`"), None);
    assert_eq!(lookup("std::mem::size_of"), None);
}
