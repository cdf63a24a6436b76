//! The replacement table: which intrinsics are flagged, and what each one is
//! stabilized as.
//!
//! The table is fixed data. Nothing inserts into it or removes from it, so it
//! can be read from any number of threads. An intrinsic that has no row is not
//! flagged; that says nothing about whether a replacement for it exists.

use crate::text::str_eq;
use vstd::prelude::*;

verus! {

/// One row of the table: the bare name of an intrinsic, then the guidance that
/// names its stabilized replacement. The guidance is free text.
pub type ReplacementEntry = (&'static str, &'static str);

/// Number of rows in [`STABILIZED_INTRINSIC_NAMES`].
pub const TABLE_LEN: usize = 71;

/// The rows, keyed by bare intrinsic name. No name occurs twice
/// ([`lemma_names_unique`]).
///
/// The first key is spelled `oveflow`. It is data like any other key and is
/// matched letter for letter.
pub const STABILIZED_INTRINSIC_NAMES: [ReplacementEntry; TABLE_LEN] = [
    ("add_with_oveflow", "`overflowing_add` on integer types"),
    ("atomic_and", "`fetch_and` on std::sync::atomic types"),
    ("atomic_and_acq", "`fetch_and` on std::sync::atomic types"),
    ("atomic_and_acqrel", "`fetch_and` on std::sync::atomic types"),
    ("atomic_and_rel", "`fetch_and` on std::sync::atomic types"),
    ("atomic_and_relaxed", "`fetch_and` on std::sync::atomic types"),
    ("atomic_cxchg", "`compare_exchange` on std::sync::atomic types"),
    ("atomic_cxchg_acq", "`compare_exchange` on std::sync::atomic types"),
    ("atomic_cxchg_acqrel", "`compare_exchange` on std::sync::atomic types"),
    ("atomic_cxchg_acqrel_failrelaxed", "`compare_exchange` on std::sync::atomic types"),
    ("atomic_cxchg_failacq", "`compare_exchange` on std::sync::atomic types"),
    ("atomic_cxchg_failrelaxed", "`compare_exchange` on std::sync::atomic types"),
    ("atomic_cxchg_rel", "`compare_exchange` on std::sync::atomic types"),
    ("atomic_cxchg_relaxed", "`compare_exchange` on std::sync::atomic types"),
    ("atomic_cxchgweak", "`compare_exchange_weak` on std::sync::atomic types"),
    ("atomic_cxchgweak_acq", "`compare_exchange_weak` on std::sync::atomic types"),
    ("atomic_cxchgweak_acq_failrelaxed", "`compare_exchange_weak` on std::sync::atomic types"),
    ("atomic_cxchgweak_acqrel", "`compare_exchange_weak` on std::sync::atomic types"),
    ("atomic_cxchgweak_acqrel_failrelaxed", "`compare_exchange_weak` on std::sync::atomic types"),
    ("atomic_cxchgweak_failacq", "`compare_exchange_weak` on std::sync::atomic types"),
    ("atomic_cxchgweak_failrelaxed", "`compare_exchange_weak` on std::sync::atomic types"),
    ("atomic_cxchgweak_rel", "`compare_exchange_weak` on std::sync::atomic types"),
    ("atomic_cxchgweak_relaxed", "`compare_exchange_weak` on std::sync::atomic types"),
    ("atomic_load", "`load` on std::sync::atomic types"),
    ("atomic_load_acq", "`load` on std::sync::atomic types"),
    ("atomic_load_relaxed", "`load` on std::sync::atomic types"),
    ("atomic_nand", "`fetch_nand` on std::sync::atomic::AtomicBool"),
    ("atomic_nand_acq", "`fetch_nand` on std::sync::atomic::AtomicBool"),
    ("atomic_nand_acqrel", "`fetch_nand` on std::sync::atomic::AtomicBool"),
    ("atomic_nand_rel", "`fetch_nand` on std::sync::atomic::AtomicBool"),
    ("atomic_nand_relaxed", "`fetch_nand` on std::sync::atomic::AtomicBool"),
    ("atomic_or", "`fetch_or` on std::sync::atomic types"),
    ("atomic_or_acq", "`fetch_or` on std::sync::atomic types"),
    ("atomic_or_acqrel", "`fetch_or` on std::sync::atomic types"),
    ("atomic_or_rel", "`fetch_or` on std::sync::atomic types"),
    ("atomic_or_relaxed", "`fetch_or` on std::sync::atomic types"),
    ("atomic_store", "`store` on std::sync::atomic types"),
    ("atomic_store_rel", "`store` on std::sync::atomic types"),
    ("atomic_store_relaxed", "`store` on std::sync::atomic types"),
    ("atomic_xadd", "`fetch_add` on std::sync::atomic::AtomicBool"),
    ("atomic_xadd_acq", "`fetch_add` on std::sync::atomic::AtomicBool"),
    ("atomic_xadd_acqrel", "`fetch_add` on std::sync::atomic::AtomicBool"),
    ("atomic_xadd_rel", "`fetch_add` on std::sync::atomic::AtomicBool"),
    ("atomic_xadd_relaxed", "`fetch_add` on std::sync::atomic::AtomicBool"),
    ("atomic_xchg", "`swap` on std::sync::atomic::AtomicBool"),
    ("atomic_xchg_acq", "`swap` on std::sync::atomic::AtomicBool"),
    ("atomic_xchg_acqrel", "`swap` on std::sync::atomic::AtomicBool"),
    ("atomic_xchg_rel", "`swap` on std::sync::atomic::AtomicBool"),
    ("atomic_xchg_relaxed", "`swap` on std::sync::atomic::AtomicBool"),
    ("atomic_xor", "`fetch_xor` on std::sync::atomic::AtomicBool"),
    ("atomic_xor_acq", "`fetch_xor` on std::sync::atomic::AtomicBool"),
    ("atomic_xor_acqrel", "`fetch_xor` on std::sync::atomic::AtomicBool"),
    ("atomic_xor_rel", "`fetch_xor` on std::sync::atomic::AtomicBool"),
    ("atomic_xor_relaxed", "`fetch_xor` on std::sync::atomic::AtomicBool"),
    ("atomic_xsub", "`fetch_sub` on std::sync::atomic::AtomicBool"),
    ("atomic_xsub_acq", "`fetch_sub` on std::sync::atomic::AtomicBool"),
    ("atomic_xsub_acqrel", "`fetch_sub` on std::sync::atomic::AtomicBool"),
    ("atomic_xsub_rel", "`fetch_sub` on std::sync::atomic::AtomicBool"),
    ("atomic_xsub_relaxed", "`fetch_sub` on std::sync::atomic::AtomicBool"),
    ("mul_with_overflow", "`overflowing_mul` on integer types"),
    ("overflowing_add", "`wrapping_add` on integer types"),
    ("overflowing_mul", "`wrapping_mul` on integer types"),
    ("rotate_left", "`rotate_left` on integer types"),
    ("rotate_right", "`rotate_right` on integer types"),
    ("saturating_add", "`saturating_add` on integer types"),
    ("saturating_sub", "`saturating_sub` on integer types"),
    ("sub_with_overflow", "`overflowing_sub` on integer types"),
    ("volatile_load", "`std::ptr::read_volatile`"),
    ("volatile_store", "`std::ptr::store_volatile`"),
    ("size_of", "`std::mem::size_of`"),
    ("transmute", "`std::mem::transmute`"),
];

/// The name in row `i`.
pub open spec fn name_at(i: int) -> Seq<char> {
    STABILIZED_INTRINSIC_NAMES[i].0@
}

/// The guidance in row `i`.
pub open spec fn guidance_at(i: int) -> Seq<char> {
    STABILIZED_INTRINSIC_NAMES[i].1@
}

/// Whether some row has `name` as its key.
pub open spec fn is_listed(name: Seq<char>) -> bool {
    exists|i: int| 0 <= i < TABLE_LEN && #[trigger] name_at(i) == name
}

/// A row whose key is `name`, if there is one.
pub open spec fn row_of(name: Seq<char>) -> int {
    choose|i: int| 0 <= i < TABLE_LEN && #[trigger] name_at(i) == name
}

/// The table as a mapping from bare intrinsic name to guidance.
pub open spec fn replacement_table() -> Map<Seq<char>, Seq<char>> {
    Map::new(|name: Seq<char>| is_listed(name), |name: Seq<char>| guidance_at(row_of(name)))
}

/// Every row is in the mapping, under its own name and with its own guidance.
pub proof fn lemma_row_in_table(i: int)
    requires
        0 <= i < TABLE_LEN,
    ensures
        replacement_table().contains_key(name_at(i)),
        replacement_table()[name_at(i)] == guidance_at(i),
{
    lemma_names_unique();
    assert(is_listed(name_at(i)));
}

/// Looks `name` up in the table. Returns the guidance of the row whose key is
/// exactly `name`, or `None` where no row has that key.
pub fn lookup(name: &str) -> (found: Option<&'static str>)
    ensures
        found is Some <==> replacement_table().contains_key(name@),
        found matches Some(guidance) ==> guidance@ == replacement_table()[name@],
{
    let mut i: usize = 0;
    while i < TABLE_LEN
        invariant
            i <= TABLE_LEN,
            forall|k: int| 0 <= k < i ==> name_at(k) != name@,
        decreases TABLE_LEN - i,
    {
        let (listed, guidance) = STABILIZED_INTRINSIC_NAMES[i];
        if str_eq(name, listed) {
            proof {
                lemma_row_in_table(i as int);
            }
            return Some(guidance);
        }
        i += 1;
    }
    None
}

/// No two rows of the table share a name.
///
/// The proof spells out every name, character by character: two names then
/// differ in length or at one position.
pub proof fn lemma_names_unique()
    ensures
        forall|i: int, j: int| 0 <= i < j < TABLE_LEN ==> name_at(i) != name_at(j),
{
    reveal_strlit("add_with_oveflow");
    reveal_strlit("atomic_and");
    reveal_strlit("atomic_and_acq");
    reveal_strlit("atomic_and_acqrel");
    reveal_strlit("atomic_and_rel");
    reveal_strlit("atomic_and_relaxed");
    reveal_strlit("atomic_cxchg");
    reveal_strlit("atomic_cxchg_acq");
    reveal_strlit("atomic_cxchg_acqrel");
    reveal_strlit("atomic_cxchg_acqrel_failrelaxed");
    reveal_strlit("atomic_cxchg_failacq");
    reveal_strlit("atomic_cxchg_failrelaxed");
    reveal_strlit("atomic_cxchg_rel");
    reveal_strlit("atomic_cxchg_relaxed");
    reveal_strlit("atomic_cxchgweak");
    reveal_strlit("atomic_cxchgweak_acq");
    reveal_strlit("atomic_cxchgweak_acq_failrelaxed");
    reveal_strlit("atomic_cxchgweak_acqrel");
    reveal_strlit("atomic_cxchgweak_acqrel_failrelaxed");
    reveal_strlit("atomic_cxchgweak_failacq");
    reveal_strlit("atomic_cxchgweak_failrelaxed");
    reveal_strlit("atomic_cxchgweak_rel");
    reveal_strlit("atomic_cxchgweak_relaxed");
    reveal_strlit("atomic_load");
    reveal_strlit("atomic_load_acq");
    reveal_strlit("atomic_load_relaxed");
    reveal_strlit("atomic_nand");
    reveal_strlit("atomic_nand_acq");
    reveal_strlit("atomic_nand_acqrel");
    reveal_strlit("atomic_nand_rel");
    reveal_strlit("atomic_nand_relaxed");
    reveal_strlit("atomic_or");
    reveal_strlit("atomic_or_acq");
    reveal_strlit("atomic_or_acqrel");
    reveal_strlit("atomic_or_rel");
    reveal_strlit("atomic_or_relaxed");
    reveal_strlit("atomic_store");
    reveal_strlit("atomic_store_rel");
    reveal_strlit("atomic_store_relaxed");
    reveal_strlit("atomic_xadd");
    reveal_strlit("atomic_xadd_acq");
    reveal_strlit("atomic_xadd_acqrel");
    reveal_strlit("atomic_xadd_rel");
    reveal_strlit("atomic_xadd_relaxed");
    reveal_strlit("atomic_xchg");
    reveal_strlit("atomic_xchg_acq");
    reveal_strlit("atomic_xchg_acqrel");
    reveal_strlit("atomic_xchg_rel");
    reveal_strlit("atomic_xchg_relaxed");
    reveal_strlit("atomic_xor");
    reveal_strlit("atomic_xor_acq");
    reveal_strlit("atomic_xor_acqrel");
    reveal_strlit("atomic_xor_rel");
    reveal_strlit("atomic_xor_relaxed");
    reveal_strlit("atomic_xsub");
    reveal_strlit("atomic_xsub_acq");
    reveal_strlit("atomic_xsub_acqrel");
    reveal_strlit("atomic_xsub_rel");
    reveal_strlit("atomic_xsub_relaxed");
    reveal_strlit("mul_with_overflow");
    reveal_strlit("overflowing_add");
    reveal_strlit("overflowing_mul");
    reveal_strlit("rotate_left");
    reveal_strlit("rotate_right");
    reveal_strlit("saturating_add");
    reveal_strlit("saturating_sub");
    reveal_strlit("sub_with_overflow");
    reveal_strlit("volatile_load");
    reveal_strlit("volatile_store");
    reveal_strlit("size_of");
    reveal_strlit("transmute");
    assert("add_with_oveflow"@ =~= seq![
        'a', 'd', 'd', '_', 'w', 'i', 't', 'h', '_', 'o', 'v', 'e', 'f', 'l', 'o', 'w',
    ]);
    assert("atomic_and"@ =~= seq!['a', 't', 'o', 'm', 'i', 'c', '_', 'a', 'n', 'd']);
    assert("atomic_and_acq"@ =~= seq![
        'a', 't', 'o', 'm', 'i', 'c', '_', 'a', 'n', 'd', '_', 'a', 'c', 'q',
    ]);
    assert("atomic_and_acqrel"@ =~= seq![
        'a', 't', 'o', 'm', 'i', 'c', '_', 'a', 'n', 'd', '_', 'a', 'c', 'q', 'r', 'e', 'l',
    ]);
    assert("atomic_and_rel"@ =~= seq![
        'a', 't', 'o', 'm', 'i', 'c', '_', 'a', 'n', 'd', '_', 'r', 'e', 'l',
    ]);
    assert("atomic_and_relaxed"@ =~= seq![
        'a', 't', 'o', 'm', 'i', 'c', '_', 'a', 'n', 'd', '_', 'r', 'e', 'l', 'a', 'x', 'e', 'd',
    ]);
    assert("atomic_cxchg"@ =~= seq!['a', 't', 'o', 'm', 'i', 'c', '_', 'c', 'x', 'c', 'h', 'g']);
    assert("atomic_cxchg_acq"@ =~= seq![
        'a', 't', 'o', 'm', 'i', 'c', '_', 'c', 'x', 'c', 'h', 'g', '_', 'a', 'c', 'q',
    ]);
    assert("atomic_cxchg_acqrel"@ =~= seq![
        'a', 't', 'o', 'm', 'i', 'c', '_', 'c', 'x', 'c', 'h', 'g', '_', 'a', 'c', 'q', 'r', 'e',
        'l',
    ]);
    assert("atomic_cxchg_acqrel_failrelaxed"@ =~= seq![
        'a', 't', 'o', 'm', 'i', 'c', '_', 'c', 'x', 'c', 'h', 'g', '_', 'a', 'c', 'q', 'r', 'e',
        'l', '_', 'f', 'a', 'i', 'l', 'r', 'e', 'l', 'a', 'x', 'e', 'd',
    ]);
    assert("atomic_cxchg_failacq"@ =~= seq![
        'a', 't', 'o', 'm', 'i', 'c', '_', 'c', 'x', 'c', 'h', 'g', '_', 'f', 'a', 'i', 'l', 'a',
        'c', 'q',
    ]);
    assert("atomic_cxchg_failrelaxed"@ =~= seq![
        'a', 't', 'o', 'm', 'i', 'c', '_', 'c', 'x', 'c', 'h', 'g', '_', 'f', 'a', 'i', 'l', 'r',
        'e', 'l', 'a', 'x', 'e', 'd',
    ]);
    assert("atomic_cxchg_rel"@ =~= seq![
        'a', 't', 'o', 'm', 'i', 'c', '_', 'c', 'x', 'c', 'h', 'g', '_', 'r', 'e', 'l',
    ]);
    assert("atomic_cxchg_relaxed"@ =~= seq![
        'a', 't', 'o', 'm', 'i', 'c', '_', 'c', 'x', 'c', 'h', 'g', '_', 'r', 'e', 'l', 'a', 'x',
        'e', 'd',
    ]);
    assert("atomic_cxchgweak"@ =~= seq![
        'a', 't', 'o', 'm', 'i', 'c', '_', 'c', 'x', 'c', 'h', 'g', 'w', 'e', 'a', 'k',
    ]);
    assert("atomic_cxchgweak_acq"@ =~= seq![
        'a', 't', 'o', 'm', 'i', 'c', '_', 'c', 'x', 'c', 'h', 'g', 'w', 'e', 'a', 'k', '_', 'a',
        'c', 'q',
    ]);
    assert("atomic_cxchgweak_acq_failrelaxed"@ =~= seq![
        'a', 't', 'o', 'm', 'i', 'c', '_', 'c', 'x', 'c', 'h', 'g', 'w', 'e', 'a', 'k', '_', 'a',
        'c', 'q', '_', 'f', 'a', 'i', 'l', 'r', 'e', 'l', 'a', 'x', 'e', 'd',
    ]);
    assert("atomic_cxchgweak_acqrel"@ =~= seq![
        'a', 't', 'o', 'm', 'i', 'c', '_', 'c', 'x', 'c', 'h', 'g', 'w', 'e', 'a', 'k', '_', 'a',
        'c', 'q', 'r', 'e', 'l',
    ]);
    assert("atomic_cxchgweak_acqrel_failrelaxed"@ =~= seq![
        'a', 't', 'o', 'm', 'i', 'c', '_', 'c', 'x', 'c', 'h', 'g', 'w', 'e', 'a', 'k', '_', 'a',
        'c', 'q', 'r', 'e', 'l', '_', 'f', 'a', 'i', 'l', 'r', 'e', 'l', 'a', 'x', 'e', 'd',
    ]);
    assert("atomic_cxchgweak_failacq"@ =~= seq![
        'a', 't', 'o', 'm', 'i', 'c', '_', 'c', 'x', 'c', 'h', 'g', 'w', 'e', 'a', 'k', '_', 'f',
        'a', 'i', 'l', 'a', 'c', 'q',
    ]);
    assert("atomic_cxchgweak_failrelaxed"@ =~= seq![
        'a', 't', 'o', 'm', 'i', 'c', '_', 'c', 'x', 'c', 'h', 'g', 'w', 'e', 'a', 'k', '_', 'f',
        'a', 'i', 'l', 'r', 'e', 'l', 'a', 'x', 'e', 'd',
    ]);
    assert("atomic_cxchgweak_rel"@ =~= seq![
        'a', 't', 'o', 'm', 'i', 'c', '_', 'c', 'x', 'c', 'h', 'g', 'w', 'e', 'a', 'k', '_', 'r',
        'e', 'l',
    ]);
    assert("atomic_cxchgweak_relaxed"@ =~= seq![
        'a', 't', 'o', 'm', 'i', 'c', '_', 'c', 'x', 'c', 'h', 'g', 'w', 'e', 'a', 'k', '_', 'r',
        'e', 'l', 'a', 'x', 'e', 'd',
    ]);
    assert("atomic_load"@ =~= seq!['a', 't', 'o', 'm', 'i', 'c', '_', 'l', 'o', 'a', 'd']);
    assert("atomic_load_acq"@ =~= seq![
        'a', 't', 'o', 'm', 'i', 'c', '_', 'l', 'o', 'a', 'd', '_', 'a', 'c', 'q',
    ]);
    assert("atomic_load_relaxed"@ =~= seq![
        'a', 't', 'o', 'm', 'i', 'c', '_', 'l', 'o', 'a', 'd', '_', 'r', 'e', 'l', 'a', 'x', 'e',
        'd',
    ]);
    assert("atomic_nand"@ =~= seq!['a', 't', 'o', 'm', 'i', 'c', '_', 'n', 'a', 'n', 'd']);
    assert("atomic_nand_acq"@ =~= seq![
        'a', 't', 'o', 'm', 'i', 'c', '_', 'n', 'a', 'n', 'd', '_', 'a', 'c', 'q',
    ]);
    assert("atomic_nand_acqrel"@ =~= seq![
        'a', 't', 'o', 'm', 'i', 'c', '_', 'n', 'a', 'n', 'd', '_', 'a', 'c', 'q', 'r', 'e', 'l',
    ]);
    assert("atomic_nand_rel"@ =~= seq![
        'a', 't', 'o', 'm', 'i', 'c', '_', 'n', 'a', 'n', 'd', '_', 'r', 'e', 'l',
    ]);
    assert("atomic_nand_relaxed"@ =~= seq![
        'a', 't', 'o', 'm', 'i', 'c', '_', 'n', 'a', 'n', 'd', '_', 'r', 'e', 'l', 'a', 'x', 'e',
        'd',
    ]);
    assert("atomic_or"@ =~= seq!['a', 't', 'o', 'm', 'i', 'c', '_', 'o', 'r']);
    assert("atomic_or_acq"@ =~= seq![
        'a', 't', 'o', 'm', 'i', 'c', '_', 'o', 'r', '_', 'a', 'c', 'q',
    ]);
    assert("atomic_or_acqrel"@ =~= seq![
        'a', 't', 'o', 'm', 'i', 'c', '_', 'o', 'r', '_', 'a', 'c', 'q', 'r', 'e', 'l',
    ]);
    assert("atomic_or_rel"@ =~= seq![
        'a', 't', 'o', 'm', 'i', 'c', '_', 'o', 'r', '_', 'r', 'e', 'l',
    ]);
    assert("atomic_or_relaxed"@ =~= seq![
        'a', 't', 'o', 'm', 'i', 'c', '_', 'o', 'r', '_', 'r', 'e', 'l', 'a', 'x', 'e', 'd',
    ]);
    assert("atomic_store"@ =~= seq!['a', 't', 'o', 'm', 'i', 'c', '_', 's', 't', 'o', 'r', 'e']);
    assert("atomic_store_rel"@ =~= seq![
        'a', 't', 'o', 'm', 'i', 'c', '_', 's', 't', 'o', 'r', 'e', '_', 'r', 'e', 'l',
    ]);
    assert("atomic_store_relaxed"@ =~= seq![
        'a', 't', 'o', 'm', 'i', 'c', '_', 's', 't', 'o', 'r', 'e', '_', 'r', 'e', 'l', 'a', 'x',
        'e', 'd',
    ]);
    assert("atomic_xadd"@ =~= seq!['a', 't', 'o', 'm', 'i', 'c', '_', 'x', 'a', 'd', 'd']);
    assert("atomic_xadd_acq"@ =~= seq![
        'a', 't', 'o', 'm', 'i', 'c', '_', 'x', 'a', 'd', 'd', '_', 'a', 'c', 'q',
    ]);
    assert("atomic_xadd_acqrel"@ =~= seq![
        'a', 't', 'o', 'm', 'i', 'c', '_', 'x', 'a', 'd', 'd', '_', 'a', 'c', 'q', 'r', 'e', 'l',
    ]);
    assert("atomic_xadd_rel"@ =~= seq![
        'a', 't', 'o', 'm', 'i', 'c', '_', 'x', 'a', 'd', 'd', '_', 'r', 'e', 'l',
    ]);
    assert("atomic_xadd_relaxed"@ =~= seq![
        'a', 't', 'o', 'm', 'i', 'c', '_', 'x', 'a', 'd', 'd', '_', 'r', 'e', 'l', 'a', 'x', 'e',
        'd',
    ]);
    assert("atomic_xchg"@ =~= seq!['a', 't', 'o', 'm', 'i', 'c', '_', 'x', 'c', 'h', 'g']);
    assert("atomic_xchg_acq"@ =~= seq![
        'a', 't', 'o', 'm', 'i', 'c', '_', 'x', 'c', 'h', 'g', '_', 'a', 'c', 'q',
    ]);
    assert("atomic_xchg_acqrel"@ =~= seq![
        'a', 't', 'o', 'm', 'i', 'c', '_', 'x', 'c', 'h', 'g', '_', 'a', 'c', 'q', 'r', 'e', 'l',
    ]);
    assert("atomic_xchg_rel"@ =~= seq![
        'a', 't', 'o', 'm', 'i', 'c', '_', 'x', 'c', 'h', 'g', '_', 'r', 'e', 'l',
    ]);
    assert("atomic_xchg_relaxed"@ =~= seq![
        'a', 't', 'o', 'm', 'i', 'c', '_', 'x', 'c', 'h', 'g', '_', 'r', 'e', 'l', 'a', 'x', 'e',
        'd',
    ]);
    assert("atomic_xor"@ =~= seq!['a', 't', 'o', 'm', 'i', 'c', '_', 'x', 'o', 'r']);
    assert("atomic_xor_acq"@ =~= seq![
        'a', 't', 'o', 'm', 'i', 'c', '_', 'x', 'o', 'r', '_', 'a', 'c', 'q',
    ]);
    assert("atomic_xor_acqrel"@ =~= seq![
        'a', 't', 'o', 'm', 'i', 'c', '_', 'x', 'o', 'r', '_', 'a', 'c', 'q', 'r', 'e', 'l',
    ]);
    assert("atomic_xor_rel"@ =~= seq![
        'a', 't', 'o', 'm', 'i', 'c', '_', 'x', 'o', 'r', '_', 'r', 'e', 'l',
    ]);
    assert("atomic_xor_relaxed"@ =~= seq![
        'a', 't', 'o', 'm', 'i', 'c', '_', 'x', 'o', 'r', '_', 'r', 'e', 'l', 'a', 'x', 'e', 'd',
    ]);
    assert("atomic_xsub"@ =~= seq!['a', 't', 'o', 'm', 'i', 'c', '_', 'x', 's', 'u', 'b']);
    assert("atomic_xsub_acq"@ =~= seq![
        'a', 't', 'o', 'm', 'i', 'c', '_', 'x', 's', 'u', 'b', '_', 'a', 'c', 'q',
    ]);
    assert("atomic_xsub_acqrel"@ =~= seq![
        'a', 't', 'o', 'm', 'i', 'c', '_', 'x', 's', 'u', 'b', '_', 'a', 'c', 'q', 'r', 'e', 'l',
    ]);
    assert("atomic_xsub_rel"@ =~= seq![
        'a', 't', 'o', 'm', 'i', 'c', '_', 'x', 's', 'u', 'b', '_', 'r', 'e', 'l',
    ]);
    assert("atomic_xsub_relaxed"@ =~= seq![
        'a', 't', 'o', 'm', 'i', 'c', '_', 'x', 's', 'u', 'b', '_', 'r', 'e', 'l', 'a', 'x', 'e',
        'd',
    ]);
    assert("mul_with_overflow"@ =~= seq![
        'm', 'u', 'l', '_', 'w', 'i', 't', 'h', '_', 'o', 'v', 'e', 'r', 'f', 'l', 'o', 'w',
    ]);
    assert("overflowing_add"@ =~= seq![
        'o', 'v', 'e', 'r', 'f', 'l', 'o', 'w', 'i', 'n', 'g', '_', 'a', 'd', 'd',
    ]);
    assert("overflowing_mul"@ =~= seq![
        'o', 'v', 'e', 'r', 'f', 'l', 'o', 'w', 'i', 'n', 'g', '_', 'm', 'u', 'l',
    ]);
    assert("rotate_left"@ =~= seq!['r', 'o', 't', 'a', 't', 'e', '_', 'l', 'e', 'f', 't']);
    assert("rotate_right"@ =~= seq!['r', 'o', 't', 'a', 't', 'e', '_', 'r', 'i', 'g', 'h', 't']);
    assert("saturating_add"@ =~= seq![
        's', 'a', 't', 'u', 'r', 'a', 't', 'i', 'n', 'g', '_', 'a', 'd', 'd',
    ]);
    assert("saturating_sub"@ =~= seq![
        's', 'a', 't', 'u', 'r', 'a', 't', 'i', 'n', 'g', '_', 's', 'u', 'b',
    ]);
    assert("sub_with_overflow"@ =~= seq![
        's', 'u', 'b', '_', 'w', 'i', 't', 'h', '_', 'o', 'v', 'e', 'r', 'f', 'l', 'o', 'w',
    ]);
    assert("volatile_load"@ =~= seq![
        'v', 'o', 'l', 'a', 't', 'i', 'l', 'e', '_', 'l', 'o', 'a', 'd',
    ]);
    assert("volatile_store"@ =~= seq![
        'v', 'o', 'l', 'a', 't', 'i', 'l', 'e', '_', 's', 't', 'o', 'r', 'e',
    ]);
    assert("size_of"@ =~= seq!['s', 'i', 'z', 'e', '_', 'o', 'f']);
    assert("transmute"@ =~= seq!['t', 'r', 'a', 'n', 's', 'm', 'u', 't', 'e']);
}

} // verus!
