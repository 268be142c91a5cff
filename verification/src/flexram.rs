//! FlexRAM bank-layout encoding.
//!
//! FlexRAM is partitioned into banks, and each bank is assigned a role
//! (OCRAM, DTCM, ITCM, or unused) at boot through a packed hardware
//! configuration word: two bits per bank, bank 0 in bits 0..2, bank 1 in
//! bits 2..4, and so on. [`FlexRamBanks`] holds a count of banks per role;
//! the canonical layout places all OCRAM banks first, then DTCM, then ITCM,
//! and leaves the remaining banks unused.

use vstd::prelude::*;

use crate::family::Family;

verus! {

/// The role a FlexRAM bank takes at boot.
#[derive(Debug, Clone, Copy, PartialEq, Eq, Structural)]
pub enum BankRole {
    /// The bank is disabled.
    Unused,
    /// The bank serves as on-chip RAM.
    Ocram,
    /// The bank serves as data tightly coupled memory.
    Dtcm,
    /// The bank serves as instruction tightly coupled memory.
    Itcm,
}

impl BankRole {
    /// The two-bit code the hardware configuration word uses for this role.
    pub open spec fn code(self) -> u32 {
        match self {
            BankRole::Unused => 0,
            BankRole::Ocram => 1,
            BankRole::Dtcm => 2,
            BankRole::Itcm => 3,
        }
    }
}

/// FlexRAM bank allocations.
///
/// Depending on your device, you may need a non-zero number of
/// OCRAM banks to support the boot ROM. Consult your processor's
/// reference manual for more information.
///
/// You should keep the sum of all banks below or equal to the
/// total number of banks supported by your device. Unallocated memory
/// banks are disabled.
///
/// Banks are typically 32 KiB large.
#[derive(Debug, Clone, Copy, PartialEq, Eq, Structural)]
pub struct FlexRamBanks {
    /// How many banks are allocated for OCRAM?
    ///
    /// This may need to be non-zero to support the boot ROM.
    /// Consult your reference manual.
    ///
    /// Note: these are FlexRAM OCRAM banks. Do not include any banks
    /// that would represent dedicated OCRAM; the runtime implementation
    /// allocates those automatically. In fact, if your chip includes
    /// dedicated OCRAM, you may set this to zero in order to maximize
    /// DTCM and ITCM utilization.
    pub ocram: u32,
    /// How many banks are allocated for ITCM?
    pub itcm: u32,
    /// How many banks are allocated for DTCM?
    pub dtcm: u32,
}

/// The two-bit field at bank index `i` of a packed configuration word.
pub open spec fn field(word: u32, i: int) -> u32 {
    (word >> ((2 * i) as u32)) & 3
}

/// The packed word for the first `n` banks of `layout`: the bitwise OR of
/// each bank's role code shifted to its two-bit position.
pub open spec fn layout_word_prefix(layout: Seq<BankRole>, n: int) -> u32
    decreases n,
{
    if n <= 0 {
        0
    } else {
        layout_word_prefix(layout, n - 1) | (layout[n - 1].code() << ((2 * (n - 1)) as u32))
    }
}

/// How many of the first `n` two-bit fields of `word` hold `code`.
pub open spec fn count_fields(word: u32, code: u32, n: int) -> int
    decreases n,
{
    if n <= 0 {
        0
    } else {
        count_fields(word, code, n - 1) + if field(word, n - 1) == code {
            1int
        } else {
            0int
        }
    }
}

impl FlexRamBanks {
    /// Total FlexRAM banks across all roles.
    pub open spec fn spec_bank_count(self) -> int {
        self.ocram + self.itcm + self.dtcm
    }

    /// Total FlexRAM banks.
    ///
    /// The sum is returned exactly, in a type wide enough that no
    /// allocation, however absurd, can overflow it.
    pub fn bank_count(&self) -> (r: u64)
        ensures
            r == self.spec_bank_count(),
    {
        self.ocram as u64 + self.itcm as u64 + self.dtcm as u64
    }

    /// The role of bank `i` in the canonical layout: OCRAM banks first,
    /// then DTCM, then ITCM, then unused.
    pub open spec fn role_at(self, i: int) -> BankRole {
        if i < self.ocram {
            BankRole::Ocram
        } else if i < self.ocram + self.dtcm {
            BankRole::Dtcm
        } else if i < self.ocram + self.dtcm + self.itcm {
            BankRole::Itcm
        } else {
            BankRole::Unused
        }
    }

    /// The canonical layout as an ordered bank-role sequence, one entry per
    /// field of the 32-bit configuration word.
    pub open spec fn canonical_layout(self) -> Seq<BankRole> {
        Seq::new(16, |i: int| self.role_at(i))
    }

    /// The packed hardware configuration word for the canonical layout.
    pub open spec fn spec_config(self) -> u32 {
        layout_word_prefix(self.canonical_layout(), 16)
    }

    /// Produces the FlexRAM configuration word.
    ///
    /// The bank allocation must fit the 16 fields of the configuration
    /// word; the validator rejects over-allocations before this runs.
    pub fn config(&self) -> (r: u32)
        requires
            self.spec_bank_count() <= 16,
        ensures
            r == self.spec_config(),
    {
        let mut word: u32 = 0;
        let mut i: u32 = 0;
        while i < 16
            invariant
                i <= 16,
                self.spec_bank_count() <= 16,
                word == layout_word_prefix(self.canonical_layout(), i as int),
            decreases 16 - i,
        {
            let code: u32 = if i < self.ocram {
                1
            } else if i < self.ocram + self.dtcm {
                2
            } else if i < self.ocram + self.dtcm + self.itcm {
                3
            } else {
                0
            };
            assert(code == self.canonical_layout()[i as int].code());
            word = word | (code << (2 * i));
            i = i + 1;
        }
        word
    }

    /// Recovers the per-role bank counts from a packed configuration word.
    pub fn from_config(word: u32) -> (r: FlexRamBanks)
        ensures
            r.ocram == count_fields(word, 1, 16),
            r.dtcm == count_fields(word, 2, 16),
            r.itcm == count_fields(word, 3, 16),
    {
        let mut ocram: u32 = 0;
        let mut dtcm: u32 = 0;
        let mut itcm: u32 = 0;
        let mut i: u32 = 0;
        while i < 16
            invariant
                i <= 16,
                ocram <= i,
                dtcm <= i,
                itcm <= i,
                ocram == count_fields(word, 1, i as int),
                dtcm == count_fields(word, 2, i as int),
                itcm == count_fields(word, 3, i as int),
            decreases 16 - i,
        {
            let f = (word >> (2 * i)) & 3;
            assert(f == field(word, i as int));
            if f == 1 {
                ocram = ocram + 1;
            } else if f == 2 {
                dtcm = dtcm + 1;
            } else if f == 3 {
                itcm = itcm + 1;
            }
            i = i + 1;
        }
        FlexRamBanks { ocram, itcm, dtcm }
    }
}

proof fn bv_or_shift_bound(w: u32, c: u32, k: u32)
    by (bit_vector)
    requires
        k <= 14,
        c <= 3,
        w < (1u32 << (2 * k)),
    ensures
        (w | (c << (2 * k))) < (1u32 << ((2 * k + 2) as u32)),
{
}

proof fn bv_field_low(w: u32, c: u32, k: u32, j: u32)
    by (bit_vector)
    requires
        j < k,
        k <= 15,
        c <= 3,
    ensures
        ((w | (c << (2 * k))) >> (2 * j)) & 3 == (w >> (2 * j)) & 3,
{
}

proof fn bv_field_at(w: u32, c: u32, k: u32)
    by (bit_vector)
    requires
        k <= 15,
        c <= 3,
        w < (1u32 << (2 * k)),
    ensures
        ((w | (c << (2 * k))) >> (2 * k)) & 3 == c,
{
}

/// A word covering `n <= 15` banks leaves all higher bits clear.
proof fn lemma_prefix_bound(layout: Seq<BankRole>, n: int)
    requires
        0 <= n <= 15,
    ensures
        layout_word_prefix(layout, n) < (1u32 << ((2 * n) as u32)),
    decreases n,
{
    if n == 0 {
        assert(0u32 < (1u32 << 0u32)) by (bit_vector);
    } else {
        lemma_prefix_bound(layout, n - 1);
        assert(layout[n - 1].code() <= 3);
        bv_or_shift_bound(
            layout_word_prefix(layout, n - 1),
            layout[n - 1].code(),
            (n - 1) as u32,
        );
        assert((2 * (n - 1) + 2) as u32 == (2 * n) as u32);
    }
}

/// Bank `i`'s field of the prefix word over `n > i` banks is bank `i`'s
/// role code.
proof fn lemma_prefix_field(layout: Seq<BankRole>, n: int, i: int)
    requires
        0 <= i < n <= 16,
    ensures
        field(layout_word_prefix(layout, n), i) == layout[i].code(),
    decreases n,
{
    assert(layout[n - 1].code() <= 3);
    if n - 1 == i {
        lemma_prefix_bound(layout, i);
        bv_field_at(layout_word_prefix(layout, i), layout[i].code(), i as u32);
    } else {
        lemma_prefix_field(layout, n - 1, i);
        bv_field_low(
            layout_word_prefix(layout, n - 1),
            layout[n - 1].code(),
            (n - 1) as u32,
            i as u32,
        );
    }
}

/// Counting fields that hold `code` when exactly the fields in `[a, b)`
/// hold it.
proof fn lemma_count_range(word: u32, code: u32, a: int, b: int, n: int)
    requires
        0 <= a <= b,
        0 <= n <= 16,
        forall|i: int| 0 <= i < 16 ==> ((#[trigger] field(word, i)) == code <==> a <= i < b),
    ensures
        count_fields(word, code, n) == if n <= a {
            0int
        } else if n <= b {
            n - a
        } else {
            b - a
        },
    decreases n,
{
    if n > 0 {
        lemma_count_range(word, code, a, b, n - 1);
    }
}

/// Canonical-layout encoding, bank by bank: the packed word gives the
/// OCRAM code to the lowest-indexed fields, then the DTCM code, then the
/// ITCM code, and leaves every remaining field unused — in particular every
/// field at or beyond the family's bank count.
pub proof fn lemma_canonical_encoding(family: Family, banks: FlexRamBanks)
    requires
        banks.spec_bank_count() <= family.spec_flexram_bank_count(),
    ensures
        forall|i: int|
            0 <= i < 16 ==> field(banks.spec_config(), i) == (#[trigger] banks.role_at(i)).code(),
        forall|i: int| 0 <= i < banks.ocram ==> #[trigger] banks.role_at(i) == BankRole::Ocram,
        forall|i: int|
            banks.ocram <= i < banks.ocram + banks.dtcm ==> #[trigger] banks.role_at(i)
                == BankRole::Dtcm,
        forall|i: int|
            banks.ocram + banks.dtcm <= i < banks.spec_bank_count() ==> #[trigger] banks.role_at(i)
                == BankRole::Itcm,
        forall|i: int|
            banks.spec_bank_count() <= i ==> #[trigger] banks.role_at(i) == BankRole::Unused,
{
    assert forall|i: int| 0 <= i < 16 implies field(banks.spec_config(), i) == (
    #[trigger] banks.role_at(i)).code() by {
        lemma_prefix_field(banks.canonical_layout(), 16, i);
    }
}

/// Round trip: decoding the per-role counts out of a canonical-layout word
/// recovers the counts the word was built from.
pub proof fn lemma_config_roundtrip(banks: FlexRamBanks)
    requires
        banks.spec_bank_count() <= 16,
    ensures
        count_fields(banks.spec_config(), 1, 16) == banks.ocram,
        count_fields(banks.spec_config(), 2, 16) == banks.dtcm,
        count_fields(banks.spec_config(), 3, 16) == banks.itcm,
{
    let word = banks.spec_config();
    assert forall|i: int| 0 <= i < 16 implies ((#[trigger] field(word, i)) == 1u32 <==> 0 <= i
        < banks.ocram) by {
        lemma_prefix_field(banks.canonical_layout(), 16, i);
    }
    assert forall|i: int| 0 <= i < 16 implies ((#[trigger] field(word, i)) == 2u32 <==> banks.ocram
        <= i < banks.ocram + banks.dtcm) by {
        lemma_prefix_field(banks.canonical_layout(), 16, i);
    }
    assert forall|i: int| 0 <= i < 16 implies ((#[trigger] field(word, i)) == 3u32 <==> banks.ocram
        + banks.dtcm <= i < banks.spec_bank_count()) by {
        lemma_prefix_field(banks.canonical_layout(), 16, i);
    }
    lemma_count_range(word, 1, 0, banks.ocram as int, 16);
    lemma_count_range(word, 2, banks.ocram as int, banks.ocram + banks.dtcm, 16);
    lemma_count_range(word, 3, banks.ocram + banks.dtcm, banks.spec_bank_count(), 16);
}

} // verus!
