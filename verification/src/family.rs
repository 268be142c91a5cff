//! Per-family hardware facts.
//!
//! Every fact about a chip family lives here, stated twice: once as a spec
//! function that contracts and proofs use, and once as an executable lookup
//! proved equal to it. Each lookup matches every [`Family`] variant
//! explicitly, so adding a family forces every fact to be supplied.

use vstd::prelude::*;

use crate::flexram::FlexRamBanks;

verus! {

/// Memory partitions.
///
/// Use with [`RuntimeBuilder`](crate::RuntimeBuilder) to specify the
/// placement of sections in the final program. Note that the builder only
/// does limited checks on memory placements. Generally, it's OK to place
/// data in ITCM and instructions in DTCM; however, this isn't recommended
/// for optimal performance.
#[non_exhaustive]
#[derive(Debug, Clone, Copy, PartialEq, Eq, Structural)]
pub enum Memory {
    /// Place the section in (external) flash.
    ///
    /// Reads and writes are translated into commands on an external
    /// bus, like FlexSPI.
    Flash,
    /// Place the section in data tightly coupled memory (DTCM).
    Dtcm,
    /// Place the section in instruction tightly coupled memory (ITCM).
    Itcm,
    /// Place the section in on-chip RAM (OCRAM).
    ///
    /// If your chip has dedicated OCRAM memory, the implementation
    /// utilizes that OCRAM before utilizing any FlexRAM OCRAM banks.
    Ocram,
}

impl Memory {
    /// The name of the linker-script memory block for this region.
    pub open spec fn spec_name(self) -> Seq<char> {
        match self {
            Memory::Flash => "FLASH"@,
            Memory::Itcm => "ITCM"@,
            Memory::Dtcm => "DTCM"@,
            Memory::Ocram => "OCRAM"@,
        }
    }

    /// The name of the linker-script memory block for this region.
    pub fn name(self) -> (r: &'static str)
        ensures
            r@ == self.spec_name(),
    {
        match self {
            Memory::Flash => "FLASH",
            Memory::Itcm => "ITCM",
            Memory::Dtcm => "DTCM",
            Memory::Ocram => "OCRAM",
        }
    }
}

/// i.MX RT chip family.
///
/// Chip families are designated by reference manuals and product categories.
/// Supply this to a [`RuntimeBuilder`](crate::RuntimeBuilder) in order to
/// check runtime configurations.
#[non_exhaustive]
#[derive(Debug, Clone, Copy, PartialEq, Eq, Structural)]
pub enum Family {
    Imxrt1010,
    Imxrt1015,
    Imxrt1020,
    Imxrt1050,
    Imxrt1060,
    Imxrt1064,
    Imxrt1170,
}

impl Family {
    /// Family identifier.
    ///
    /// These values may be stored in the image and observed by the runtime
    /// initialization routine. They must be kept in sync with any
    /// hard-coded values there.
    pub open spec fn spec_id(self) -> u32 {
        match self {
            Family::Imxrt1010 => 1010,
            Family::Imxrt1015 => 1015,
            Family::Imxrt1020 => 1020,
            Family::Imxrt1050 => 1050,
            Family::Imxrt1060 => 1060,
            Family::Imxrt1064 => 1064,
            Family::Imxrt1170 => 1170,
        }
    }

    /// Family identifier, as written into the generated artifact.
    pub(crate) fn id(self) -> (r: u32)
        ensures
            r == self.spec_id(),
    {
        match self {
            Family::Imxrt1010 => 1010,
            Family::Imxrt1015 => 1015,
            Family::Imxrt1020 => 1020,
            Family::Imxrt1050 => 1050,
            Family::Imxrt1060 => 1060,
            Family::Imxrt1064 => 1064,
            Family::Imxrt1170 => 1170,
        }
    }

    /// The family name, as it appears in the artifact's header comment.
    pub open spec fn spec_name(self) -> Seq<char> {
        match self {
            Family::Imxrt1010 => "Imxrt1010"@,
            Family::Imxrt1015 => "Imxrt1015"@,
            Family::Imxrt1020 => "Imxrt1020"@,
            Family::Imxrt1050 => "Imxrt1050"@,
            Family::Imxrt1060 => "Imxrt1060"@,
            Family::Imxrt1064 => "Imxrt1064"@,
            Family::Imxrt1170 => "Imxrt1170"@,
        }
    }

    /// The family name, as it appears in the artifact's header comment.
    pub fn name(self) -> (r: &'static str)
        ensures
            r@ == self.spec_name(),
    {
        match self {
            Family::Imxrt1010 => "Imxrt1010",
            Family::Imxrt1015 => "Imxrt1015",
            Family::Imxrt1020 => "Imxrt1020",
            Family::Imxrt1050 => "Imxrt1050",
            Family::Imxrt1060 => "Imxrt1060",
            Family::Imxrt1064 => "Imxrt1064",
            Family::Imxrt1170 => "Imxrt1170",
        }
    }

    /// How many FlexRAM banks are available?
    pub open spec fn spec_flexram_bank_count(self) -> u32 {
        match self {
            Family::Imxrt1010 | Family::Imxrt1015 => 4,
            Family::Imxrt1020 => 8,
            Family::Imxrt1050 | Family::Imxrt1060 | Family::Imxrt1064 => 16,
            // No ECC support; treating all banks as equal.
            Family::Imxrt1170 => 16,
        }
    }

    /// How many FlexRAM banks are available?
    pub fn flexram_bank_count(self) -> (r: u32)
        ensures
            r == self.spec_flexram_bank_count(),
    {
        match self {
            Family::Imxrt1010 | Family::Imxrt1015 => 4,
            Family::Imxrt1020 => 8,
            Family::Imxrt1050 | Family::Imxrt1060 | Family::Imxrt1064 => 16,
            Family::Imxrt1170 => 16,
        }
    }

    /// Every family has at most 16 FlexRAM banks, the most a 32-bit
    /// configuration word can describe.
    pub proof fn bank_count_fits(self)
        ensures
            self.spec_flexram_bank_count() <= 16,
    {
    }

    /// How large (bytes) is each FlexRAM bank?
    pub open spec fn spec_flexram_bank_size(self) -> u32 {
        (32 * 1024) as u32
    }

    /// How large (bytes) is each FlexRAM bank?
    pub(crate) fn flexram_bank_size(self) -> (r: u32)
        ensures
            r == self.spec_flexram_bank_size(),
    {
        32 * 1024
    }

    /// How many OCRAM banks does the boot ROM need?
    pub open spec fn spec_bootrom_ocram_banks(self) -> u32 {
        match self {
            Family::Imxrt1010 | Family::Imxrt1015 | Family::Imxrt1020 | Family::Imxrt1050 => 1,
            // 9.5.1. memory maps point at OCRAM2.
            Family::Imxrt1060 | Family::Imxrt1064 => 0,
            // Boot ROM uses dedicated OCRAM1.
            Family::Imxrt1170 => 0,
        }
    }

    /// How many OCRAM banks does the boot ROM need?
    pub(crate) fn bootrom_ocram_banks(self) -> (r: u32)
        ensures
            r == self.spec_bootrom_ocram_banks(),
    {
        match self {
            Family::Imxrt1010 | Family::Imxrt1015 | Family::Imxrt1020 | Family::Imxrt1050 => 1,
            Family::Imxrt1060 | Family::Imxrt1064 => 0,
            Family::Imxrt1170 => 0,
        }
    }

    /// Where's the FlexSPI configuration block located within the flash
    /// window?
    pub open spec fn spec_fcb_offset(self) -> usize {
        match self {
            Family::Imxrt1010 | Family::Imxrt1170 => 0x400,
            Family::Imxrt1015
            | Family::Imxrt1020
            | Family::Imxrt1050
            | Family::Imxrt1060
            | Family::Imxrt1064 => 0x000,
        }
    }

    /// Where's the FlexSPI configuration block located within the flash
    /// window?
    pub(crate) fn fcb_offset(self) -> (r: usize)
        ensures
            r == self.spec_fcb_offset(),
    {
        match self {
            Family::Imxrt1010 | Family::Imxrt1170 => 0x400,
            Family::Imxrt1015
            | Family::Imxrt1020
            | Family::Imxrt1050
            | Family::Imxrt1060
            | Family::Imxrt1064 => 0x000,
        }
    }

    /// Where does the OCRAM region begin?
    ///
    /// This includes any dedicated OCRAM regions, if they exist for the
    /// chip.
    pub open spec fn spec_ocram_start(self) -> u32 {
        match self {
            // 256 KiB offset from the OCRAM M4 backdoor.
            Family::Imxrt1170 => 0x2024_0000,
            // Either starts the FlexRAM OCRAM banks, or the
            // dedicated OCRAM regions (for supported devices).
            Family::Imxrt1010
            | Family::Imxrt1015
            | Family::Imxrt1020
            | Family::Imxrt1050
            | Family::Imxrt1060
            | Family::Imxrt1064 => 0x2020_0000,
        }
    }

    /// Where does the OCRAM region begin?
    pub(crate) fn ocram_start(self) -> (r: u32)
        ensures
            r == self.spec_ocram_start(),
    {
        match self {
            Family::Imxrt1170 => 0x2024_0000,
            Family::Imxrt1010
            | Family::Imxrt1015
            | Family::Imxrt1020
            | Family::Imxrt1050
            | Family::Imxrt1060
            | Family::Imxrt1064 => 0x2020_0000,
        }
    }

    /// What's the size, in bytes, of the dedicated OCRAM section?
    ///
    /// This isn't supported by all chips.
    pub open spec fn spec_dedicated_ocram_size(self) -> u32 {
        match self {
            Family::Imxrt1010 | Family::Imxrt1015 | Family::Imxrt1020 | Family::Imxrt1050 => 0,
            Family::Imxrt1060 | Family::Imxrt1064 => (512 * 1024) as u32,
            // - Two dedicated OCRAMs
            // - Two dedicated OCRAM ECC regions that aren't used for ECC
            // - One FlexRAM OCRAM ECC region that's strictly OCRAM, without ECC
            Family::Imxrt1170 => ((2 * 512 + 2 * 64 + 128) * 1024) as u32,
        }
    }

    /// What's the size, in bytes, of the dedicated OCRAM section?
    pub(crate) fn dedicated_ocram_size(self) -> (r: u32)
        ensures
            r == self.spec_dedicated_ocram_size(),
    {
        match self {
            Family::Imxrt1010 | Family::Imxrt1015 | Family::Imxrt1020 | Family::Imxrt1050 => 0,
            Family::Imxrt1060 | Family::Imxrt1064 => 512 * 1024,
            Family::Imxrt1170 => (2 * 512 + 2 * 64 + 128) * 1024,
        }
    }

    /// The default FlexRAM bank allocation for this chip.
    ///
    /// The default values represent the all-zero fuse values.
    pub open spec fn spec_default_flexram_banks(self) -> FlexRamBanks {
        match self {
            Family::Imxrt1010 | Family::Imxrt1015 => FlexRamBanks { ocram: 2, itcm: 1, dtcm: 1 },
            Family::Imxrt1020 => FlexRamBanks { ocram: 4, itcm: 2, dtcm: 2 },
            Family::Imxrt1050 | Family::Imxrt1060 | Family::Imxrt1064 => FlexRamBanks {
                ocram: 8,
                itcm: 4,
                dtcm: 4,
            },
            Family::Imxrt1170 => FlexRamBanks { ocram: 0, itcm: 8, dtcm: 8 },
        }
    }

    /// Returns the default FlexRAM bank allocation for this chip.
    ///
    /// The default values represent the all-zero fuse values.
    pub fn default_flexram_banks(self) -> (r: FlexRamBanks)
        ensures
            r == self.spec_default_flexram_banks(),
    {
        match self {
            Family::Imxrt1010 | Family::Imxrt1015 => FlexRamBanks { ocram: 2, itcm: 1, dtcm: 1 },
            Family::Imxrt1020 => FlexRamBanks { ocram: 4, itcm: 2, dtcm: 2 },
            Family::Imxrt1050 | Family::Imxrt1060 | Family::Imxrt1064 => FlexRamBanks {
                ocram: 8,
                itcm: 4,
                dtcm: 4,
            },
            Family::Imxrt1170 => FlexRamBanks { ocram: 0, itcm: 8, dtcm: 8 },
        }
    }

    /// The default allocation never over-commits the family's banks, and
    /// always reserves what the boot ROM needs.
    pub proof fn default_flexram_banks_valid(self)
        ensures
            self.spec_default_flexram_banks().ocram + self.spec_default_flexram_banks().itcm
                + self.spec_default_flexram_banks().dtcm <= self.spec_flexram_bank_count(),
            self.spec_default_flexram_banks().ocram >= self.spec_bootrom_ocram_banks(),
    {
    }
}

/// The FlexSPI peripheral that interfaces your flash chip.
///
/// The [`RuntimeBuilder`](crate::RuntimeBuilder) selects `FlexSpi1` for
/// nearly all chip families. However, it selects `FlexSpi2` for the 1064 in
/// order to utilize its on-board flash. You can override the selection
/// using [`RuntimeBuilder::flexspi()`](crate::RuntimeBuilder::flexspi).
#[non_exhaustive]
#[derive(Debug, Clone, Copy, PartialEq, Eq, Structural)]
pub enum FlexSpi {
    /// Interface flash using FlexSPI 1.
    FlexSpi1,
    /// Interface flash using FlexSPI 2.
    FlexSpi2,
}

impl FlexSpi {
    /// The peripheral's name, as error messages spell it.
    pub open spec fn spec_name(self) -> Seq<char> {
        match self {
            FlexSpi::FlexSpi1 => "FlexSpi1"@,
            FlexSpi::FlexSpi2 => "FlexSpi2"@,
        }
    }

    /// The peripheral's name, as error messages spell it.
    pub fn name(self) -> (r: &'static str)
        ensures
            r@ == self.spec_name(),
    {
        match self {
            FlexSpi::FlexSpi1 => "FlexSpi1",
            FlexSpi::FlexSpi2 => "FlexSpi2",
        }
    }

    /// The FlexSPI peripheral a family boots from by default.
    pub open spec fn spec_family_default(family: Family) -> FlexSpi {
        match family {
            Family::Imxrt1064 => FlexSpi::FlexSpi2,
            Family::Imxrt1010
            | Family::Imxrt1015
            | Family::Imxrt1020
            | Family::Imxrt1050
            | Family::Imxrt1060
            | Family::Imxrt1170 => FlexSpi::FlexSpi1,
        }
    }

    /// The FlexSPI peripheral a family boots from by default.
    pub(crate) fn family_default(family: Family) -> (r: Self)
        ensures
            r == Self::spec_family_default(family),
    {
        match family {
            Family::Imxrt1064 => FlexSpi::FlexSpi2,
            Family::Imxrt1010
            | Family::Imxrt1015
            | Family::Imxrt1020
            | Family::Imxrt1050
            | Family::Imxrt1060
            | Family::Imxrt1170 => FlexSpi::FlexSpi1,
        }
    }

    /// Where this peripheral maps flash into the address space, if the
    /// family has this peripheral at all.
    pub open spec fn spec_start_address(self, family: Family) -> Option<u32> {
        match (self, family) {
            // FlexSPI1, 10xx
            (
                FlexSpi::FlexSpi1,
                Family::Imxrt1010
                | Family::Imxrt1015
                | Family::Imxrt1020
                | Family::Imxrt1050
                | Family::Imxrt1060
                | Family::Imxrt1064,
            ) => Some(0x6000_0000),
            // FlexSPI2 not available on these 10xx families
            (
                FlexSpi::FlexSpi2,
                Family::Imxrt1010 | Family::Imxrt1015 | Family::Imxrt1020 | Family::Imxrt1050,
            ) => None,
            // FlexSPI2 available on these 10xx families
            (FlexSpi::FlexSpi2, Family::Imxrt1060 | Family::Imxrt1064) => Some(0x7000_0000),
            // 11xx support
            (FlexSpi::FlexSpi1, Family::Imxrt1170) => Some(0x3000_0000),
            (FlexSpi::FlexSpi2, Family::Imxrt1170) => Some(0x6000_0000),
        }
    }

    /// Where this peripheral maps flash into the address space, if the
    /// family has this peripheral at all.
    pub(crate) fn start_address(self, family: Family) -> (r: Option<u32>)
        ensures
            r == self.spec_start_address(family),
    {
        match (self, family) {
            (
                FlexSpi::FlexSpi1,
                Family::Imxrt1010
                | Family::Imxrt1015
                | Family::Imxrt1020
                | Family::Imxrt1050
                | Family::Imxrt1060
                | Family::Imxrt1064,
            ) => Some(0x6000_0000),
            (
                FlexSpi::FlexSpi2,
                Family::Imxrt1010 | Family::Imxrt1015 | Family::Imxrt1020 | Family::Imxrt1050,
            ) => None,
            (FlexSpi::FlexSpi2, Family::Imxrt1060 | Family::Imxrt1064) => Some(0x7000_0000),
            (FlexSpi::FlexSpi1, Family::Imxrt1170) => Some(0x3000_0000),
            (FlexSpi::FlexSpi2, Family::Imxrt1170) => Some(0x6000_0000),
        }
    }

    /// Does the family have this FlexSPI peripheral?
    pub open spec fn spec_supported_for_family(self, family: Family) -> bool {
        self.spec_start_address(family) is Some
    }

    /// Does the family have this FlexSPI peripheral?
    pub(crate) fn supported_for_family(self, family: Family) -> (r: bool)
        ensures
            r == self.spec_supported_for_family(family),
    {
        self.start_address(family).is_some()
    }
}

/// Every family supports its own default FlexSPI peripheral.
pub proof fn lemma_default_flexspi_supported(family: Family)
    ensures
        FlexSpi::spec_family_default(family).spec_supported_for_family(family),
{
}

} // verus!
