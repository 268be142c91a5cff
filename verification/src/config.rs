//! The runtime configuration builder, its validator, and the artifact.
//!
//! A [`RuntimeBuilder`] is a plain configuration record with fluent
//! setters. It seeds identical default placements in each of its three
//! construction modes, which differ only in how the image reaches memory:
//! booted directly from a FlexSPI flash window, chain-loaded from a flash
//! partition, or fully RAM-resident. [`RuntimeBuilder::write_linker_script`]
//! validates the configuration and renders the artifact.

use vstd::prelude::*;
use vstd::string::StringExecFns;

use crate::emit::region_alias;
use crate::emit::spec_flash_memory_map;
use crate::emit::spec_ram_memory_map;
use crate::emit::spec_region_alias;
use crate::emit::write_flash_memory_map;
use crate::emit::write_ram_memory_map;
use crate::env_override::spec_resolved_size;
use crate::env_override::EnvOverride;
use crate::family::Family;
use crate::family::FlexSpi;
use crate::family::Memory;
use crate::flexram::FlexRamBanks;
use crate::text::dec_digits;
use crate::text::hex_padded;
use crate::text::push_dec;
use crate::text::push_hex_padded;

verus! {

/// Flash-related options of a flash-loaded image.
#[derive(Debug, Clone, Copy, PartialEq, Eq, Structural)]
pub struct FlashOpts {
    /// The size, in bytes, of the flash window or partition the image
    /// occupies.
    pub size: usize,
    /// The image's byte offset from the start of the bus window.
    pub offset: u32,
    /// The FlexSPI peripheral that interfaces the flash chip.
    pub flexspi: FlexSpi,
    /// Whether the artifact inlines the boot-header assets.
    pub boot_header: bool,
}

/// A logical program section that must not live in flash.
#[derive(Debug, Clone, Copy, PartialEq, Eq, Structural)]
pub enum Section {
    /// Mutable data.
    Data,
    /// The vector table.
    Vectors,
    /// Zero-initialized data.
    Bss,
    /// Uninitialized data.
    Uninit,
    /// The stack region.
    Stack,
    /// The heap region.
    Heap,
}

impl Section {
    /// The section's name, as the validator's error message spells it.
    pub open spec fn spec_name(self) -> Seq<char> {
        match self {
            Section::Data => "data"@,
            Section::Vectors => "vectors"@,
            Section::Bss => "bss"@,
            Section::Uninit => "uninit"@,
            Section::Stack => "stack"@,
            Section::Heap => "heap"@,
        }
    }

    /// The section's name, as the validator's error message spells it.
    pub fn name(self) -> (r: &'static str)
        ensures
            r@ == self.spec_name(),
    {
        match self {
            Section::Data => "data",
            Section::Vectors => "vectors",
            Section::Bss => "bss",
            Section::Uninit => "uninit",
            Section::Stack => "stack",
            Section::Heap => "heap",
        }
    }

    /// The order in which the validator examines the sections.
    pub open spec fn spec_order(self) -> int {
        match self {
            Section::Data => 0,
            Section::Vectors => 1,
            Section::Bss => 2,
            Section::Uninit => 3,
            Section::Stack => 4,
            Section::Heap => 5,
        }
    }
}

/// A configuration invariant the validator found violated.
#[derive(Debug, Clone, Copy, PartialEq, Eq, Structural)]
pub enum ConfigError {
    /// The bank allocation requests more FlexRAM banks than the chip has.
    TooManyBanks {
        /// The chip family checked against.
        family: Family,
        /// How many FlexRAM banks that family has.
        available: u32,
        /// How many banks the allocation requested in total.
        requested: u64,
    },
    /// The bank allocation reserves fewer OCRAM banks than the family's
    /// boot ROM requires.
    InsufficientOcramBanks {
        /// The chip family checked against.
        family: Family,
        /// How many OCRAM banks the boot ROM requires.
        required: u32,
    },
    /// The chosen FlexSPI peripheral does not exist on this family.
    UnsupportedFlexSpi {
        /// The chip family checked against.
        family: Family,
        /// The peripheral the configuration chose.
        flexspi: FlexSpi,
    },
    /// A section that must not live in flash was placed in flash.
    SectionInFlash {
        /// The offending section.
        section: Section,
    },
}

impl ConfigError {
    /// The error rendered as text, naming the family and the violated
    /// quantity or section.
    pub open spec fn spec_message(self) -> Seq<char> {
        match self {
            ConfigError::TooManyBanks { family, available, requested } => "Chip "@
                + family.spec_name() + " only has "@ + dec_digits(available as int)
                + " total FlexRAM banks. Cannot allocate a total of "@ + dec_digits(
                requested as int,
            ) + " banks"@,
            ConfigError::InsufficientOcramBanks { family, required } => "Chip "@
                + family.spec_name() + " requires at least "@ + dec_digits(required as int)
                + " OCRAM banks for the bootloader ROM"@,
            ConfigError::UnsupportedFlexSpi { family, flexspi } => "Chip "@ + family.spec_name()
                + " does not support "@ + flexspi.spec_name(),
            ConfigError::SectionInFlash { section } => "Section '"@ + section.spec_name()
                + "' cannot be placed in flash"@,
        }
    }

    /// Renders the error as text, naming the family and the violated
    /// quantity or section.
    pub fn message(&self) -> (r: String)
        ensures
            r@ == self.spec_message(),
    {
        let mut out = String::new();
        match self {
            ConfigError::TooManyBanks { family, available, requested } => {
                out.append("Chip ");
                out.append(family.name());
                out.append(" only has ");
                push_dec(&mut out, *available as u64);
                out.append(" total FlexRAM banks. Cannot allocate a total of ");
                push_dec(&mut out, *requested);
                out.append(" banks");
                assert(out@ =~= self.spec_message());
            },
            ConfigError::InsufficientOcramBanks { family, required } => {
                out.append("Chip ");
                out.append(family.name());
                out.append(" requires at least ");
                push_dec(&mut out, *required as u64);
                out.append(" OCRAM banks for the bootloader ROM");
                assert(out@ =~= self.spec_message());
            },
            ConfigError::UnsupportedFlexSpi { family, flexspi } => {
                out.append("Chip ");
                out.append(family.name());
                out.append(" does not support ");
                out.append(flexspi.name());
                assert(out@ =~= self.spec_message());
            },
            ConfigError::SectionInFlash { section } => {
                out.append("Section '");
                out.append(section.name());
                out.append("' cannot be placed in flash");
                assert(out@ =~= self.spec_message());
            },
        }
        out
    }
}

/// Why building the artifact failed.
#[derive(Debug, Clone, Copy, PartialEq, Eq, Structural)]
pub enum BuildError {
    /// The configuration failed validation.
    Config(ConfigError),
    /// The stack-size override variable held an invalid value.
    InvalidStackSize,
    /// The heap-size override variable held an invalid value.
    InvalidHeapSize,
}

impl BuildError {
    /// The error rendered as text.
    pub open spec fn spec_message(self) -> Seq<char> {
        match self {
            BuildError::Config(e) => e.spec_message(),
            BuildError::InvalidStackSize => "Invalid stack size override value"@,
            BuildError::InvalidHeapSize => "Invalid heap size override value"@,
        }
    }

    /// Renders the error as text.
    pub fn message(&self) -> (r: String)
        ensures
            r@ == self.spec_message(),
    {
        match self {
            BuildError::Config(e) => e.message(),
            BuildError::InvalidStackSize => "Invalid stack size override value".to_owned(),
            BuildError::InvalidHeapSize => "Invalid heap size override value".to_owned(),
        }
    }
}

/// Builder for the i.MX RT runtime.
///
/// `RuntimeBuilder` lets you assign sections to memory regions and
/// partition FlexRAM into DTCM, ITCM, and OCRAM banks. Construct it in one
/// of three modes:
///
/// - [`from_flexspi`](Self::from_flexspi): the image boots directly from a
///   FlexSPI flash window.
/// - [`from_partition`](Self::from_partition): the image occupies a
///   caller-chosen sub-range of the flash window and is chain-loaded by
///   other software.
/// - [`without_flash`](Self::without_flash): the image is RAM-resident;
///   every section executes where it is loaded.
///
/// All three modes seed the same default placements: code in ITCM;
/// read-only data, mutable data, zero-initialized and uninitialized data
/// in OCRAM; the vector table, stack, and heap in DTCM; an 8 KiB stack and
/// an empty heap; and the family's default FlexRAM bank allocation.
///
/// Setters mutate exactly one field and perform no validation, so
/// intermediate states may be transiently invalid; the checks all run in
/// [`write_linker_script`](Self::write_linker_script).
#[derive(Debug, Clone, PartialEq, Eq)]
pub struct RuntimeBuilder {
    /// The chip family being configured.
    pub family: Family,
    /// The FlexRAM bank allocation.
    pub flexram_banks: FlexRamBanks,
    /// Where code lives.
    pub text: Memory,
    /// Where read-only data lives.
    pub rodata: Memory,
    /// Where mutable data lives.
    pub data: Memory,
    /// Where the vector table lives.
    pub vectors: Memory,
    /// Where zero-initialized data lives.
    pub bss: Memory,
    /// Where uninitialized data lives.
    pub uninit: Memory,
    /// Where the stack lives.
    pub stack: Memory,
    /// The stack's size and its optional override variable.
    pub stack_size: EnvOverride,
    /// Where the heap lives.
    pub heap: Memory,
    /// The heap's size and its optional override variable.
    pub heap_size: EnvOverride,
    /// Flash options; absent for a RAM-resident image.
    pub flash_opts: Option<FlashOpts>,
    /// The file name under which the artifact is written.
    pub linker_script_name: String,
}

/// The section-to-region placements every construction mode seeds.
pub open spec fn spec_default_placement(b: RuntimeBuilder) -> bool {
    &&& b.text == Memory::Itcm
    &&& b.rodata == Memory::Ocram
    &&& b.data == Memory::Ocram
    &&& b.vectors == Memory::Dtcm
    &&& b.bss == Memory::Ocram
    &&& b.uninit == Memory::Ocram
    &&& b.stack == Memory::Dtcm
    &&& b.heap == Memory::Dtcm
}

/// The region a validated section is placed in.
pub open spec fn spec_section_region(b: RuntimeBuilder, section: Section) -> Memory {
    match section {
        Section::Data => b.data,
        Section::Vectors => b.vectors,
        Section::Bss => b.bss,
        Section::Uninit => b.uninit,
        Section::Stack => b.stack,
        Section::Heap => b.heap,
    }
}

/// What the validator decides, in its fixed order: bank total, boot-ROM
/// OCRAM reservation, FlexSPI support, then each non-flash-eligible
/// section; the first violated check names the error.
pub open spec fn spec_validate(b: RuntimeBuilder) -> Option<ConfigError> {
    if b.family.spec_flexram_bank_count() < b.flexram_banks.spec_bank_count() {
        Some(
            ConfigError::TooManyBanks {
                family: b.family,
                available: b.family.spec_flexram_bank_count(),
                requested: b.flexram_banks.spec_bank_count() as u64,
            },
        )
    } else if b.flexram_banks.ocram < b.family.spec_bootrom_ocram_banks() {
        Some(
            ConfigError::InsufficientOcramBanks {
                family: b.family,
                required: b.family.spec_bootrom_ocram_banks(),
            },
        )
    } else if (match b.flash_opts {
        Some(fo) => !fo.flexspi.spec_supported_for_family(b.family),
        None => false,
    }) {
        Some(
            ConfigError::UnsupportedFlexSpi {
                family: b.family,
                flexspi: b.flash_opts->Some_0.flexspi,
            },
        )
    } else if b.data == Memory::Flash {
        Some(ConfigError::SectionInFlash { section: Section::Data })
    } else if b.vectors == Memory::Flash {
        Some(ConfigError::SectionInFlash { section: Section::Vectors })
    } else if b.bss == Memory::Flash {
        Some(ConfigError::SectionInFlash { section: Section::Bss })
    } else if b.uninit == Memory::Flash {
        Some(ConfigError::SectionInFlash { section: Section::Uninit })
    } else if b.stack == Memory::Flash {
        Some(ConfigError::SectionInFlash { section: Section::Stack })
    } else if b.heap == Memory::Flash {
        Some(ConfigError::SectionInFlash { section: Section::Heap })
    } else {
        None
    }
}

/// The memory-map portion of the artifact: the flash map followed by the
/// boot-header assets when they apply, or the RAM-resident map.
pub open spec fn spec_memory_map_part(b: RuntimeBuilder, boot_header: Seq<char>) -> Seq<char> {
    match b.flash_opts {
        Some(fo) => spec_flash_memory_map(b.family, fo, b.flexram_banks) + (if fo.boot_header {
            boot_header
        } else {
            Seq::<char>::empty()
        }),
        None => spec_ram_memory_map(b.family, b.flexram_banks),
    }
}

/// One region alias per logical section.
pub open spec fn spec_alias_part(b: RuntimeBuilder) -> Seq<char> {
    spec_region_alias("TEXT"@, b.text) + spec_region_alias("VTABLE"@, b.vectors)
        + spec_region_alias("RODATA"@, b.rodata) + spec_region_alias("DATA"@, b.data)
        + spec_region_alias("BSS"@, b.bss) + spec_region_alias("UNINIT"@, b.uninit)
        + spec_region_alias("STACK"@, b.stack) + spec_region_alias("HEAP"@, b.heap)
}

/// The resolved stack and heap sizes, as fixed-width hexadecimal symbols.
pub open spec fn spec_sizes_part(stack_size: int, heap_size: int) -> Seq<char> {
    "__stack_size = "@ + hex_padded(stack_size) + ";\n"@ + "__heap_size = "@ + hex_padded(
        heap_size,
    ) + ";\n"@
}

/// The load-location aliases: with flash present, every copied section
/// loads from flash; without it, each section loads where it executes and
/// the startup code copies nothing.
pub open spec fn spec_load_alias_part(b: RuntimeBuilder) -> Seq<char> {
    if b.flash_opts is Some {
        spec_region_alias("LOAD_VTABLE"@, Memory::Flash) + spec_region_alias(
            "LOAD_TEXT"@,
            Memory::Flash,
        ) + spec_region_alias("LOAD_RODATA"@, Memory::Flash) + spec_region_alias(
            "LOAD_DATA"@,
            Memory::Flash,
        )
    } else {
        spec_region_alias("LOAD_VTABLE"@, b.vectors) + spec_region_alias("LOAD_TEXT"@, b.text)
            + spec_region_alias("LOAD_RODATA"@, b.rodata) + spec_region_alias(
            "LOAD_DATA"@,
            b.data,
        )
    }
}

/// The packed bank-role word and the family identifier, as numeric
/// symbols the target startup code reads.
pub open spec fn spec_symbols_part(b: RuntimeBuilder) -> Seq<char> {
    "__flexram_config = "@ + hex_padded(b.flexram_banks.spec_config() as int) + ";\n"@
        + "__imxrt_family = "@ + dec_digits(b.family.spec_id() as int) + ";\n"@
}

/// The whole artifact: memory map, section aliases, size symbols, load
/// aliases, startup symbols, and the fixed boilerplate appended verbatim.
pub open spec fn spec_linker_script(
    b: RuntimeBuilder,
    stack_size: int,
    heap_size: int,
    boot_header: Seq<char>,
    epilogue: Seq<char>,
) -> Seq<char> {
    spec_memory_map_part(b, boot_header) + spec_alias_part(b) + spec_sizes_part(
        stack_size,
        heap_size,
    ) + spec_load_alias_part(b) + spec_symbols_part(b) + epilogue
}

fn write_memory_map_part(out: &mut String, b: &RuntimeBuilder, boot_header: &str)
    requires
        b.flexram_banks.spec_bank_count() <= 16,
        b.flash_opts matches Some(fo) ==> fo.flexspi.spec_supported_for_family(b.family),
    ensures
        final(out)@ == old(out)@ + spec_memory_map_part(*b, boot_header@),
{
    match &b.flash_opts {
        Some(flash_opts) => {
            write_flash_memory_map(out, b.family, flash_opts, &b.flexram_banks);
            if flash_opts.boot_header {
                out.append(boot_header);
            }
        },
        None => {
            write_ram_memory_map(out, b.family, &b.flexram_banks);
        },
    }
    assert(out@ =~= old(out)@ + spec_memory_map_part(*b, boot_header@));
}

fn write_alias_part(out: &mut String, b: &RuntimeBuilder)
    ensures
        final(out)@ == old(out)@ + spec_alias_part(*b),
{
    // Keep these alias names in sync with the fixed boilerplate. The
    // boilerplate places sections through these aliases, and the builder
    // decides what each alias means; that saves the step of generating
    // SECTION commands.
    region_alias(out, "TEXT", b.text);
    region_alias(out, "VTABLE", b.vectors);
    region_alias(out, "RODATA", b.rodata);
    region_alias(out, "DATA", b.data);
    region_alias(out, "BSS", b.bss);
    region_alias(out, "UNINIT", b.uninit);
    region_alias(out, "STACK", b.stack);
    region_alias(out, "HEAP", b.heap);
    assert(out@ =~= old(out)@ + spec_alias_part(*b));
}

fn write_sizes_part(out: &mut String, stack_size: usize, heap_size: usize)
    ensures
        final(out)@ == old(out)@ + spec_sizes_part(stack_size as int, heap_size as int),
{
    // Used in the boilerplate and in target code.
    out.append("__stack_size = ");
    push_hex_padded(out, stack_size as u64);
    out.append(";\n");
    out.append("__heap_size = ");
    push_hex_padded(out, heap_size as u64);
    out.append(";\n");
    assert(out@ =~= old(out)@ + spec_sizes_part(stack_size as int, heap_size as int));
}

fn write_load_alias_part(out: &mut String, b: &RuntimeBuilder)
    ensures
        final(out)@ == old(out)@ + spec_load_alias_part(*b),
{
    if b.flash_opts.is_some() {
        // The runtime sees different load and execution addresses, and
        // copies the sections into place.
        region_alias(out, "LOAD_VTABLE", Memory::Flash);
        region_alias(out, "LOAD_TEXT", Memory::Flash);
        region_alias(out, "LOAD_RODATA", Memory::Flash);
        region_alias(out, "LOAD_DATA", Memory::Flash);
    } else {
        // With equal load and execution addresses, the runtime performs
        // no copies.
        region_alias(out, "LOAD_VTABLE", b.vectors);
        region_alias(out, "LOAD_TEXT", b.text);
        region_alias(out, "LOAD_RODATA", b.rodata);
        region_alias(out, "LOAD_DATA", b.data);
    }
    assert(out@ =~= old(out)@ + spec_load_alias_part(*b));
}

fn write_symbols_part(out: &mut String, b: &RuntimeBuilder)
    requires
        b.flexram_banks.spec_bank_count() <= 16,
    ensures
        final(out)@ == old(out)@ + spec_symbols_part(*b),
{
    // Referenced in target code.
    out.append("__flexram_config = ");
    let flexram_config = b.flexram_banks.config();
    push_hex_padded(out, flexram_config as u64);
    out.append(";\n");
    // The target runtime reads this value to predicate some pre-init
    // instructions. Could be helpful for binary identification, but it's
    // an undocumented feature.
    out.append("__imxrt_family = ");
    push_dec(out, b.family.id() as u64);
    out.append(";\n");
    assert(out@ =~= old(out)@ + spec_symbols_part(*b));
}

impl RuntimeBuilder {
    fn with_defaults(family: Family, flash_opts: Option<FlashOpts>) -> (r: Self)
        ensures
            r.family == family,
            r.flexram_banks == family.spec_default_flexram_banks(),
            spec_default_placement(r),
            r.stack_size.default == 8192 && r.stack_size.env is None,
            r.heap_size.default == 0 && r.heap_size.env is None,
            r.flash_opts == flash_opts,
            r.linker_script_name@ == "imxrt-link.x"@,
    {
        RuntimeBuilder {
            family,
            flexram_banks: family.default_flexram_banks(),
            text: Memory::Itcm,
            rodata: Memory::Ocram,
            data: Memory::Ocram,
            vectors: Memory::Dtcm,
            bss: Memory::Ocram,
            uninit: Memory::Ocram,
            stack: Memory::Dtcm,
            stack_size: EnvOverride::new(8 * 1024),
            heap: Memory::Dtcm,
            heap_size: EnvOverride::new(0),
            flash_opts,
            linker_script_name: "imxrt-link.x".to_owned(),
        }
    }

    /// Creates a runtime that boots and loads contents directly from
    /// FlexSPI flash.
    ///
    /// `flash_size` is the size of your flash component, in bytes. The
    /// family's default FlexSPI peripheral interfaces the flash, the
    /// image sits at the start of the bus window, and the boot-header
    /// assets are included so the mask ROM recognizes the image.
    pub fn from_flexspi(family: Family, flash_size: usize) -> (r: Self)
        ensures
            r.family == family,
            r.flexram_banks == family.spec_default_flexram_banks(),
            spec_default_placement(r),
            r.stack_size.default == 8192 && r.stack_size.env is None,
            r.heap_size.default == 0 && r.heap_size.env is None,
            r.flash_opts == Some(
                FlashOpts {
                    size: flash_size,
                    offset: 0,
                    flexspi: FlexSpi::spec_family_default(family),
                    boot_header: true,
                },
            ),
            r.linker_script_name@ == "imxrt-link.x"@,
    {
        Self::with_defaults(
            family,
            Some(
                FlashOpts {
                    size: flash_size,
                    offset: 0,
                    flexspi: FlexSpi::family_default(family),
                    boot_header: true,
                },
            ),
        )
    }

    /// Creates a runtime that occupies a partition of the flash window
    /// and is chain-loaded by other software.
    ///
    /// `size` is the partition's size in bytes, and `offset` its byte
    /// offset from the start of the bus window. The boot-header assets
    /// are left out by default, since the mask ROM does not boot this
    /// image; use [`boot_header`](Self::boot_header) to force them on for
    /// a further-chained image.
    pub fn from_partition(family: Family, size: usize, offset: u32) -> (r: Self)
        ensures
            r.family == family,
            r.flexram_banks == family.spec_default_flexram_banks(),
            spec_default_placement(r),
            r.stack_size.default == 8192 && r.stack_size.env is None,
            r.heap_size.default == 0 && r.heap_size.env is None,
            r.flash_opts == Some(
                FlashOpts {
                    size,
                    offset,
                    flexspi: FlexSpi::spec_family_default(family),
                    boot_header: false,
                },
            ),
            r.linker_script_name@ == "imxrt-link.x"@,
    {
        Self::with_defaults(
            family,
            Some(
                FlashOpts {
                    size,
                    offset,
                    flexspi: FlexSpi::family_default(family),
                    boot_header: false,
                },
            ),
        )
    }

    /// Creates a RAM-resident runtime: no flash at all, and every section
    /// executes where it is loaded.
    pub fn without_flash(family: Family) -> (r: Self)
        ensures
            r.family == family,
            r.flexram_banks == family.spec_default_flexram_banks(),
            spec_default_placement(r),
            r.stack_size.default == 8192 && r.stack_size.env is None,
            r.heap_size.default == 0 && r.heap_size.env is None,
            r.flash_opts is None,
            r.linker_script_name@ == "imxrt-link.x"@,
    {
        Self::with_defaults(family, None)
    }

    /// Set the FlexRAM bank allocation.
    ///
    /// Use this to customize the sizes of DTCM, ITCM, and OCRAM.
    /// See the [`FlexRamBanks`] documentation for requirements on the
    /// bank allocations.
    pub fn flexram_banks(&mut self, flexram_banks: FlexRamBanks) -> (r: &mut Self)
        ensures
            *r == (RuntimeBuilder { flexram_banks, ..*old(self) }),
            *final(self) == *final(r),
    {
        self.flexram_banks = flexram_banks;
        self
    }

    /// Set the memory placement for code.
    pub fn text(&mut self, memory: Memory) -> (r: &mut Self)
        ensures
            *r == (RuntimeBuilder { text: memory, ..*old(self) }),
            *final(self) == *final(r),
    {
        self.text = memory;
        self
    }

    /// Set the memory placement for read-only data.
    pub fn rodata(&mut self, memory: Memory) -> (r: &mut Self)
        ensures
            *r == (RuntimeBuilder { rodata: memory, ..*old(self) }),
            *final(self) == *final(r),
    {
        self.rodata = memory;
        self
    }

    /// Set the memory placement for mutable data.
    pub fn data(&mut self, memory: Memory) -> (r: &mut Self)
        ensures
            *r == (RuntimeBuilder { data: memory, ..*old(self) }),
            *final(self) == *final(r),
    {
        self.data = memory;
        self
    }

    /// Set the memory placement for the vector table.
    pub fn vectors(&mut self, memory: Memory) -> (r: &mut Self)
        ensures
            *r == (RuntimeBuilder { vectors: memory, ..*old(self) }),
            *final(self) == *final(r),
    {
        self.vectors = memory;
        self
    }

    /// Set the memory placement for zero-initialized data.
    pub fn bss(&mut self, memory: Memory) -> (r: &mut Self)
        ensures
            *r == (RuntimeBuilder { bss: memory, ..*old(self) }),
            *final(self) == *final(r),
    {
        self.bss = memory;
        self
    }

    /// Set the memory placement for uninitialized data.
    pub fn uninit(&mut self, memory: Memory) -> (r: &mut Self)
        ensures
            *r == (RuntimeBuilder { uninit: memory, ..*old(self) }),
            *final(self) == *final(r),
    {
        self.uninit = memory;
        self
    }

    /// Set the memory placement for stack memory.
    pub fn stack(&mut self, memory: Memory) -> (r: &mut Self)
        ensures
            *r == (RuntimeBuilder { stack: memory, ..*old(self) }),
            *final(self) == *final(r),
    {
        self.stack = memory;
        self
    }

    /// Set the size, in bytes, of the stack.
    pub fn stack_size(&mut self, bytes: usize) -> (r: &mut Self)
        ensures
            *r == (RuntimeBuilder {
                stack_size: EnvOverride { default: bytes, env: old(self).stack_size.env },
                ..*old(self)
            }),
            *final(self) == *final(r),
    {
        self.stack_size.default = bytes;
        self
    }

    /// Let end users override the stack size using an external variable.
    ///
    /// Naming a second variable replaces the first outright: only the
    /// most recently assigned name is consulted at resolution time.
    pub fn stack_size_env_override(&mut self, key: &str) -> (r: &mut Self)
        ensures
            *r == (RuntimeBuilder { stack_size: (*r).stack_size, ..*old(self) }),
            (*r).stack_size.default == old(self).stack_size.default,
            (*r).stack_size.env matches Some(k) && k@ == key@,
            *final(self) == *final(r),
    {
        self.stack_size.set_env_key(key.to_owned());
        self
    }

    /// Set the memory placement for the heap.
    ///
    /// Note that the default heap has no size. Use
    /// [`heap_size`](Self::heap_size) to allocate space for a heap.
    pub fn heap(&mut self, memory: Memory) -> (r: &mut Self)
        ensures
            *r == (RuntimeBuilder { heap: memory, ..*old(self) }),
            *final(self) == *final(r),
    {
        self.heap = memory;
        self
    }

    /// Set the size, in bytes, of the heap.
    pub fn heap_size(&mut self, bytes: usize) -> (r: &mut Self)
        ensures
            *r == (RuntimeBuilder {
                heap_size: EnvOverride { default: bytes, env: old(self).heap_size.env },
                ..*old(self)
            }),
            *final(self) == *final(r),
    {
        self.heap_size.default = bytes;
        self
    }

    /// Let end users override the heap size using an external variable.
    ///
    /// Naming a second variable replaces the first outright: only the
    /// most recently assigned name is consulted at resolution time.
    pub fn heap_size_env_override(&mut self, key: &str) -> (r: &mut Self)
        ensures
            *r == (RuntimeBuilder { heap_size: (*r).heap_size, ..*old(self) }),
            (*r).heap_size.default == old(self).heap_size.default,
            (*r).heap_size.env matches Some(k) && k@ == key@,
            *final(self) == *final(r),
    {
        self.heap_size.set_env_key(key.to_owned());
        self
    }

    /// Set the FlexSPI peripheral that interfaces flash.
    ///
    /// See [`FlexSpi`] to understand the default values. If this builder
    /// is not configuring a flash-loaded runtime, this call is silently
    /// ignored.
    pub fn flexspi(&mut self, peripheral: FlexSpi) -> (r: &mut Self)
        ensures
            old(self).flash_opts matches Some(fo) ==> *r == (RuntimeBuilder {
                flash_opts: Some(FlashOpts { flexspi: peripheral, ..fo }),
                ..*old(self)
            }),
            old(self).flash_opts is None ==> *r == *old(self),
            *final(self) == *final(r),
    {
        match &mut self.flash_opts {
            Some(flash_opts) => {
                flash_opts.flexspi = peripheral;
            },
            None => {},
        }
        self
    }

    /// Choose whether the artifact inlines the boot-header assets.
    ///
    /// If this builder is not configuring a flash-loaded runtime, this
    /// call is silently ignored.
    pub fn boot_header(&mut self, enabled: bool) -> (r: &mut Self)
        ensures
            old(self).flash_opts matches Some(fo) ==> *r == (RuntimeBuilder {
                flash_opts: Some(FlashOpts { boot_header: enabled, ..fo }),
                ..*old(self)
            }),
            old(self).flash_opts is None ==> *r == *old(self),
            *final(self) == *final(r),
    {
        match &mut self.flash_opts {
            Some(flash_opts) => {
                flash_opts.boot_header = enabled;
            },
            None => {},
        }
        self
    }

    /// Set the name of the linker script file.
    ///
    /// You can use this to customize the linker script name for your
    /// users.
    pub fn linker_script_name(&mut self, name: &str) -> (r: &mut Self)
        ensures
            *r == (RuntimeBuilder { linker_script_name: (*r).linker_script_name, ..*old(self) }),
            (*r).linker_script_name@ == name@,
            *final(self) == *final(r),
    {
        self.linker_script_name = name.to_owned();
        self
    }

    /// Implement i.MX RT specific sanity checks.
    ///
    /// This might not check everything! If the linker can detect a
    /// condition, we let the linker do that.
    pub fn check_configurations(&self) -> (r: Result<(), ConfigError>)
        ensures
            r matches Err(e) ==> spec_validate(*self) == Some(e),
            r is Ok ==> spec_validate(*self) is None,
    {
        if (self.family.flexram_bank_count() as u64) < self.flexram_banks.bank_count() {
            return Err(
                ConfigError::TooManyBanks {
                    family: self.family,
                    available: self.family.flexram_bank_count(),
                    requested: self.flexram_banks.bank_count(),
                },
            );
        }
        if self.flexram_banks.ocram < self.family.bootrom_ocram_banks() {
            return Err(
                ConfigError::InsufficientOcramBanks {
                    family: self.family,
                    required: self.family.bootrom_ocram_banks(),
                },
            );
        }
        if let Some(flash_opts) = &self.flash_opts {
            if !flash_opts.flexspi.supported_for_family(self.family) {
                return Err(
                    ConfigError::UnsupportedFlexSpi {
                        family: self.family,
                        flexspi: flash_opts.flexspi,
                    },
                );
            }
        }
        if self.data == Memory::Flash {
            return Err(ConfigError::SectionInFlash { section: Section::Data });
        }
        if self.vectors == Memory::Flash {
            return Err(ConfigError::SectionInFlash { section: Section::Vectors });
        }
        if self.bss == Memory::Flash {
            return Err(ConfigError::SectionInFlash { section: Section::Bss });
        }
        if self.uninit == Memory::Flash {
            return Err(ConfigError::SectionInFlash { section: Section::Uninit });
        }
        if self.stack == Memory::Flash {
            return Err(ConfigError::SectionInFlash { section: Section::Stack });
        }
        if self.heap == Memory::Flash {
            return Err(ConfigError::SectionInFlash { section: Section::Heap });
        }
        Ok(())
    }

    /// Validates the configuration and renders the artifact.
    ///
    /// `env` is a snapshot of the external environment, as `(name,
    /// value)` pairs, consulted for the stack- and heap-size overrides.
    /// `boot_header` and `epilogue` are the fixed bundled assets: the
    /// family's boot-header fragment, inlined verbatim when flash is
    /// present and the boot-header flag is set, and the versioned
    /// stack/heap/section boilerplate appended verbatim at the end.
    ///
    /// # Errors
    ///
    /// Fails with the validator's first violated check: a bank
    /// over-allocation, too few OCRAM banks for the boot ROM, a FlexSPI
    /// peripheral the family does not have, or one of mutable data, the
    /// vector table, zero-initialized data, uninitialized data, the
    /// stack, or the heap placed in flash. Also fails when a size
    /// override variable is set but its value cannot be parsed.
    pub fn write_linker_script(
        &self,
        env: &Vec<(String, String)>,
        boot_header: &str,
        epilogue: &str,
    ) -> (r: Result<String, BuildError>)
        ensures
            r is Ok <==> (spec_validate(*self) is None && spec_resolved_size(
                self.stack_size,
                env@,
            ) is Some && spec_resolved_size(self.heap_size, env@) is Some),
            r matches Ok(s) ==> s@ == spec_linker_script(
                *self,
                spec_resolved_size(self.stack_size, env@)->Some_0,
                spec_resolved_size(self.heap_size, env@)->Some_0,
                boot_header@,
                epilogue@,
            ),
            r matches Err(e) ==> match e {
                BuildError::Config(c) => spec_validate(*self) == Some(c),
                BuildError::InvalidStackSize => spec_validate(*self) is None
                    && spec_resolved_size(self.stack_size, env@) is None,
                BuildError::InvalidHeapSize => spec_validate(*self) is None && spec_resolved_size(
                    self.stack_size,
                    env@,
                ) is Some && spec_resolved_size(self.heap_size, env@) is None,
            },
    {
        match self.check_configurations() {
            Err(e) => {
                return Err(BuildError::Config(e));
            },
            Ok(()) => {},
        }
        let stack_size = match self.stack_size.resolve(env) {
            Some(bytes) => bytes,
            None => {
                return Err(BuildError::InvalidStackSize);
            },
        };
        let heap_size = match self.heap_size.resolve(env) {
            Some(bytes) => bytes,
            None => {
                return Err(BuildError::InvalidHeapSize);
            },
        };
        proof {
            self.family.bank_count_fits();
        }

        let mut out = String::new();
        write_memory_map_part(&mut out, self, boot_header);
        write_alias_part(&mut out, self);
        write_sizes_part(&mut out, stack_size, heap_size);
        write_load_alias_part(&mut out, self);
        write_symbols_part(&mut out, self);
        out.append(epilogue);
        assert(out@ =~= spec_linker_script(
            *self,
            stack_size as int,
            heap_size as int,
            boot_header@,
            epilogue@,
        ));
        Ok(out)
    }
}

/// A configuration with the default placements, the family's default bank
/// allocation, and (if flash is present) the family's default FlexSPI
/// peripheral passes validation with no error — whatever its flash size
/// and offset.
pub proof fn lemma_default_config_validates(b: RuntimeBuilder)
    requires
        b.flexram_banks == b.family.spec_default_flexram_banks(),
        spec_default_placement(b),
        b.flash_opts matches Some(fo) ==> fo.flexspi == FlexSpi::spec_family_default(b.family),
    ensures
        spec_validate(b) is None,
{
    b.family.default_flexram_banks_valid();
    if b.flash_opts is Some {
        crate::family::lemma_default_flexspi_supported(b.family);
    }
}

/// Requesting more banks than the family has fails validation, for every
/// family and whatever the rest of the configuration holds.
pub proof fn lemma_bank_overallocation_rejected(b: RuntimeBuilder)
    requires
        b.flexram_banks.spec_bank_count() > b.family.spec_flexram_bank_count(),
    ensures
        spec_validate(b) == Some(
            ConfigError::TooManyBanks {
                family: b.family,
                available: b.family.spec_flexram_bank_count(),
                requested: b.flexram_banks.spec_bank_count() as u64,
            },
        ),
{
}

/// Placing a non-flash-eligible section in flash fails validation with an
/// error naming that exact section: whenever the bank and bus checks pass
/// and `section` is the first section (in the validator's order) that sits
/// in flash, the error names `section`.
pub proof fn lemma_flash_placement_rejected(b: RuntimeBuilder, section: Section)
    requires
        b.flexram_banks.spec_bank_count() <= b.family.spec_flexram_bank_count(),
        b.flexram_banks.ocram >= b.family.spec_bootrom_ocram_banks(),
        b.flash_opts matches Some(fo) ==> fo.flexspi.spec_supported_for_family(b.family),
        spec_section_region(b, section) == Memory::Flash,
        forall|s: Section|
            s.spec_order() < section.spec_order() ==> #[trigger] spec_section_region(b, s)
                != Memory::Flash,
    ensures
        spec_validate(b) == Some(ConfigError::SectionInFlash { section }),
{
    assert(spec_section_region(b, Section::Data) == b.data);
    assert(spec_section_region(b, Section::Vectors) == b.vectors);
    assert(spec_section_region(b, Section::Bss) == b.bss);
    assert(spec_section_region(b, Section::Uninit) == b.uninit);
    assert(spec_section_region(b, Section::Stack) == b.stack);
    assert(spec_section_region(b, Section::Heap) == b.heap);
}

} // verus!
