//! Rendering of the memory-map artifact's generated text.
//!
//! Every rendering function appends to a `String` and is proved to produce
//! exactly the text its spec function describes, line by line.

use vstd::prelude::*;
use vstd::string::StringExecFns;

use crate::config::FlashOpts;
use crate::family::Family;
use crate::family::Memory;
use crate::flexram::FlexRamBanks;
use crate::text::dec_digits;
use crate::text::hex_literal;
use crate::text::push_dec;
use crate::text::push_hex;

verus! {

/// A region-alias line tying a logical section name to a memory block.
pub open spec fn spec_region_alias(name: Seq<char>, placement: Memory) -> Seq<char> {
    "REGION_ALIAS(\"REGION_"@ + name + "\", "@ + placement.spec_name() + ");\n"@
}

/// Appends an alias for `name` that maps to the memory block `placement`.
pub(crate) fn region_alias(output: &mut String, name: &str, placement: Memory)
    ensures
        final(output)@ == old(output)@ + spec_region_alias(name@, placement),
{
    output.append("REGION_ALIAS(\"REGION_");
    output.append(name);
    output.append("\", ");
    output.append(placement.name());
    output.append(");\n");
    assert(output@ =~= old(output)@ + spec_region_alias(name@, placement));
}

/// The ITCM block declaration, present only when ITCM banks are allocated.
pub open spec fn spec_itcm_line(family: Family, banks: FlexRamBanks) -> Seq<char> {
    if banks.itcm > 0 {
        "ITCM (RWX) : ORIGIN = 0x00000000, LENGTH = "@ + hex_literal(
            banks.itcm * family.spec_flexram_bank_size(),
        ) + "\n"@
    } else {
        Seq::<char>::empty()
    }
}

/// The DTCM block declaration, present only when DTCM banks are allocated.
pub open spec fn spec_dtcm_line(family: Family, banks: FlexRamBanks) -> Seq<char> {
    if banks.dtcm > 0 {
        "DTCM (RWX) : ORIGIN = 0x20000000, LENGTH = "@ + hex_literal(
            banks.dtcm * family.spec_flexram_bank_size(),
        ) + "\n"@
    } else {
        Seq::<char>::empty()
    }
}

/// The OCRAM block's total size: allocated banks plus any dedicated OCRAM.
pub open spec fn spec_ocram_size(family: Family, banks: FlexRamBanks) -> int {
    banks.ocram * family.spec_flexram_bank_size() + family.spec_dedicated_ocram_size()
}

/// The OCRAM block declaration, present only when its size is non-zero.
pub open spec fn spec_ocram_line(family: Family, banks: FlexRamBanks) -> Seq<char> {
    if spec_ocram_size(family, banks) > 0 {
        "OCRAM (RWX) : ORIGIN = "@ + hex_literal(family.spec_ocram_start() as int) + ", LENGTH = "@
            + hex_literal(spec_ocram_size(family, banks)) + "\n"@
    } else {
        Seq::<char>::empty()
    }
}

/// The RAM-like block declarations of the memory map.
pub open spec fn spec_flexram_memories(family: Family, banks: FlexRamBanks) -> Seq<char> {
    spec_itcm_line(family, banks) + spec_dtcm_line(family, banks) + spec_ocram_line(family, banks)
}

fn write_itcm_line(output: &mut String, family: Family, flexram_banks: &FlexRamBanks)
    requires
        flexram_banks.spec_bank_count() <= 16,
    ensures
        final(output)@ == old(output)@ + spec_itcm_line(family, *flexram_banks),
{
    if flexram_banks.itcm > 0 {
        output.append("ITCM (RWX) : ORIGIN = 0x00000000, LENGTH = ");
        assert(flexram_banks.itcm <= 16);
        push_hex(output, (flexram_banks.itcm * family.flexram_bank_size()) as u64);
        output.append("\n");
        assert(output@ =~= old(output)@ + spec_itcm_line(family, *flexram_banks));
    }
}

fn write_dtcm_line(output: &mut String, family: Family, flexram_banks: &FlexRamBanks)
    requires
        flexram_banks.spec_bank_count() <= 16,
    ensures
        final(output)@ == old(output)@ + spec_dtcm_line(family, *flexram_banks),
{
    if flexram_banks.dtcm > 0 {
        output.append("DTCM (RWX) : ORIGIN = 0x20000000, LENGTH = ");
        assert(flexram_banks.dtcm <= 16);
        push_hex(output, (flexram_banks.dtcm * family.flexram_bank_size()) as u64);
        output.append("\n");
        assert(output@ =~= old(output)@ + spec_dtcm_line(family, *flexram_banks));
    }
}

fn write_ocram_line(output: &mut String, family: Family, flexram_banks: &FlexRamBanks)
    requires
        flexram_banks.spec_bank_count() <= 16,
    ensures
        final(output)@ == old(output)@ + spec_ocram_line(family, *flexram_banks),
{
    assert(flexram_banks.ocram <= 16);
    let ocram_size = flexram_banks.ocram * family.flexram_bank_size()
        + family.dedicated_ocram_size();
    if ocram_size > 0 {
        output.append("OCRAM (RWX) : ORIGIN = ");
        push_hex(output, family.ocram_start() as u64);
        output.append(", LENGTH = ");
        push_hex(output, ocram_size as u64);
        output.append("\n");
        assert(output@ =~= old(output)@ + spec_ocram_line(family, *flexram_banks));
    }
}

/// Writes the RAM-like memory blocks.
///
/// Skips a block if there's no FlexRAM bank (nor dedicated memory)
/// allocated for it. If a user references a skipped block, linking fails.
pub(crate) fn write_flexram_memories(
    output: &mut String,
    family: Family,
    flexram_banks: &FlexRamBanks,
)
    requires
        flexram_banks.spec_bank_count() <= 16,
    ensures
        final(output)@ == old(output)@ + spec_flexram_memories(family, *flexram_banks),
{
    write_itcm_line(output, family, flexram_banks);
    write_dtcm_line(output, family, flexram_banks);
    write_ocram_line(output, family, flexram_banks);
    assert(output@ =~= old(output)@ + spec_flexram_memories(family, *flexram_banks));
}

/// The flash block's origin: the bus window's start plus the image's
/// offset within it.
pub open spec fn spec_flash_origin(family: Family, flash_opts: FlashOpts) -> int {
    flash_opts.flexspi.spec_start_address(family)->Some_0 + flash_opts.offset
}

/// The flash memory map's header comment.
pub open spec fn spec_flash_header(family: Family, flash_opts: FlashOpts) -> Seq<char> {
    "/* Memory map for '"@ + family.spec_name() + "' with custom flash length "@ + dec_digits(
        flash_opts.size as int,
    ) + ". */\n"@
}

/// The FLASH block declaration.
pub open spec fn spec_flash_line(family: Family, flash_opts: FlashOpts) -> Seq<char> {
    "FLASH (RX) : ORIGIN = "@ + hex_literal(spec_flash_origin(family, flash_opts)) + ", LENGTH = "@
        + hex_literal(flash_opts.size as int) + "\n"@
}

/// The configuration-block offset line.
pub open spec fn spec_fcb_line(family: Family) -> Seq<char> {
    "__fcb_offset = "@ + hex_literal(family.spec_fcb_offset() as int) + ";\n"@
}

/// The memory map of a flash-loaded image: header comment, a MEMORY
/// command holding the flash block and the RAM-like blocks, and the
/// configuration-block offset.
pub open spec fn spec_flash_memory_map(
    family: Family,
    flash_opts: FlashOpts,
    banks: FlexRamBanks,
) -> Seq<char> {
    spec_flash_header(family, flash_opts) + "MEMORY {\n"@ + spec_flash_line(family, flash_opts)
        + spec_flexram_memories(family, banks) + "}\n"@ + spec_fcb_line(family)
}

fn write_flash_header(output: &mut String, family: Family, flash_opts: &FlashOpts)
    ensures
        final(output)@ == old(output)@ + spec_flash_header(family, *flash_opts),
{
    output.append("/* Memory map for '");
    output.append(family.name());
    output.append("' with custom flash length ");
    push_dec(output, flash_opts.size as u64);
    output.append(". */\n");
    assert(output@ =~= old(output)@ + spec_flash_header(family, *flash_opts));
}

fn write_flash_line(output: &mut String, family: Family, flash_opts: &FlashOpts)
    requires
        flash_opts.flexspi.spec_supported_for_family(family),
    ensures
        final(output)@ == old(output)@ + spec_flash_line(family, *flash_opts),
{
    output.append("FLASH (RX) : ORIGIN = ");
    let start = match flash_opts.flexspi.start_address(family) {
        Some(start) => start,
        // The validator has already established support for this family.
        None => vstd::pervasive::unreached(),
    };
    push_hex(output, start as u64 + flash_opts.offset as u64);
    output.append(", LENGTH = ");
    push_hex(output, flash_opts.size as u64);
    output.append("\n");
    assert(output@ =~= old(output)@ + spec_flash_line(family, *flash_opts));
}

/// Writes a memory map that includes a FLASH block.
pub(crate) fn write_flash_memory_map(
    output: &mut String,
    family: Family,
    flash_opts: &FlashOpts,
    flexram_banks: &FlexRamBanks,
)
    requires
        flash_opts.flexspi.spec_supported_for_family(family),
        flexram_banks.spec_bank_count() <= 16,
    ensures
        final(output)@ == old(output)@ + spec_flash_memory_map(family, *flash_opts, *flexram_banks),
{
    write_flash_header(output, family, flash_opts);
    output.append("MEMORY {\n");
    write_flash_line(output, family, flash_opts);
    write_flexram_memories(output, family, flexram_banks);
    output.append("}\n");
    output.append("__fcb_offset = ");
    push_hex(output, family.fcb_offset() as u64);
    output.append(";\n");
    assert(output@ =~= old(output)@ + spec_flash_memory_map(family, *flash_opts, *flexram_banks));
}

/// The memory map of a RAM-resident image: header comment and a MEMORY
/// command holding only the RAM-like blocks.
pub open spec fn spec_ram_memory_map(family: Family, banks: FlexRamBanks) -> Seq<char> {
    "/* Memory map for '"@ + family.spec_name() + "' that executes from RAM. */\n"@ + "MEMORY {\n"@
        + spec_flexram_memories(family, banks) + "}\n"@
}

/// Writes a memory map that supports RAM execution.
///
/// It's like [`write_flash_memory_map`], but without the flash tidbits.
pub(crate) fn write_ram_memory_map(output: &mut String, family: Family, flexram_banks: &FlexRamBanks)
    requires
        flexram_banks.spec_bank_count() <= 16,
    ensures
        final(output)@ == old(output)@ + spec_ram_memory_map(family, *flexram_banks),
{
    output.append("/* Memory map for '");
    output.append(family.name());
    output.append("' that executes from RAM. */\n");
    output.append("MEMORY {\n");
    write_flexram_memories(output, family, flexram_banks);
    output.append("}\n");
    assert(output@ =~= old(output)@ + spec_ram_memory_map(family, *flexram_banks));
}

} // verus!
