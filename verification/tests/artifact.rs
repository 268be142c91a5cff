use imxrt_rt::{Family, FlexSpi, RuntimeBuilder};

#[test]
fn flash_artifact_imxrt1010_exact() {
    let expected = r#"/* Memory map for 'Imxrt1010' with custom flash length 64. */
MEMORY {
FLASH (RX) : ORIGIN = 0x60000000, LENGTH = 0x40
ITCM (RWX) : ORIGIN = 0x00000000, LENGTH = 0x8000
DTCM (RWX) : ORIGIN = 0x20000000, LENGTH = 0x8000
OCRAM (RWX) : ORIGIN = 0x20200000, LENGTH = 0x10000
}
__fcb_offset = 0x400;
REGION_ALIAS("REGION_TEXT", ITCM);
REGION_ALIAS("REGION_VTABLE", DTCM);
REGION_ALIAS("REGION_RODATA", OCRAM);
REGION_ALIAS("REGION_DATA", OCRAM);
REGION_ALIAS("REGION_BSS", OCRAM);
REGION_ALIAS("REGION_UNINIT", OCRAM);
REGION_ALIAS("REGION_STACK", DTCM);
REGION_ALIAS("REGION_HEAP", DTCM);
__stack_size = 0x00002000;
__heap_size = 0x00000000;
REGION_ALIAS("REGION_LOAD_VTABLE", FLASH);
REGION_ALIAS("REGION_LOAD_TEXT", FLASH);
REGION_ALIAS("REGION_LOAD_RODATA", FLASH);
REGION_ALIAS("REGION_LOAD_DATA", FLASH);
__flexram_config = 0x000000E5;
__imxrt_family = 1010;
"#;
    let artifact = RuntimeBuilder::from_flexspi(Family::Imxrt1010, 64)
        .write_linker_script(&Vec::new(), "", "")
        .unwrap();
    assert_eq!(artifact, expected);
}

#[test]
fn ram_artifact_imxrt1170_exact() {
    let expected = r#"/* Memory map for 'Imxrt1170' that executes from RAM. */
MEMORY {
ITCM (RWX) : ORIGIN = 0x00000000, LENGTH = 0x40000
DTCM (RWX) : ORIGIN = 0x20000000, LENGTH = 0x40000
OCRAM (RWX) : ORIGIN = 0x20240000, LENGTH = 0x140000
}
REGION_ALIAS("REGION_TEXT", ITCM);
REGION_ALIAS("REGION_VTABLE", DTCM);
REGION_ALIAS("REGION_RODATA", OCRAM);
REGION_ALIAS("REGION_DATA", OCRAM);
REGION_ALIAS("REGION_BSS", OCRAM);
REGION_ALIAS("REGION_UNINIT", OCRAM);
REGION_ALIAS("REGION_STACK", DTCM);
REGION_ALIAS("REGION_HEAP", DTCM);
__stack_size = 0x00002000;
__heap_size = 0x00000000;
REGION_ALIAS("REGION_LOAD_VTABLE", DTCM);
REGION_ALIAS("REGION_LOAD_TEXT", ITCM);
REGION_ALIAS("REGION_LOAD_RODATA", OCRAM);
REGION_ALIAS("REGION_LOAD_DATA", OCRAM);
__flexram_config = 0xFFFFAAAA;
__imxrt_family = 1170;
"#;
    let artifact = RuntimeBuilder::without_flash(Family::Imxrt1170)
        .write_linker_script(&Vec::new(), "", "")
        .unwrap();
    assert_eq!(artifact, expected);
}

#[test]
fn boot_header_inlined_after_fcb_offset() {
    let artifact = RuntimeBuilder::from_flexspi(Family::Imxrt1060, 16 * 1024 * 1024)
        .write_linker_script(&Vec::new(), "HDR-ASSET\n", "")
        .unwrap();
    assert!(artifact.contains("__fcb_offset = 0x0;\nHDR-ASSET\nREGION_ALIAS(\"REGION_TEXT\""));
}

#[test]
fn epilogue_appended_verbatim() {
    let artifact = RuntimeBuilder::from_flexspi(Family::Imxrt1060, 16 * 1024 * 1024)
        .write_linker_script(&Vec::new(), "", "EPILOGUE-ASSET\n")
        .unwrap();
    assert!(artifact.ends_with("__imxrt_family = 1060;\nEPILOGUE-ASSET\n"));
}

#[test]
fn partition_artifact_has_offset_origin_and_no_boot_header() {
    let artifact = RuntimeBuilder::from_partition(Family::Imxrt1060, 0x100000, 0x1000)
        .write_linker_script(&Vec::new(), "HDR-ASSET\n", "")
        .unwrap();
    assert!(artifact.contains("FLASH (RX) : ORIGIN = 0x60001000, LENGTH = 0x100000\n"));
    assert!(!artifact.contains("HDR-ASSET"));
    // Chain-loaded images still load their sections out of flash.
    assert!(artifact.contains("REGION_ALIAS(\"REGION_LOAD_TEXT\", FLASH);"));
}

#[test]
fn partition_boot_header_forced_on() {
    let artifact = {
        let mut b = RuntimeBuilder::from_partition(Family::Imxrt1060, 0x100000, 0x1000);
        b.boot_header(true);
        b.write_linker_script(&Vec::new(), "HDR-ASSET\n", "").unwrap()
    };
    assert!(artifact.contains("HDR-ASSET"));
}

#[test]
fn boot_header_setter_ignored_without_flash() {
    let artifact = {
        let mut b = RuntimeBuilder::without_flash(Family::Imxrt1060);
        b.boot_header(true).flexspi(FlexSpi::FlexSpi2);
        b.write_linker_script(&Vec::new(), "HDR-ASSET\n", "").unwrap()
    };
    assert!(!artifact.contains("HDR-ASSET"));
    assert!(!artifact.contains("FLASH (RX)"));
}

#[test]
fn imxrt1064_defaults_to_flexspi2() {
    let artifact = RuntimeBuilder::from_flexspi(Family::Imxrt1064, 0x400000)
        .write_linker_script(&Vec::new(), "", "")
        .unwrap();
    assert!(artifact.contains("FLASH (RX) : ORIGIN = 0x70000000, LENGTH = 0x400000\n"));
}

#[test]
fn flexspi_selection_changes_origin() {
    let artifact = RuntimeBuilder::from_flexspi(Family::Imxrt1064, 0x400000)
        .flexspi(FlexSpi::FlexSpi1)
        .write_linker_script(&Vec::new(), "", "")
        .unwrap();
    assert!(artifact.contains("FLASH (RX) : ORIGIN = 0x60000000, LENGTH = 0x400000\n"));
}

#[test]
fn imxrt1060_flexram_word() {
    let artifact = RuntimeBuilder::from_flexspi(Family::Imxrt1060, 16 * 1024 * 1024)
        .write_linker_script(&Vec::new(), "", "")
        .unwrap();
    assert!(artifact.contains("__flexram_config = 0xFFAA5555;\n"));
    assert!(artifact.contains("OCRAM (RWX) : ORIGIN = 0x20200000, LENGTH = 0xC0000\n"));
}

#[test]
fn ocram_block_absent_without_any_ocram() {
    let artifact = {
        let mut b = RuntimeBuilder::without_flash(Family::Imxrt1010);
        b.flexram_banks(imxrt_rt::FlexRamBanks {
            ocram: 1,
            itcm: 3,
            dtcm: 0,
        });
        b.write_linker_script(&Vec::new(), "", "").unwrap()
    };
    // One OCRAM bank must stay for the boot ROM; DTCM has none, so its
    // block is skipped.
    assert!(!artifact.contains("DTCM (RWX)"));
    assert!(artifact.contains("ITCM (RWX) : ORIGIN = 0x00000000, LENGTH = 0x18000\n"));
}
