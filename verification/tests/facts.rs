use imxrt_rt::{Family, FlexRamBanks, RuntimeBuilder};

#[test]
fn family_flexram_bank_counts() {
    let expected = [
        (Family::Imxrt1010, 4u32),
        (Family::Imxrt1015, 4),
        (Family::Imxrt1020, 8),
        (Family::Imxrt1050, 16),
        (Family::Imxrt1060, 16),
        (Family::Imxrt1064, 16),
        (Family::Imxrt1170, 16),
    ];
    for (family, count) in expected {
        assert_eq!(family.flexram_bank_count(), count, "{family:?}");
    }
}

#[test]
fn family_default_flexram_banks() {
    let expected = [
        (Family::Imxrt1010, FlexRamBanks { ocram: 2, itcm: 1, dtcm: 1 }),
        (Family::Imxrt1015, FlexRamBanks { ocram: 2, itcm: 1, dtcm: 1 }),
        (Family::Imxrt1020, FlexRamBanks { ocram: 4, itcm: 2, dtcm: 2 }),
        (Family::Imxrt1050, FlexRamBanks { ocram: 8, itcm: 4, dtcm: 4 }),
        (Family::Imxrt1060, FlexRamBanks { ocram: 8, itcm: 4, dtcm: 4 }),
        (Family::Imxrt1064, FlexRamBanks { ocram: 8, itcm: 4, dtcm: 4 }),
        (Family::Imxrt1170, FlexRamBanks { ocram: 0, itcm: 8, dtcm: 8 }),
    ];
    for (family, banks) in expected {
        assert_eq!(family.default_flexram_banks(), banks, "{family:?}");
        assert!(banks.bank_count() <= u64::from(family.flexram_bank_count()));
    }
}

#[test]
fn linker_script_name_defaults_and_overrides() {
    let mut builder = RuntimeBuilder::from_flexspi(Family::Imxrt1060, 64);
    assert_eq!(builder.linker_script_name, "imxrt-link.x");
    builder.linker_script_name("custom-link.x");
    assert_eq!(builder.linker_script_name, "custom-link.x");
}

#[test]
fn constructors_seed_identical_defaults() {
    let flash = RuntimeBuilder::from_flexspi(Family::Imxrt1020, 64);
    let partition = RuntimeBuilder::from_partition(Family::Imxrt1020, 64, 0);
    let ram = RuntimeBuilder::without_flash(Family::Imxrt1020);
    for builder in [&flash, &partition, &ram] {
        assert_eq!(builder.flexram_banks, Family::Imxrt1020.default_flexram_banks());
        assert_eq!(builder.stack_size.default, 8 * 1024);
        assert_eq!(builder.heap_size.default, 0);
    }
    // The three modes differ only in their flash handling.
    assert!(flash.flash_opts.unwrap().boot_header);
    assert_eq!(flash.flash_opts.unwrap().offset, 0);
    assert!(!partition.flash_opts.unwrap().boot_header);
    assert!(ram.flash_opts.is_none());
}
