use imxrt_rt::{
    BuildError, ConfigError, Family, FlexRamBanks, FlexSpi, Memory, RuntimeBuilder, Section,
};

#[test]
fn too_many_banks_error_names_family_and_counts() {
    let res = RuntimeBuilder::from_flexspi(Family::Imxrt1010, 64)
        .flexram_banks(FlexRamBanks {
            ocram: 32,
            itcm: 32,
            dtcm: 32,
        })
        .write_linker_script(&Vec::new(), "", "");
    let err = res.unwrap_err();
    assert_eq!(
        err,
        BuildError::Config(ConfigError::TooManyBanks {
            family: Family::Imxrt1010,
            available: 4,
            requested: 96,
        })
    );
    assert_eq!(
        err.message(),
        "Chip Imxrt1010 only has 4 total FlexRAM banks. Cannot allocate a total of 96 banks"
    );
}

#[test]
fn insufficient_ocram_banks_error_names_minimum() {
    let res = RuntimeBuilder::from_flexspi(Family::Imxrt1010, 64)
        .flexram_banks(FlexRamBanks {
            ocram: 0,
            itcm: 2,
            dtcm: 2,
        })
        .write_linker_script(&Vec::new(), "", "");
    let err = res.unwrap_err();
    assert_eq!(
        err,
        BuildError::Config(ConfigError::InsufficientOcramBanks {
            family: Family::Imxrt1010,
            required: 1,
        })
    );
    assert_eq!(
        err.message(),
        "Chip Imxrt1010 requires at least 1 OCRAM banks for the bootloader ROM"
    );
}

#[test]
fn unsupported_flexspi_error_names_peripheral() {
    let res = RuntimeBuilder::from_flexspi(Family::Imxrt1010, 64)
        .flexspi(FlexSpi::FlexSpi2)
        .write_linker_script(&Vec::new(), "", "");
    let err = res.unwrap_err();
    assert_eq!(
        err,
        BuildError::Config(ConfigError::UnsupportedFlexSpi {
            family: Family::Imxrt1010,
            flexspi: FlexSpi::FlexSpi2,
        })
    );
    assert_eq!(err.message(), "Chip Imxrt1010 does not support FlexSpi2");
}

#[test]
fn section_in_flash_error_names_exact_section() {
    type Placer = fn(&mut RuntimeBuilder) -> &mut RuntimeBuilder;
    let placements: &[(Placer, Section, &'static str)] = &[
        (
            |bldr: &mut RuntimeBuilder| bldr.data(Memory::Flash),
            Section::Data,
            "Section 'data' cannot be placed in flash",
        ),
        (
            |bldr: &mut RuntimeBuilder| bldr.vectors(Memory::Flash),
            Section::Vectors,
            "Section 'vectors' cannot be placed in flash",
        ),
        (
            |bldr: &mut RuntimeBuilder| bldr.bss(Memory::Flash),
            Section::Bss,
            "Section 'bss' cannot be placed in flash",
        ),
        (
            |bldr: &mut RuntimeBuilder| bldr.uninit(Memory::Flash),
            Section::Uninit,
            "Section 'uninit' cannot be placed in flash",
        ),
        (
            |bldr: &mut RuntimeBuilder| bldr.stack(Memory::Flash),
            Section::Stack,
            "Section 'stack' cannot be placed in flash",
        ),
        (
            |bldr: &mut RuntimeBuilder| bldr.heap(Memory::Flash),
            Section::Heap,
            "Section 'heap' cannot be placed in flash",
        ),
    ];
    for family in [Family::Imxrt1015, Family::Imxrt1170] {
        for (place, section, message) in placements {
            let mut bldr = RuntimeBuilder::from_flexspi(family, 64);
            place(&mut bldr);
            let err = bldr.write_linker_script(&Vec::new(), "", "").unwrap_err();
            assert_eq!(
                err,
                BuildError::Config(ConfigError::SectionInFlash { section: *section }),
                "{family:?}"
            );
            assert_eq!(err.message(), *message);
        }
    }
}

#[test]
fn bank_check_precedes_flash_placement_check() {
    let res = RuntimeBuilder::from_flexspi(Family::Imxrt1020, 64)
        .flexram_banks(FlexRamBanks {
            ocram: 9,
            itcm: 0,
            dtcm: 0,
        })
        .data(Memory::Flash)
        .write_linker_script(&Vec::new(), "", "");
    assert_eq!(
        res.unwrap_err(),
        BuildError::Config(ConfigError::TooManyBanks {
            family: Family::Imxrt1020,
            available: 8,
            requested: 9,
        })
    );
}

#[test]
fn invalid_size_messages() {
    assert_eq!(
        BuildError::InvalidStackSize.message(),
        "Invalid stack size override value"
    );
    assert_eq!(
        BuildError::InvalidHeapSize.message(),
        "Invalid heap size override value"
    );
}

#[test]
fn bank_count_totals_roles() {
    let banks = FlexRamBanks {
        ocram: 1,
        itcm: 2,
        dtcm: 3,
    };
    assert_eq!(banks.bank_count(), 6);
}

#[test]
fn from_config_recovers_role_counts() {
    let triples = [
        (0u32, 0u32, 0u32),
        (1, 1, 1),
        (2, 1, 1),
        (8, 4, 4),
        (0, 8, 8),
        (16, 0, 0),
        (1, 1, 14),
    ];
    for (ocram, dtcm, itcm) in triples {
        let banks = FlexRamBanks { ocram, itcm, dtcm };
        let decoded = FlexRamBanks::from_config(banks.config());
        assert_eq!(decoded, banks, "{banks:?}");
    }
}

#[test]
fn from_config_of_known_word() {
    assert_eq!(
        FlexRamBanks::from_config(0xFFAA5555),
        FlexRamBanks {
            ocram: 8,
            dtcm: 4,
            itcm: 4,
        }
    );
}
