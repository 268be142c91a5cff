use imxrt_rt::{Family, FlexRamBanks, Memory, RuntimeBuilder};

fn all_families() -> Vec<Family> {
    vec![
        Family::Imxrt1010,
        Family::Imxrt1015,
        Family::Imxrt1020,
        Family::Imxrt1050,
        Family::Imxrt1060,
        Family::Imxrt1064,
        Family::Imxrt1170,
    ]
}

#[test]
fn flexram_config() {
    // Testing table of banks and expected configuration mask.
    // Spacing delimits ITCM / DTCM / OCRAM banks.
    let table: &[(FlexRamBanks, u32)] = &[
        (
            FlexRamBanks {
                ocram: 16,
                dtcm: 0,
                itcm: 0,
            },
            0x55555555,
        ),
        (
            FlexRamBanks {
                ocram: 0,
                dtcm: 16,
                itcm: 0,
            },
            0xAAAAAAAA,
        ),
        (
            FlexRamBanks {
                ocram: 0,
                dtcm: 0,
                itcm: 16,
            },
            0xFFFFFFFF,
        ),
        (
            FlexRamBanks {
                ocram: 0,
                dtcm: 0,
                itcm: 0,
            },
            0,
        ),
        (
            FlexRamBanks {
                ocram: 1,
                dtcm: 1,
                itcm: 1,
            },
            0b11_10_01,
        ),
        (
            FlexRamBanks {
                ocram: 3,
                dtcm: 3,
                itcm: 3,
            },
            0b111111_101010_010101,
        ),
        (
            FlexRamBanks {
                ocram: 5,
                dtcm: 5,
                itcm: 5,
            },
            0b1111111111_1010101010_0101010101,
        ),
        (
            FlexRamBanks {
                ocram: 1,
                dtcm: 1,
                itcm: 14,
            },
            0b1111111111111111111111111111_10_01,
        ),
        (
            FlexRamBanks {
                ocram: 1,
                dtcm: 14,
                itcm: 1,
            },
            0b11_1010101010101010101010101010_01,
        ),
        (
            FlexRamBanks {
                ocram: 14,
                dtcm: 1,
                itcm: 1,
            },
            0b11_10_0101010101010101010101010101,
        ),
    ];

    for (banks, expected) in table {
        let actual = banks.config();
        assert!(
            actual == *expected,
            "\nActual:   {actual:#034b}\nExpected: {expected:#034b}\nBanks: {banks:?}"
        );
    }
}

#[test]
fn runtime_builder_default_from_flexspi() {
    for family in all_families() {
        let res =
            RuntimeBuilder::from_flexspi(family, 16 * 1024 * 1024).write_linker_script(&Vec::new(), "", "");
        assert!(res.is_ok(), "{family:?}");
    }
}

/// Strange but currently allowed.
#[test]
fn runtime_builder_from_flexspi_no_flash() {
    let res = RuntimeBuilder::from_flexspi(Family::Imxrt1060, 0).write_linker_script(&Vec::new(), "", "");
    assert!(res.is_ok());
}

#[test]
fn runtime_builder_too_many_flexram_banks() {
    let banks = FlexRamBanks {
        itcm: 32,
        dtcm: 32,
        ocram: 32,
    };
    for family in all_families() {
        let res = RuntimeBuilder::from_flexspi(family, 16 * 1024)
            .flexram_banks(banks)
            .write_linker_script(&Vec::new(), "", "");
        assert!(res.is_err(), "{family:?}");
    }
}

#[test]
fn runtime_builder_invalid_flash_section() {
    type Placer = fn(&mut RuntimeBuilder) -> &mut RuntimeBuilder;
    let placements: &[(Placer, &'static str)] = &[
        (|bldr: &mut RuntimeBuilder| bldr.data(Memory::Flash), "data"),
        (|bldr: &mut RuntimeBuilder| bldr.vectors(Memory::Flash), "vectors"),
        (|bldr: &mut RuntimeBuilder| bldr.bss(Memory::Flash), "bss"),
        (|bldr: &mut RuntimeBuilder| bldr.uninit(Memory::Flash), "uninit"),
        (|bldr: &mut RuntimeBuilder| bldr.stack(Memory::Flash), "stack"),
        (|bldr: &mut RuntimeBuilder| bldr.heap(Memory::Flash), "heap"),
    ];

    for family in all_families() {
        for placement in placements {
            let mut bldr = RuntimeBuilder::from_flexspi(family, 16 * 1024);
            placement.0(&mut bldr);
            let res = bldr.write_linker_script(&Vec::new(), "", "");
            assert!(res.is_err(), "{:?}, section: {}", family, placement.1);
        }
    }
}
