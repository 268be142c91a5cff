use imxrt_rt::{BuildError, EnvOverride, Family, RuntimeBuilder};

fn env(pairs: &[(&str, &str)]) -> Vec<(String, String)> {
    pairs
        .iter()
        .map(|(k, v)| (k.to_string(), v.to_string()))
        .collect()
}

#[test]
fn stack_size_defaults_to_8k() {
    let artifact = RuntimeBuilder::from_flexspi(Family::Imxrt1060, 64)
        .write_linker_script(&Vec::new(), "", "")
        .unwrap();
    assert!(artifact.contains("__stack_size = 0x00002000;\n"));
    assert!(artifact.contains("__heap_size = 0x00000000;\n"));
}

#[test]
fn stack_size_env_override_unset_uses_default() {
    let artifact = RuntimeBuilder::from_flexspi(Family::Imxrt1060, 64)
        .stack_size(2048)
        .stack_size_env_override("IMXRT_TEST_STACK")
        .write_linker_script(&Vec::new(), "", "")
        .unwrap();
    assert!(artifact.contains("__stack_size = 0x00000800;\n"));
}

#[test]
fn stack_size_env_override_order_irrelevant() {
    let first = RuntimeBuilder::from_flexspi(Family::Imxrt1060, 64)
        .stack_size_env_override("IMXRT_TEST_STACK")
        .stack_size(2048)
        .write_linker_script(&env(&[("IMXRT_TEST_STACK", "4096")]), "", "")
        .unwrap();
    let second = RuntimeBuilder::from_flexspi(Family::Imxrt1060, 64)
        .stack_size(2048)
        .stack_size_env_override("IMXRT_TEST_STACK")
        .write_linker_script(&env(&[("IMXRT_TEST_STACK", "4096")]), "", "")
        .unwrap();
    assert_eq!(first, second);
    assert!(first.contains("__stack_size = 0x00001000;\n"));
}

#[test]
fn stack_size_env_override_plain_value() {
    let artifact = RuntimeBuilder::from_flexspi(Family::Imxrt1060, 64)
        .stack_size_env_override("IMXRT_TEST_STACK")
        .write_linker_script(&env(&[("IMXRT_TEST_STACK", "4096")]), "", "")
        .unwrap();
    assert!(artifact.contains("__stack_size = 0x00001000;\n"));
}

#[test]
fn stack_size_env_override_kilo_suffixes() {
    for value in ["4k", "4K"] {
        let artifact = RuntimeBuilder::from_flexspi(Family::Imxrt1060, 64)
            .stack_size_env_override("IMXRT_TEST_STACK")
            .write_linker_script(&env(&[("IMXRT_TEST_STACK", value)]), "", "")
            .unwrap();
        assert!(
            artifact.contains("__stack_size = 0x00001000;\n"),
            "value: {value}"
        );
    }
}

#[test]
fn stack_size_env_override_last_name_wins() {
    let snapshot = env(&[("IMXRT_TEST_A", "1024"), ("IMXRT_TEST_B", "2048")]);
    let artifact = RuntimeBuilder::from_flexspi(Family::Imxrt1060, 64)
        .stack_size_env_override("IMXRT_TEST_A")
        .stack_size_env_override("IMXRT_TEST_B")
        .write_linker_script(&snapshot, "", "")
        .unwrap();
    assert!(artifact.contains("__stack_size = 0x00000800;\n"));
}

#[test]
fn heap_size_env_override_applies() {
    let artifact = RuntimeBuilder::from_flexspi(Family::Imxrt1060, 64)
        .heap_size_env_override("IMXRT_TEST_HEAP")
        .write_linker_script(&env(&[("IMXRT_TEST_HEAP", "16k")]), "", "")
        .unwrap();
    assert!(artifact.contains("__heap_size = 0x00004000;\n"));
}

#[test]
fn invalid_stack_size_value_fails() {
    for value in ["abc", "12x", "", "k", "4096 "] {
        let res = RuntimeBuilder::from_flexspi(Family::Imxrt1060, 64)
            .stack_size_env_override("IMXRT_TEST_STACK")
            .write_linker_script(&env(&[("IMXRT_TEST_STACK", value)]), "", "");
        assert_eq!(res.unwrap_err(), BuildError::InvalidStackSize, "value: {value}");
    }
}

#[test]
fn invalid_heap_size_value_fails() {
    let res = RuntimeBuilder::from_flexspi(Family::Imxrt1060, 64)
        .heap_size_env_override("IMXRT_TEST_HEAP")
        .write_linker_script(&env(&[("IMXRT_TEST_HEAP", "99999999999999999999999999")]), "", "");
    assert_eq!(res.unwrap_err(), BuildError::InvalidHeapSize);
}

#[test]
fn env_override_resolve_semantics() {
    let unset = EnvOverride::new(5);
    assert_eq!(unset.resolve(&Vec::new()), Some(5));

    let mut named = EnvOverride::new(5);
    named.set_env_key("IMXRT_TEST_SIZE".to_string());
    assert_eq!(named.resolve(&Vec::new()), Some(5));
    assert_eq!(named.resolve(&env(&[("IMXRT_TEST_SIZE", "12")])), Some(12));
    assert_eq!(named.resolve(&env(&[("IMXRT_TEST_SIZE", "12k")])), Some(12288));
    assert_eq!(named.resolve(&env(&[("IMXRT_TEST_SIZE", "12K")])), Some(12288));
    assert_eq!(named.resolve(&env(&[("OTHER", "12")])), Some(5));
    assert_eq!(named.resolve(&env(&[("IMXRT_TEST_SIZE", "-12")])), None);
    assert_eq!(named.resolve(&env(&[("IMXRT_TEST_SIZE", "12.5")])), None);
}

#[test]
fn env_override_second_name_replaces_first() {
    let mut named = EnvOverride::new(5);
    named.set_env_key("IMXRT_TEST_A".to_string());
    named.set_env_key("IMXRT_TEST_B".to_string());
    assert_eq!(named.env.as_deref(), Some("IMXRT_TEST_B"));
    let snapshot = env(&[("IMXRT_TEST_A", "111"), ("IMXRT_TEST_B", "222")]);
    assert_eq!(named.resolve(&snapshot), Some(222));
}
