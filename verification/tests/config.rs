use libinko::config::{Config, EnvSettings};

#[test]
fn config_test_new() {
    let config = Config::new();

    assert!(config.primary_threads >= 1);
    assert_eq!(config.reductions, 1000);
}

#[test]
fn test_for_cpu_count_uses_the_cpu_count() {
    let config = Config::for_cpu_count(8);

    assert_eq!(config.primary_threads, 8);
    assert_eq!(config.blocking_threads, 8);
    assert_eq!(config.bytecode_threads, 4);
    assert_eq!(config.recycle_blocks_per_scan, 1000);
}

#[test]
fn test_for_cpu_count_with_few_cpus() {
    let config = Config::for_cpu_count(2);

    assert_eq!(config.bytecode_threads, 2);
}

#[test]
fn test_populate_from_env() {
    let mut config = Config::for_cpu_count(4);
    let env = EnvSettings {
        primary_threads: Some("3".to_string()),
        blocking_threads: None,
        bytecode_threads: Some("not a number".to_string()),
        reductions: Some("500".to_string()),
        recycle_blocks_per_scan: None,
    };

    config.populate_from_env(&env);

    assert_eq!(config.primary_threads, 3);
    assert_eq!(config.blocking_threads, 4);
    assert_eq!(config.bytecode_threads, 4);
    assert_eq!(config.reductions, 500);
    assert_eq!(config.recycle_blocks_per_scan, 1000);
}
