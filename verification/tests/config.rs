use gbemu::config::{set_verbose, EmuConfig};

#[test]
fn verbosity_toggle() {
    let mut config = EmuConfig::new();
    assert!(!config.verbose);
    set_verbose(&mut config);
    assert!(config.verbose);
}
