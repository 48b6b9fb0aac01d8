use fema_web_declaration::config::{Config, DEFAULT_OUTPUT, DEFAULT_YEARS};

#[test]
fn default_config() {
    let config = Config::default();
    assert!(!config.debug);
    assert_eq!(config.num_years_previous, 3);
    assert_eq!(config.csv, Some(String::from("out.csv")));
}

#[test]
fn default_constants() {
    assert_eq!(DEFAULT_YEARS, 3);
    assert_eq!(DEFAULT_OUTPUT, "out.csv");
}
