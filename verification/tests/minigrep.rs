use rustbook::minigrep::Config;

#[test]
fn config_from_args() {
    let args = vec!["prog".to_string(), "needle".to_string(), "file.txt".to_string()];
    let config = Config::new(&args).ok().unwrap();
    assert_eq!(config.query, "needle");
    assert_eq!(config.filename, "file.txt");
}

#[test]
fn config_needs_three_args() {
    let args = vec!["prog".to_string(), "needle".to_string()];
    assert_eq!(Config::new(&args).err(), Some("not enough arguments!"));
    assert_eq!(Config::new(&vec![]).err(), Some("not enough arguments!"));
}
