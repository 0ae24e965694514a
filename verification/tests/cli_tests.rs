use niri_tag_sidebar::cli::{config_path_arg, load_outcome, LoadOutcome};
use niri_tag_sidebar::config::Config;

fn args(a: &[&str]) -> Vec<String> {
    a.iter().map(|s| s.to_string()).collect()
}

#[test]
fn config_path_on_the_command_line() {
    assert_eq!(config_path_arg(&args(&["prog", "--config", "a.toml"])), Some(2));
    assert_eq!(config_path_arg(&args(&["prog", "-c", "b.toml", "--config", "c.toml"])), Some(2));
    assert_eq!(config_path_arg(&args(&["prog", "x", "--config"])), None);
    assert_eq!(config_path_arg(&args(&["prog", "--config"])), None);
    assert_eq!(config_path_arg(&args(&["prog", "--conf", "a"])), None);
    assert_eq!(config_path_arg(&args(&["--config", "-c", "z"])), Some(1));
    assert_eq!(config_path_arg(&args(&[])), None);
}

#[test]
fn load_outcomes() {
    assert!(matches!(load_outcome(Ok(Config::sample()), true), LoadOutcome::Use(c) if c.panel.len() == 2));
    assert!(matches!(load_outcome(Err("bad".to_string()), true), LoadOutcome::Abort(e) if e == "bad"));
    assert!(matches!(load_outcome(Err("bad".to_string()), false), LoadOutcome::FallBack(e) if e == "bad"));
}
