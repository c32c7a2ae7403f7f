use repolocli::backend::{new_backend, Backend};
use repolocli::cli::is_readable_file;
use repolocli::config::Configuration;

fn config() -> Configuration {
    Configuration::new(
        "https://repology.org/".to_string(),
        vec!["arch".to_string()],
        vec!["debian".to_string(), "gentoo".to_string()],
    )
}

#[test]
fn configuration_hands_out_what_it_was_given() {
    let c = config();
    assert_eq!(c.repology_url(), "https://repology.org/");
    assert_eq!(c.allowlist(), &vec!["arch".to_string()]);
    assert_eq!(c.denylist(), &vec!["debian".to_string(), "gentoo".to_string()]);
}

#[test]
fn backend_is_stdin_when_asked_for() {
    assert_eq!(new_backend(true, &config()), Ok(Backend::Stdin));
}

#[test]
fn backend_is_the_configured_service_otherwise() {
    assert_eq!(
        new_backend(false, &config()),
        Ok(Backend::RepologyOrg("https://repology.org/".to_string()))
    );
}

#[test]
fn missing_path_is_reported() {
    assert_eq!(
        is_readable_file("db.yml", false, false, false),
        Err("'db.yml' does not exist!".to_string())
    );
    assert_eq!(
        is_readable_file("db.yml", false, true, true),
        Err("'db.yml' does not exist!".to_string())
    );
}

#[test]
fn directory_is_reported() {
    assert_eq!(
        is_readable_file("/tmp", true, false, true),
        Err("'/tmp' is not a file!".to_string())
    );
}

#[test]
fn unreadable_file_is_reported() {
    assert_eq!(
        is_readable_file("secret", true, true, false),
        Err("Cannot open 'secret'".to_string())
    );
}

#[test]
fn readable_file_is_accepted() {
    assert_eq!(is_readable_file("db.yml", true, true, true), Ok(()));
}
