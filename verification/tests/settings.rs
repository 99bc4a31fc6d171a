use vps_deploy::command::Command;
use vps_deploy::config::{Auth, ConfigError, Credentials, DeployConfig};

fn text(s: &str) -> Option<String> {
    Some(s.to_string())
}

#[test]
fn password_takes_precedence_over_key_file() {
    let made = Credentials::from_settings(
        text("vps.example.org"),
        text("admin"),
        text("hunter2"),
        text("/home/me/.ssh/id_ed25519"),
        text("phrase"),
    )
    .unwrap();
    assert_eq!(made.host, "vps.example.org");
    assert_eq!(made.user, "admin");
    assert_eq!(made.auth, Auth::Password("hunter2".to_string()));
}

#[test]
fn key_file_with_and_without_passphrase() {
    let with = Credentials::from_settings(
        text("vps.example.org"),
        text("admin"),
        None,
        text("/home/me/.ssh/id_ed25519"),
        text("phrase"),
    )
    .unwrap();
    assert_eq!(
        with.auth,
        Auth::KeyFile { path: "/home/me/.ssh/id_ed25519".to_string(), passphrase: text("phrase") }
    );
    let without = Credentials::from_settings(
        text("vps.example.org"),
        text("admin"),
        None,
        text("/home/me/.ssh/id_ed25519"),
        None,
    )
    .unwrap();
    assert_eq!(
        without.auth,
        Auth::KeyFile { path: "/home/me/.ssh/id_ed25519".to_string(), passphrase: None }
    );
}

#[test]
fn credentials_need_host_user_and_one_credential() {
    assert_eq!(
        Credentials::from_settings(None, None, None, None, None),
        Err(ConfigError::MissingHost)
    );
    assert_eq!(
        Credentials::from_settings(text("h"), None, None, None, None),
        Err(ConfigError::MissingUser)
    );
    assert_eq!(
        Credentials::from_settings(text("h"), text("u"), None, None, None),
        Err(ConfigError::MissingCredential)
    );
    assert_eq!(
        Credentials::from_settings(text("h"), text("u"), None, None, text("phrase")),
        Err(ConfigError::MissingCredential)
    );
    assert_eq!(
        Credentials::from_settings(None, text("u"), text("p"), None, None),
        Err(ConfigError::MissingHost)
    );
}

#[test]
fn address_is_the_host_with_the_standard_port() {
    let made =
        Credentials::from_settings(text("vps.example.org"), text("admin"), text("pw"), None, None)
            .unwrap();
    assert_eq!(made.address(), "vps.example.org:22");
}

#[test]
fn deploy_settings_default_the_database_name() {
    let made = DeployConfig::from_settings(text("app.db"), text("/srv/data"), None).unwrap();
    assert_eq!(made.local_database, "app.db");
    assert_eq!(made.remote_dir, "/srv/data");
    assert_eq!(made.database_name, "database.db");
    let named =
        DeployConfig::from_settings(text("app.db"), text("/srv/data"), text("shop.db")).unwrap();
    assert_eq!(named.database_name, "shop.db");
}

#[test]
fn deploy_settings_need_both_paths() {
    assert_eq!(
        DeployConfig::from_settings(None, None, None),
        Err(ConfigError::MissingLocalDatabase)
    );
    assert_eq!(
        DeployConfig::from_settings(None, text("/srv/data"), text("shop.db")),
        Err(ConfigError::MissingLocalDatabase)
    );
    assert_eq!(
        DeployConfig::from_settings(text("app.db"), None, text("shop.db")),
        Err(ConfigError::MissingRemoteDirectory)
    );
}

#[test]
fn commands_by_number() {
    assert_eq!(Command::from_number(1), Some(Command::Upload));
    assert_eq!(Command::from_number(2), Some(Command::Download));
    assert_eq!(Command::from_number(3), Some(Command::Deploy));
    assert_eq!(Command::from_number(4), Some(Command::Exit));
    assert_eq!(Command::from_number(0), None);
    assert_eq!(Command::from_number(5), None);
    assert_eq!(Command::from_number(u32::MAX), None);
}
