use posterbot_constructor::config::{Config, ConfigError, EnvValues};

fn env() -> EnvValues {
    EnvValues {
        master_bot_token: Some("123:abc".to_string()),
        owner_id: Some("42".to_string()),
        database_url: Some("postgres://db".to_string()),
        watermark_username: None,
        instruction_url: None,
        deploy_server: None,
    }
}

#[test]
fn defaults_fill_unset_values() {
    let c = Config::from_values(env()).unwrap();
    assert_eq!(c.master_bot_token, "123:abc");
    assert_eq!(c.owner_id, 42);
    assert_eq!(c.database_url, "postgres://db");
    assert_eq!(c.watermark_username, "@superduperbot");
    assert_eq!(c.instruction_url, "https://telegra.ph/");
    assert_eq!(c.deploy_server, "production");
}

#[test]
fn set_values_are_kept_and_the_url_normalised() {
    let mut e = env();
    e.watermark_username = Some("@mark".to_string());
    e.instruction_url = Some("HTTPS://Example.COM".to_string());
    e.deploy_server = Some("staging".to_string());
    let c = Config::from_values(e).unwrap();
    assert_eq!(c.watermark_username, "@mark");
    assert_eq!(c.instruction_url, "https://example.com/");
    assert_eq!(c.deploy_server, "staging");
}

#[test]
fn each_problem_is_reported_in_order() {
    let mut e = env();
    e.instruction_url = Some("not a url".to_string());
    e.master_bot_token = None;
    assert_eq!(Config::from_values(e).unwrap_err(), ConfigError::InvalidInstructionUrl);

    let mut e = env();
    e.master_bot_token = None;
    e.owner_id = None;
    assert_eq!(Config::from_values(e).unwrap_err(), ConfigError::MasterBotTokenMissing);

    let mut e = env();
    e.owner_id = None;
    assert_eq!(Config::from_values(e).unwrap_err(), ConfigError::OwnerIdMissing);

    let mut e = env();
    e.owner_id = Some("forty-two".to_string());
    e.database_url = None;
    assert_eq!(Config::from_values(e).unwrap_err(), ConfigError::OwnerIdNotANumber);

    let mut e = env();
    e.database_url = None;
    assert_eq!(Config::from_values(e).unwrap_err(), ConfigError::DatabaseUrlMissing);
}
