use heartbeat_mailer::config::{Config, ConfigError};

fn valid_config() -> Config {
    Config {
        smtp_server: String::from("smtp.example.com"),
        from: String::from("Sender <sender@example.com>"),
        to: String::from("recipient@example.com"),
        subject: String::from("checking in"),
        interval: 10,
        messages: vec![
            String::from("hello there"),
            String::from("still alive"),
            String::from("ping"),
        ],
    }
}

#[test]
fn valid_config_passes_validation() {
    assert!(valid_config().validate().is_ok());
}

#[test]
fn empty_smtp_server_rejected() {
    let mut c = valid_config();
    c.smtp_server = String::new();
    assert_eq!(c.validate(), Err(ConfigError::EmptySmtpServer));
}

#[test]
fn malformed_from_address_rejected() {
    let mut c = valid_config();
    c.from = String::from("not an address");
    assert_eq!(c.validate(), Err(ConfigError::InvalidFromAddress));
}

#[test]
fn malformed_to_address_rejected() {
    let mut c = valid_config();
    c.to = String::from("no-at-sign");
    assert_eq!(c.validate(), Err(ConfigError::InvalidToAddress));
}

#[test]
fn bare_address_accepted() {
    let mut c = valid_config();
    c.from = String::from("plain@example.org");
    assert!(c.validate().is_ok());
}

#[test]
fn interval_of_one_rejected() {
    let mut c = valid_config();
    c.interval = 1;
    assert_eq!(c.validate(), Err(ConfigError::IntervalTooSmall));
}

#[test]
fn interval_of_zero_rejected() {
    let mut c = valid_config();
    c.interval = 0;
    assert_eq!(c.validate(), Err(ConfigError::IntervalTooSmall));
}

#[test]
fn interval_of_two_accepted() {
    let mut c = valid_config();
    c.interval = 2;
    assert!(c.validate().is_ok());
}

#[test]
fn empty_message_pool_rejected() {
    let mut c = valid_config();
    c.messages = Vec::new();
    assert_eq!(c.validate(), Err(ConfigError::NoMessages));
}

#[test]
fn first_violation_in_field_order_wins() {
    let mut c = valid_config();
    c.from = String::from("broken");
    c.interval = 0;
    c.messages = Vec::new();
    assert_eq!(c.validate(), Err(ConfigError::InvalidFromAddress));
}

#[test]
fn empty_subject_is_allowed() {
    let mut c = valid_config();
    c.subject = String::new();
    assert!(c.validate().is_ok());
}
