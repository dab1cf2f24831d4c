use poe2openai::admin::{
    error_reply, save_config, save_config_done, AdminAuthValidator, AdminGateway, ReplyBody,
    SaveStep, STATUS_BAD_REQUEST, STATUS_INTERNAL_SERVER_ERROR, STATUS_OK,
};
use poe2openai::cache::ConfigCache;
use poe2openai::policy::{Config, ModelConfig};
use poe2openai::store::{
    is_blank, load_config, save_config_to_file, ConfigError, StoreRead, StoreWrite, DOC_NAME,
};

#[test]
fn status_constants() {
    assert_eq!(STATUS_OK, 200);
    assert_eq!(STATUS_BAD_REQUEST, 400);
    assert_eq!(STATUS_INTERNAL_SERVER_ERROR, 500);
    assert_eq!(DOC_NAME, "models.yaml");
}

#[test]
fn invalid_body_is_a_client_error_before_any_write() {
    match save_config(Err("missing field `models`".to_string())) {
        SaveStep::Respond(reply) => {
            assert_eq!(reply.status, 400);
            match reply.body {
                ReplyBody::Error(text) => assert_eq!(text, "missing field `models`"),
                _ => panic!("expected an error body"),
            }
        }
        SaveStep::Persist(_) => panic!("an invalid body must not be persisted"),
    }
    match AdminGateway::accept(Err("expected value".to_string())) {
        Err(ConfigError::InvalidRequestBody(text)) => assert_eq!(text, "expected value"),
        _ => panic!("expected an invalid-request error"),
    }
}

#[test]
fn valid_body_is_persisted_as_it_stands() {
    let mut doc = Config::zero();
    doc.enable = Some(true);
    doc.set_model(
        "gpt-x".to_string(),
        ModelConfig { mapping: Some("bot-y".to_string()), replace_response: Some(true), enable: None },
    );
    match save_config(Ok(doc)) {
        SaveStep::Persist(kept) => {
            assert_eq!(kept.enable, Some(true));
            assert_eq!(kept.models.len(), 1);
            let model = kept.models.get("gpt-x").unwrap();
            assert_eq!(model.mapping.as_deref(), Some("bot-y"));
            assert_eq!(model.replace_response, Some(true));
            assert_eq!(model.enable, None);
        }
        SaveStep::Respond(_) => panic!("a valid body must be persisted"),
    }
}

#[test]
fn successful_write_reports_success_and_invalidates() {
    let mut cache = ConfigCache::new();
    cache.put(DOC_NAME, Config::zero());
    let reply = save_config_done(&mut cache, StoreWrite::Written);
    assert_eq!(reply.status, 200);
    assert!(matches!(reply.body, ReplyBody::Success));
    assert!(cache.get(DOC_NAME).is_none());
}

#[test]
fn successful_write_on_a_cache_not_started() {
    let mut cache = ConfigCache::new();
    let reply = save_config_done(&mut cache, StoreWrite::Written);
    assert_eq!(reply.status, 200);
    assert!(matches!(reply.body, ReplyBody::Success));
    assert!(!cache.is_started());
}

#[test]
fn error_reply_by_kind_of_error() {
    let corrupt = error_reply(&ConfigError::ConfigCorrupt("c".to_string()));
    assert_eq!(corrupt.status, 500);
    let write = error_reply(&ConfigError::ConfigWriteError("w".to_string()));
    assert_eq!(write.status, 500);
    let body = error_reply(&ConfigError::InvalidRequestBody("b".to_string()));
    assert_eq!(body.status, 400);
    match (corrupt.body, write.body, body.body) {
        (ReplyBody::Error(c), ReplyBody::Error(w), ReplyBody::Error(b)) => {
            assert_eq!(c, "c");
            assert_eq!(w, "w");
            assert_eq!(b, "b");
        }
        _ => panic!("expected error bodies"),
    }
}

#[test]
fn error_messages_are_handed_on_word_for_word() {
    assert_eq!(ConfigError::ConfigCorrupt("a b".to_string()).message(), "a b");
    assert_eq!(ConfigError::ConfigWriteError("".to_string()).message(), "");
    assert_eq!(ConfigError::InvalidRequestBody("x\ny".to_string()).message(), "x\ny");
}

#[test]
fn load_outcomes() {
    assert!(load_config(StoreRead::Absent).is_ok());
    assert!(load_config(StoreRead::Blank).is_ok());
    match load_config(StoreRead::Unreadable("io".to_string())) {
        Err(ConfigError::ConfigCorrupt(text)) => assert_eq!(text, "io"),
        _ => panic!("expected a corrupt-config error"),
    }
    match load_config(StoreRead::Malformed("yaml".to_string())) {
        Err(ConfigError::ConfigCorrupt(text)) => assert_eq!(text, "yaml"),
        _ => panic!("expected a corrupt-config error"),
    }
    let mut doc = Config::default();
    doc.enable = Some(true);
    let loaded = load_config(StoreRead::Parsed(doc)).unwrap();
    assert_eq!(loaded.enable, Some(true));
}

#[test]
fn save_outcomes() {
    assert!(save_config_to_file(StoreWrite::Written).is_ok());
    match save_config_to_file(StoreWrite::EncodeFailed("enc".to_string())) {
        Err(ConfigError::ConfigWriteError(text)) => assert_eq!(text, "enc"),
        _ => panic!("expected a write error"),
    }
    match save_config_to_file(StoreWrite::WriteFailed("io".to_string())) {
        Err(ConfigError::ConfigWriteError(text)) => assert_eq!(text, "io"),
        _ => panic!("expected a write error"),
    }
}

#[test]
fn blank_texts() {
    assert!(is_blank(""));
    assert!(is_blank(" \t\r\n\n  "));
    assert!(!is_blank("enable: false"));
    assert!(!is_blank("  #"));
    assert!(!is_blank("\u{a0}"));
    assert!(!is_blank("\u{3000}"));
    assert!(!is_blank(" \u{b}"));
}

#[test]
fn credentials_must_both_be_set() {
    assert!(AdminAuthValidator::from_settings(None, None).is_none());
    assert!(AdminAuthValidator::from_settings(Some("root".to_string()), None).is_none());
    assert!(AdminAuthValidator::from_settings(None, Some("pw".to_string())).is_none());
    assert!(AdminAuthValidator::from_settings(Some("root".to_string()), Some("pw".to_string())).is_some());
}

#[test]
fn credentials_are_compared_exactly() {
    let gate = AdminAuthValidator::new("root".to_string(), "s3cret".to_string());
    assert!(gate.validate("root", "s3cret"));
    assert!(!gate.validate("root", "s3cre"));
    assert!(!gate.validate("root", "s3cret "));
    assert!(!gate.validate("Root", "s3cret"));
    assert!(!gate.validate("", ""));
    assert!(!gate.validate("s3cret", "root"));
    let set = AdminAuthValidator::from_settings(Some("é".to_string()), Some("密码".to_string())).unwrap();
    assert!(set.validate("é", "密码"));
    assert!(!set.validate("e", "密码"));
    assert!(!set.validate("é", "密"));
}
