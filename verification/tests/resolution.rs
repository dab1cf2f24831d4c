use poe2openai::cache::ConfigCache;
use poe2openai::policy::{Config, ModelConfig};
use poe2openai::resolver::ModelResolver;
use poe2openai::store::{load_config, ConfigError, StoreRead, DOC_NAME};

fn policy(mapping: Option<&str>, replace_response: Option<bool>, enable: Option<bool>) -> ModelConfig {
    ModelConfig { mapping: mapping.map(|m| m.to_string()), replace_response, enable }
}

fn document(models: Vec<(&str, ModelConfig)>) -> Config {
    let mut doc = Config::zero();
    for (name, model) in models {
        doc.set_model(name.to_string(), model);
    }
    doc
}

#[test]
fn default_materialization() {
    let doc = load_config(StoreRead::Absent).unwrap();
    assert_eq!(doc.enable, Some(false));
    assert_eq!(doc.models.len(), 0);
    assert!(!doc.globally_enabled());
    for id in ["gpt-x", "", "llama-3", "模型"] {
        let decision = doc.resolve(id);
        assert_eq!(decision.target_id, id);
        assert!(decision.enabled);
        assert!(!decision.replace_response);
    }
}

#[test]
fn blank_resource_is_the_zero_document() {
    let doc = load_config(StoreRead::Blank).unwrap();
    assert_eq!(doc.enable, Some(false));
    assert_eq!(doc.models.len(), 0);
}

#[test]
fn default_materialization_through_the_cache() {
    let mut cache = ConfigCache::new();
    let done = ModelResolver::resolve(&mut cache, "any-model", || StoreRead::Absent);
    assert_eq!(done.model.target_id, "any-model");
    assert!(done.model.enabled);
    assert!(!done.model.replace_response);
    assert!(done.fault.is_none());
    let cached = cache.get(DOC_NAME).unwrap();
    assert_eq!(cached.enable, Some(false));
    assert_eq!(cached.models.len(), 0);
}

#[test]
fn mapping_substitution() {
    let doc = document(vec![("gpt-x", policy(Some("bot-y"), None, None))]);
    assert_eq!(doc.resolve("gpt-x").target_id, "bot-y");
    assert_eq!(doc.resolve("unlisted").target_id, "unlisted");
    assert!(doc.resolve("gpt-x").enabled);
    assert!(!doc.resolve("gpt-x").replace_response);
}

#[test]
fn disable_propagation() {
    let doc = document(vec![("gpt-x", policy(None, None, Some(false)))]);
    assert!(!doc.resolve("gpt-x").enabled);
    assert_eq!(doc.resolve("gpt-x").target_id, "gpt-x");
    assert!(doc.resolve("other").enabled);
}

#[test]
fn explicit_enable_and_replace_response() {
    let doc = document(vec![
        ("a", policy(None, Some(true), Some(true))),
        ("b", policy(Some("c"), Some(false), None)),
    ]);
    let a = doc.resolve("a");
    assert!(a.enabled);
    assert!(a.replace_response);
    assert_eq!(a.target_id, "a");
    let b = doc.resolve("b");
    assert!(b.enabled);
    assert!(!b.replace_response);
    assert_eq!(b.target_id, "c");
}

#[test]
fn global_switch_does_not_gate_models() {
    let mut off = document(vec![("listed", policy(None, None, None))]);
    off.enable = Some(false);
    assert!(off.resolve("listed").enabled);
    assert!(off.resolve("unlisted").enabled);
    let mut on = document(vec![("listed", policy(None, None, Some(false)))]);
    on.enable = Some(true);
    assert!(on.globally_enabled());
    assert!(!on.resolve("listed").enabled);
    let unset = Config::default();
    assert_eq!(unset.enable, None);
    assert!(!unset.globally_enabled());
}

#[test]
fn policy_lookup_synthesizes_the_unset_policy() {
    let doc = document(vec![("gpt-x", policy(Some("bot-y"), Some(true), Some(false)))]);
    let listed = doc.policy("gpt-x");
    assert_eq!(listed.mapping.as_deref(), Some("bot-y"));
    assert_eq!(listed.replace_response, Some(true));
    assert_eq!(listed.enable, Some(false));
    let missing = doc.policy("nope");
    assert_eq!(missing.mapping, None);
    assert_eq!(missing.replace_response, None);
    assert_eq!(missing.enable, None);
}

#[test]
fn set_model_replaces_an_earlier_policy() {
    let mut doc = document(vec![("gpt-x", policy(Some("old"), None, None))]);
    doc.set_model("gpt-x".to_string(), policy(Some("new"), None, None));
    assert_eq!(doc.models.len(), 1);
    assert_eq!(doc.resolve("gpt-x").target_id, "new");
}

#[test]
fn resolve_cached_misses_until_filled() {
    let mut cache = ConfigCache::new();
    assert!(ModelResolver::resolve_cached(&cache, "gpt-x").is_none());
    let doc = document(vec![("gpt-x", policy(Some("bot-y"), None, None))]);
    let done = ModelResolver::resolve_loaded(&mut cache, "gpt-x", StoreRead::Parsed(doc));
    assert_eq!(done.model.target_id, "bot-y");
    assert!(done.fault.is_none());
    let hit = ModelResolver::resolve_cached(&cache, "gpt-x").unwrap();
    assert_eq!(hit.target_id, "bot-y");
    let other = ModelResolver::resolve_cached(&cache, "unlisted").unwrap();
    assert_eq!(other.target_id, "unlisted");
}

#[test]
fn resolve_does_not_load_on_a_hit() {
    let mut cache = ConfigCache::new();
    let mut loads = 0;
    let first = ModelResolver::resolve(&mut cache, "gpt-x", || {
        loads += 1;
        StoreRead::Parsed(document(vec![("gpt-x", policy(Some("bot-y"), None, None))]))
    });
    assert_eq!(first.model.target_id, "bot-y");
    let second = ModelResolver::resolve(&mut cache, "gpt-x", || {
        loads += 1;
        StoreRead::Absent
    });
    assert_eq!(second.model.target_id, "bot-y");
    assert_eq!(loads, 1);
}

#[test]
fn corrupt_file_degrades_gracefully() {
    let mut cache = ConfigCache::new();
    for read in [
        StoreRead::Malformed("bad indentation at line 3".to_string()),
        StoreRead::Unreadable("permission denied".to_string()),
    ] {
        let message = match &read {
            StoreRead::Malformed(m) | StoreRead::Unreadable(m) => m.clone(),
            _ => unreachable!(),
        };
        let done = ModelResolver::resolve_loaded(&mut cache, "gpt-x", read);
        assert_eq!(done.model.target_id, "gpt-x");
        assert!(done.model.enabled);
        assert!(!done.model.replace_response);
        match done.fault {
            Some(ConfigError::ConfigCorrupt(text)) => assert_eq!(text, message),
            other => panic!("expected a corrupt-config fault, got {:?}", other),
        }
        assert!(cache.get(DOC_NAME).is_none());
        assert!(!cache.is_started());
    }
}
