//! Policy documents as the gateway holds them, and their resolution.

use crate::model::{
    policy_for, resolve_in, unset_policy, zero_document, Decision, ModelPolicy, PolicyDocument,
};
use crate::text_map::TextMap;
use vstd::prelude::*;

verus! {

/// The view of an optional text.
pub open spec fn text_view(text: Option<String>) -> Option<Seq<char>> {
    match text {
        Some(s) => Some(s@),
        None => None,
    }
}

/// The policy of one model. Each field is optional on its own; `None` means
/// that the default applies.
#[derive(Debug)]
pub struct ModelConfig {
    pub mapping: Option<String>,
    pub replace_response: Option<bool>,
    pub enable: Option<bool>,
}

impl View for ModelConfig {
    type V = ModelPolicy;

    open spec fn view(&self) -> ModelPolicy {
        ModelPolicy {
            mapping: text_view(self.mapping),
            replace_response: self.replace_response,
            enable: self.enable,
        }
    }
}

impl Default for ModelConfig {
    /// The policy that says nothing.
    fn default() -> (policy: Self)
        ensures
            policy@ == unset_policy(),
    {
        ModelConfig { mapping: None, replace_response: None, enable: None }
    }
}

impl Clone for ModelConfig {
    fn clone(&self) -> (copy: Self)
        ensures
            copy@ == self@,
    {
        ModelConfig {
            mapping: match &self.mapping {
                Some(target) => Some(target.clone()),
                None => None,
            },
            replace_response: self.replace_response,
            enable: self.enable,
        }
    }
}

/// The decision for one inbound model identifier.
#[derive(Debug)]
pub struct ResolvedModel {
    /// The identifier to dispatch with.
    pub target_id: String,
    /// Whether the model may be dispatched at all.
    pub enabled: bool,
    /// Whether the response is rewritten after the fact.
    pub replace_response: bool,
}

impl View for ResolvedModel {
    type V = Decision;

    open spec fn view(&self) -> Decision {
        Decision {
            target_id: self.target_id@,
            enabled: self.enabled,
            replace_response: self.replace_response,
        }
    }
}

/// The policies that a map of model configurations denotes.
pub open spec fn policies(models: Map<Seq<char>, ModelConfig>) -> Map<Seq<char>, ModelPolicy> {
    Map::new(|name: Seq<char>| models.contains_key(name), |name: Seq<char>| models[name]@)
}

/// The policy document: a global switch and a policy per model name.
pub struct Config {
    pub enable: Option<bool>,
    pub models: TextMap<ModelConfig>,
}

impl View for Config {
    type V = PolicyDocument;

    open spec fn view(&self) -> PolicyDocument {
        PolicyDocument { enable: self.enable, models: policies(self.models@) }
    }
}

impl Default for Config {
    /// The document that says nothing at all: no global switch, no models.
    fn default() -> (doc: Self)
        ensures
            doc@ == (PolicyDocument { enable: None, models: Map::empty() }),
    {
        let doc = Config { enable: None, models: TextMap::new() };
        assert(doc@.models =~= Map::empty());
        doc
    }
}

impl Config {
    /// The document that stands for a resource that does not exist.
    pub fn zero() -> (doc: Self)
        ensures
            doc@ == zero_document(),
    {
        let doc = Config { enable: Some(false), models: TextMap::new() };
        assert(doc@.models =~= Map::empty());
        doc
    }

    /// Whether the global switch is on. A document without the switch has
    /// it off.
    pub fn globally_enabled(&self) -> (on: bool)
        ensures
            on == (self@.enable == Some(true)),
    {
        match self.enable {
            Some(flag) => flag,
            None => false,
        }
    }

    /// Sets the policy of the model `name`, in place of any earlier one.
    pub fn set_model(&mut self, name: String, policy: ModelConfig)
        ensures
            final(self)@.enable == old(self)@.enable,
            final(self)@.models == old(self)@.models.insert(name@, policy@),
    {
        self.models.insert(name, policy);
        assert(self@.models =~= old(self)@.models.insert(name@, policy@));
    }

    /// The policy of `model_id`; a model that is not listed has the policy
    /// that says nothing.
    pub fn policy(&self, model_id: &str) -> (policy: ModelConfig)
        ensures
            policy@ == policy_for(self@, model_id@),
    {
        match self.models.get(model_id) {
            Some(listed) => listed.clone(),
            None => ModelConfig::default(),
        }
    }

    /// The decision for `model_id` under this document.
    pub fn resolve(&self, model_id: &str) -> (decision: ResolvedModel)
        ensures
            decision@ == resolve_in(self@, model_id@),
    {
        let policy = self.policy(model_id);
        ResolvedModel {
            target_id: match policy.mapping {
                Some(target) => target,
                None => model_id.to_owned(),
            },
            enabled: match policy.enable {
                Some(flag) => flag,
                None => true,
            },
            replace_response: match policy.replace_response {
                Some(flag) => flag,
                None => false,
            },
        }
    }
}

} // verus!
