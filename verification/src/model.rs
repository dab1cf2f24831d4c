//! The mathematical model of policy documents and of their resolution.

use vstd::prelude::*;

verus! {

/// What an administrator may say about one model. A field that is `None`
/// leaves the matter to the default.
pub struct ModelPolicy {
    /// The identifier to dispatch with in place of the inbound one.
    pub mapping: Option<Seq<char>>,
    /// Whether responses for this model are rewritten after the fact.
    pub replace_response: Option<bool>,
    /// `Some(false)` rejects the model before dispatch.
    pub enable: Option<bool>,
}

/// The persisted document: a global switch and the per-model policies.
pub struct PolicyDocument {
    pub enable: Option<bool>,
    pub models: Map<Seq<char>, ModelPolicy>,
}

/// The decision taken for one inbound model identifier.
pub struct Decision {
    pub target_id: Seq<char>,
    pub enabled: bool,
    pub replace_response: bool,
}

/// The policy that says nothing.
pub open spec fn unset_policy() -> ModelPolicy {
    ModelPolicy { mapping: None, replace_response: None, enable: None }
}

/// The document that stands for a resource that does not exist: the global
/// switch is off and no model has a policy.
pub open spec fn zero_document() -> PolicyDocument {
    PolicyDocument { enable: Some(false), models: Map::empty() }
}

/// The policy of `model_id` in `doc`; a model that is not listed has the
/// policy that says nothing.
pub open spec fn policy_for(doc: PolicyDocument, model_id: Seq<char>) -> ModelPolicy {
    if doc.models.contains_key(model_id) {
        doc.models[model_id]
    } else {
        unset_policy()
    }
}

/// The decision that a policy yields for `model_id`: the mapping replaces
/// the identifier, a model is enabled unless the policy says otherwise, and
/// responses are left alone unless the policy says otherwise.
pub open spec fn apply_policy(policy: ModelPolicy, model_id: Seq<char>) -> Decision {
    Decision {
        target_id: match policy.mapping {
            Some(target) => target,
            None => model_id,
        },
        enabled: match policy.enable {
            Some(flag) => flag,
            None => true,
        },
        replace_response: match policy.replace_response {
            Some(flag) => flag,
            None => false,
        },
    }
}

/// The decision for `model_id` under `doc`.
///
/// The document's global switch takes no part in it: it tells the admin
/// surface whether the feature is on, and the per-model `enable` alone
/// decides whether a model is available.
pub open spec fn resolve_in(doc: PolicyDocument, model_id: Seq<char>) -> Decision {
    apply_policy(policy_for(doc, model_id), model_id)
}

/// The decision that changes nothing: dispatch under the inbound
/// identifier, enabled, responses left alone.
pub open spec fn pass_through(model_id: Seq<char>) -> Decision {
    Decision { target_id: model_id, enabled: true, replace_response: false }
}

/// A model that the document does not list passes through unchanged.
pub proof fn lemma_unlisted_passes_through(doc: PolicyDocument, model_id: Seq<char>)
    requires
        !doc.models.contains_key(model_id),
    ensures
        resolve_in(doc, model_id) == pass_through(model_id),
{
}

/// Under the zero document every model passes through unchanged.
pub proof fn lemma_zero_document_passes_through(model_id: Seq<char>)
    ensures
        resolve_in(zero_document(), model_id) == pass_through(model_id),
{
}

/// What can go wrong, each with the message of the failure underneath.
pub enum Failure {
    /// The persisted document is there but cannot be had as a document.
    ConfigCorrupt(Seq<char>),
    /// The document could not be persisted.
    ConfigWriteError(Seq<char>),
    /// An administrator sent a body that is no policy document.
    InvalidRequestBody(Seq<char>),
}

impl Failure {
    /// The message of the failure underneath.
    pub open spec fn message(self) -> Seq<char> {
        match self {
            Failure::ConfigCorrupt(message) => message,
            Failure::ConfigWriteError(message) => message,
            Failure::InvalidRequestBody(message) => message,
        }
    }
}

/// What an attempt to read the backing resource came to.
pub enum ReadOutcome {
    /// The resource does not exist.
    Absent,
    /// The resource exists and holds nothing but white space.
    Blank,
    /// The resource exists and could not be read.
    Unreadable(Seq<char>),
    /// The resource was read and is no policy document.
    Malformed(Seq<char>),
    /// The resource holds this document.
    Parsed(PolicyDocument),
}

/// What an attempt to persist a document came to.
pub enum WriteOutcome {
    /// The document is in place.
    Written,
    /// The document could not be put into its persisted form.
    EncodeFailed(Seq<char>),
    /// The persisted form could not be put in place.
    WriteFailed(Seq<char>),
}

/// The document that a read yields. A resource that is missing or blank
/// yields the zero document; one that cannot be read or parsed is corrupt,
/// and nothing of it is handed on.
pub open spec fn load_outcome(read: ReadOutcome) -> Result<PolicyDocument, Failure> {
    match read {
        ReadOutcome::Absent => Ok(zero_document()),
        ReadOutcome::Blank => Ok(zero_document()),
        ReadOutcome::Unreadable(message) => Err(Failure::ConfigCorrupt(message)),
        ReadOutcome::Malformed(message) => Err(Failure::ConfigCorrupt(message)),
        ReadOutcome::Parsed(doc) => Ok(doc),
    }
}

/// What a write comes to for the caller: every failure is a write error.
pub open spec fn save_outcome(write: WriteOutcome) -> Result<(), Failure> {
    match write {
        WriteOutcome::Written => Ok(()),
        WriteOutcome::EncodeFailed(message) => Err(Failure::ConfigWriteError(message)),
        WriteOutcome::WriteFailed(message) => Err(Failure::ConfigWriteError(message)),
    }
}

/// What one resolution comes to: the decision, the cache afterwards, and
/// the failure to report, if the document could not be loaded.
pub struct ReadThrough {
    pub decision: Decision,
    pub cache: Map<Seq<char>, PolicyDocument>,
    pub fault: Option<Failure>,
}

/// A resolution that misses the cache and is completed from a read of the
/// backing resource.
///
/// A document that loads is cached under `name` and decides. A corrupt
/// resource costs the request nothing: every model passes through, the
/// cache is left as it was, so that the next resolution reads again, and
/// the failure is handed on to be reported.
pub open spec fn fill(
    cache: Map<Seq<char>, PolicyDocument>,
    name: Seq<char>,
    read: ReadOutcome,
    model_id: Seq<char>,
) -> ReadThrough {
    match load_outcome(read) {
        Ok(doc) => ReadThrough {
            decision: resolve_in(doc, model_id),
            cache: cache.insert(name, doc),
            fault: None,
        },
        Err(failure) => ReadThrough {
            decision: pass_through(model_id),
            cache: cache,
            fault: Some(failure),
        },
    }
}

/// A resolution through the cache: a cached document decides and the
/// backing resource is not looked at; on a miss the resolution is completed
/// from `read`.
pub open spec fn read_through(
    cache: Map<Seq<char>, PolicyDocument>,
    name: Seq<char>,
    read: ReadOutcome,
    model_id: Seq<char>,
) -> ReadThrough {
    if cache.contains_key(name) {
        ReadThrough { decision: resolve_in(cache[name], model_id), cache: cache, fault: None }
    } else {
        fill(cache, name, read, model_id)
    }
}

/// The cache after an administrative write: a write that went through
/// drops the document cached under `name`, one that failed changes nothing.
pub open spec fn after_write(
    cache: Map<Seq<char>, PolicyDocument>,
    name: Seq<char>,
    write: WriteOutcome,
) -> Map<Seq<char>, PolicyDocument> {
    if save_outcome(write) is Ok {
        cache.remove(name)
    } else {
        cache
    }
}

} // verus!
