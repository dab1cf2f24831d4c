//! Resolution of inbound model identifiers through the cache.

use crate::cache::ConfigCache;
use crate::model::{fill, resolve_in, Failure};
use crate::policy::ResolvedModel;
use crate::store::{load_config, ConfigError, StoreRead, DOC_NAME};
use vstd::prelude::*;

verus! {

/// A decision, together with the failure to report where the policy
/// document could not be loaded.
#[derive(Debug)]
pub struct Resolution {
    /// The decision to dispatch with.
    pub model: ResolvedModel,
    /// Set when the backing resource was corrupt and the decision is the
    /// permissive fallback: to be reported, never to fail the request.
    pub fault: Option<ConfigError>,
}

/// The view of an optional error.
pub open spec fn fault_view(fault: Option<ConfigError>) -> Option<Failure> {
    match fault {
        Some(error) => Some(error@),
        None => None,
    }
}

/// Resolves model identifiers against the cached policy document.
pub struct ModelResolver;

impl ModelResolver {
    /// The decision for `model_id` if the policy document is cached; `None`
    /// on a miss, when the document has to be read first. A cache that has
    /// not been started misses.
    pub fn resolve_cached(cache: &ConfigCache, model_id: &str) -> (hit: Option<ResolvedModel>)
        ensures
            match hit {
                Some(decision) => cache@.contains_key(DOC_NAME@) && decision@ == resolve_in(
                    cache@[DOC_NAME@],
                    model_id@,
                ),
                None => !cache@.contains_key(DOC_NAME@),
            },
    {
        match cache.get(DOC_NAME) {
            Some(doc) => Some(doc.resolve(model_id)),
            None => None,
        }
    }

    /// Completes a resolution that missed the cache, from what the read of
    /// the backing resource came to.
    ///
    /// A document that loads is cached and decides. A corrupt resource
    /// yields the pass-through decision with the failure beside it; the
    /// cache is then left as it was.
    pub fn resolve_loaded(cache: &mut ConfigCache, model_id: &str, read: StoreRead) -> (done:
        Resolution)
        ensures
            done.model@ == fill(old(cache)@, DOC_NAME@, read@, model_id@).decision,
            final(cache)@ == fill(old(cache)@, DOC_NAME@, read@, model_id@).cache,
            fault_view(done.fault) == fill(old(cache)@, DOC_NAME@, read@, model_id@).fault,
            final(cache).started() == (old(cache).started() || done.fault is None),
    {
        match load_config(read) {
            Ok(doc) => {
                let model = doc.resolve(model_id);
                cache.put(DOC_NAME, doc);
                Resolution { model, fault: None }
            },
            Err(error) => Resolution {
                model: ResolvedModel {
                    target_id: model_id.to_owned(),
                    enabled: true,
                    replace_response: false,
                },
                fault: Some(error),
            },
        }
    }

    /// The decision for `model_id`, through the cache.
    ///
    /// A cached document decides, and `load` is not called. On a miss
    /// `load` is called once, and the resolution is completed from what it
    /// returns, as `resolve_loaded` does.
    pub fn resolve<F: FnOnce() -> StoreRead>(cache: &mut ConfigCache, model_id: &str, load: F) -> (done:
        Resolution)
        requires
            load.requires(()),
        ensures
            old(cache)@.contains_key(DOC_NAME@) ==> {
                &&& done.model@ == resolve_in(old(cache)@[DOC_NAME@], model_id@)
                &&& done.fault is None
                &&& final(cache)@ == old(cache)@
                &&& final(cache).started() == old(cache).started()
            },
            !old(cache)@.contains_key(DOC_NAME@) ==> exists|read: StoreRead|
                {
                    &&& #[trigger] load.ensures((), read)
                    &&& done.model@ == fill(old(cache)@, DOC_NAME@, read@, model_id@).decision
                    &&& final(cache)@ == fill(old(cache)@, DOC_NAME@, read@, model_id@).cache
                    &&& fault_view(done.fault) == fill(
                        old(cache)@,
                        DOC_NAME@,
                        read@,
                        model_id@,
                    ).fault
                    &&& final(cache).started() == (old(cache).started() || done.fault is None)
                },
    {
        match Self::resolve_cached(cache, model_id) {
            Some(model) => Resolution { model, fault: None },
            None => {
                let read = load();
                Self::resolve_loaded(cache, model_id, read)
            },
        }
    }
}

} // verus!
