//! What holds across calls: which document a resolution goes by, before
//! and after reads, writes and invalidations.

use crate::model::{
    after_write, fill, load_outcome, pass_through, read_through, resolve_in, save_outcome,
    zero_document, Failure, PolicyDocument, ReadOutcome, WriteOutcome,
};
use vstd::prelude::*;

verus! {

/// Where no document exists, loading yields the zero document, and a
/// resolution that goes by it passes every model through: the target is the
/// inbound identifier, the model is enabled and responses are left alone.
/// The same holds of a resource that is blank.
pub proof fn lemma_default_materialization(
    cache: Map<Seq<char>, PolicyDocument>,
    name: Seq<char>,
    model_id: Seq<char>,
)
    requires
        !cache.contains_key(name),
    ensures
        load_outcome(ReadOutcome::Absent) == Ok::<PolicyDocument, Failure>(zero_document()),
        load_outcome(ReadOutcome::Blank) == Ok::<PolicyDocument, Failure>(zero_document()),
        read_through(cache, name, ReadOutcome::Absent, model_id).decision == pass_through(
            model_id,
        ),
        read_through(cache, name, ReadOutcome::Blank, model_id).decision == pass_through(
            model_id,
        ),
{
}

/// A mapping replaces the inbound identifier, and only that: a model whose
/// policy names a mapping is dispatched under it, and a model that the
/// document does not list is dispatched under its own identifier.
pub proof fn lemma_mapping_substitution(doc: PolicyDocument, model_id: Seq<char>)
    ensures
        doc.models.contains_key(model_id) ==> (doc.models[model_id].mapping matches Some(target)
            ==> resolve_in(doc, model_id).target_id == target),
        doc.models.contains_key(model_id) && doc.models[model_id].mapping is None ==> resolve_in(
            doc,
            model_id,
        ).target_id == model_id,
        !doc.models.contains_key(model_id) ==> resolve_in(doc, model_id).target_id == model_id,
{
}

/// A model is disabled exactly when the document lists it with `enable`
/// set to `false`; the global switch has no say in it.
pub proof fn lemma_disable_propagation(doc: PolicyDocument, model_id: Seq<char>)
    ensures
        !resolve_in(doc, model_id).enabled <==> (doc.models.contains_key(model_id)
            && doc.models[model_id].enable == Some(false)),
{
}

/// Once a resolution has gone through the cache with a resource that
/// loads, the cache holds a document, and later resolutions go by that
/// document whatever the backing resource has come to hold since: what they
/// decide, and what they leave in the cache, does not depend on the later
/// read.
pub proof fn lemma_cached_document_decides(
    cache: Map<Seq<char>, PolicyDocument>,
    name: Seq<char>,
    first: ReadOutcome,
    first_id: Seq<char>,
    later: ReadOutcome,
    other: ReadOutcome,
    model_id: Seq<char>,
)
    requires
        cache.contains_key(name) || load_outcome(first) is Ok,
    ensures
        ({
            let filled = read_through(cache, name, first, first_id).cache;
            &&& filled.contains_key(name)
            &&& filled[name] == if cache.contains_key(name) {
                cache[name]
            } else {
                load_outcome(first)->Ok_0
            }
            &&& read_through(filled, name, later, model_id) == read_through(
                filled,
                name,
                other,
                model_id,
            )
            &&& read_through(filled, name, later, model_id).decision == resolve_in(
                filled[name],
                model_id,
            )
            &&& read_through(filled, name, later, model_id).cache == filled
        }),
{
}

/// After a write that went through, no document is cached, and the next
/// resolution goes by what the backing resource then holds: with the new
/// document in place it decides by the new document, whatever was cached
/// before the write.
pub proof fn lemma_write_then_resolve(
    cache: Map<Seq<char>, PolicyDocument>,
    name: Seq<char>,
    write: WriteOutcome,
    new_doc: PolicyDocument,
    model_id: Seq<char>,
)
    requires
        save_outcome(write) is Ok,
    ensures
        !after_write(cache, name, write).contains_key(name),
        read_through(
            after_write(cache, name, write),
            name,
            ReadOutcome::Parsed(new_doc),
            model_id,
        ).decision == resolve_in(new_doc, model_id),
        read_through(
            after_write(cache, name, write),
            name,
            ReadOutcome::Parsed(new_doc),
            model_id,
        ).cache[name] == new_doc,
{
}

/// A write that failed is an error for the caller and leaves the cache as
/// it was, so a resolution afterwards decides as it would have before.
pub proof fn lemma_failed_write_keeps_cache(
    cache: Map<Seq<char>, PolicyDocument>,
    name: Seq<char>,
    write: WriteOutcome,
    read: ReadOutcome,
    model_id: Seq<char>,
)
    requires
        !(write is Written),
    ensures
        save_outcome(write) is Err,
        save_outcome(write)->Err_0 is ConfigWriteError,
        after_write(cache, name, write) == cache,
        read_through(after_write(cache, name, write), name, read, model_id) == read_through(
            cache,
            name,
            read,
            model_id,
        ),
{
}

/// A corrupt resource never fails a resolution. With no document cached,
/// every model passes through, the failure is handed on to be reported, and
/// the cache stays as it was. Loading the same resource directly is an
/// error that carries the same message.
pub proof fn lemma_corrupt_resource_degrades(
    cache: Map<Seq<char>, PolicyDocument>,
    name: Seq<char>,
    read: ReadOutcome,
    model_id: Seq<char>,
)
    requires
        !cache.contains_key(name),
        read is Malformed || read is Unreadable,
    ensures
        load_outcome(read) is Err,
        load_outcome(read)->Err_0 is ConfigCorrupt,
        read_through(cache, name, read, model_id).decision == pass_through(model_id),
        read_through(cache, name, read, model_id).fault == Some(load_outcome(read)->Err_0),
        read_through(cache, name, read, model_id).cache == cache,
{
}

/// Invalidating a name under which nothing is cached changes nothing, and
/// invalidating twice is the same as invalidating once.
pub proof fn lemma_invalidate_idempotent(cache: Map<Seq<char>, PolicyDocument>, name: Seq<char>)
    ensures
        !cache.contains_key(name) ==> cache.remove(name) == cache,
        cache.remove(name).remove(name) == cache.remove(name),
        !cache.remove(name).contains_key(name),
{
    assert(cache.remove(name).remove(name) =~= cache.remove(name));
    if !cache.contains_key(name) {
        assert(cache.remove(name) =~= cache);
    }
}

/// What a completed miss leaves behind is what a resolution through the
/// cache would have left: on a miss the two agree.
pub proof fn lemma_fill_is_read_through_on_miss(
    cache: Map<Seq<char>, PolicyDocument>,
    name: Seq<char>,
    read: ReadOutcome,
    model_id: Seq<char>,
)
    requires
        !cache.contains_key(name),
    ensures
        read_through(cache, name, read, model_id) == fill(cache, name, read, model_id),
{
}

} // verus!
