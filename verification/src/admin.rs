//! The administrative surface: reading the current document, replacing it,
//! and the check of credentials in front of both.

use crate::cache::ConfigCache;
use crate::model::{after_write, load_outcome, save_outcome, Failure, PolicyDocument};
use crate::policy::Config;
use crate::store::{
    load_config, loaded_view, save_config_to_file, saved_view, ConfigError, StoreRead, StoreWrite,
    DOC_NAME,
};
use crate::text::same_text;
use vstd::prelude::*;

verus! {

/// The status of a reply that carries what was asked for.
pub const STATUS_OK: u16 = 200;

/// The status of a reply to a request whose body is no policy document.
pub const STATUS_BAD_REQUEST: u16 = 400;

/// The status of a reply to a request that failed on this side.
pub const STATUS_INTERNAL_SERVER_ERROR: u16 = 500;

/// What a reply to an administrator carries.
pub enum ReplyBody {
    /// The current policy document.
    Document(Config),
    /// The word that a write went through.
    Success,
    /// The message of an error, word for word.
    Error(String),
}

/// A reply to an administrator: a status and a body.
pub struct AdminReply {
    pub status: u16,
    pub body: ReplyBody,
}

impl AdminReply {
    /// True of the reply that carries `doc` with the status for success.
    pub open spec fn carries_document(self, doc: PolicyDocument) -> bool {
        self.status == STATUS_OK && (self.body matches ReplyBody::Document(sent) && sent@ == doc)
    }

    /// True of the reply that reports success.
    pub open spec fn reports_success(self) -> bool {
        self.status == STATUS_OK && self.body is Success
    }

    /// True of the reply that carries `message` as an error under `status`.
    pub open spec fn reports_error(self, status: u16, message: Seq<char>) -> bool {
        self.status == status && (self.body matches ReplyBody::Error(text) && text@ == message)
    }
}

/// The status under which a failure is reported: a body that is no policy
/// document is the client's error, everything else is an error on this side.
pub open spec fn status_for(failure: Failure) -> u16 {
    match failure {
        Failure::InvalidRequestBody(_) => STATUS_BAD_REQUEST,
        Failure::ConfigCorrupt(_) => STATUS_INTERNAL_SERVER_ERROR,
        Failure::ConfigWriteError(_) => STATUS_INTERNAL_SERVER_ERROR,
    }
}

/// The reply that reports `error`: its status by the kind of error, its
/// body the message, word for word.
pub fn error_reply(error: &ConfigError) -> (reply: AdminReply)
    ensures
        reply.reports_error(status_for(error@), error@.message()),
{
    let status = match error {
        ConfigError::InvalidRequestBody(_) => STATUS_BAD_REQUEST,
        ConfigError::ConfigCorrupt(_) => STATUS_INTERNAL_SERVER_ERROR,
        ConfigError::ConfigWriteError(_) => STATUS_INTERNAL_SERVER_ERROR,
    };
    AdminReply { status, body: ReplyBody::Error(error.message()) }
}

/// What to do with a write request once its body has been looked at.
pub enum SaveStep {
    /// Persist this document, then settle the write with `save_config_done`.
    Persist(Config),
    /// Send this reply; neither store nor cache is touched.
    Respond(AdminReply),
}

/// Drops the cached policy document, so that the next resolution reads the
/// backing resource again, and says whether the cache had been started. In
/// a cache that has not been started, or holds no document, nothing changes.
pub fn invalidate_config_cache(cache: &mut ConfigCache) -> (started: bool)
    ensures
        final(cache)@ == old(cache)@.remove(DOC_NAME@),
        final(cache).started() == old(cache).started(),
        started == old(cache).started(),
{
    let started = cache.is_started();
    cache.invalidate(DOC_NAME);
    started
}

/// The administrative operations on the policy document.
pub struct AdminGateway;

impl AdminGateway {
    /// The current document as the backing resource has it, whatever the
    /// cache holds. A corrupt resource is an error here: the administrator
    /// has to see the failure to mend it.
    pub fn read_current(read: StoreRead) -> (current: Result<Config, ConfigError>)
        ensures
            loaded_view(current) == load_outcome(read@),
    {
        load_config(read)
    }

    /// Looks at what parsing the body of a write request came to: a body
    /// that is a policy document is accepted as it stands, one that is not
    /// is an invalid request that carries the message of the parser.
    pub fn accept(body: Result<Config, String>) -> (accepted: Result<Config, ConfigError>)
        ensures
            match body {
                Ok(doc) => accepted matches Ok(kept) && kept@ == doc@,
                Err(message) => accepted matches Err(error) && error@
                    == Failure::InvalidRequestBody(message@),
            },
    {
        match body {
            Ok(doc) => Ok(doc),
            Err(message) => Err(ConfigError::InvalidRequestBody(message)),
        }
    }

    /// Settles a replacement of the whole document, from what the write
    /// came to. After a write that went through, the cached document is
    /// dropped. After one that failed, the cache is left untouched, so that
    /// a document that is still good stays cached, and the error is
    /// handed on.
    pub fn replace(cache: &mut ConfigCache, write: StoreWrite) -> (replaced: Result<
        (),
        ConfigError,
    >)
        ensures
            saved_view(replaced) == save_outcome(write@),
            final(cache)@ == after_write(old(cache)@, DOC_NAME@, write@),
            final(cache).started() == old(cache).started(),
    {
        match save_config_to_file(write) {
            Ok(()) => {
                cache.invalidate(DOC_NAME);
                Ok(())
            },
            Err(error) => Err(error),
        }
    }
}

/// The reply to a request for the current document.
///
/// The cached document is dropped first, so that the next resolution sees
/// what the administrator is shown. A resource that is missing or blank is
/// answered with the zero document; a corrupt one with a server error that
/// carries the message.
pub fn get_config(cache: &mut ConfigCache, read: StoreRead) -> (reply: AdminReply)
    ensures
        final(cache)@ == old(cache)@.remove(DOC_NAME@),
        final(cache).started() == old(cache).started(),
        match load_outcome(read@) {
            Ok(doc) => reply.carries_document(doc),
            Err(failure) => reply.reports_error(STATUS_INTERNAL_SERVER_ERROR, failure.message()),
        },
{
    invalidate_config_cache(cache);
    match AdminGateway::read_current(read) {
        Ok(doc) => AdminReply { status: STATUS_OK, body: ReplyBody::Document(doc) },
        Err(error) => error_reply(&error),
    }
}

/// The first step of a write request, from what parsing its body came to.
///
/// A body that is a policy document is to be persisted as it stands. One
/// that is not is answered with a client error that carries the message of
/// the parser, before store or cache come into it.
pub fn save_config(body: Result<Config, String>) -> (step: SaveStep)
    ensures
        match body {
            Ok(doc) => step matches SaveStep::Persist(kept) && kept@ == doc@,
            Err(message) => step matches SaveStep::Respond(reply) && reply.reports_error(
                STATUS_BAD_REQUEST,
                message@,
            ),
        },
{
    match AdminGateway::accept(body) {
        Ok(doc) => SaveStep::Persist(doc),
        Err(error) => SaveStep::Respond(error_reply(&error)),
    }
}

/// The last step of a write request, from what persisting the document
/// came to.
///
/// After a write that went through, the cached document is dropped and the
/// reply reports success. After one that failed, the cache is left
/// untouched and the reply is a server error that carries the message.
pub fn save_config_done(cache: &mut ConfigCache, write: StoreWrite) -> (reply: AdminReply)
    ensures
        final(cache).started() == old(cache).started(),
        final(cache)@ == after_write(old(cache)@, DOC_NAME@, write@),
        match save_outcome(write@) {
            Ok(_) => reply.reports_success(),
            Err(failure) => reply.reports_error(STATUS_INTERNAL_SERVER_ERROR, failure.message()),
        },
{
    match AdminGateway::replace(cache, write) {
        Ok(()) => AdminReply { status: STATUS_OK, body: ReplyBody::Success },
        Err(error) => error_reply(&error),
    }
}

/// The credentials that open the administrative surface.
pub struct AdminAuthValidator {
    username: String,
    password: String,
}

impl AdminAuthValidator {
    /// The user name that is let in.
    pub closed spec fn username(&self) -> Seq<char> {
        self.username@
    }

    /// The password that is let in.
    pub closed spec fn password(&self) -> Seq<char> {
        self.password@
    }

    /// The validator that lets in `username` with `password`.
    pub fn new(username: String, password: String) -> (validator: Self)
        ensures
            validator.username() == username@,
            validator.password() == password@,
    {
        AdminAuthValidator { username, password }
    }

    /// The validator for the credentials that the surroundings supply. Both
    /// have to be set: where either is missing there is no validator, and
    /// nothing is assumed in its place.
    pub fn from_settings(username: Option<String>, password: Option<String>) -> (validator:
        Option<Self>)
        ensures
            match (username, password) {
                (Some(name), Some(secret)) => validator matches Some(set) && set.username()
                    == name@ && set.password() == secret@,
                _ => validator is None,
            },
    {
        match (username, password) {
            (Some(name), Some(secret)) => Some(AdminAuthValidator::new(name, secret)),
            _ => None,
        }
    }

    /// Whether `username` and `password` are the credentials that are let in.
    pub fn validate(&self, username: &str, password: &str) -> (valid: bool)
        ensures
            valid == (username@ == self.username() && password@ == self.password()),
    {
        let name_ok = same_text(username, self.username.as_str());
        let secret_ok = same_text(password, self.password.as_str());
        name_ok && secret_ok
    }
}

} // verus!
