//! The request handlers of the two operations.
//!
//! Each handler is a stateless single-shot operation, split around the one
//! suspension point, the backend's network call, which the embedding server
//! performs. A `plan_*` function validates and normalizes a typed request
//! into the exact backend call to make; a `finish_*` function takes the
//! backend's outcome and either passes the payload through unchanged or
//! wraps the failure detail behind a fixed, operation-identifying prefix.

use vstd::prelude::*;
use crate::constant::{Sort, asc_token};
use crate::error::{ErrorModel, ToolError};
use crate::request::{InfoModel, InfoRequest, ListBackupsModel, ListBackupsRequest};

verus! {

/// The model of a [`BackendCall`].
pub enum CallModel {
    BackupInfo { username: Seq<char>, server: Seq<char>, backup_id: Seq<char> },
    ListBackups { username: Seq<char>, server: Seq<char>, sort: Seq<char> },
}

/// The exact backend operation to perform, with the arguments to hand to
/// the backend client. Producing this value is the whole decision of this
/// layer; the embedding server executes it.
#[derive(Debug)]
pub enum BackendCall {
    BackupInfo { username: String, server: String, backup_id: String },
    ListBackups { username: String, server: String, sort: String },
}

impl View for BackendCall {
    type V = CallModel;

    open spec fn view(&self) -> CallModel {
        match self {
            BackendCall::BackupInfo { username, server, backup_id } => CallModel::BackupInfo {
                username: username@,
                server: server@,
                backup_id: backup_id@,
            },
            BackendCall::ListBackups { username, server, sort } => CallModel::ListBackups {
                username: username@,
                server: server@,
                sort: sort@,
            },
        }
    }
}

/// The sort token actually handed to the backend: the caller's token where
/// one was supplied, otherwise the canonical ascending token. A supplied
/// token is passed through without validation against the two canonical
/// values; the backend is trusted to interpret or reject it.
pub open spec fn effective_sort(sort: Option<Seq<char>>) -> Seq<char> {
    match sort {
        Some(s) => s,
        None => asc_token(),
    }
}

/// The backend call that a backup-info request plans.
pub open spec fn info_call(q: InfoModel) -> CallModel {
    CallModel::BackupInfo { username: q.username, server: q.server, backup_id: q.backup_id }
}

/// The backend call that a list-backups request plans.
pub open spec fn list_call(q: ListBackupsModel) -> CallModel {
    CallModel::ListBackups {
        username: q.username,
        server: q.server,
        sort: effective_sort(q.sort),
    }
}

/// Plans the backend call of a backup-info lookup: the three request fields
/// are handed to the backend unchanged.
pub fn plan_get_backup_info(q: InfoRequest) -> (c: BackendCall)
    ensures
        c@ == info_call(q@),
{
    BackendCall::BackupInfo { username: q.username, server: q.server, backup_id: q.backup_id }
}

/// Plans the backend call of a backup listing: `username` and `server` are
/// handed through unchanged, and an absent `sort` is replaced by the
/// canonical ascending token before the backend is called.
pub fn plan_list_backups(q: ListBackupsRequest) -> (c: BackendCall)
    ensures
        c@ == list_call(q@),
{
    let sort: String = match q.sort {
        Some(s) => s,
        None => Sort::Asc.token(),
    };
    BackendCall::ListBackups { username: q.username, server: q.server, sort }
}

/// The fixed prefix that identifies a failed backup-info lookup.
pub open spec fn info_failure_prefix() -> Seq<char> {
    "Failed to retrieve backup information: "@
}

/// The fixed prefix that identifies a failed backup listing.
pub open spec fn list_failure_prefix() -> Seq<char> {
    "Failed to list backups: "@
}

/// What finishing a backup-info lookup yields from a backend outcome: the
/// payload untouched, or the failure detail behind the fixed prefix.
pub open spec fn spec_finish_info(outcome: Result<Seq<char>, Seq<char>>) -> Result<
    Seq<char>,
    ErrorModel,
> {
    match outcome {
        Ok(payload) => Ok(payload),
        Err(detail) => Err(
            ErrorModel::BackendFailure { message: info_failure_prefix() + detail },
        ),
    }
}

/// What finishing a backup listing yields from a backend outcome.
pub open spec fn spec_finish_list(outcome: Result<Seq<char>, Seq<char>>) -> Result<
    Seq<char>,
    ErrorModel,
> {
    match outcome {
        Ok(payload) => Ok(payload),
        Err(detail) => Err(
            ErrorModel::BackendFailure { message: list_failure_prefix() + detail },
        ),
    }
}

/// Finishes a backup-info lookup: a successful payload is returned to the
/// caller byte for byte unchanged; a failure detail is wrapped behind the
/// fixed prefix `Failed to retrieve backup information: `.
pub fn finish_get_backup_info(outcome: Result<String, String>) -> (r: Result<String, ToolError>)
    ensures
        match r {
            Ok(payload) => spec_finish_info(outcome_model(outcome)) == Ok::<_, ErrorModel>(
                payload@,
            ),
            Err(e) => spec_finish_info(outcome_model(outcome)) == Err::<Seq<char>, _>(e@),
        },
{
    match outcome {
        Ok(payload) => Ok(payload),
        Err(detail) => Err(
            ToolError::BackendFailure(
                String::from_str("Failed to retrieve backup information: ").concat(
                    detail.as_str(),
                ),
            ),
        ),
    }
}

/// Finishes a backup listing: a successful payload is returned to the
/// caller byte for byte unchanged; a failure detail is wrapped behind the
/// fixed prefix `Failed to list backups: `.
pub fn finish_list_backups(outcome: Result<String, String>) -> (r: Result<String, ToolError>)
    ensures
        match r {
            Ok(payload) => spec_finish_list(outcome_model(outcome)) == Ok::<_, ErrorModel>(
                payload@,
            ),
            Err(e) => spec_finish_list(outcome_model(outcome)) == Err::<Seq<char>, _>(e@),
        },
{
    match outcome {
        Ok(payload) => Ok(payload),
        Err(detail) => Err(
            ToolError::BackendFailure(
                String::from_str("Failed to list backups: ").concat(detail.as_str()),
            ),
        ),
    }
}

/// The model of a backend outcome: the payload's characters on success, the
/// failure detail's characters otherwise.
pub open spec fn outcome_model(outcome: Result<String, String>) -> Result<Seq<char>, Seq<char>> {
    match outcome {
        Ok(payload) => Ok(payload@),
        Err(detail) => Err(detail@),
    }
}

/// What finishing any backend call yields: the operation of the call picks
/// the fixed failure prefix.
pub open spec fn spec_finish(call: CallModel, outcome: Result<Seq<char>, Seq<char>>) -> Result<
    Seq<char>,
    ErrorModel,
> {
    match call {
        CallModel::BackupInfo { .. } => spec_finish_info(outcome),
        CallModel::ListBackups { .. } => spec_finish_list(outcome),
    }
}

/// Finishes whichever backend call was planned, translating its outcome
/// under the matching operation's fixed failure prefix.
pub fn finish_call(call: &BackendCall, outcome: Result<String, String>) -> (r: Result<
    String,
    ToolError,
>)
    ensures
        match r {
            Ok(payload) => spec_finish(call@, outcome_model(outcome)) == Ok::<_, ErrorModel>(
                payload@,
            ),
            Err(e) => spec_finish(call@, outcome_model(outcome)) == Err::<Seq<char>, _>(e@),
        },
{
    match call {
        BackendCall::BackupInfo { .. } => finish_get_backup_info(outcome),
        BackendCall::ListBackups { .. } => finish_list_backups(outcome),
    }
}

} // verus!
