//! The typed requests of the two operations, and the decoders that produce
//! them from a caller-supplied parameter object.
//!
//! Each request shape is an explicit record with field-level rules: a field
//! is required or optional, and must be a string when present. A decoder
//! either produces a valid record or reports the first violated field, in
//! declaration order, as a schema violation detail.

use vstd::prelude::*;
use crate::params::{ParamValue, ParamsModel, RawParams, ValueModel, text_of};

verus! {

/// The model of an [`InfoRequest`].
pub struct InfoModel {
    pub username: Seq<char>,
    pub server: Seq<char>,
    pub backup_id: Seq<char>,
}

/// A decoded request for the backup-info lookup: all three fields are
/// required strings.
#[derive(Debug)]
pub struct InfoRequest {
    pub username: String,
    pub server: String,
    pub backup_id: String,
}

impl View for InfoRequest {
    type V = InfoModel;

    open spec fn view(&self) -> InfoModel {
        InfoModel { username: self.username@, server: self.server@, backup_id: self.backup_id@ }
    }
}

/// The model of a [`ListBackupsRequest`].
pub struct ListBackupsModel {
    pub username: Seq<char>,
    pub server: Seq<char>,
    pub sort: Option<Seq<char>>,
}

/// A decoded request for the backup listing: `username` and `server` are
/// required strings, `sort` is an optional string.
#[derive(Debug)]
pub struct ListBackupsRequest {
    pub username: String,
    pub server: String,
    pub sort: Option<String>,
}

impl View for ListBackupsRequest {
    type V = ListBackupsModel;

    open spec fn view(&self) -> ListBackupsModel {
        ListBackupsModel {
            username: self.username@,
            server: self.server@,
            sort: match self.sort {
                Some(s) => Some(s@),
                None => None,
            },
        }
    }
}

/// Whether a parameter object satisfies the backup-info schema: `username`,
/// `server` and `backup_id` all present and strings.
pub open spec fn info_decode_ok(p: ParamsModel) -> bool {
    &&& p.username matches Some(ValueModel::Text(_))
    &&& p.server matches Some(ValueModel::Text(_))
    &&& p.backup_id matches Some(ValueModel::Text(_))
}

/// The record that decoding a parameter object under the backup-info schema
/// yields, meaningful when `info_decode_ok` holds.
pub open spec fn info_decoded(p: ParamsModel) -> InfoModel {
    InfoModel {
        username: text_of(p.username),
        server: text_of(p.server),
        backup_id: text_of(p.backup_id),
    }
}

/// The schema violation reported for a parameter object that fails the
/// backup-info schema: the first violated field in declaration order.
pub open spec fn info_decode_detail(p: ParamsModel) -> Seq<char> {
    if p.username is None {
        "missing required parameter: username"@
    } else if !(p.username matches Some(ValueModel::Text(_))) {
        "parameter is not a string: username"@
    } else if p.server is None {
        "missing required parameter: server"@
    } else if !(p.server matches Some(ValueModel::Text(_))) {
        "parameter is not a string: server"@
    } else if p.backup_id is None {
        "missing required parameter: backup_id"@
    } else {
        "parameter is not a string: backup_id"@
    }
}

/// Decodes a parameter object under the backup-info schema: either the
/// typed request, or the detail of the first schema violation.
pub fn decode_info_request(p: &RawParams) -> (r: Result<InfoRequest, String>)
    ensures
        match r {
            Ok(q) => info_decode_ok(p@) && q@ == info_decoded(p@),
            Err(d) => !info_decode_ok(p@) && d@ == info_decode_detail(p@),
        },
{
    let username: String = match &p.username {
        Some(ParamValue::Text(s)) => s.clone(),
        Some(ParamValue::Other) => {
            return Err(String::from_str("parameter is not a string: username"));
        },
        None => {
            return Err(String::from_str("missing required parameter: username"));
        },
    };
    let server: String = match &p.server {
        Some(ParamValue::Text(s)) => s.clone(),
        Some(ParamValue::Other) => {
            return Err(String::from_str("parameter is not a string: server"));
        },
        None => {
            return Err(String::from_str("missing required parameter: server"));
        },
    };
    let backup_id: String = match &p.backup_id {
        Some(ParamValue::Text(s)) => s.clone(),
        Some(ParamValue::Other) => {
            return Err(String::from_str("parameter is not a string: backup_id"));
        },
        None => {
            return Err(String::from_str("missing required parameter: backup_id"));
        },
    };
    Ok(InfoRequest { username, server, backup_id })
}

/// Whether a parameter object satisfies the list-backups schema: `username`
/// and `server` present and strings, `sort` a string when present.
pub open spec fn list_decode_ok(p: ParamsModel) -> bool {
    &&& p.username matches Some(ValueModel::Text(_))
    &&& p.server matches Some(ValueModel::Text(_))
    &&& !(p.sort matches Some(ValueModel::Other))
}

/// The record that decoding a parameter object under the list-backups
/// schema yields, meaningful when `list_decode_ok` holds.
pub open spec fn list_decoded(p: ParamsModel) -> ListBackupsModel {
    ListBackupsModel {
        username: text_of(p.username),
        server: text_of(p.server),
        sort: match p.sort {
            Some(ValueModel::Text(s)) => Some(s),
            _ => None,
        },
    }
}

/// The schema violation reported for a parameter object that fails the
/// list-backups schema: the first violated field in declaration order.
pub open spec fn list_decode_detail(p: ParamsModel) -> Seq<char> {
    if p.username is None {
        "missing required parameter: username"@
    } else if !(p.username matches Some(ValueModel::Text(_))) {
        "parameter is not a string: username"@
    } else if p.server is None {
        "missing required parameter: server"@
    } else if !(p.server matches Some(ValueModel::Text(_))) {
        "parameter is not a string: server"@
    } else {
        "parameter is not a string: sort"@
    }
}

/// Decodes a parameter object under the list-backups schema: either the
/// typed request, or the detail of the first schema violation.
pub fn decode_list_backups_request(p: &RawParams) -> (r: Result<ListBackupsRequest, String>)
    ensures
        match r {
            Ok(q) => list_decode_ok(p@) && q@ == list_decoded(p@),
            Err(d) => !list_decode_ok(p@) && d@ == list_decode_detail(p@),
        },
{
    let username: String = match &p.username {
        Some(ParamValue::Text(s)) => s.clone(),
        Some(ParamValue::Other) => {
            return Err(String::from_str("parameter is not a string: username"));
        },
        None => {
            return Err(String::from_str("missing required parameter: username"));
        },
    };
    let server: String = match &p.server {
        Some(ParamValue::Text(s)) => s.clone(),
        Some(ParamValue::Other) => {
            return Err(String::from_str("parameter is not a string: server"));
        },
        None => {
            return Err(String::from_str("missing required parameter: server"));
        },
    };
    let sort: Option<String> = match &p.sort {
        Some(ParamValue::Text(s)) => Some(s.clone()),
        Some(ParamValue::Other) => {
            return Err(String::from_str("parameter is not a string: sort"));
        },
        None => None,
    };
    Ok(ListBackupsRequest { username, server, sort })
}

} // verus!
