//! The caller-supplied parameter object, as this layer reads it.
//!
//! A tool call arrives with a parameter object. The routing layer reads at
//! most four fields of it — `username`, `server`, `backup_id` and `sort` —
//! and for each one only whether it is present and whether it is a string.
//! [`RawParams`] records exactly that, as plain values; the embedding server
//! converts its protocol's parameter representation into this type before
//! dispatch.

use vstd::prelude::*;

verus! {

/// The model of one field of the parameter object: a string with its
/// characters, or a present value of some other type.
pub enum ValueModel {
    Text(Seq<char>),
    Other,
}

/// One field of the parameter object: a string value, or a present value of
/// some other type (a number, an object, ...), which every schema of this
/// layer rejects.
#[derive(Debug)]
pub enum ParamValue {
    Text(String),
    Other,
}

impl View for ParamValue {
    type V = ValueModel;

    open spec fn view(&self) -> ValueModel {
        match self {
            ParamValue::Text(s) => ValueModel::Text(s@),
            ParamValue::Other => ValueModel::Other,
        }
    }
}

/// The model of a [`RawParams`] value.
pub struct ParamsModel {
    pub username: Option<ValueModel>,
    pub server: Option<ValueModel>,
    pub backup_id: Option<ValueModel>,
    pub sort: Option<ValueModel>,
}

/// The fields of the caller's parameter object that this layer reads.
/// `None` means the field is absent from the object.
#[derive(Debug)]
pub struct RawParams {
    pub username: Option<ParamValue>,
    pub server: Option<ParamValue>,
    pub backup_id: Option<ParamValue>,
    pub sort: Option<ParamValue>,
}

impl View for RawParams {
    type V = ParamsModel;

    open spec fn view(&self) -> ParamsModel {
        ParamsModel {
            username: match self.username {
                Some(v) => Some(v@),
                None => None,
            },
            server: match self.server {
                Some(v) => Some(v@),
                None => None,
            },
            backup_id: match self.backup_id {
                Some(v) => Some(v@),
                None => None,
            },
            sort: match self.sort {
                Some(v) => Some(v@),
                None => None,
            },
        }
    }
}

/// The characters of a field known to hold a string; the empty sequence
/// where it does not.
pub open spec fn text_of(v: Option<ValueModel>) -> Seq<char> {
    match v {
        Some(ValueModel::Text(s)) => s,
        _ => Seq::empty(),
    }
}

} // verus!
