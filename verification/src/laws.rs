//! Properties of the dispatch and translation layer as a whole, proved
//! once for all inputs.

use vstd::prelude::*;
use crate::constant::asc_token;
use crate::error::ErrorModel;
use crate::handler::{
    CallModel, effective_sort, info_failure_prefix, list_failure_prefix, spec_finish,
    spec_finish_info, spec_finish_list,
};
use crate::params::{ParamsModel, ValueModel, text_of};
use crate::request::{info_decode_ok, list_decode_ok, list_decoded};
use crate::router::{ToolEntryModel, ToolId, lemma_find_tool_none, spec_find_tool, spec_route};
use crate::server::{catalog_tools, get_backup_info_name, list_backups_name};

verus! {

/// Routing a name that no registry entry carries fails with `ToolNotFound`
/// and plans no backend call, whatever the parameter object holds — so no
/// handler runs and no backend work is attempted.
pub proof fn lemma_unknown_tool(entries: Seq<ToolEntryModel>, name: Seq<char>, p: ParamsModel)
    requires
        forall|i: int| 0 <= i < entries.len() ==> entries[i].name != name,
    ensures
        spec_route(entries, name, p) == Err::<CallModel, ErrorModel>(
            ErrorModel::ToolNotFound { name },
        ),
{
    lemma_find_tool_none(entries, name);
}

/// In the fixed catalog, the two operation names are found, and nothing
/// else is.
pub proof fn lemma_catalog_lookup(name: Seq<char>)
    ensures
        spec_find_tool(catalog_tools(), get_backup_info_name()) == Some(ToolId::GetBackupInfo),
        spec_find_tool(catalog_tools(), list_backups_name()) == Some(ToolId::ListBackups),
        name != get_backup_info_name() && name != list_backups_name() ==> spec_find_tool(
            catalog_tools(),
            name,
        ) is None,
{
    reveal_strlit("get_backup_info");
    reveal_strlit("list_backups");
    assert(get_backup_info_name().len() == 15);
    assert(list_backups_name().len() == 12);
    assert(catalog_tools().drop_first() =~= seq![
        ToolEntryModel { name: list_backups_name(), tool: ToolId::ListBackups },
    ]);
    assert(catalog_tools().drop_first().drop_first() =~= Seq::<ToolEntryModel>::empty());
    assert(spec_find_tool(catalog_tools().drop_first().drop_first(), name) is None);
    assert(spec_find_tool(catalog_tools().drop_first(), list_backups_name())
        == Some(ToolId::ListBackups));
    if name != get_backup_info_name() && name != list_backups_name() {
        assert(spec_find_tool(catalog_tools().drop_first(), name) is None);
        assert(spec_find_tool(catalog_tools(), name) is None);
    }
}

/// A valid backup-info request reaches the backend with the caller's own
/// field values, and a successful backend response is returned to the
/// caller unchanged.
pub proof fn lemma_info_passthrough(p: ParamsModel, payload: Seq<char>)
    requires
        info_decode_ok(p),
    ensures
        spec_route(catalog_tools(), get_backup_info_name(), p) == Ok::<CallModel, ErrorModel>(
            CallModel::BackupInfo {
                username: text_of(p.username),
                server: text_of(p.server),
                backup_id: text_of(p.backup_id),
            },
        ),
        spec_finish(
            CallModel::BackupInfo {
                username: text_of(p.username),
                server: text_of(p.server),
                backup_id: text_of(p.backup_id),
            },
            Ok(payload),
        ) == Ok::<Seq<char>, ErrorModel>(payload),
{
    lemma_catalog_lookup(get_backup_info_name());
}

/// A valid list-backups request reaches the backend with the caller's own
/// field values and the effective sort token, and a successful backend
/// response is returned to the caller unchanged.
pub proof fn lemma_list_passthrough(p: ParamsModel, payload: Seq<char>)
    requires
        list_decode_ok(p),
    ensures
        spec_route(catalog_tools(), list_backups_name(), p) == Ok::<CallModel, ErrorModel>(
            CallModel::ListBackups {
                username: text_of(p.username),
                server: text_of(p.server),
                sort: effective_sort(list_decoded(p).sort),
            },
        ),
        spec_finish(
            CallModel::ListBackups {
                username: text_of(p.username),
                server: text_of(p.server),
                sort: effective_sort(list_decoded(p).sort),
            },
            Ok(payload),
        ) == Ok::<Seq<char>, ErrorModel>(payload),
{
    lemma_catalog_lookup(list_backups_name());
}

/// A backup-info request without `backup_id` fails with
/// `InvalidParameters`, so no backend call is ever planned for it.
pub proof fn lemma_missing_backup_id(p: ParamsModel)
    requires
        p.backup_id is None,
    ensures
        spec_route(catalog_tools(), get_backup_info_name(), p) matches Err(e)
            && e matches ErrorModel::InvalidParameters { .. },
{
    lemma_catalog_lookup(get_backup_info_name());
}

/// A list-backups request with `sort` omitted reaches the backend with
/// exactly the canonical ascending token.
pub proof fn lemma_sort_default(p: ParamsModel)
    requires
        list_decode_ok(p),
        p.sort is None,
    ensures
        spec_route(catalog_tools(), list_backups_name(), p) == Ok::<CallModel, ErrorModel>(
            CallModel::ListBackups {
                username: text_of(p.username),
                server: text_of(p.server),
                sort: asc_token(),
            },
        ),
{
    lemma_catalog_lookup(list_backups_name());
}

/// A list-backups request with a supplied `sort` token reaches the backend
/// with that token unchanged, whatever it is.
pub proof fn lemma_sort_passthrough(p: ParamsModel, sort: Seq<char>)
    requires
        list_decode_ok(p),
        p.sort == Some(ValueModel::Text(sort)),
    ensures
        spec_route(catalog_tools(), list_backups_name(), p) == Ok::<CallModel, ErrorModel>(
            CallModel::ListBackups {
                username: text_of(p.username),
                server: text_of(p.server),
                sort,
            },
        ),
{
    lemma_catalog_lookup(list_backups_name());
}

/// A failed backup-info lookup reports a message that starts with the
/// fixed prefix `Failed to retrieve backup information: ` and carries the
/// backend's own detail right after it.
pub proof fn lemma_info_failure_message(detail: Seq<char>)
    ensures
        spec_finish_info(Err(detail)) matches Err(e) && e.message().len() == info_failure_prefix()
            .len() + detail.len() && e.message().subrange(
            0,
            info_failure_prefix().len() as int,
        ) == info_failure_prefix() && e.message().skip(info_failure_prefix().len() as int)
            == detail,
{
    let m = info_failure_prefix() + detail;
    assert(m.subrange(0, info_failure_prefix().len() as int) =~= info_failure_prefix());
    assert(m.skip(info_failure_prefix().len() as int) =~= detail);
}

/// A failed backup listing reports a message that starts with the fixed
/// prefix `Failed to list backups: ` and carries the backend's own detail
/// right after it.
pub proof fn lemma_list_failure_message(detail: Seq<char>)
    ensures
        spec_finish_list(Err(detail)) matches Err(e) && e.message().len() == list_failure_prefix()
            .len() + detail.len() && e.message().subrange(
            0,
            list_failure_prefix().len() as int,
        ) == list_failure_prefix() && e.message().skip(list_failure_prefix().len() as int)
            == detail,
{
    let m = list_failure_prefix() + detail;
    assert(m.subrange(0, list_failure_prefix().len() as int) =~= list_failure_prefix());
    assert(m.skip(list_failure_prefix().len() as int) =~= detail);
}

} // verus!
