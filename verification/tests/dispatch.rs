use pgmoneta_mcp::handler::{finish_call, finish_get_backup_info, finish_list_backups};
use pgmoneta_mcp::request::{decode_info_request, decode_list_backups_request};
use pgmoneta_mcp::router::{ToolId, ToolRouter};
use pgmoneta_mcp::{BackendCall, Info, ParamValue, RawParams, Sort, ToolError};

fn text(s: &str) -> Option<ParamValue> {
    Some(ParamValue::Text(String::from(s)))
}

fn valid_info_params() -> RawParams {
    RawParams {
        username: text("alice"),
        server: text("primary"),
        backup_id: text("20251012"),
        sort: None,
    }
}

fn list_params(sort: Option<ParamValue>) -> RawParams {
    RawParams { username: text("alice"), server: text("primary"), backup_id: None, sort }
}

#[test]
fn info_success_payload_is_unchanged() {
    let info = Info::new();
    let call = info
        .route(&String::from("get_backup_info"), &valid_info_params())
        .expect("valid request must route");
    match &call {
        BackendCall::BackupInfo { username, server, backup_id } => {
            assert_eq!(username, "alice");
            assert_eq!(server, "primary");
            assert_eq!(backup_id, "20251012");
        }
        other => panic!("wrong backend call planned: {:?}", other),
    }
    let payload = String::from("{\"backup\":\"20251012\",\"size\":123}");
    let out = finish_call(&call, Ok(payload.clone()));
    assert_eq!(out.unwrap(), payload);
}

#[test]
fn list_success_payload_is_unchanged() {
    let info = Info::new();
    let call = info
        .route(&String::from("list_backups"), &list_params(None))
        .expect("valid request must route");
    let payload = String::from("[\"a\",\"b\"]");
    let out = finish_call(&call, Ok(payload.clone()));
    assert_eq!(out.unwrap(), payload);
}

#[test]
fn missing_backup_id_is_invalid_parameters() {
    let info = Info::new();
    let params = RawParams {
        username: text("alice"),
        server: text("primary"),
        backup_id: None,
        sort: None,
    };
    let err = info.route(&String::from("get_backup_info"), &params).unwrap_err();
    match &err {
        ToolError::InvalidParameters(detail) => {
            assert_eq!(detail, "missing required parameter: backup_id");
        }
        other => panic!("expected InvalidParameters, got {:?}", other),
    }
    assert!(err.message().contains("backup_id"));
}

#[test]
fn non_string_backup_id_is_invalid_parameters() {
    let info = Info::new();
    let params = RawParams {
        username: text("alice"),
        server: text("primary"),
        backup_id: Some(ParamValue::Other),
        sort: None,
    };
    let err = info.route(&String::from("get_backup_info"), &params).unwrap_err();
    match err {
        ToolError::InvalidParameters(detail) => {
            assert_eq!(detail, "parameter is not a string: backup_id");
        }
        other => panic!("expected InvalidParameters, got {:?}", other),
    }
}

#[test]
fn missing_username_is_reported_first() {
    let info = Info::new();
    let params =
        RawParams { username: None, server: None, backup_id: None, sort: None };
    let err = info.route(&String::from("get_backup_info"), &params).unwrap_err();
    match err {
        ToolError::InvalidParameters(detail) => {
            assert_eq!(detail, "missing required parameter: username");
        }
        other => panic!("expected InvalidParameters, got {:?}", other),
    }
}

#[test]
fn omitted_sort_becomes_canonical_ascending() {
    let info = Info::new();
    let call = info
        .route(&String::from("list_backups"), &list_params(None))
        .expect("valid request must route");
    match call {
        BackendCall::ListBackups { username, server, sort } => {
            assert_eq!(username, "alice");
            assert_eq!(server, "primary");
            assert_eq!(sort, "ASC");
        }
        other => panic!("wrong backend call planned: {:?}", other),
    }
}

#[test]
fn supplied_desc_sort_passes_through_unchanged() {
    let info = Info::new();
    let call = info
        .route(&String::from("list_backups"), &list_params(text("DESC")))
        .expect("valid request must route");
    match call {
        BackendCall::ListBackups { sort, .. } => assert_eq!(sort, "DESC"),
        other => panic!("wrong backend call planned: {:?}", other),
    }
}

#[test]
fn unrecognized_sort_token_passes_through_unchanged() {
    let info = Info::new();
    let call = info
        .route(&String::from("list_backups"), &list_params(text("sideways")))
        .expect("valid request must route");
    match call {
        BackendCall::ListBackups { sort, .. } => assert_eq!(sort, "sideways"),
        other => panic!("wrong backend call planned: {:?}", other),
    }
}

#[test]
fn non_string_sort_is_invalid_parameters() {
    let info = Info::new();
    let err = info
        .route(&String::from("list_backups"), &list_params(Some(ParamValue::Other)))
        .unwrap_err();
    match err {
        ToolError::InvalidParameters(detail) => {
            assert_eq!(detail, "parameter is not a string: sort");
        }
        other => panic!("expected InvalidParameters, got {:?}", other),
    }
}

#[test]
fn info_backend_failure_message_names_operation_and_cause() {
    let out = finish_get_backup_info(Err(String::from("connection refused")));
    let err = out.unwrap_err();
    let message = err.message();
    assert!(message.contains("Failed to retrieve backup information"));
    assert!(message.contains("connection refused"));
    assert_eq!(message, "Failed to retrieve backup information: connection refused");
}

#[test]
fn list_backend_failure_message_names_operation_and_cause() {
    let out = finish_list_backups(Err(String::from("timeout after 30s")));
    let err = out.unwrap_err();
    let message = err.message();
    assert!(message.contains("Failed to list backups"));
    assert!(message.contains("timeout after 30s"));
    assert_eq!(message, "Failed to list backups: timeout after 30s");
}

#[test]
fn unknown_tool_name_is_tool_not_found() {
    let info = Info::new();
    let err = info.route(&String::from("delete_backup"), &valid_info_params()).unwrap_err();
    match err {
        ToolError::ToolNotFound(name) => assert_eq!(name, "delete_backup"),
        other => panic!("expected ToolNotFound, got {:?}", other),
    }
}

#[test]
fn unknown_tool_message_names_the_tool() {
    let info = Info::new();
    let err = info.route(&String::from("nope"), &valid_info_params()).unwrap_err();
    assert_eq!(err.message(), "Tool not found: nope");
}

#[test]
fn no_prompt_is_registered() {
    let info = Info::new();
    let err = info.route_prompt(&String::from("get_backup_info")).unwrap_err();
    assert!(matches!(err, ToolError::ToolNotFound(_)));
}

#[test]
fn has_tool_knows_the_catalog() {
    let info = Info::new();
    assert!(info.has_tool(&String::from("get_backup_info")));
    assert!(info.has_tool(&String::from("list_backups")));
    assert!(!info.has_tool(&String::from("get_backup_inf")));
    assert!(!info.has_tool(&String::from("")));
}

#[test]
fn sort_tokens_are_canonical() {
    assert_eq!(Sort::Asc.token(), "ASC");
    assert_eq!(Sort::Desc.token(), "DESC");
}

#[test]
fn decode_info_request_keeps_field_values() {
    let req = decode_info_request(&valid_info_params()).unwrap();
    assert_eq!(req.username, "alice");
    assert_eq!(req.server, "primary");
    assert_eq!(req.backup_id, "20251012");
}

#[test]
fn decode_list_request_keeps_optional_sort() {
    let with_sort = decode_list_backups_request(&list_params(text("DESC"))).unwrap();
    assert_eq!(with_sort.sort.as_deref(), Some("DESC"));
    let without_sort = decode_list_backups_request(&list_params(None)).unwrap();
    assert!(without_sort.sort.is_none());
}

#[test]
fn invalid_parameters_message_carries_detail() {
    let err = ToolError::InvalidParameters(String::from("missing required parameter: server"));
    assert_eq!(err.message(), "Invalid parameters: missing required parameter: server");
}

#[test]
fn empty_strings_pass_through_like_any_other() {
    let info = Info::new();
    let params = RawParams {
        username: text(""),
        server: text(""),
        backup_id: text(""),
        sort: None,
    };
    let call = info.route(&String::from("get_backup_info"), &params).unwrap();
    match call {
        BackendCall::BackupInfo { username, server, backup_id } => {
            assert_eq!(username, "");
            assert_eq!(server, "");
            assert_eq!(backup_id, "");
        }
        other => panic!("wrong backend call planned: {:?}", other),
    }
}

#[test]
fn registry_finds_what_was_registered() {
    let mut r = ToolRouter::new();
    r.register(String::from("a"), ToolId::GetBackupInfo);
    r.register(String::from("b"), ToolId::ListBackups);
    assert!(matches!(r.find(&String::from("a")), Some(ToolId::GetBackupInfo)));
    assert!(matches!(r.find(&String::from("b")), Some(ToolId::ListBackups)));
    assert!(r.find(&String::from("c")).is_none());
    assert!(r.find(&String::from("")).is_none());
}
