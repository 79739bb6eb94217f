use mcprouter::app_info::{app_info, get_user_agent, get_user_agent_static};
use mcprouter::commands::{
    batch_update_message, create_request_config, import_entry_config, import_format_error, import_result,
    request_transport, server_removed_message, single_update_message, update_request_config,
    batch_permission_plan, ImportEntry, McpServerCreateRequest, McpServerUpdateRequest, PermissionAction,
};
use mcprouter::db::ApiKeyToolRepository;
use mcprouter::session_manager::{is_session_valid_at, SessionInfo, SessionManagerSqlite};
use mcprouter::types::{ServiceTransport, Token};

#[test]
fn request_transport_is_exact() {
    assert_eq!(request_transport("stdio").unwrap(), ServiceTransport::Stdio);
    assert_eq!(request_transport("http").unwrap(), ServiceTransport::Http);
    assert_eq!(request_transport("HTTP").unwrap_err().message(), "Invalid input: Invalid transport type: HTTP");
}

#[test]
fn create_and_update_requests() {
    let c = create_request_config(McpServerCreateRequest {
        name: "n".to_string(),
        command: Some("uvx".to_string()),
        args: None,
        transport: "stdio".to_string(),
        url: None,
        description: None,
        env: Some(vec![("A".to_string(), "1".to_string()), ("A".to_string(), "2".to_string())]),
        headers: None,
    })
    .unwrap();
    assert!(c.enabled);
    assert_eq!(c.env.as_ref().unwrap().get("A").map(|s| s.as_str()), Some("2"));
    let u = update_request_config(McpServerUpdateRequest {
        name: "n".to_string(),
        command: None,
        args: None,
        transport: "http".to_string(),
        url: Some("http://x".to_string()),
        description: None,
        env: None,
        headers: Some(vec![("H".to_string(), "v".to_string())]),
        enabled: false,
    })
    .unwrap();
    assert!(!u.enabled);
    assert_eq!(u.transport, ServiceTransport::Http);
    assert_eq!(server_removed_message("n"), "MCP server 'n' removed successfully");
}

fn import(has_url: bool, has_command: bool, t: Option<&str>) -> ImportEntry {
    ImportEntry {
        name: "svc".to_string(),
        has_url,
        has_command,
        type_field: t.map(|s| s.to_string()),
        command: None,
        args: None,
        url: None,
        description: None,
        env: None,
        headers: None,
    }
}

#[test]
fn import_transport_priorities() {
    assert_eq!(import_entry_config(import(true, true, Some("stdio"))).transport, ServiceTransport::Http);
    assert_eq!(import_entry_config(import(false, true, Some("http"))).transport, ServiceTransport::Stdio);
    assert_eq!(import_entry_config(import(false, false, Some("SSE"))).transport, ServiceTransport::Http);
    assert_eq!(import_entry_config(import(false, false, Some("grpc"))).transport, ServiceTransport::Stdio);
    assert_eq!(import_entry_config(import(false, false, None)).transport, ServiceTransport::Stdio);
}

#[test]
fn import_messages() {
    assert_eq!(
        import_result(&vec!["a".to_string(), "b".to_string()]).unwrap(),
        "Successfully imported 2 MCP server(s): a, b"
    );
    assert_eq!(
        import_result(&vec![]).unwrap_err().message(),
        "Invalid configuration: No valid services found in configuration"
    );
    assert_eq!(
        import_format_error().message(),
        "Invalid configuration: Invalid configuration format. Expected 'mcpServers' object."
    );
}

#[test]
fn batch_permission_checks() {
    let ok = vec!["a__b".to_string(), "c__d".to_string()];
    let plan = batch_permission_plan("t", &ok);
    assert_eq!(plan.apply_count, 2);
    assert!(plan.outcome.is_ok());
    let plan = batch_permission_plan("", &ok);
    assert_eq!(plan.apply_count, 0);
    assert_eq!(plan.outcome.unwrap_err().message(), "Validation error: Token ID is required");
    let plan = batch_permission_plan("t", &vec![]);
    assert_eq!(plan.apply_count, 0);
    assert_eq!(plan.outcome.unwrap_err().message(), "Validation error: Permissions list cannot be empty");
    let bad = vec!["a__b".to_string(), "nope".to_string(), "x".to_string()];
    let plan = batch_permission_plan("t", &bad);
    assert_eq!(plan.apply_count, 1);
    assert_eq!(
        plan.outcome.unwrap_err().message(),
        "Validation error: Invalid permission path format: nope. Expected format: servername__resourcename"
    );
    assert_eq!(batch_update_message(PermissionAction::Add, 3), "Successfully added 3 permissions");
    assert_eq!(single_update_message(PermissionAction::Remove), "Successfully remove permission");
}

#[test]
fn user_agent_and_app_info() {
    assert_eq!(get_user_agent("1.2.3"), "mcprouter/1.2.3");
    assert_eq!(get_user_agent_static(), "mcprouter/0.1.0");
    let info = app_info("MCP Router".to_string(), "0.1.0".to_string(), "d".to_string());
    assert!(info.authors.is_empty());
    assert_eq!(info.description.as_deref(), Some("d"));
}

#[test]
fn revoke_statement_has_one_placeholder_per_tool() {
    assert_eq!(
        ApiKeyToolRepository::revoke_statement(3),
        "DELETE FROM api_key_tool_relations WHERE api_key_id = ? AND tool_id IN (?, ?, ?)"
    );
}

fn token(expires_at: Option<u64>) -> Token {
    Token {
        id: "t".to_string(),
        name: String::new(),
        value: String::new(),
        description: None,
        created_at: 0,
        expires_at,
        last_used_at: None,
        usage_count: 0,
        enabled: true,
        allowed_tools: None,
        allowed_resources: None,
        allowed_prompts: None,
        allowed_prompt_templates: None,
    }
}

#[test]
fn session_expiry_and_idleness() {
    let m = SessionManagerSqlite::new();
    assert_eq!((m.cleanup_interval(), m.default_idle_timeout()), (300, 3600));
    assert_eq!(m.idle_timeout_for_cleanup(None), 3600);
    assert_eq!(SessionManagerSqlite::new_with_config(1, 2).idle_timeout_for_cleanup(Some(9)), 9);
    let mut s = SessionInfo::new_at("s".to_string(), token(Some(10)), None, 1_000);
    assert!(!s.is_expired_at(10_999));
    assert!(s.is_expired_at(11_000));
    assert!(!s.is_idle_longer_than_at(1, 2_000));
    assert!(s.is_idle_longer_than_at(1, 2_001));
    s.update_access_at(5_000);
    assert!(!s.is_idle_longer_than_at(1, 5_500));
    s.update_access_at(4_000);
    assert_eq!(s.last_accessed, 5_000);
    s.update_access();
    assert!(s.last_accessed >= 5_000);
    let own = SessionInfo::new_at("s".to_string(), token(None), Some(100), 0);
    assert!(own.is_expired_at(101));
    assert!(!SessionInfo::new(token(None), None).is_expired());
    assert!(is_session_valid_at(true, None, 5));
    assert!(!is_session_valid_at(true, Some(4), 5));
    assert!(!is_session_valid_at(false, None, 5));
}

#[test]
fn new_sessions_get_hyphenated_uuids() {
    let a = SessionInfo::new(token(None), None);
    let b = SessionInfo::new(token(None), None);
    assert_eq!(a.id.len(), 36);
    assert_eq!(a.id.matches('-').count(), 4);
    assert_ne!(a.id, b.id);
}

#[test]
fn servers_reached_by_a_keys_tools() {
    let mut tool_servers: mcprouter::keyed::KeyedList<String> = mcprouter::keyed::KeyedList::new();
    tool_servers.insert("t1".to_string(), "s1".to_string());
    tool_servers.insert("t2".to_string(), "s1".to_string());
    tool_servers.insert("t3".to_string(), "s2".to_string());
    tool_servers.insert("t4".to_string(), "s9".to_string());
    let mut server_names: mcprouter::keyed::KeyedList<String> = mcprouter::keyed::KeyedList::new();
    server_names.insert("s1".to_string(), "alpha".to_string());
    server_names.insert("s2".to_string(), "beta".to_string());
    let tools = vec!["t3".to_string(), "t1".to_string(), "t2".to_string(), "t4".to_string(), "t5".to_string()];
    let servers = mcprouter::commands::allowed_servers_from_tools(&tools, &tool_servers, &server_names);
    assert_eq!(servers, vec!["beta".to_string(), "alpha".to_string()]);
    let none = mcprouter::commands::allowed_servers_from_tools(&vec![], &tool_servers, &server_names);
    assert!(none.is_empty());
}

#[test]
fn import_entries_read_server_objects() {
    let v: serde_json::Value = serde_json::from_str(
        "{\"mcpServers\":{\"a\":{\"command\":\"npx\",\"args\":[\"-y\",1,\"pkg\"],\"env\":{\"K\":\"v\",\"N\":2}},\
         \"b\":3,\"c\":{\"url\":\"http://x\",\"type\":\"http\",\"headers\":{\"H\":\"1\"}}}}",
    )
    .unwrap();
    let entries = mcprouter::commands::import_entries(&v).unwrap();
    assert_eq!(entries.len(), 2);
    let a = entries.iter().find(|e| e.name == "a").unwrap();
    assert!(a.has_command && !a.has_url);
    assert_eq!(a.command.as_deref(), Some("npx"));
    assert_eq!(a.args, Some(vec!["-y".to_string(), "pkg".to_string()]));
    assert_eq!(a.env, Some(vec![("K".to_string(), "v".to_string())]));
    let c = entries.iter().find(|e| e.name == "c").unwrap();
    assert!(c.has_url && !c.has_command);
    assert_eq!(c.type_field.as_deref(), Some("http"));
    assert_eq!(c.headers, Some(vec![("H".to_string(), "1".to_string())]));
    let none: serde_json::Value = serde_json::from_str("{\"servers\":{}}").unwrap();
    assert!(mcprouter::commands::import_entries(&none).is_none());
    let not_object: serde_json::Value = serde_json::from_str("{\"mcpServers\":[]}").unwrap();
    assert!(mcprouter::commands::import_entries(&not_object).is_none());
}
