use mcprouter::aggregator::{
    apply_pagination, authorize_item, authorize_listing, check_server_available, filter_by_permissions,
    finish_listing, parse_resource_path, route_item, upstream_error, ItemKind, ListKind, ListMode, PAGE_SIZE,
};
use mcprouter::auth_context::{extract_bearer_token, AuthContext, AuthRejection, PermissionResult, SessionInfo};
use mcprouter::aggregator::prepare_item_request;
use mcprouter::mcp_client::McpClientManager;
use std::sync::Arc;

fn session(expires_at: Option<u64>) -> AuthContext {
    AuthContext::new(Some(Arc::new(SessionInfo {
        id: "s1".to_string(),
        token_id: Some("t1".to_string()),
        created_at: 0,
        expires_at,
        last_used_at: None,
    })))
}

#[test]
fn first_page_of_small_list_has_everything_and_no_cursor() {
    let items: Vec<u32> = (0..10).collect();
    let page = apply_pagination(items, None).unwrap();
    assert_eq!(page.items.len(), 10);
    assert_eq!(page.next_cursor, None);
}

#[test]
fn pages_follow_each_other() {
    let items: Vec<u32> = (0..250).collect();
    let first = apply_pagination(items.clone(), None).unwrap();
    assert_eq!(first.items.len(), PAGE_SIZE);
    assert_eq!(first.next_cursor.as_deref(), Some("100"));
    let second = apply_pagination(items.clone(), first.next_cursor.as_deref()).unwrap();
    assert_eq!(second.items[0], 100);
    assert_eq!(second.next_cursor.as_deref(), Some("200"));
    let third = apply_pagination(items, second.next_cursor.as_deref()).unwrap();
    assert_eq!(third.items.len(), 50);
    assert_eq!(third.items[49], 249);
    assert_eq!(third.next_cursor, None);
}

#[test]
fn cursor_past_the_end_gives_empty_page() {
    let items: Vec<u32> = (0..5).collect();
    let page = apply_pagination(items, Some("50")).unwrap();
    assert!(page.items.is_empty());
    assert_eq!(page.next_cursor, None);
}

#[test]
fn bad_cursor_is_rejected() {
    let items: Vec<u32> = vec![1, 2];
    let err = apply_pagination(items, Some("abc")).unwrap_err();
    assert_eq!(err.code, 400);
    assert_eq!(err.message, "Invalid cursor");
    assert!(apply_pagination(vec![1u8], Some("-1")).is_err());
    assert!(apply_pagination(vec![1u8], Some("+1")).is_ok());
}

#[test]
fn permission_filter_keeps_allowed_names_in_order() {
    let items = vec![1, 2, 3, 4];
    let names = vec!["a__x".to_string(), "b__y".to_string(), "a__z".to_string(), "c__w".to_string()];
    let allowed = vec!["a__z".to_string(), "a__x".to_string()];
    assert_eq!(filter_by_permissions(items, &names, &allowed), vec![1, 3]);
}

#[test]
fn listing_without_permissions_is_empty() {
    let page = finish_listing(vec![1, 2], &vec!["a__b".to_string(), "a__c".to_string()], None, None).unwrap();
    assert!(page.items.is_empty());
    let allowed = vec!["a__c".to_string()];
    let page = finish_listing(vec![1, 2], &vec!["a__b".to_string(), "a__c".to_string()], Some(&allowed), None)
        .unwrap();
    assert_eq!(page.items, vec![2]);
}

#[test]
fn listing_authorization_rules() {
    let none = AuthContext::new(None);
    assert!(matches!(authorize_listing(ListKind::Tools, false, &none, 0), Ok(ListMode::Everything)));
    let e = authorize_listing(ListKind::Tools, true, &none, 0).unwrap_err();
    assert_eq!(e.code, 401);
    assert_eq!(e.message, "Authentication required: no valid session");
    let e = authorize_listing(ListKind::Prompts, true, &none, 0).unwrap_err();
    assert_eq!(e.message, "Authentication required for list_prompts");
    let expired = session(Some(10));
    let e = authorize_listing(ListKind::Tools, true, &expired, 11).unwrap_err();
    assert_eq!(e.code, 403);
    let e = authorize_listing(ListKind::Resources, true, &expired, 11).unwrap_err();
    assert_eq!(e.code, 401);
    assert_eq!(e.message, "Session expired for list_resources");
    assert!(matches!(authorize_listing(ListKind::Tools, true, &expired, 10), Ok(ListMode::FilteredAndPaged)));
}

#[test]
fn item_authorization_rules() {
    let none = AuthContext::new(None);
    assert!(authorize_item(ItemKind::Tool, false, &none, 0, "a__b").is_ok());
    let e = authorize_item(ItemKind::Tool, true, &none, 0, "a__b").unwrap_err();
    assert_eq!(e.message, "Authentication required for call_tool");
    let e = authorize_item(ItemKind::Prompt, true, &session(Some(1)), 2, "a__b").unwrap_err();
    assert_eq!(e.message, "Session expired for get_prompt");
    assert!(authorize_item(ItemKind::Resource, true, &session(None), 99, "a__b").is_ok());
}

#[test]
fn routing_splits_at_first_separator() {
    assert_eq!(parse_resource_path("files__read__x"), Some(("files".to_string(), "read__x".to_string())));
    let (s, n) = route_item(ItemKind::Tool, "srv__tool").unwrap();
    assert_eq!((s.as_str(), n.as_str()), ("srv", "tool"));
    let e = route_item(ItemKind::Tool, "bad").unwrap_err();
    assert_eq!(e.code, 400);
    assert_eq!(e.message, "Invalid tool name format: bad. Expected format: 'server__tool_name'");
    let e = route_item(ItemKind::Resource, "x").unwrap_err();
    assert_eq!(e.message, "Invalid resource URI format: x. Expected format: 'server__resource_uri'");
}

#[test]
fn unavailable_server_is_reported() {
    assert!(check_server_available("s", "connected", None).is_ok());
    let e = check_server_available("s", "failed", Some("boom".to_string())).unwrap_err();
    assert_eq!(e.code, 503);
    assert_eq!(e.message, "Server 's' is not available (status: failed). boom");
    let e = check_server_available("s", "disconnected", None).unwrap_err();
    assert_eq!(
        e.message,
        "Server 's' is not available (status: disconnected). Please check the server configuration and status."
    );
}

#[test]
fn upstream_errors_map_to_codes() {
    assert_eq!(upstream_error(ItemKind::Tool, "Service not found: x").code, 404);
    assert_eq!(upstream_error(ItemKind::Prompt, "Service not connected").code, 503);
    let e = upstream_error(ItemKind::Resource, "other");
    assert_eq!(e.code, 500);
    assert_eq!(e.message, "Failed to read resource: other");
}

#[test]
fn bearer_token_extraction() {
    assert_eq!(extract_bearer_token(Some("Bearer abc")), Ok("abc".to_string()));
    assert_eq!(extract_bearer_token(Some("Basic abc")), Err(AuthRejection::InvalidFormat));
    assert_eq!(extract_bearer_token(None), Err(AuthRejection::MissingHeader));
    assert_eq!(AuthRejection::MissingHeader.status_code(), 401);
}

#[test]
fn permission_answers() {
    assert_eq!(AuthContext::new(None).check_permission_at(5), PermissionResult::NotAuthenticated);
    assert_eq!(session(Some(4)).check_permission_at(5), PermissionResult::SessionExpired);
    assert_eq!(session(Some(5)).check_permission_at(5), PermissionResult::Allowed);
    let ctx = session(None);
    assert_eq!(ctx.session_id(), Some("s1"));
    assert_eq!(ctx.token_id(), Some("t1"));
    assert!(ctx.has_tool_permission("anything"));
}

#[test]
fn item_request_is_prepared_in_order() {
    let mut clients = McpClientManager::new();
    clients.record_connected("up", None, 0);
    clients.record_failure("down", "refused", 0);
    let none = AuthContext::new(None);
    assert_eq!(prepare_item_request(ItemKind::Tool, true, &none, 0, "up__t", &clients).unwrap_err().code, 401);
    let ok = prepare_item_request(ItemKind::Tool, false, &none, 0, "up__t__x", &clients).unwrap();
    assert_eq!(ok, ("up".to_string(), "t__x".to_string()));
    let e = prepare_item_request(ItemKind::Prompt, false, &none, 0, "down__p", &clients).unwrap_err();
    assert_eq!((e.code, e.message.as_str()), (503, "Server 'down' is not available (status: failed). refused"));
    let e = prepare_item_request(ItemKind::Resource, false, &none, 0, "nosep", &clients).unwrap_err();
    assert_eq!(e.code, 400);
}

#[test]
fn client_errors_become_upstream_codes() {
    let mut clients = McpClientManager::new();
    clients.record_failure("down", "x", 0);
    let unknown = clients.usable_connection("ghost").unwrap_err();
    assert_eq!(upstream_error(ItemKind::Tool, &unknown.message()).code, 404);
    let disconnected = clients.usable_connection("down").unwrap_err();
    assert_eq!(upstream_error(ItemKind::Tool, &disconnected.message()).code, 503);
    clients.record_connected("down", None, 1);
    assert!(clients.usable_connection("down").is_ok());
}

#[test]
fn aggregator_statistics_figures() {
    use_statistics();
}

fn use_statistics() {
    let manager: mcprouter::mcp_manager::McpServerManager<mcprouter::notification_callback::NullCallback> =
        mcprouter::mcp_manager::McpServerManager::new();
    let entries = manager.get_tools_cache_entries();
    let ttl = manager.get_tools_cache_ttl_seconds();
    let mut clients = McpClientManager::new();
    clients.record_connected("a", None, 0);
    let records = vec![
        mcprouter::entities::mcp_server::Model { name: "a".to_string(), ..mcprouter::entities::mcp_server::Model::default_at(0) },
        mcprouter::entities::mcp_server::Model { name: "b".to_string(), ..mcprouter::entities::mcp_server::Model::default_at(0) },
    ];
    let infos = mcprouter::mcp_manager::server_infos(records, &clients, &vec![(0, 0, 0, 0), (0, 0, 0, 0)]);
    let stats = mcprouter::aggregator::aggregator_statistics(&entries, ttl, &infos, Some(1_700_000_000));
    assert_eq!(stats.status, "running");
    assert_eq!(stats.message, "Aggregator initialized");
    assert_eq!(stats.total_servers, 2);
    assert_eq!(stats.connected_servers, 1);
    assert!(stats.cache_enabled);
    assert_eq!(stats.cache_entries, 2);
    assert_eq!(stats.ttl_seconds, 300);
    assert_eq!(stats.tools_total, 48);
    assert_eq!(stats.last_updated, Some("1700000000".to_string()));
    let early = mcprouter::aggregator::aggregator_statistics(&entries, ttl, &infos, None);
    assert_eq!(early.last_updated, None);
}

#[test]
fn admitting_requests() {
    let r = mcprouter::auth_context::admit_request(Err("bad token".to_string()), Some(None), 10);
    assert_eq!(r.unwrap_err(), AuthRejection::InvalidToken);
    assert_eq!(AuthRejection::InvalidToken.status_code(), 401);
    let r = mcprouter::auth_context::admit_request(Ok("tok-1".to_string()), Some(Some(99)), 10).unwrap().unwrap();
    assert_eq!(r.id, "tok-1");
    assert_eq!(r.token_id, Some("tok-1".to_string()));
    assert_eq!((r.created_at, r.last_used_at, r.expires_at), (10, Some(10), Some(99)));
    let r = mcprouter::auth_context::admit_request(Ok("tok-2".to_string()), None, 10).unwrap();
    assert!(r.is_none());
}

fn stored_tool(name: &str, description: Option<&str>) -> mcprouter::entities::mcp_tool::Model {
    mcprouter::entities::mcp_tool::Model {
        name: name.to_string(),
        description: description.map(|d| d.to_string()),
        input_schema: Some("{\"type\":\"object\"}".to_string()),
        ..mcprouter::entities::mcp_tool::Model::default_at(0)
    }
}

#[test]
fn aggregated_listings_name_items_by_server() {
    let servers = vec![
        ("fs".to_string(), vec![stored_tool("read", Some("Reads")), stored_tool("write", None)]),
        ("web".to_string(), vec![]),
        ("git".to_string(), vec![stored_tool("log", None)]),
    ];
    let tools = mcprouter::aggregator::aggregated_tools(&servers);
    let names: Vec<&str> = tools.iter().map(|t| t.name.as_str()).collect();
    assert_eq!(names, vec!["fs__read", "fs__write", "git__log"]);
    assert_eq!(tools[0].description, "Reads");
    assert_eq!(tools[1].description, "");
    assert_eq!(tools[2].input_schema, "{\"type\":\"object\"}");
    let (server, tool) = route_item(ItemKind::Tool, &tools[1].name).unwrap();
    assert_eq!((server.as_str(), tool.as_str()), ("fs", "write"));

    let resource = mcprouter::entities::mcp_resource::Model {
        uri: "file:///a.txt".to_string(),
        name: None,
        description: Some("A".to_string()),
        mime_type: Some("text/plain".to_string()),
        ..mcprouter::entities::mcp_resource::Model::default_at(0)
    };
    let resources = mcprouter::aggregator::aggregated_resources(&vec![("fs".to_string(), vec![resource])]);
    assert_eq!(resources[0].uri, "fs__file:///a.txt");
    assert_eq!(resources[0].name, "");
    assert_eq!(resources[0].description, "A");
    assert_eq!(resources[0].mime_type.as_deref(), Some("text/plain"));

    let prompt = mcprouter::entities::mcp_prompt::Model {
        name: "summary".to_string(),
        description: Some("Sums up".to_string()),
        ..mcprouter::entities::mcp_prompt::Model::default_at(0)
    };
    let prompts = mcprouter::aggregator::aggregated_prompts(&vec![("docs".to_string(), vec![prompt])]);
    assert_eq!(prompts[0].name, "docs__summary");
    assert_eq!(prompts[0].description.as_deref(), Some("Sums up"));
}

#[test]
fn permission_patterns_filter_items() {
    let names = vec!["fs__read".to_string(), "fs__write".to_string(), "git__log".to_string(), "fs__data/a.txt".to_string()];
    let items = vec![1, 2, 3, 4];
    let keep = |allowed: &[&str]| {
        let allowed: Vec<String> = allowed.iter().map(|s| s.to_string()).collect();
        filter_by_permissions(items.clone(), &names, &allowed)
    };
    assert_eq!(keep(&["*"]), vec![1, 2, 3, 4]);
    assert_eq!(keep(&["fs/*"]), vec![1, 2, 4]);
    assert_eq!(keep(&["fs/read"]), vec![1]);
    assert_eq!(keep(&["git__log"]), vec![3]);
    assert_eq!(keep(&["fs/data/*"]), vec![4]);
    assert_eq!(keep(&["fs/rea"]), Vec::<i32>::new());
    assert_eq!(keep(&[]), Vec::<i32>::new());
    assert!(mcprouter::aggregator::pattern_allows_name("server/*", "server__list_tools"));
    assert!(!mcprouter::aggregator::pattern_allows_name("server/*", "serverx__list_tools"));
}

#[test]
fn listed_schemas_are_normalized() {
    let default: serde_json::Value = serde_json::from_str("{\"type\":\"object\",\"properties\":{}}").unwrap();
    assert_eq!(mcprouter::aggregator::create_default_schema(), default);
    let read = |t: &str| -> serde_json::Value { serde_json::from_str(t).unwrap() };
    let listed = |stored: Option<&str>| read(&mcprouter::aggregator::listed_schema_text(&stored.map(|s| s.to_string())));
    assert_eq!(listed(None), default);
    assert_eq!(listed(Some("not json")), default);
    assert_eq!(listed(Some("[1, 2]")), default);
    assert_eq!(listed(Some("\"object\"")), default);
    assert_eq!(
        listed(Some("{\"properties\":{\"path\":{\"type\":\"string\"}}}")),
        read("{\"type\":\"object\",\"properties\":{\"path\":{\"type\":\"string\"}}}")
    );
    assert_eq!(listed(Some("{\"type\":\"array\"}")), read("{\"type\":\"array\"}"));

    let mut bare = stored_tool("t", None);
    bare.input_schema = None;
    let tools = mcprouter::aggregator::aggregated_tools(&vec![("s".to_string(), vec![bare])]);
    assert_eq!(read(&tools[0].input_schema), default);
}
