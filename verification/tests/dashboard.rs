use mcprouter::dashboard::{
    aggregator_endpoint, aggregator_status, count_services, local_ip_addresses, AggregatorStatus, InterfaceAddress,
    ServiceSummary,
};
use mcprouter::mcp_manager::{
    available_permissions_for, display_transport, get_detailed_permissions_by_type, list_available_permissions,
    server_status, ManifestList, McpServerManager, ResourceEntry, ServerManifest, SyncAction, ToolEntry,
};
use mcprouter::notification_callback::NullCallback;
use mcprouter::state_manager::{build_dashboard_stats, dashboard_needs_refresh, AggregatorReport, ConnectionTracker, OsInfo};

fn summary(enabled: bool, status: &str, tools: Option<usize>, prompts: Option<usize>) -> ServiceSummary {
    ServiceSummary {
        enabled,
        status: status.to_string(),
        tool_count: tools,
        resource_count: None,
        prompt_count: prompts,
        prompt_template_count: None,
    }
}

#[test]
fn services_are_counted_by_state() {
    let s = vec![
        summary(true, "connected", Some(3), Some(1)),
        summary(true, "failed", None, Some(2)),
        summary(false, "connected", Some(4), None),
        summary(true, "running", Some(1), None),
    ];
    let c = count_services(&s);
    assert_eq!((c.enabled, c.healthy, c.failed), (3, 2, 1));
    assert_eq!(c.total_tools, 8);
    assert_eq!(c.total_prompts, 3);
    assert_eq!(c.total_prompt_templates, 3);
}

#[test]
fn aggregator_state_is_inferred() {
    assert_eq!(aggregator_status(false, Some("running"), Some(3)), AggregatorStatus::Stopped);
    assert_eq!(aggregator_status(true, Some("active"), None), AggregatorStatus::Running);
    assert_eq!(aggregator_status(true, Some("failed"), None), AggregatorStatus::Error);
    assert_eq!(aggregator_status(true, Some("other"), Some(2)), AggregatorStatus::Running);
    assert_eq!(aggregator_status(true, None, Some(0)), AggregatorStatus::Stopped);
    assert_eq!(aggregator_endpoint("127.0.0.1", 8000), "http://127.0.0.1:8000/mcp");
}

#[test]
fn local_addresses_skip_loopback_and_duplicates() {
    let ifaces = vec![
        InterfaceAddress { ip: "127.0.0.1".to_string(), is_ipv4: true, is_loopback: true },
        InterfaceAddress { ip: "192.168.1.5".to_string(), is_ipv4: true, is_loopback: false },
        InterfaceAddress { ip: "fe80::1".to_string(), is_ipv4: false, is_loopback: false },
        InterfaceAddress { ip: "192.168.1.5".to_string(), is_ipv4: true, is_loopback: false },
    ];
    assert_eq!(local_ip_addresses(&ifaces), vec!["localhost", "127.0.0.1", "0.0.0.0", "192.168.1.5"]);
}

#[test]
fn connection_tracking() {
    let mut t = ConnectionTracker::new();
    t.track_connection_at("a".to_string(), true, 1_000);
    t.track_connection_at("b".to_string(), false, 5_000);
    t.track_connection_at("c".to_string(), true, 9_000);
    assert_eq!(t.get_active_connection_count(), 2);
    assert_eq!(t.cleanup_old_connections_at(3_000, 10_000), 2);
    assert_eq!(t.get_active_connection_count(), 1);
    t.remove_connection_tracking("c");
    assert_eq!(t.get_active_connection_count(), 0);
}

#[test]
fn dashboard_refresh_and_assembly() {
    assert!(dashboard_needs_refresh(true, true, Some(100), 100));
    assert!(dashboard_needs_refresh(false, false, Some(100), 100));
    assert!(!dashboard_needs_refresh(false, true, Some(100), 5_100));
    assert!(dashboard_needs_refresh(false, true, Some(100), 5_101));
    let os = OsInfo { platform: "linux".to_string(), os_type: "unix".to_string(), version: "Unknown".to_string(), arch: "x86_64".to_string() };
    let report = AggregatorReport { endpoint: None, is_running: Some(true), connected_services: Some(2), max_connections: None, timeout_seconds: None };
    let d = build_dashboard_stats(5, 3, 10, 1, "t".to_string(), os, report);
    assert_eq!(d.disabled_servers, 2);
    assert_eq!(d.connected_services, 2);
    assert_eq!(d.aggregator.endpoint, "unknown");
    assert_eq!(d.aggregator.timeout_seconds, 30);
    assert_eq!(d.connections.active_services, 2);
}

fn manifests() -> Vec<ServerManifest> {
    vec![
        ServerManifest {
            name: "fs".to_string(),
            enabled: true,
            tools: vec![ToolEntry { id: "t1".to_string(), name: "read".to_string(), description: None }],
            resources: vec![
                ResourceEntry { id: "r1".to_string(), name: None, uri: "file:///a/b.txt".to_string(), description: None },
                ResourceEntry { id: "r2".to_string(), name: Some("named".to_string()), uri: "".to_string(), description: None },
            ],
            prompts: vec![],
        },
        ServerManifest {
            name: "off".to_string(),
            enabled: false,
            tools: vec![ToolEntry { id: "t2".to_string(), name: "x".to_string(), description: None }],
            resources: vec![],
            prompts: vec![],
        },
    ]
}

#[test]
fn available_permissions_listing() {
    let m = manifests();
    assert_eq!(list_available_permissions(&m, "tool"), vec!["fs__read"]);
    assert_eq!(list_available_permissions(&m, "resource"), vec!["fs__b.txt", "fs__named"]);
    assert_eq!(list_available_permissions(&m, "prompt"), vec!["all_prompts"]);
    assert!(list_available_permissions(&m, "other").is_empty());
    let items = get_detailed_permissions_by_type(&m, "resource");
    assert_eq!(items.len(), 2);
    assert_eq!(items[0].resource_path, "fs__file:///a/b.txt");
    assert_eq!(items[1].resource_path, "fs__named");
    assert_eq!(items[0].resource_type, "resource");
    let page = available_permissions_for(&m, Some("tool")).unwrap();
    assert_eq!(page.tools.len(), 1);
    assert!(page.resources.is_empty());
    assert_eq!(available_permissions_for(&m, Some("x")).unwrap_err().message(), "Invalid input: Invalid resource_type: x");
    assert_eq!(available_permissions_for(&m, None).unwrap().resources.len(), 2);
}

#[test]
fn server_display() {
    assert_eq!(server_status(true, "connected"), "connected");
    assert_eq!(server_status(true, "failed"), "failed");
    assert_eq!(server_status(true, "weird"), "failed");
    assert_eq!(server_status(false, "connected"), "disabled");
    assert_eq!(display_transport("http"), "http");
    assert_eq!(display_transport("sse"), "stdio");
}

#[test]
fn manager_listeners_and_cache_figures() {
    let mut m: McpServerManager<NullCallback> = McpServerManager::new();
    m.register_callback(NullCallback::new());
    m.register_callback(NullCallback::new());
    m.notify_tools_changed("s");
    m.notify_resources_changed("s");
    m.notify_prompts_changed("s");
    let e = m.get_tools_cache_entries();
    assert_eq!(e[0], ("default_server".to_string(), "example_tool".to_string(), 5));
    assert_eq!(e[1].2, 3);
    assert_eq!(m.get_tools_cache_ttl_seconds(), 300);
}

fn empty_statistics() -> mcprouter::aggregator::AggregatorStatistics {
    mcprouter::aggregator::aggregator_statistics(&vec![], 300, &vec![], None)
}

#[test]
fn health_reports() {
    let check = mcprouter::state_manager::health_check(
        mcprouter::state_manager::DatabaseHealth::Healthy { connections: 4 },
        3,
        0,
        empty_statistics(),
    );
    assert_eq!(check.mcp_server_manager.as_ref().unwrap().status, "healthy");
    assert_eq!(check.mcp_server_manager.as_ref().unwrap().count, 3);
    assert_eq!(check.mcp_connections.status, "healthy");
    assert_eq!(check.aggregator_status, "healthy");
    assert!(check.connection_tracking.is_none());
    let idle = mcprouter::state_manager::get_health_status(
        mcprouter::state_manager::DatabaseHealth::Unhealthy { error: "closed".to_string() },
        0,
        empty_statistics(),
        2,
    );
    assert_eq!(idle.mcp_connections.status, "idle");
    assert_eq!(idle.aggregator_status, "running");
    assert_eq!(idle.connection_tracking.as_ref().unwrap().status, "active");
    assert_eq!(idle.connection_tracking.as_ref().unwrap().count, 2);
    let busy = mcprouter::state_manager::get_health_status(
        mcprouter::state_manager::DatabaseHealth::Healthy { connections: 1 },
        5,
        empty_statistics(),
        0,
    );
    assert_eq!(busy.mcp_connections.status, "healthy");
    assert_eq!(busy.mcp_connections.count, 5);
}

#[test]
fn sync_step_tells_listeners_only_on_change() {
    let mut m: McpServerManager<NullCallback> = McpServerManager::new();
    m.register_callback(NullCallback::new());
    assert_eq!(m.finish_sync_step(ManifestList::Tools, "fs", 2, &Ok(3), true), SyncAction::NotifyChanged);
    assert_eq!(m.finish_sync_step(ManifestList::Resources, "fs", 3, &Ok(3), true), SyncAction::Unchanged);
    assert_eq!(m.finish_sync_step(ManifestList::Prompts, "fs", 3, &Ok(4), false), SyncAction::SaveFailed);
    let unsupported = Err(mcprouter::error::McpError::ProtocolError("Method not found".to_string()));
    assert_eq!(m.finish_sync_step(ManifestList::Prompts, "fs", 0, &unsupported, true), SyncAction::Unsupported);
}
