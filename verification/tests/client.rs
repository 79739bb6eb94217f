use mcprouter::keyed::KeyedList;
use mcprouter::mcp_client::{
    apply_registry_env, conversion_input, executable_lookup, first_word, merge_env, stdio_launch_args,
    McpClientManager,
};
use mcprouter::mcp_manager::{
    get_connected_server_names, manifest_sync_action, server_info, server_infos, server_not_found, should_ignore_mcp_error,
    should_reconnect, toggled_tool_state, update_plan, SyncAction,
};
use mcprouter::entities::mcp_tool::Model as ToolRecord;
use mcprouter::entities::mcp_server::Model as ServerRecord;
use mcprouter::error::McpError;
use mcprouter::shell_environment::{parse_environment, ShellEnvironment};
use mcprouter::types::{McpServerConfig, ServiceTransport};

#[test]
fn connection_status_after_success_and_failure() {
    let mut m = McpClientManager::new();
    assert_eq!(m.get_connection_status("s"), ("disconnected".to_string(), None));
    m.record_connected("s", Some("1.2.0".to_string()), 1000);
    assert_eq!(m.get_connection_status("s"), ("connected".to_string(), None));
    assert_eq!(m.get_server_version("s"), Some("1.2.0".to_string()));
    let err = m.record_failure("s", "spawn failed", 1001);
    assert_eq!(err.message(), "Connection error: spawn failed");
    assert_eq!(m.get_connection_status("s"), ("failed".to_string(), Some("spawn failed".to_string())));
    assert_eq!(m.get_server_version("s"), None);
    assert_eq!(m.get_connections().len(), 1);
}

#[test]
fn cache_is_reused_within_five_minutes_only() {
    let mut m = McpClientManager::new();
    m.record_connected("s", None, 1000);
    assert!(m.is_connection_cache_valid("s", 1299));
    assert!(!m.is_connection_cache_valid("s", 1300));
    assert!(m.cached_connection("s", false, 1100).is_some());
    assert!(m.cached_connection("s", true, 1100).is_none());
    m.record_failure("s", "x", 1200);
    assert!(!m.is_connection_cache_valid("s", 1201));
}

#[test]
fn disconnect_and_reconnect_preparation() {
    let mut m = McpClientManager::new();
    m.record_connected("a", None, 0);
    m.record_failure("b", "e", 0);
    m.clear_failed_connection("a");
    m.clear_failed_connection("b");
    assert_eq!(m.get_connection_status("a").0, "connected");
    assert_eq!(m.get_connection_status("b").0, "disconnected");
    m.disconnect_server("a");
    assert_eq!(m.get_connection_status("a").0, "disconnected");
    m.disconnect_mcp_server("nothing");
    assert!(m.get_connections().is_empty());
}

fn stdio(command: &str, args: &[&str]) -> McpServerConfig {
    McpServerConfig {
        name: "s".to_string(),
        description: None,
        command: Some(command.to_string()),
        args: Some(args.iter().map(|s| s.to_string()).collect()),
        env: None,
        transport: ServiceTransport::Stdio,
        url: None,
        headers: None,
        enabled: true,
    }
}

#[test]
fn npx_command_line_is_converted_whole() {
    assert_eq!(conversion_input(&stdio("npx", &["-y", "pkg"])).unwrap(), "npx -y pkg");
    assert_eq!(conversion_input(&stdio("npx", &[])).unwrap(), "npx");
    assert_eq!(conversion_input(&stdio("uvx", &["tool"])).unwrap(), "uvx");
    let mut none = stdio("x", &[]);
    none.command = None;
    assert_eq!(conversion_input(&none).unwrap_err().message(), "Invalid configuration: STDIO service requires command");
}

#[test]
fn bun_arguments_drop_yes_flags() {
    let args = stdio_launch_args("npx", vec![], "bun x -Y --YES pkg --flag");
    assert_eq!(args, vec!["x", "pkg", "--flag"]);
    assert!(stdio_launch_args("npx", vec!["a".to_string()], "node x").is_empty());
    assert_eq!(stdio_launch_args("uvx", vec!["a".to_string()], "ignored"), vec!["a"]);
}

#[test]
fn executable_names() {
    assert_eq!(executable_lookup("npx", "bun x pkg"), ("bun".to_string(), "bun".to_string()));
    assert_eq!(executable_lookup("uvx", "uvx tool"), ("uvx tool".to_string(), "uvx".to_string()));
    assert_eq!(first_word("  npx   -y"), "npx");
    assert_eq!(first_word("   "), "");
}

#[test]
fn registry_settings_reach_the_environment() {
    let mut env = KeyedList::new();
    apply_registry_env(&mut env, "uvx tool", Some("https://pypi".to_string()), Some("https://npm".to_string()));
    assert_eq!(env.get("UV_INDEX_URL").map(|s| s.as_str()), Some("https://pypi"));
    assert!(env.get("NPM_CONFIG_REGISTRY").is_none());
    let mut env = KeyedList::new();
    apply_registry_env(&mut env, "npm", None, Some("https://npm".to_string()));
    assert_eq!(env.get("NPM_CONFIG_REGISTRY").map(|s| s.as_str()), Some("https://npm"));
}

#[test]
fn later_pairs_win_in_merge() {
    let mut env = KeyedList::new();
    env.insert("A".to_string(), "1".to_string());
    merge_env(&mut env, vec![("A".to_string(), "2".to_string()), ("B".to_string(), "3".to_string())]);
    assert_eq!(env.get("A").map(|s| s.as_str()), Some("2"));
    assert_eq!(env.len(), 2);
}

#[test]
fn environment_lines_are_read() {
    let vars = parse_environment("A=1\r\nB=x=y\nNOEQ\nA=2\n");
    assert_eq!(vars.get("A").map(|s| s.as_str()), Some("2"));
    assert_eq!(vars.get("B").map(|s| s.as_str()), Some("x=y"));
    assert!(vars.get("NOEQ").is_none());
    assert_eq!(vars.len(), 2);
}

#[test]
fn tool_directory_goes_first_on_path() {
    let vars = ShellEnvironment::environment_from_output("PATH=/usr/bin\n", Some("/home/u"), false);
    assert_eq!(vars.get("PATH").map(|s| s.as_str()), Some("/home/u/.mcprouter/bin:/usr/bin"));
    let again = ShellEnvironment::environment_from_output("PATH=/home/u/.mcprouter/bin:/usr/bin", Some("/home/u"), false);
    assert_eq!(again.get("PATH").map(|s| s.as_str()), Some("/home/u/.mcprouter/bin:/usr/bin"));
    let win = ShellEnvironment::environment_from_output("HOME=x\n", Some("C:\\u"), true);
    assert_eq!(win.get("PATH").map(|s| s.as_str()), Some("C:\\u/.mcprouter/bin"));
    let nohome = ShellEnvironment::environment_from_output("PATH=/bin", None, true);
    assert_eq!(nohome.get("PATH").map(|s| s.as_str()), Some("/bin"));
    let w2 = ShellEnvironment::environment_from_output("PATH=C:\\bin", Some("H"), true);
    assert_eq!(w2.get("PATH").map(|s| s.as_str()), Some("H/.mcprouter/bin;C:\\bin"));
}

#[test]
fn ignorable_errors_and_sync_decisions() {
    assert!(should_ignore_mcp_error(&McpError::ProtocolError("Method not found".to_string())));
    assert!(should_ignore_mcp_error(&McpError::ServiceError("code -32601".to_string())));
    assert!(!should_ignore_mcp_error(&McpError::ServiceError("timeout".to_string())));
    assert_eq!(manifest_sync_action(2, &Ok(3), true), SyncAction::NotifyChanged);
    assert_eq!(manifest_sync_action(3, &Ok(3), true), SyncAction::Unchanged);
    assert_eq!(manifest_sync_action(3, &Ok(4), false), SyncAction::SaveFailed);
    assert_eq!(manifest_sync_action(3, &Err(McpError::ProtocolError("-32601".to_string())), true), SyncAction::Unsupported);
    assert_eq!(manifest_sync_action(3, &Err(McpError::ProtocolError("x".to_string())), true), SyncAction::FetchFailed);
}

fn stored_server(name: &str, enabled: bool, server_type: &str) -> ServerRecord {
    ServerRecord {
        name: name.to_string(),
        enabled,
        server_type: server_type.to_string(),
        args: Some("[\"-y\", \"pkg\"]".to_string()),
        env: Some("{\"KEY\": \"v\"}".to_string()),
        headers: Some("not json".to_string()),
        ..ServerRecord::default_at(0)
    }
}

#[test]
fn server_info_shows_connection_state() {
    let mut clients = McpClientManager::new();
    clients.record_connected("up", Some("1.2.3".to_string()), 100);
    let _ = clients.record_failure("down", "refused", 100);
    let up = server_info(stored_server("up", true, "http"), &clients, (3, 2, 1, 0));
    assert_eq!(up.status, "connected");
    assert_eq!(up.version, Some("1.2.3".to_string()));
    assert_eq!(up.transport, "http");
    assert_eq!(up.args, Some(vec!["-y".to_string(), "pkg".to_string()]));
    assert_eq!(up.env.as_ref().unwrap().get("KEY"), Some(&"v".to_string()));
    assert_eq!(up.headers.as_ref().unwrap().len(), 0);
    assert_eq!((up.tool_count, up.resource_count, up.prompt_count, up.prompt_template_count), (Some(3), Some(2), Some(1), Some(0)));
    let down = server_info(stored_server("down", true, "sse"), &clients, (0, 0, 0, 0));
    assert_eq!(down.status, "failed");
    assert_eq!(down.error_message, Some("refused".to_string()));
    assert_eq!(down.version, None);
    assert_eq!(down.transport, "stdio");
    let off = server_info(stored_server("up", false, "stdio"), &clients, (0, 0, 0, 0));
    assert_eq!(off.status, "disabled");
    let unknown = server_info(stored_server("never", true, "stdio"), &clients, (0, 0, 0, 0));
    assert_eq!(unknown.status, "disconnected");
}

#[test]
fn server_infos_keep_order() {
    let clients = McpClientManager::new();
    let infos = server_infos(
        vec![stored_server("a", true, "stdio"), stored_server("b", false, "http")],
        &clients,
        &vec![(1, 0, 0, 0), (2, 0, 0, 0)],
    );
    assert_eq!(infos.len(), 2);
    assert_eq!(infos[0].name, "a");
    assert_eq!(infos[0].tool_count, Some(1));
    assert_eq!(infos[1].name, "b");
    assert_eq!(infos[1].tool_count, Some(2));
    assert_eq!(infos[1].status, "disabled");
}

fn stored_stdio(command: &str, args: &str) -> ServerRecord {
    ServerRecord {
        name: "s".to_string(),
        server_type: "stdio".to_string(),
        command: Some(command.to_string()),
        args: Some(args.to_string()),
        ..ServerRecord::default_at(0)
    }
}

#[test]
fn reconnect_only_on_connection_changes() {
    let old = stored_stdio("npx", "[\"a\"]");
    assert!(!should_reconnect(&old, &stdio("npx", &["a"])));
    assert!(should_reconnect(&old, &stdio("uvx", &["a"])));
    assert!(should_reconnect(&old, &stdio("npx", &["a", "b"])));
    let mut disabled = stdio("npx", &["a"]);
    disabled.enabled = false;
    assert!(should_reconnect(&old, &disabled));
    let unreadable = stored_stdio("npx", "oops");
    assert!(!should_reconnect(&unreadable, &stdio("npx", &[])));
    let mut odd = stored_stdio("npx", "[\"a\"]");
    odd.server_type = "sse".to_string();
    assert!(should_reconnect(&odd, &stdio("npx", &["a"])));
    let mut described = stdio("npx", &["a"]);
    described.description = Some("changed".to_string());
    assert!(!should_reconnect(&old, &described));
}

#[test]
fn update_plans() {
    let plan = update_plan(&None, &stdio("npx", &[]));
    assert!(plan.reconnect && plan.connect_after);
    let old = stored_stdio("npx", "[]");
    let plan = update_plan(&Some(old), &stdio("npx", &[]));
    assert!(!plan.reconnect && !plan.connect_after);
    let mut off = stdio("npx", &[]);
    off.enabled = false;
    let plan = update_plan(&Some(stored_stdio("npx", "[]")), &off);
    assert!(plan.reconnect && !plan.connect_after);
}

#[test]
fn tool_toggles_and_missing_names() {
    let mut t1 = ToolRecord::default_at(0);
    t1.name = "read".to_string();
    t1.enabled = true;
    let mut t2 = ToolRecord::default_at(0);
    t2.name = "write".to_string();
    t2.enabled = false;
    let tools = vec![t1, t2];
    assert_eq!(toggled_tool_state(&tools, "fs", "read").unwrap(), false);
    assert_eq!(toggled_tool_state(&tools, "fs", "write").unwrap(), true);
    match toggled_tool_state(&tools, "fs", "delete") {
        Err(McpError::NotFound(m)) => assert_eq!(m, "Tool 'delete' not found on server 'fs'"),
        _ => panic!("expected not found"),
    }
    match server_not_found("fs") {
        McpError::NotFound(m) => assert_eq!(m, "Server 'fs' not found"),
        _ => panic!("expected not found"),
    }
}

#[test]
fn connected_names_only() {
    let mut clients = McpClientManager::new();
    clients.record_connected("up", None, 0);
    let infos = server_infos(
        vec![stored_server("up", true, "stdio"), stored_server("down", true, "stdio"), stored_server("up", false, "stdio")],
        &clients,
        &vec![(0, 0, 0, 0), (0, 0, 0, 0), (0, 0, 0, 0)],
    );
    let names = get_connected_server_names(&infos);
    assert_eq!(names, vec!["up".to_string()]);
}

#[test]
fn statistics_over_listed_servers() {
    let mut clients = McpClientManager::new();
    clients.record_connected("a", None, 0);
    let infos = server_infos(
        vec![stored_server("a", true, "stdio"), stored_server("b", true, "http"), stored_server("c", false, "http")],
        &clients,
        &vec![(3, 1, 2, 0), (4, 0, 0, 0), (0, 5, 1, 0)],
    );
    let st = mcprouter::mcp_manager::server_statistics(&infos);
    assert_eq!(st.total_servers, 3);
    assert_eq!(st.enabled_servers, 2);
    assert_eq!(st.connected_servers, 1);
    assert_eq!((st.total_tools, st.total_resources, st.total_prompts), (7, 6, 3));
}

#[test]
fn enabling_connects_with_listed_config() {
    let clients = McpClientManager::new();
    let info = server_info(stored_server("b", false, "http"), &clients, (0, 0, 0, 0));
    let config = mcprouter::mcp_manager::config_from_info(info);
    assert_eq!(config.name, "b");
    assert!(config.enabled);
    assert_eq!(config.transport, ServiceTransport::Http);
    assert_eq!(config.args, Some(vec!["-y".to_string(), "pkg".to_string()]));
    let odd = server_info(stored_server("c", true, "sse"), &clients, (0, 0, 0, 0));
    assert_eq!(mcprouter::mcp_manager::config_from_info(odd).transport, ServiceTransport::Stdio);
}

#[test]
fn synchronised_records() {
    use_records();
}

fn use_records() {
    let tools = vec![
        mcprouter::mcp_manager::FetchedTool {
            name: "read".to_string(),
            description: Some("Reads".to_string()),
            input_schema: Some("{\"type\":\"object\"}".to_string()),
            output_schema: None,
            annotations: None,
            meta: Some("{\"k\":1}".to_string()),
        },
        mcprouter::mcp_manager::FetchedTool {
            name: "write".to_string(),
            description: None,
            input_schema: None,
            output_schema: None,
            annotations: None,
            meta: None,
        },
    ];
    let records = mcprouter::mcp_manager::tool_records("srv-1", tools, 77);
    assert_eq!(records.len(), 2);
    assert_eq!(records[0].name, "read");
    assert_eq!(records[1].name, "write");
    assert_eq!(records[0].server_id, "srv-1");
    assert!(records.iter().all(|r| r.enabled && r.created_at == 77 && r.updated_at == 77 && r.id.len() == 36));
    assert_ne!(records[0].id, records[1].id);
    assert_eq!(records[0].input_schema.as_deref(), Some("{\"type\":\"object\"}"));
    let resources = mcprouter::mcp_manager::resource_records(
        "srv-1",
        vec![mcprouter::mcp_manager::FetchedResource {
            uri: "file:///a".to_string(),
            name: "a".to_string(),
            description: None,
            mime_type: Some("text/plain".to_string()),
            meta: None,
        }],
        5,
    );
    assert_eq!(resources[0].name, Some("a".to_string()));
    assert!(!resources[0].is_template && resources[0].enabled);
    let prompts = mcprouter::mcp_manager::prompt_records(
        "srv-1",
        vec![mcprouter::mcp_manager::FetchedPrompt {
            name: "p".to_string(),
            description: None,
            arguments: Some("[]".to_string()),
            meta: None,
        }],
        5,
    );
    assert_eq!(prompts[0].arguments.as_deref(), Some("[]"));
    assert_eq!(prompts[0].server_id, "srv-1");
}

#[test]
fn start_up_connects_enabled_servers() {
    let a = ServerRecord {
        name: "a".to_string(),
        enabled: true,
        server_type: "stdio".to_string(),
        command: Some("npx".to_string()),
        headers: Some("oops".to_string()),
        env: Some("{\"K\": \"v\"}".to_string()),
        ..ServerRecord::default_at(0)
    };
    let b = ServerRecord { name: "b".to_string(), enabled: false, ..ServerRecord::default_at(0) };
    let c = ServerRecord {
        name: "c".to_string(),
        enabled: true,
        server_type: "http".to_string(),
        args: Some("[\"x\"]".to_string()),
        url: Some("http://h/mcp".to_string()),
        ..ServerRecord::default_at(0)
    };
    let configs = mcprouter::mcp_manager::batch_connection_configs(&vec![a, b, c]);
    assert_eq!(configs.len(), 2);
    assert_eq!(configs[0].name, "a");
    assert_eq!(configs[0].transport, ServiceTransport::Stdio);
    assert_eq!(configs[0].args, None);
    assert!(configs[0].headers.is_none());
    assert_eq!(configs[0].env.as_ref().unwrap().get("K"), Some(&"v".to_string()));
    assert_eq!(configs[1].name, "c");
    assert_eq!(configs[1].transport, ServiceTransport::Http);
    assert_eq!(configs[1].args, Some(vec!["x".to_string()]));
    assert!(configs[1].env.is_none());
    assert_eq!(mcprouter::mcp_manager::CONNECT_BATCH_SIZE, 3);
    assert_eq!(mcprouter::mcp_manager::CONNECT_TIMEOUT_SECONDS, 15);
}

#[test]
fn sync_target_finds_the_named_server() {
    let records = vec![stored_server("a", true, "stdio"), stored_server("b", true, "http"), stored_server("b", false, "stdio")];
    assert_eq!(mcprouter::mcp_manager::sync_target(&records, "b").unwrap(), 1);
    let err = mcprouter::mcp_manager::sync_target(&records, "zz").unwrap_err();
    assert!(matches!(err, McpError::NotFound(ref m) if m == "Server 'zz' not found"));
}
