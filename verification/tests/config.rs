use mcprouter::config::api_key_config::{
    generate_api_key, hash_key, masked_key, ApiKeyConfig, ApiKeyPermissions, ApiKeyRepository,
};
use mcprouter::config::mcp_server_config::McpServerRepository;
use mcprouter::config::ConfigError;
use mcprouter::error::{from_config_error, McpError};
use mcprouter::keyed::KeyedList;
use mcprouter::types::{McpServerConfig, ServiceTransport};

fn server(name: &str, transport: ServiceTransport) -> McpServerConfig {
    let mut env = KeyedList::new();
    env.insert("A".to_string(), "1".to_string());
    McpServerConfig {
        name: name.to_string(),
        description: None,
        command: Some("npx".to_string()),
        args: Some(vec!["-y".to_string()]),
        env: Some(env),
        transport,
        url: Some("http://x".to_string()),
        headers: None,
        enabled: true,
    }
}

fn invalid_text(e: ConfigError) -> String {
    match e {
        ConfigError::Invalid(m) => m,
        other => panic!("unexpected error {:?}", other),
    }
}

#[test]
fn add_cleans_fields_and_refuses_duplicates() {
    let mut repo = McpServerRepository::new(vec![]);
    let msg = repo.add(server("a", ServiceTransport::Stdio)).unwrap();
    assert_eq!(msg, "MCP server 'a' added successfully");
    let stored = repo.get_by_name("a").unwrap();
    assert_eq!(stored.url, None);
    assert!(stored.command.is_some());
    let err = repo.add(server("a", ServiceTransport::Http)).unwrap_err();
    assert_eq!(invalid_text(err), "server name already exists: a");
    assert_eq!(repo.get_all().len(), 1);
}

#[test]
fn http_server_loses_stdio_fields() {
    let mut repo = McpServerRepository::new(vec![]);
    repo.add(server("h", ServiceTransport::Http)).unwrap();
    let stored = repo.get_by_name("h").unwrap();
    assert_eq!(stored.command, None);
    assert_eq!(stored.args, None);
    assert!(stored.env.is_none());
    assert_eq!(stored.url.as_deref(), Some("http://x"));
}

#[test]
fn update_delete_toggle() {
    let mut repo = McpServerRepository::new(vec![]);
    repo.add(server("a", ServiceTransport::Stdio)).unwrap();
    let mut changed = server("a", ServiceTransport::Stdio);
    changed.description = Some("d".to_string());
    assert_eq!(repo.update("a", changed).unwrap(), "MCP server 'a' updated successfully");
    assert_eq!(repo.get_by_name("a").unwrap().description.as_deref(), Some("d"));
    let err = repo.update("zzz", server("zzz", ServiceTransport::Stdio)).unwrap_err();
    assert_eq!(invalid_text(err), "server not found: zzz");
    assert_eq!(repo.toggle_enabled("a").unwrap(), false);
    assert_eq!(repo.toggle_enabled("a").unwrap(), true);
    assert_eq!(repo.delete("a").unwrap(), "MCP server 'a' deleted");
    assert!(repo.get_by_name("a").is_none());
    assert_eq!(invalid_text(repo.delete("a").unwrap_err()), "server not found: a");
    assert_eq!(invalid_text(repo.toggle_enabled("a").unwrap_err()), "server not found: a");
}

#[test]
fn generated_keys_have_the_documented_shape() {
    let k = generate_api_key();
    assert_eq!(k.len(), 35);
    assert!(k.starts_with("sk-"));
    assert!(k[3..].chars().all(|c| c.is_ascii_alphanumeric()));
}

#[test]
fn hash_is_lowercase_hex_sha256() {
    assert_eq!(hash_key("abc"), "ba7816bf8f01cfea414140de5dae2223b00361a396177a9cb410ff61f20015ad");
    assert_eq!(hash_key(""), "e3b0c44298fc1c149afbf4c8996fb92427ae41e4649b934ca495991b7852b855");
}

#[test]
fn masked_key_shows_head_and_tail() {
    assert_eq!(masked_key("0123456789abcdef"), "sk-012345...def");
    assert_eq!(masked_key("short"), "sk-****");
    assert_eq!(masked_key("123456789"), "sk-****");
}

fn perms(tools: &[&str]) -> ApiKeyPermissions {
    ApiKeyPermissions { allowed_tools: tools.iter().map(|s| s.to_string()).collect() }
}

#[test]
fn created_key_verifies_and_others_do_not() {
    let mut repo = ApiKeyRepository::new(vec![]);
    let (secret, key) = repo.create("k".to_string(), perms(&["t1"]));
    assert!(repo.verify_key(&key.id, &secret));
    assert!(!repo.verify_key(&key.id, "sk-wrong"));
    assert!(!repo.verify_key("no-such-id", &secret));
    assert_eq!(repo.toggle_enabled(&key.id).unwrap(), false);
    assert!(!repo.verify_key(&key.id, &secret));
    assert!(repo.get_by_id(&key.id).unwrap().last_used_at.is_some());
}

#[test]
fn verify_records_use_time() {
    let mut repo = ApiKeyRepository::new(vec![]);
    repo.create_with("id1".to_string(), "n".to_string(), hash_key("s"), perms(&[]), 5);
    assert!(repo.verify_key_at("id1", "s", 42));
    let k = repo.get_by_id("id1").unwrap();
    assert_eq!(k.last_used_at, Some(42));
    assert_eq!(k.updated_at, 42);
}

#[test]
fn grant_and_revoke_count_changes() {
    let mut repo = ApiKeyRepository::new(vec![]);
    repo.create_with("id".to_string(), "n".to_string(), hash_key("s"), perms(&["a"]), 0);
    let tools = vec!["a".to_string(), "b".to_string(), "c".to_string(), "b".to_string()];
    assert_eq!(repo.grant_server_tools_at("id", &tools, 1).unwrap(), 2);
    assert_eq!(repo.grant_server_tools("id", &tools).unwrap(), 0);
    assert_eq!(repo.get_tools_by_api_key("id").unwrap(), vec!["a", "b", "c"]);
    assert_eq!(repo.revoke_server_tools("id", &["a".to_string(), "c".to_string()]).unwrap(), 2);
    assert_eq!(repo.get_tools_by_api_key("id").unwrap(), vec!["b"]);
    repo.add_tool_permission("id", "b").unwrap();
    repo.add_tool_permission("id", "z").unwrap();
    assert_eq!(repo.get_tools_by_api_key("id").unwrap(), vec!["b", "z"]);
    repo.remove_tool_permission("id", "b").unwrap();
    assert_eq!(repo.get_tools_by_api_key("id").unwrap(), vec!["z"]);
    repo.remove_all_permissions("id").unwrap();
    assert!(repo.get_tools_by_api_key("id").unwrap().is_empty());
    let err = repo.grant_server_tools("none", &tools).unwrap_err();
    assert_eq!(invalid_text(err), "API密钥未找到: none");
}

#[test]
fn list_masks_and_counts() {
    let keys = vec![ApiKeyConfig {
        id: "i".to_string(),
        name: "n".to_string(),
        key_hash: hash_key("x"),
        enabled: true,
        created_at: 1,
        updated_at: 2,
        last_used_at: None,
        authorized_tool_ids: (0..7).map(|i| format!("t{}", i)).collect(),
    }];
    let repo = ApiKeyRepository::new(keys);
    let list = repo.get_all_list();
    assert_eq!(list.len(), 1);
    assert_eq!(list[0].authorized_tool_count, 7);
    assert_eq!(list[0].authorized_server_count, 5);
    assert!(list[0].key.starts_with("sk-2d7116"));
    assert!(list[0].key.ends_with("...881"));
}

#[test]
fn delete_removes_every_key_with_the_id() {
    let mut repo = ApiKeyRepository::new(vec![]);
    repo.create_with("x".to_string(), "1".to_string(), hash_key("a"), perms(&[]), 0);
    repo.create_with("y".to_string(), "2".to_string(), hash_key("b"), perms(&[]), 0);
    repo.create_with("x".to_string(), "3".to_string(), hash_key("c"), perms(&[]), 0);
    assert!(repo.delete("x"));
    assert_eq!(repo.get_all().len(), 1);
    assert!(!repo.delete("x"));
}

#[test]
fn config_errors_read_like_the_messages() {
    let e = from_config_error(&ConfigError::Invalid("bad".to_string()));
    assert_eq!(e.message(), "Configuration error: Invalid configuration: bad");
    assert_eq!(McpError::ToolNotFound("uv".to_string()).message(), "Tool not found: uv");
}

#[test]
fn get_by_id_mut_changes_in_place() {
    let mut repo = ApiKeyRepository::new(vec![]);
    repo.create_with("id1".to_string(), "first".to_string(), hash_key("s"), perms(&[]), 0);
    repo.create_with("id2".to_string(), "second".to_string(), hash_key("t"), perms(&[]), 0);
    {
        let k = repo.get_by_id_mut("id2").unwrap();
        k.name = "renamed".to_string();
    }
    assert!(repo.get_by_id_mut("missing").is_none());
    assert_eq!(repo.get_by_id("id2").unwrap().name, "renamed");
    assert_eq!(repo.get_by_id("id1").unwrap().name, "first");
}

#[test]
fn get_by_name_mut_edits_in_place() {
    let mut repo = McpServerRepository::new(vec![]);
    repo.add(server("a", ServiceTransport::Stdio)).unwrap();
    repo.add(server("b", ServiceTransport::Http)).unwrap();
    {
        let s = repo.get_by_name_mut("b").unwrap();
        s.description = Some("edited".to_string());
    }
    assert!(repo.get_by_name_mut("zzz").is_none());
    assert_eq!(repo.get_by_name("b").unwrap().description, Some("edited".to_string()));
    assert_eq!(repo.get_by_name("a").unwrap().description, None);
}
