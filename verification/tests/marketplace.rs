use mcprouter::marketplace::{
    default_sources, extract_install_command, install_config, interpret_list_answer, list_request, listing_result,
    modelscope_server_to_list_item_at, modelscope_server_to_marketplace_at, ListAnswer, LocaleFields, Locales,
    ModelScopeServer, OperationalUrl, ServerConfigCommand,
};
use mcprouter::marketplace::{
    check_source_url, detail_url, modelscope_source, send_error, status_error, MarketplaceClient, MarketplaceSource,
    ModelScopeCall,
};
use mcprouter::error::McpError;
use mcprouter::types::ServiceTransport;

fn entry() -> ModelScopeServer {
    ModelScopeServer {
        id: "@org/fetch".to_string(),
        name: Some("".to_string()),
        chinese_name: Some("抓取".to_string()),
        description: Some("plain".to_string()),
        tags: Some(vec!["web".to_string()]),
        categories: None,
        locales: Some(Locales {
            zh: Some(LocaleFields { name: None, description: Some("中文描述".to_string()), readme: Some("说明".to_string()) }),
            en: Some(LocaleFields { name: Some("".to_string()), description: None, readme: None }),
        }),
        view_count: Some(12),
        publisher: Some("pub".to_string()),
        logo_url: None,
        source_url: Some("https://github.com/x".to_string()),
        author: None,
        github_stars: Some(3),
        is_hosted: Some(true),
        is_verified: None,
        operational_urls: Some(vec![OperationalUrl { transport_type: None }, OperationalUrl { transport_type: Some("sse".to_string()) }]),
        owner: None,
        readme: Some("plain readme".to_string()),
        server_config_command: Some(ServerConfigCommand {
            command: Some("npx".to_string()),
            args: Some(vec![Some("-y".to_string()), None, Some("@org/fetch".to_string())]),
        }),
        server_config: None,
        env_schema: None,
    }
}

#[test]
fn card_fields_follow_fallbacks() {
    let card = modelscope_server_to_list_item_at(&entry(), "2024-01-01T00:00:00+00:00");
    assert_eq!(card.name, "抓取");
    assert_eq!(card.description, "中文描述");
    assert_eq!(card.category, "utilities");
    assert_eq!(card.author, "pub");
    assert_eq!(card.transport, "sse");
    assert_eq!(card.downloads, 12);
    assert_eq!(card.platform, "魔搭社区");
    assert_eq!(card.last_updated, "2024-01-01T00:00:00+00:00");
}

#[test]
fn bare_entry_falls_back_to_id_and_stdio() {
    let bare = ModelScopeServer {
        id: "only-id".to_string(),
        name: None,
        chinese_name: None,
        description: None,
        tags: None,
        categories: Some(vec!["search".to_string()]),
        locales: None,
        view_count: None,
        publisher: None,
        logo_url: None,
        source_url: None,
        author: None,
        github_stars: None,
        is_hosted: None,
        is_verified: None,
        operational_urls: None,
        owner: None,
        readme: None,
        server_config_command: None,
        server_config: None,
        env_schema: None,
    };
    let card = modelscope_server_to_list_item_at(&bare, "t");
    assert_eq!(card.name, "only-id");
    assert_eq!(card.description, "");
    assert_eq!(card.category, "search");
    assert_eq!(card.author, "unknown");
    assert_eq!(card.transport, "stdio");
    assert_eq!(card.downloads, 0);
    let detail = modelscope_server_to_marketplace_at(&bare, "t");
    assert!(detail.install_command.is_none());
}

#[test]
fn detail_has_install_command_and_readme() {
    let detail = modelscope_server_to_marketplace_at(&entry(), "t");
    let ic = detail.install_command.as_ref().unwrap();
    assert_eq!(ic.command, "npx");
    assert_eq!(ic.args, vec!["-y", "@org/fetch"]);
    assert_eq!(ic.package_manager, "npx");
    assert_eq!(detail.readme.as_deref(), Some("说明"));
    assert_eq!(detail.homepage.as_deref(), Some("https://github.com/x"));
    assert!(extract_install_command(&Some(ServerConfigCommand { command: None, args: None })).is_none());
    let no_args = extract_install_command(&Some(ServerConfigCommand { command: Some("uvx".to_string()), args: None })).unwrap();
    assert!(no_args.args.is_empty());
}

#[test]
fn install_config_maps_transport() {
    let detail = modelscope_server_to_marketplace_at(&entry(), "t");
    let c = install_config(&detail, Some(vec![("K".to_string(), "1".to_string()), ("K".to_string(), "2".to_string())])).unwrap();
    assert_eq!(c.transport, ServiceTransport::Http);
    assert_eq!(c.name, "抓取");
    assert_eq!(c.command.as_deref(), Some("npx"));
    assert_eq!(c.env.as_ref().unwrap().get("K").map(|s| s.as_str()), Some("2"));
    let mut odd = modelscope_server_to_marketplace_at(&entry(), "t");
    odd.card.transport = "websocket".to_string();
    assert_eq!(install_config(&odd, None).unwrap_err().message(), "Invalid configuration: Unsupported transport: websocket");
    let mut none = modelscope_server_to_marketplace_at(&entry(), "t");
    none.card.transport = "stdio".to_string();
    none.install_command = None;
    assert!(install_config(&none, None).is_err());
}

#[test]
fn listing_answers() {
    let ok = ListAnswer { success: true, code: None, message: None, request_id: None, data: Some((vec![entry()], 40)) };
    let (items, total) = interpret_list_answer(&ok, "t").unwrap();
    assert_eq!(items.len(), 1);
    assert_eq!(total, 40);
    let failed = ListAnswer { success: false, code: Some("E1".to_string()), message: Some("bad".to_string()), request_id: None, data: None };
    assert_eq!(
        interpret_list_answer(&failed, "t").unwrap_err().message(),
        "Network error: ModelScope API returned success=false (code: E1, message: bad, request_id: )"
    );
    let missing = ListAnswer { success: true, code: None, message: None, request_id: None, data: None };
    assert!(interpret_list_answer(&missing, "t").is_err());
    let r = listing_result(items, 40, 2, 20);
    assert!(!r.has_more);
    assert!(listing_result(vec![], 41, 2, 20).has_more);
}

#[test]
fn sources_and_requests() {
    let s = default_sources();
    assert_eq!(s.len(), 1);
    assert_eq!(s[0].name, "modelscope.cn");
    let req = list_request(Some("fetch"), 2, 100);
    assert_eq!((req.direction, req.page_number, req.page_size, req.search.as_str()), (1, 2, 100, "fetch"));
    assert_eq!(list_request(None, 1, 10).search, "");
}

#[test]
fn marketplace_client_defaults() {
    let client = MarketplaceClient::new();
    assert_eq!(client.timeout_seconds, 8);
    assert_eq!(client.user_agent, "McpRouter/0.1 (+https://github.com)");
    let sources = client.enabled_sources();
    assert_eq!(sources.len(), 1);
    let src = modelscope_source(sources).unwrap();
    assert_eq!(src.name, "modelscope.cn");
    assert!(check_source_url(&src).is_ok());
}

#[test]
fn modelscope_source_missing() {
    let other = MarketplaceSource {
        name: "other".to_string(),
        url: "https://example.com".to_string(),
        enabled: true,
        headers: None,
    };
    match modelscope_source(vec![other]) {
        Err(McpError::MarketplaceError(m)) => assert_eq!(m, "ModelScope source not found"),
        _ => panic!("expected a marketplace error"),
    }
}

#[test]
fn invalid_source_url_is_reported() {
    let bad = MarketplaceSource { name: "x".to_string(), url: "not a url".to_string(), enabled: true, headers: None };
    match check_source_url(&bad) {
        Err(McpError::MarketplaceError(m)) => {
            assert!(m.starts_with("Invalid source URL 'not a url': "));
            assert!(m.len() > "Invalid source URL 'not a url': ".len());
        },
        _ => panic!("expected a marketplace error"),
    }
}

#[test]
fn detail_and_status_errors() {
    assert_eq!(detail_url("@org/fetch"), "https://www.modelscope.cn/openapi/v1/mcp/servers/@org/fetch");
    let parsed = Some((Some("E1".to_string()), None, Some("req-9".to_string())));
    match status_error(ModelScopeCall::Listing, "404 Not Found", "ignored", &parsed) {
        McpError::NetworkError(m) => assert_eq!(
            m,
            "ModelScope API error (status: 404 Not Found, code: E1, message: , request_id: req-9)"
        ),
        _ => panic!("expected a network error"),
    }
    match status_error(ModelScopeCall::Detail, "500 Internal Server Error", "boom", &None) {
        McpError::NetworkError(m) => assert_eq!(m, "ModelScope detail API returned status 500 Internal Server Error: boom"),
        _ => panic!("expected a network error"),
    }
    match send_error("timed out") {
        McpError::NetworkError(m) => assert_eq!(m, "ModelScope PUT failed: timed out"),
        _ => panic!("expected a network error"),
    }
}

#[test]
fn current_detail_carries_install_command() {
    let detail = mcprouter::marketplace::modelscope_server_to_marketplace(&entry());
    let ic = detail.install_command.as_ref().unwrap();
    assert_eq!(ic.command, "npx");
    assert_eq!(ic.args, vec!["-y", "@org/fetch"]);
    assert_eq!(ic.package_manager, "npx");
    assert_eq!(detail.card.name, "抓取");
    assert_eq!(detail.readme.as_deref(), Some("说明"));
    assert!(!detail.card.last_updated.is_empty());
}

#[test]
fn server_config_command_reads_first_service() {
    let cfg: serde_json::Value = serde_json::from_str(
        "{\"mcpServers\":{\"fetch\":{\"command\":\"uvx\",\"args\":[\"mcp-fetch\",3]}}}",
    )
    .unwrap();
    let c = mcprouter::marketplace::server_config_command(&Some(vec![cfg])).unwrap();
    assert_eq!(c.command.as_deref(), Some("uvx"));
    assert_eq!(c.args, Some(vec![Some("mcp-fetch".to_string()), None]));
    assert!(mcprouter::marketplace::server_config_command(&None).is_none());
    assert!(mcprouter::marketplace::server_config_command(&Some(vec![])).is_none());
    let not_object: serde_json::Value = serde_json::from_str("{\"mcpServers\":{\"x\":1}}").unwrap();
    assert!(mcprouter::marketplace::server_config_command(&Some(vec![not_object])).is_none());
}

#[test]
fn detail_carries_config_and_env_schema() {
    let cfg: serde_json::Value = serde_json::from_str("{\"mcpServers\":{\"f\":{\"command\":\"npx\"}}}").unwrap();
    let mut properties = mcprouter::keyed::KeyedList::new();
    properties.insert(
        "API_KEY".to_string(),
        mcprouter::marketplace::EnvProperty {
            description: Some("key".to_string()),
            prop_type: "string".to_string(),
            default: None,
            enum_values: Some(vec![serde_json::Value::from("a")]),
        },
    );
    let mut e = entry();
    e.server_config = Some(vec![cfg.clone()]);
    e.env_schema = Some(mcprouter::marketplace::EnvSchema {
        properties,
        required: vec!["API_KEY".to_string()],
        schema_type: "object".to_string(),
    });
    let detail = modelscope_server_to_marketplace_at(&e, "t");
    assert_eq!(detail.server_config, Some(vec![cfg]));
    let schema = detail.env_schema.unwrap();
    assert_eq!(schema.required, vec!["API_KEY"]);
    assert_eq!(schema.schema_type, "object");
    let p = schema.properties.get("API_KEY").unwrap();
    assert_eq!(p.prop_type, "string");
    assert_eq!(p.enum_values, Some(vec![serde_json::Value::from("a")]));
    assert!(detail.repository.is_none() && detail.documentation_url.is_none() && detail.requirements.is_empty());
}
