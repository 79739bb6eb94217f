use mcprouter::entities::mcp_prompt::{Model as PromptModel, PromptArgument, PromptArgumentType};
use mcprouter::entities::mcp_resource::{uri_last_segment, Model};
use mcprouter::entities::mcp_server::Model as ServerModel;
use mcprouter::keyed::KeyedList;
use mcprouter::entities::mcp_tool::Model as ToolModel;
use mcprouter::entities::permission::{Model as PermissionModel, ResourceType};
use mcprouter::types::ServiceTransport;
use serde_json::Value;

fn meta_value() -> Value {
    let mut obj = serde_json::Map::new();
    obj.insert("category".to_string(), Value::String("file".to_string()));
    obj.insert(
        "tags".to_string(),
        Value::Array(vec![Value::String("json".to_string()), Value::String("config".to_string())]),
    );
    obj.insert("author".to_string(), Value::String("System".to_string()));
    Value::Object(obj)
}

#[test]
fn test_mcp_resource_model() {
    let meta = meta_value();
    let model = Model {
        id: "test-id".to_string(),
        server_id: "server-id".to_string(),
        uri: "file://path/to/resource.json".to_string(),
        name: Some("test-resource".to_string()),
        title: Some("Test Resource".to_string()),
        description: Some("A test resource for testing".to_string()),
        mime_type: Some("application/json".to_string()),
        enabled: true,
        is_template: false,
        uri_template: None,
        meta: Some(serde_json::to_string(&meta).unwrap()),
        created_at: chrono::Utc::now().timestamp(),
        updated_at: chrono::Utc::now().timestamp(),
    };

    assert_eq!(model.name, Some("test-resource".to_string()));
    assert_eq!(model.get_display_name(), "Test Resource");
    assert_eq!(model.get_description(), Some("A test resource for testing"));
    assert!(model.is_enabled());
    assert!(!model.is_template_resource());
    assert!(model.has_meta());

    let parsed_meta = model.parse_meta().unwrap();
    assert_eq!(parsed_meta["category"], "file");
    assert_eq!(parsed_meta["author"], "System");
    assert!(parsed_meta["tags"].is_array());
}

#[test]
fn test_resource_display_name_priority() {
    let model_with_title = Model {
        title: Some("Resource Title".to_string()),
        name: Some("resource-name".to_string()),
        uri: "file://path/to/resource".to_string(),
        ..Default::default()
    };
    assert_eq!(model_with_title.get_display_name(), "Resource Title");

    let model_with_name = Model {
        title: None,
        name: Some("resource-name".to_string()),
        uri: "file://path/to/resource".to_string(),
        ..Default::default()
    };
    assert_eq!(model_with_name.get_display_name(), "resource-name");

    let model_uri_only = Model {
        title: None,
        name: None,
        uri: "file://path/to/my-resource.txt".to_string(),
        ..Default::default()
    };
    assert_eq!(model_uri_only.get_display_name(), "my-resource.txt");
}

#[test]
fn test_template_resources() {
    let template_model = Model {
        uri: "template://message/{message_id}".to_string(),
        is_template: true,
        uri_template: Some("message://{message_id}".to_string()),
        ..Default::default()
    };

    assert!(template_model.is_template_resource());
}

#[test]
fn uri_without_slash_is_its_own_last_segment() {
    assert_eq!(uri_last_segment("plain-name"), "plain-name");
    assert_eq!(uri_last_segment("ends/with/"), "");
    assert_eq!(uri_last_segment(""), "");
}

#[test]
fn resource_without_meta_has_empty_object_meta() {
    let model = Model::default_at(7);
    assert!(!model.has_meta());
    assert_eq!(model.created_at, 7);
    assert_eq!(model.parse_meta().unwrap(), Value::Object(serde_json::Map::new()));
}

#[test]
fn resource_with_broken_meta_fails_to_parse() {
    let model = Model { meta: Some("{not json".to_string()), ..Model::default_at(1) };
    assert!(model.parse_meta().is_err());
}

#[test]
fn tool_display_name_and_path() {
    let tool = ToolModel { name: "search".to_string(), title: Some("Search".to_string()), ..ToolModel::default_at(3) };
    assert_eq!(tool.get_display_name(), "Search");
    let untitled = ToolModel { name: "search".to_string(), ..ToolModel::default_at(3) };
    assert_eq!(untitled.get_display_name(), "search");
    assert!(tool.is_enabled());
    assert!(!tool.has_input_schema());
}

#[test]
fn tool_schema_round_trip() {
    let schema = meta_value();
    let text = ToolModel::serialize_input_schema(&schema);
    let tool = ToolModel { input_schema: Some(text), ..ToolModel::default_at(0) };
    assert!(tool.has_input_schema());
    assert_eq!(tool.parse_input_schema().unwrap(), schema);
}

#[test]
fn permission_resource_type_round_trip() {
    for name in ["tool", "resource", "prompt"] {
        let t = ResourceType::parse(name).unwrap();
        assert_eq!(t.to_string(), name);
    }
    assert!(ResourceType::parse("Tool").is_err());
}

#[test]
fn permission_path_build_and_parse() {
    let path = PermissionModel::build_resource_path("files", "read_file");
    assert_eq!(path, "files__read_file");
    let p = PermissionModel {
        id: "p1".to_string(),
        token_id: "t1".to_string(),
        resource_type: "tool".to_string(),
        resource_path: path,
        allowed: true,
        created_at: 0,
        updated_at: 0,
    };
    assert_eq!(p.parse_resource_path(), Some(("files".to_string(), "read_file".to_string())));
    assert!(p.is_allowed());
    assert_eq!(p.get_resource_type_enum().unwrap(), ResourceType::Tool);
    let bad = PermissionModel { resource_path: "no-separator".to_string(), ..p };
    assert_eq!(bad.parse_resource_path(), None);
}

#[test]
fn permission_path_keeps_only_second_part() {
    let p = PermissionModel {
        id: "p".to_string(),
        token_id: "t".to_string(),
        resource_type: "prompt".to_string(),
        resource_path: "a__b__c".to_string(),
        allowed: false,
        created_at: 0,
        updated_at: 0,
    };
    assert_eq!(p.parse_resource_path(), Some(("a".to_string(), "b".to_string())));
}

#[test]
fn server_model_types_and_args() {
    let server = ServerModel {
        server_type: "http".to_string(),
        args: Some(ServerModel::serialize_args(&["-y".to_string(), "pkg".to_string()])),
        ..ServerModel::default_at(0)
    };
    assert!(server.is_http_type());
    assert!(!server.is_stdio_type());
    assert_eq!(server.get_server_type().unwrap(), ServiceTransport::Http);
    assert_eq!(server.parse_args().unwrap(), vec!["-y".to_string(), "pkg".to_string()]);
}

#[test]
fn prompt_arguments_validation() {
    let args = vec![
        PromptArgument {
            name: "topic".to_string(),
            description: None,
            required: true,
            argument_type: PromptArgumentType::String,
        },
        PromptArgument {
            name: "tone".to_string(),
            description: Some("style".to_string()),
            required: false,
            argument_type: PromptArgumentType::String,
        },
    ];
    assert_eq!(PromptModel::get_required_arguments(&args), vec!["topic".to_string()]);
    assert_eq!(PromptModel::get_optional_arguments(&args), vec!["tone".to_string()]);
    assert!(PromptModel::has_argument(&args, "tone"));
    assert!(PromptModel::validate_arguments(&args, &vec!["topic".to_string()]).is_ok());
    assert_eq!(
        PromptModel::validate_arguments(&args, &vec![]),
        Err("Missing required argument: topic".to_string())
    );
    assert!(PromptModel::validate_arguments(&args, &vec!["topic".to_string(), "extra".to_string()]).is_err());
    assert_eq!(PromptArgumentType::Boolean.to_string(), "boolean");
}

#[test]
fn server_headers_and_env_round_trip() {
    let mut headers: KeyedList<String> = KeyedList::new();
    headers.insert("Authorization".to_string(), "Bearer abc".to_string());
    headers.insert("X-Quote".to_string(), "say \"hi\"".to_string());
    let mut env: KeyedList<String> = KeyedList::new();
    env.insert("PATH".to_string(), "/usr/bin".to_string());
    let server = ServerModel {
        headers: Some(ServerModel::serialize_headers(&headers)),
        env: Some(ServerModel::serialize_env(&env)),
        ..ServerModel::default_at(0)
    };
    let back = server.parse_headers().unwrap();
    assert_eq!(back.len(), 2);
    assert_eq!(back.get("Authorization"), Some(&"Bearer abc".to_string()));
    assert_eq!(back.get("X-Quote"), Some(&"say \"hi\"".to_string()));
    let env_back = server.parse_env().unwrap();
    assert_eq!(env_back.len(), 1);
    assert_eq!(env_back.get("PATH"), Some(&"/usr/bin".to_string()));
}

#[test]
fn server_headers_absent_or_malformed() {
    let server = ServerModel::default_at(0);
    assert_eq!(server.parse_headers().unwrap().len(), 0);
    assert_eq!(server.parse_env().unwrap().len(), 0);
    let bad = ServerModel {
        headers: Some("[1, 2]".to_string()),
        env: Some("{\"A\": 1}".to_string()),
        ..ServerModel::default_at(0)
    };
    assert!(bad.parse_headers().is_err());
    assert!(bad.parse_env().is_err());
    let dup = ServerModel { env: Some("{\"A\": \"1\", \"A\": \"2\"}".to_string()), ..ServerModel::default_at(0) };
    let m = dup.parse_env().unwrap();
    assert_eq!(m.len(), 1);
    assert_eq!(m.get("A"), Some(&"2".to_string()));
}

#[test]
fn tool_schema_types() {
    let tool = ToolModel {
        input_schema: Some("{\"type\": \"object\", \"properties\": {}}".to_string()),
        output_schema: Some("{\"type\": 3}".to_string()),
        ..ToolModel::default_at(0)
    };
    assert_eq!(tool.get_input_schema_type(), Some("object".to_string()));
    assert_eq!(tool.get_output_schema_type(), None);
    let other = ToolModel {
        input_schema: Some("[\"type\"]".to_string()),
        output_schema: Some("not json".to_string()),
        ..ToolModel::default_at(0)
    };
    assert_eq!(other.get_input_schema_type(), None);
    assert_eq!(other.get_output_schema_type(), None);
    let empty = ToolModel::default_at(0);
    assert_eq!(empty.get_input_schema_type(), None);
    assert_eq!(empty.get_output_schema_type(), None);
}
