use clau::{Config, SessionId, StreamFormat, ToolPermission};

#[test]
fn test_config_builder() {
    let config = Config::builder()
        .system_prompt("You are a helpful assistant")
        .model("sonnet-4-20250514")
        .stream_format(StreamFormat::Json)
        .max_tokens(1000)
        .build();

    assert_eq!(
        config.system_prompt,
        Some("You are a helpful assistant".to_string())
    );
    assert_eq!(config.model, Some("sonnet-4-20250514".to_string()));
    assert_eq!(config.stream_format, StreamFormat::Json);
    assert_eq!(config.max_tokens, Some(1000));
}

#[test]
fn test_session_id() {
    let id1 = SessionId::new("test-session");
    let id2 = SessionId::new("test-session");

    assert_eq!(id1, id2);
    assert_eq!(id1.as_str(), "test-session");
}

#[test]
fn test_tool_permission_formatting() {
    let mcp_all = ToolPermission::mcp("filesystem", "*");
    assert_eq!(mcp_all.to_cli_format(), "mcp__filesystem__*");

    let mcp_specific = ToolPermission::mcp("filesystem", "read_file");
    assert_eq!(mcp_specific.to_cli_format(), "mcp__filesystem__read_file");

    let bash_cmd = ToolPermission::bash("npm install");
    assert_eq!(bash_cmd.to_cli_format(), "bash:npm install");

    let all = ToolPermission::All;
    assert_eq!(all.to_cli_format(), "*");
}

#[test]
fn tool_permission_short_names() {
    assert_eq!(ToolPermission::mcp("fs", "*").to_cli_format(), "mcp__fs__*");
    assert_eq!(ToolPermission::mcp("fs", "read").to_cli_format(), "mcp__fs__read");
    assert_eq!(ToolPermission::bash("ls -la").to_cli_format(), "bash:ls -la");
    assert_eq!(ToolPermission::All.to_cli_format(), "*");
}

#[test]
fn tool_permission_empty_parts() {
    assert_eq!(ToolPermission::mcp("", "").to_cli_format(), "mcp____");
    assert_eq!(ToolPermission::bash("").to_cli_format(), "bash:");
}

#[test]
fn config_defaults() {
    let config = Config::default();
    assert_eq!(config.system_prompt, None);
    assert_eq!(config.model, None);
    assert_eq!(config.mcp_config_path, None);
    assert_eq!(config.allowed_tools, None);
    assert_eq!(config.stream_format, StreamFormat::Text);
    assert!(config.non_interactive);
    assert!(!config.verbose);
    assert_eq!(config.max_tokens, None);
    assert_eq!(config.timeout_secs, Some(30));
    assert_eq!(config.timeout(), 30);
}

#[test]
fn config_builder_sets_every_field() {
    let config = Config::builder()
        .mcp_config("/etc/mcp.json")
        .allowed_tools(vec!["a".to_string(), "b".to_string()])
        .non_interactive(false)
        .timeout_secs(7)
        .build();
    assert_eq!(config.mcp_config_path, Some("/etc/mcp.json".to_string()));
    assert_eq!(
        config.allowed_tools,
        Some(vec!["a".to_string(), "b".to_string()])
    );
    assert!(!config.non_interactive);
    assert_eq!(config.timeout_secs, Some(7));
    assert_eq!(config.timeout(), 7);
    assert_eq!(config.stream_format, StreamFormat::Text);
}

#[test]
fn config_without_timeout_falls_back() {
    let mut config = Config::default();
    config.timeout_secs = None;
    assert_eq!(config.timeout(), 30);
}

#[test]
fn stream_format_default_is_text() {
    assert_eq!(StreamFormat::default(), StreamFormat::Text);
}
