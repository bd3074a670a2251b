use clau::command::build_args;
use clau::{Client, Config, StreamFormat};

fn strings(items: &[&str]) -> Vec<String> {
    items.iter().map(|s| s.to_string()).collect()
}

#[test]
fn args_for_default_config() {
    let args = build_args(&Config::default(), "hello");
    assert_eq!(args, strings(&["-p", "hello"]));
}

#[test]
fn args_for_json_format() {
    let config = Config::builder().stream_format(StreamFormat::Json).build();
    assert_eq!(
        build_args(&config, "q"),
        strings(&["-p", "--output-format", "json", "q"])
    );
}

#[test]
fn args_for_stream_json_force_verbose_once() {
    let mut config = Config::builder()
        .stream_format(StreamFormat::StreamJson)
        .build();
    assert_eq!(
        build_args(&config, "q"),
        strings(&["-p", "--output-format", "stream-json", "--verbose", "q"])
    );
    config.verbose = true;
    let args = build_args(&config, "q");
    assert_eq!(
        args,
        strings(&["-p", "--output-format", "stream-json", "--verbose", "q"])
    );
    assert_eq!(args.iter().filter(|a| a.as_str() == "--verbose").count(), 1);
}

#[test]
fn args_verbose_with_text_and_json() {
    let mut config = Config::default();
    config.verbose = true;
    assert_eq!(build_args(&config, "q"), strings(&["-p", "--verbose", "q"]));
    config.stream_format = StreamFormat::Json;
    assert_eq!(
        build_args(&config, "q"),
        strings(&["-p", "--output-format", "json", "--verbose", "q"])
    );
}

#[test]
fn args_with_every_option_in_order() {
    let mut config = Config::builder()
        .system_prompt("be brief")
        .model("m1")
        .mcp_config("/tmp/mcp.json")
        .allowed_tools(vec!["mcp__fs__*".to_string(), "bash:ls".to_string()])
        .stream_format(StreamFormat::Json)
        .max_tokens(1000)
        .build();
    config.verbose = true;
    assert_eq!(
        build_args(&config, "what is 2 + 2?"),
        strings(&[
            "-p",
            "--output-format",
            "json",
            "--verbose",
            "--system-prompt",
            "be brief",
            "--model",
            "m1",
            "--mcp-config",
            "/tmp/mcp.json",
            "--allowedTools",
            "mcp__fs__*",
            "--allowedTools",
            "bash:ls",
            "--max-tokens",
            "1000",
            "what is 2 + 2?",
        ])
    );
}

#[test]
fn args_with_empty_tool_list_and_zero_tokens() {
    let config = Config::builder().allowed_tools(Vec::new()).max_tokens(0).build();
    assert_eq!(
        build_args(&config, ""),
        strings(&["-p", "--max-tokens", "0", ""])
    );
}

#[test]
fn args_are_the_same_for_the_same_input() {
    let config = Config::builder().model("m").max_tokens(18446744073709551615).build();
    let first = build_args(&config, "q");
    let second = build_args(&config, "q");
    assert_eq!(first, second);
    assert_eq!(first[4], "18446744073709551615");
}

#[test]
fn non_interactive_flag_is_always_first() {
    let config = Config::builder().non_interactive(false).build();
    let args = build_args(&config, "last");
    assert_eq!(args.first().map(|s| s.as_str()), Some("-p"));
    assert_eq!(args.last().map(|s| s.as_str()), Some("last"));
}

#[test]
fn client_runner_uses_the_configuration() {
    let client = Client::builder()
        .model("m2")
        .stream_format(StreamFormat::StreamJson)
        .verbose(true)
        .timeout_secs(60)
        .build();
    let runner = client.runner("hi");
    assert_eq!(
        runner.args(),
        &strings(&[
            "-p",
            "--output-format",
            "stream-json",
            "--verbose",
            "--model",
            "m2",
            "hi"
        ])
    );
    assert_eq!(runner.timeout_secs(), 60);
    let via_query = client.query("hi").runner();
    assert_eq!(via_query.args(), runner.args());
    assert_eq!(via_query.timeout_secs(), 60);
}
