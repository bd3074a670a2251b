use clau::Error;

#[test]
fn every_failure_has_its_sentence() {
    assert_eq!(Error::BinaryNotFound.message(), "assistant binary not found in PATH");
    assert_eq!(
        Error::SessionNotFound("abc".to_string()).message(),
        "Session abc not found"
    );
    assert_eq!(
        Error::PermissionDenied("bash".to_string()).message(),
        "Tool permission denied: bash"
    );
    assert_eq!(
        Error::McpError("down".to_string()).message(),
        "MCP server error: down"
    );
    assert_eq!(
        Error::ConfigError("bad".to_string()).message(),
        "Invalid configuration: bad"
    );
    assert_eq!(
        Error::InvalidInput("empty".to_string()).message(),
        "Invalid input: empty"
    );
    assert_eq!(Error::Timeout(30).message(), "Operation timed out after 30s");
    assert_eq!(Error::Timeout(0).message(), "Operation timed out after 0s");
    assert_eq!(
        Error::SerializationError("eof".to_string()).message(),
        "Serialization error: eof"
    );
    assert_eq!(Error::Io("denied".to_string()).message(), "IO error: denied");
    assert_eq!(
        Error::ProcessError("boom".to_string()).message(),
        "Process error: boom"
    );
    assert_eq!(Error::StreamClosed.message(), "Stream closed unexpectedly");
}
