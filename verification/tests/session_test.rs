use clau::error::Error;
use clau::mcp::{McpConfig, McpServer};
use clau::{Json, Session, SessionBuilder, SessionId, SessionManager};

#[test]
fn session_starts_empty() {
    let session = Session::new(SessionId::new("abc"));
    assert_eq!(session.id().as_str(), "abc");
    assert_eq!(session.system_prompt, None);
    assert!(session.metadata.is_empty());
    let session = session.with_system_prompt("be kind");
    assert_eq!(session.system_prompt, Some("be kind".to_string()));
    assert_eq!(session.id, SessionId::new("abc"));
}

#[test]
fn session_id_as_text() {
    let id = SessionId::new("x-1");
    assert_eq!(id.to_text(), "x-1");
    assert_ne!(id, SessionId::new("x-2"));
}

#[test]
fn fresh_sessions_get_different_identifiers() {
    let a = SessionBuilder::new().build();
    let b = SessionManager::builder().build();
    assert_ne!(a.id, b.id);
    assert_eq!(a.id.as_str().len(), 36);
    assert_eq!(a.id.as_str().matches('-').count(), 4);
    for id in [a.id.as_str(), b.id.as_str()] {
        let chars: Vec<char> = id.chars().collect();
        assert_eq!(chars.len(), 36);
        for (i, c) in chars.iter().enumerate() {
            if i == 8 || i == 13 || i == 18 || i == 23 {
                assert_eq!(*c, '-');
            } else {
                assert!(matches!(*c, '0'..='9' | 'a'..='f'), "{}", id);
            }
        }
        assert_eq!(chars[14], '4');
        assert!(matches!(chars[19], '8' | '9' | 'a' | 'b'), "{}", id);
    }
    assert_eq!(a.system_prompt, None);
    assert!(a.metadata.is_empty());
}

#[test]
fn builder_notes_metadata_by_key() {
    let session = SessionBuilder::with_id(SessionId::new("s"), false)
        .with_system_prompt("p")
        .with_metadata("a", Json::Bool(true))
        .with_metadata("b", Json::Null)
        .with_metadata("a", Json::Bool(false))
        .build();
    assert_eq!(session.system_prompt, Some("p".to_string()));
    assert_eq!(
        session.metadata,
        vec![
            ("a".to_string(), Json::Bool(false)),
            ("b".to_string(), Json::Null),
        ]
    );
}

#[test]
fn registry_keeps_sessions_by_identifier() {
    let mut manager = SessionManager::new();
    assert_eq!(manager.list(), Vec::<SessionId>::new());
    assert_eq!(manager.get(&SessionId::new("a")), None);

    manager.store(Session::new(SessionId::new("a")));
    manager.store(Session::new(SessionId::new("b")).with_system_prompt("first"));
    manager.store(Session::new(SessionId::new("b")).with_system_prompt("second"));

    assert_eq!(
        manager.list(),
        vec![SessionId::new("a"), SessionId::new("b")]
    );
    assert_eq!(
        manager.get(&SessionId::new("a")),
        Some(Session::new(SessionId::new("a")))
    );
    assert_eq!(
        manager.get(&SessionId::new("b")),
        Some(Session::new(SessionId::new("b")).with_system_prompt("second"))
    );
    assert_eq!(manager.get(&SessionId::new("c")), None);
}

#[test]
fn resuming_an_unknown_session_names_it() {
    let mut manager = SessionManager::new();
    assert_eq!(
        manager.resume(&SessionId::new("gone")),
        Err(Error::SessionNotFound("gone".to_string()))
    );
    let built = manager
        .create_session()
        .with_metadata("k", Json::String("v".to_string()))
        .build();
    assert_eq!(built.id.as_str().len(), 36);
    let id = SessionId::new(built.id.as_str());
    manager.store(built.duplicate());
    assert_eq!(manager.resume(&id), Ok(built));
}

#[test]
fn server_environment_is_set_by_key() {
    let server = McpServer::new("npx", vec!["-y", "server"])
        .with_env("A", "1")
        .with_env("B", "2")
        .with_env("A", "3");
    assert_eq!(server.name, "");
    assert_eq!(server.command, "npx");
    assert_eq!(server.args, vec!["-y".to_string(), "server".to_string()]);
    assert_eq!(
        server.env,
        vec![
            ("A".to_string(), "3".to_string()),
            ("B".to_string(), "2".to_string()),
        ]
    );
    let config = McpConfig {
        servers: vec![server.clone()],
    };
    assert_eq!(config.servers[0], server);
    assert!(McpServer::new("x", Vec::new()).args.is_empty());
}
