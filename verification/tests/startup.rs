use upload_server::startup::{
    AbortReason, ServerConfig, Startup, StartupAction, StartupError, StartupEvent, StartupPhase,
    CERT_FILE, KEY_FILE, PORT,
};

fn all_events() -> Vec<StartupEvent> {
    vec![
        StartupEvent::DirProbed { exists: true },
        StartupEvent::DirProbed { exists: false },
        StartupEvent::DirCreated,
        StartupEvent::DirCreateFailed,
        StartupEvent::TlsLoaded,
        StartupEvent::TlsLoadFailed,
    ]
}

fn after(events: &[StartupEvent]) -> Startup {
    let mut startup = Startup::new(ServerConfig::default());
    for e in events {
        startup.step(*e).unwrap();
    }
    startup
}

/// Checks that exactly the events at `taken` are taken after `prepare`, and
/// that a refused event changes nothing.
fn check_taken(prepare: &[StartupEvent], taken: &[usize], refusal: StartupError) {
    for (i, event) in all_events().into_iter().enumerate() {
        let mut startup = after(prepare);
        let phase = startup.phase();
        let expected = taken.contains(&i);
        assert_eq!(startup.expects(event), expected);
        let result = startup.step(event);
        assert_eq!(result.is_ok(), expected);
        if !expected {
            assert_eq!(result, Err(refusal));
            assert_eq!(startup.phase(), phase);
        }
    }
}

#[test]
fn standard_configuration() {
    let config = ServerConfig::default();
    assert_eq!(config.upload_dir, "./uploads");
    assert_eq!(config.cert_path, "cert.pem");
    assert_eq!(config.key_path, "key.pem");
    assert_eq!(config.bind_address, [0, 0, 0, 0]);
    assert_eq!(config.port, 5555);
    assert_eq!(config.body_limit, None);
    assert_eq!(CERT_FILE, "cert.pem");
    assert_eq!(KEY_FILE, "key.pem");
    assert_eq!(PORT, 5555);
}

#[test]
fn new_startup_probes_the_directory() {
    let startup = Startup::new(ServerConfig::default());
    assert_eq!(startup.phase(), StartupPhase::ProbingDir);
    assert!(!startup.is_over());
    assert_eq!(startup.config(), &ServerConfig::default());
}

#[test]
fn existing_directory_is_not_created() {
    let mut startup = Startup::new(ServerConfig::default());
    let action = startup.step(StartupEvent::DirProbed { exists: true });
    assert_eq!(
        action,
        Ok(StartupAction::LoadTls {
            cert_path: "cert.pem".to_string(),
            key_path: "key.pem".to_string()
        })
    );
    assert_eq!(startup.phase(), StartupPhase::LoadingTls);
}

#[test]
fn missing_directory_is_created() {
    let mut startup = Startup::new(ServerConfig::default());
    let action = startup.step(StartupEvent::DirProbed { exists: false });
    assert_eq!(action, Ok(StartupAction::CreateDir { path: "./uploads".to_string() }));
    assert_eq!(startup.phase(), StartupPhase::CreatingDir);
    let action = startup.step(StartupEvent::DirCreated);
    assert_eq!(
        action,
        Ok(StartupAction::LoadTls {
            cert_path: "cert.pem".to_string(),
            key_path: "key.pem".to_string()
        })
    );
}

#[test]
fn server_listens_once_tls_is_loaded() {
    let mut startup = after(&[StartupEvent::DirProbed { exists: true }]);
    let action = startup.step(StartupEvent::TlsLoaded);
    assert_eq!(
        action,
        Ok(StartupAction::Listen { address: [0, 0, 0, 0], port: 5555, body_limit: None })
    );
    assert_eq!(startup.phase(), StartupPhase::Listening);
    assert!(startup.is_over());
}

#[test]
fn configuration_reaches_the_actions() {
    let config = ServerConfig {
        upload_dir: "/var/in".to_string(),
        cert_path: "/etc/tls/c.pem".to_string(),
        key_path: "/etc/tls/k.pem".to_string(),
        bind_address: [127, 0, 0, 1],
        port: 8443,
        body_limit: Some(1024),
    };
    let mut startup = Startup::new(config);
    assert_eq!(
        startup.step(StartupEvent::DirProbed { exists: false }),
        Ok(StartupAction::CreateDir { path: "/var/in".to_string() })
    );
    assert_eq!(
        startup.step(StartupEvent::DirCreated),
        Ok(StartupAction::LoadTls {
            cert_path: "/etc/tls/c.pem".to_string(),
            key_path: "/etc/tls/k.pem".to_string()
        })
    );
    assert_eq!(
        startup.step(StartupEvent::TlsLoaded),
        Ok(StartupAction::Listen { address: [127, 0, 0, 1], port: 8443, body_limit: Some(1024) })
    );
}

#[test]
fn directory_that_cannot_be_created_ends_the_startup() {
    let mut startup = after(&[StartupEvent::DirProbed { exists: false }]);
    let action = startup.step(StartupEvent::DirCreateFailed);
    assert_eq!(action, Ok(StartupAction::Abort { reason: AbortReason::DirUnavailable }));
    assert_eq!(startup.phase(), StartupPhase::Aborted { reason: AbortReason::DirUnavailable });
    assert!(startup.is_over());
    for event in all_events() {
        assert_eq!(startup.step(event), Err(StartupError::Over));
        assert_eq!(startup.phase(), StartupPhase::Aborted { reason: AbortReason::DirUnavailable });
    }
}

#[test]
fn tls_that_cannot_be_loaded_ends_the_startup() {
    let mut startup = after(&[StartupEvent::DirProbed { exists: true }]);
    let action = startup.step(StartupEvent::TlsLoadFailed);
    assert_eq!(action, Ok(StartupAction::Abort { reason: AbortReason::TlsUnavailable }));
    assert_eq!(startup.phase(), StartupPhase::Aborted { reason: AbortReason::TlsUnavailable });
    for event in all_events() {
        assert_eq!(startup.step(event), Err(StartupError::Over));
    }
}

#[test]
fn probing_takes_the_probe_only() {
    check_taken(&[], &[0, 1], StartupError::Unexpected);
}

#[test]
fn creating_dir_takes_creation_results_only() {
    check_taken(&[StartupEvent::DirProbed { exists: false }], &[2, 3], StartupError::Unexpected);
}

#[test]
fn loading_tls_takes_tls_results_only() {
    check_taken(&[StartupEvent::DirProbed { exists: true }], &[4, 5], StartupError::Unexpected);
}

#[test]
fn listening_server_takes_nothing() {
    check_taken(
        &[StartupEvent::DirProbed { exists: true }, StartupEvent::TlsLoaded],
        &[],
        StartupError::Over,
    );
}
