use lando_gui::commands::{
    db_connection_test_outcome, db_query_fallback_attempt, db_query_first_attempt,
    list_apps_outcome, project_info_outcome, pump_step, request_invocation, streaming_finished,
    streaming_spawn_failed, DispatchRequest, LandoCommandOutcome, ProcessOutput, PumpStep,
    QueryStep, StreamingKind,
};
use lando_gui::models::{LandoApp, LandoService};

fn output(success: bool, stdout: &[u8], stderr: &[u8]) -> ProcessOutput {
    ProcessOutput { success, stdout: stdout.to_vec(), stderr: stderr.to_vec() }
}

fn error_text(o: &LandoCommandOutcome) -> String {
    match o {
        LandoCommandOutcome::Error(m) => m.clone(),
        other => panic!("expected an error, got {:?}", other),
    }
}

fn decode_apps(json: &[u8]) -> Result<Vec<LandoApp>, String> {
    let value: serde_json::Value = serde_json::from_slice(json).map_err(|e| e.to_string())?;
    let items = value.as_array().ok_or_else(|| "not an array".to_string())?;
    let mut apps = Vec::new();
    for item in items {
        let text = |k: &str| item.get(k).and_then(|v| v.as_str()).unwrap_or("").to_string();
        let urls = item
            .get("urls")
            .and_then(|v| v.as_array())
            .map(|a| a.iter().filter_map(|u| u.as_str().map(|s| s.to_string())).collect())
            .unwrap_or_default();
        let running = item
            .get("running")
            .and_then(|v| v.as_bool())
            .ok_or_else(|| "missing field `running`".to_string())?;
        apps.push(LandoApp { name: text("name"), location: text("location"), urls, running });
    }
    Ok(apps)
}

#[test]
fn lifecycle_success_iff_exit_success() {
    let cmd = "start".to_string();
    let ok = streaming_finished(&StreamingKind::Lifecycle, &cmd, Ok(true));
    match ok {
        LandoCommandOutcome::CommandSuccess(m) => {
            assert_eq!(m, "Comando 'start' finalizado con éxito.")
        }
        other => panic!("unexpected {:?}", other),
    }
    let failed = streaming_finished(&StreamingKind::Lifecycle, &cmd, Ok(false));
    assert_eq!(error_text(&failed), "El comando 'start' terminó con un error.");
}

#[test]
fn shell_success_iff_exit_success() {
    let cmd = "ls -la".to_string();
    assert!(matches!(
        streaming_finished(&StreamingKind::Shell, &cmd, Ok(true)),
        LandoCommandOutcome::CommandSuccess(_)
    ));
    let failed = streaming_finished(&StreamingKind::Shell, &cmd, Ok(false));
    assert_eq!(error_text(&failed), "El comando shell 'ls -la' terminó con un error.");
}

#[test]
fn wait_failure_is_reported_with_command() {
    let cmd = "rebuild".to_string();
    let o = streaming_finished(&StreamingKind::Lifecycle, &cmd, Err("interrupted".to_string()));
    assert_eq!(error_text(&o), "Error esperando el comando 'rebuild': interrupted");
    let o = streaming_finished(&StreamingKind::Shell, &cmd, Err("gone".to_string()));
    assert_eq!(error_text(&o), "Error esperando el comando ssh 'rebuild': gone");
}

#[test]
fn spawn_failures_are_errors() {
    let e = "No such file or directory".to_string();
    let o = streaming_spawn_failed(&StreamingKind::Lifecycle, &e);
    assert_eq!(error_text(&o), "No se pudo ejecutar Lando: No such file or directory");
    let o = streaming_spawn_failed(&StreamingKind::Shell, &e);
    assert_eq!(error_text(&o), "No se pudo ejecutar Lando ssh: No such file or directory");
}

#[test]
fn pump_forwards_all_bytes_in_order() {
    let reads: Vec<Result<Vec<u8>, String>> = vec![
        Ok(b"hello ".to_vec()),
        Ok(b"wor".to_vec()),
        Ok(b"ld\n".to_vec()),
        Ok(Vec::new()),
        Ok(b"never".to_vec()),
    ];
    let mut forwarded = Vec::new();
    for r in reads {
        match pump_step(r) {
            PumpStep::Forward(LandoCommandOutcome::LogOutput(b)) => forwarded.extend(b),
            PumpStep::Forward(other) => panic!("unexpected {:?}", other),
            PumpStep::Stop => break,
        }
    }
    assert_eq!(forwarded, b"hello world\n".to_vec());
}

#[test]
fn pump_stops_on_read_error() {
    assert!(matches!(pump_step(Err("broken pipe".to_string())), PumpStep::Stop));
    assert!(matches!(pump_step(Ok(Vec::new())), PumpStep::Stop));
}

#[test]
fn lifecycle_failure_streams_stderr_then_fails() {
    let mut outcomes = Vec::new();
    for r in vec![Ok(b"config error".to_vec()), Ok(Vec::new())] {
        match pump_step(r) {
            PumpStep::Forward(o) => outcomes.push(o),
            PumpStep::Stop => break,
        }
    }
    outcomes.push(streaming_finished(&StreamingKind::Lifecycle, &"start".to_string(), Ok(false)));
    let logs: Vec<u8> = outcomes
        .iter()
        .filter_map(|o| match o {
            LandoCommandOutcome::LogOutput(b) => Some(b.clone()),
            _ => None,
        })
        .flatten()
        .collect();
    assert!(String::from_utf8(logs).unwrap().contains("config error"));
    let terminals: Vec<&LandoCommandOutcome> =
        outcomes.iter().filter(|o| !matches!(o, LandoCommandOutcome::LogOutput(_))).collect();
    assert_eq!(terminals.len(), 1);
    assert!(error_text(terminals[0]).contains("start"));
    assert!(matches!(outcomes.last().unwrap(), LandoCommandOutcome::Error(_)));
}

#[test]
fn query_first_attempt_success_needs_no_retry() {
    match db_query_first_attempt(Ok(output(true, b"id\n1\n", b""))) {
        QueryStep::Done(LandoCommandOutcome::DbQueryResult(t)) => assert_eq!(t, "id\n1\n"),
        _ => panic!("expected a result"),
    }
}

#[test]
fn query_retries_once_after_failure() {
    let mut attempts = 0;
    let mut run = |success: bool| {
        attempts += 1;
        Ok(output(success, b"ok", b"access denied"))
    };
    let outcome = match db_query_first_attempt(run(false)) {
        QueryStep::Done(o) => o,
        QueryStep::Retry => db_query_fallback_attempt(run(true)),
    };
    assert_eq!(attempts, 2);
    assert!(matches!(outcome, LandoCommandOutcome::DbQueryResult(ref t) if t == "ok"));
}

#[test]
fn query_fails_only_when_both_attempts_fail() {
    assert!(matches!(
        db_query_first_attempt(Ok(output(false, b"", b"denied"))),
        QueryStep::Retry
    ));
    let o = db_query_fallback_attempt(Ok(output(false, b"", b"unknown table")));
    assert_eq!(error_text(&o), "Error ejecutando la consulta: unknown table");
}

#[test]
fn query_launch_failure_is_final() {
    match db_query_first_attempt(Err("not found".to_string())) {
        QueryStep::Done(o) => assert_eq!(error_text(&o), "No se pudo ejecutar lando db-cli: not found"),
        QueryStep::Retry => panic!("no retry after a launch failure"),
    }
}

#[test]
fn connection_test_needs_alive_marker() {
    match db_connection_test_outcome(Ok(output(true, b"mysqld is alive\n", b""))) {
        LandoCommandOutcome::DbQueryResult(t) => assert_eq!(t, "✅ Conexión exitosa"),
        other => panic!("unexpected {:?}", other),
    }
    let o = db_connection_test_outcome(Ok(output(true, b"pong", b"")));
    assert_eq!(error_text(&o), "Error de conexión (salida inesperada): pong");
    let o = db_connection_test_outcome(Ok(output(false, b"", b"refused")));
    assert_eq!(error_text(&o), "Error probando conexión: refused");
    let o = db_connection_test_outcome(Err("denied".to_string()));
    assert_eq!(error_text(&o), "No se pudo ejecutar test de conexión: denied");
}

#[test]
fn listing_reports_apps() {
    let json = br#"[{"name":"site1","location":"/a","urls":[],"running":true}]"#;
    let o = list_apps_outcome(Ok(output(true, json, b"")), decode_apps(json));
    match o {
        LandoCommandOutcome::List(apps) => {
            assert_eq!(apps.len(), 1);
            assert_eq!(apps[0].name, "site1");
            assert_eq!(apps[0].location, "/a");
            assert!(apps[0].urls.is_empty());
            assert!(apps[0].running);
        }
        other => panic!("unexpected {:?}", other),
    }
}

#[test]
fn listing_twice_gives_equal_outcomes() {
    let json = br#"[{"name":"site1","location":"/a","urls":["http://a"],"running":false}]"#;
    let first = list_apps_outcome(Ok(output(true, json, b"")), decode_apps(json));
    let second = list_apps_outcome(Ok(output(true, json, b"")), decode_apps(json));
    assert_eq!(format!("{:?}", first), format!("{:?}", second));
}

#[test]
fn listing_errors() {
    let o = list_apps_outcome(Err("not found".to_string()), Ok(Vec::new()));
    assert_eq!(error_text(&o), "No se pudo ejecutar Lando: not found");
    let o = list_apps_outcome(Ok(output(false, b"", b"boom")), Ok(Vec::new()));
    assert_eq!(error_text(&o), "Error de Lando: boom");
    let bad = b"not json";
    let o = list_apps_outcome(Ok(output(true, bad, b"")), decode_apps(bad));
    assert!(error_text(&o).starts_with("Error al parsear JSON: "));
}

#[test]
fn lossy_text_replaces_invalid_bytes() {
    let o = list_apps_outcome(Ok(output(false, b"", &[0x66, 0xff, 0x67])), Ok(Vec::new()));
    assert_eq!(error_text(&o), "Error de Lando: f\u{FFFD}g");
}

#[test]
fn introspection_outcomes() {
    let service = LandoService { service: "database".to_string(), ..Default::default() };
    match project_info_outcome(Ok(output(true, b"[]", b"")), Ok(vec![service])) {
        LandoCommandOutcome::Info(s) => assert_eq!(s[0].service, "database"),
        other => panic!("unexpected {:?}", other),
    }
    let o = project_info_outcome(Ok(output(true, b"{", b"")), Err("EOF".to_string()));
    assert_eq!(error_text(&o), "Error al parsear JSON de lando info: EOF");
    let o = project_info_outcome(Ok(output(false, b"", b"no app")), Ok(Vec::new()));
    assert_eq!(error_text(&o), "Error de Lando info: no app");
    let o = project_info_outcome(Err("x".to_string()), Ok(Vec::new()));
    assert_eq!(error_text(&o), "No se pudo ejecutar Lando info: x");
}

#[test]
fn invocations_follow_the_cli_contract() {
    let inv = request_invocation(&DispatchRequest::ListApps).unwrap();
    assert_eq!(inv.program, "lando");
    assert_eq!(inv.args, vec!["list", "--format", "json"]);
    assert!(inv.working_dir.is_none());

    let inv = request_invocation(&DispatchRequest::DbQuery {
        project_path: "/p".to_string(),
        service: "database".to_string(),
        query: "SHOW TABLES;".to_string(),
    })
    .unwrap();
    assert_eq!(inv.args, vec!["db-cli", "-s", "database", "-u", "root", "-e", "SHOW TABLES;"]);
    assert_eq!(inv.working_dir.as_deref(), Some("/p"));

    let fallback = lando_gui::commands::db_query_invocation(
        &"/p".to_string(),
        &"database".to_string(),
        &"SHOW TABLES;".to_string(),
        false,
    );
    assert_eq!(fallback.args, vec!["db-cli", "-s", "database", "-e", "SHOW TABLES;"]);

    let inv = request_invocation(&DispatchRequest::TestDbConnection {
        project_path: "/p".to_string(),
        service: "db".to_string(),
    })
    .unwrap();
    assert_eq!(inv.args, vec!["ssh", "-s", "db", "-c", "mysqladmin -u root ping"]);

    let inv = request_invocation(&DispatchRequest::LandoCommand {
        command: "poweroff".to_string(),
        project_path: "/q".to_string(),
    })
    .unwrap();
    assert_eq!(inv.args, vec!["poweroff"]);
    assert_eq!(inv.working_dir.as_deref(), Some("/q"));

    let inv =
        request_invocation(&DispatchRequest::ProjectInfo { project_path: "/q".to_string() })
            .unwrap();
    assert_eq!(inv.args, vec!["info", "--format", "json"]);

    assert!(request_invocation(&DispatchRequest::ScanProjects { root: "/".to_string() }).is_none());
}
