use lando_gui::commands::DispatchRequest;
use lando_gui::database::{ConnectionStatus, DatabaseUI, MAX_HISTORY, MAX_RESULTS};
use lando_gui::models::LandoService;
use lando_gui::service::{ServiceType, ServiceUIManager};

fn service(name: &str, kind: &str) -> LandoService {
    LandoService { service: name.to_string(), kind: kind.to_string(), ..Default::default() }
}

fn query_of(r: Option<DispatchRequest>) -> String {
    match r {
        Some(DispatchRequest::DbQuery { query, .. }) => query,
        other => panic!("unexpected {:?}", other),
    }
}

#[test]
fn rows_affected_comes_from_first_numeric_line() {
    let ui = DatabaseUI::default();
    assert_eq!(ui.extract_rows_affected("Query OK, 5 rows affected"), None);
    assert_eq!(ui.extract_rows_affected("header\n  42 rows in set\n7 more"), Some(42));
    assert_eq!(ui.extract_rows_affected("-3 rows"), Some(-3));
    assert_eq!(ui.extract_rows_affected("99999999999 rows\n+8 row"), Some(8));
    assert_eq!(ui.extract_rows_affected("12 items"), None);
    assert_eq!(ui.extract_rows_affected(""), None);
}

#[test]
fn tables_are_parsed_from_listing() {
    let mut ui = DatabaseUI::default();
    let listing = "+----------+\n| Tables   |\n+----------+\nusers\n  orders  extra\n\n-- note\r\nposts\r\n";
    ui.parse_tables_from_result(listing);
    let names: Vec<&str> = ui.tables.iter().map(|t| t.name.as_str()).collect();
    assert_eq!(names, vec!["users", "orders", "posts"]);
    assert!(ui.tables.iter().all(|t| t.table_type == "table" && t.columns.is_empty()));
}

#[test]
fn execute_query_records_history_and_placeholder() {
    let mut ui = DatabaseUI::default();
    let s = service("database", "mysql");
    let p = "/p".to_string();
    let mut loading = false;
    assert!(ui.execute_query(&s, &p, &mut loading, 100).is_none());
    assert!(!loading);
    ui.query_input = "SELECT 1".to_string();
    assert_eq!(query_of(ui.execute_query(&s, &p, &mut loading, 100)), "SELECT 1");
    assert!(loading);
    assert_eq!(ui.query_history, vec!["SELECT 1"]);
    assert_eq!(ui.query_results.len(), 1);
    assert_eq!(ui.query_results[0].result, "Ejecutando consulta...");
    assert_eq!(ui.query_results[0].timestamp, 100);
    ui.execute_query(&s, &p, &mut loading, 101);
    assert_eq!(ui.query_history.len(), 1);
    assert_eq!(ui.current_result_index, 1);
}

#[test]
fn history_keeps_the_latest_queries() {
    let mut ui = DatabaseUI::default();
    let s = service("database", "mysql");
    let mut loading = false;
    for i in 0..(MAX_HISTORY + 2) {
        ui.query_input = format!("SELECT {}", i);
        ui.execute_query(&s, &"/p".to_string(), &mut loading, 0);
    }
    assert_eq!(ui.query_history.len(), MAX_HISTORY);
    assert_eq!(ui.query_history[0], "SELECT 2");
}

#[test]
fn results_are_updated_and_capped() {
    let mut ui = DatabaseUI::default();
    ui.query_input = "SHOW TABLES;".to_string();
    ui.update_query_result("1 row in set".to_string(), false, 7);
    assert_eq!(ui.query_results.len(), 1);
    assert_eq!(ui.query_results[0].query, "SHOW TABLES;");
    assert_eq!(ui.query_results[0].rows_affected, Some(1));
    assert_eq!(ui.query_results[0].execution_time, 0);

    let s = service("database", "mysql");
    let mut loading = false;
    ui.execute_query(&s, &"/p".to_string(), &mut loading, 10);
    ui.update_query_result("done".to_string(), true, 13);
    let last = ui.query_results.last().unwrap();
    assert_eq!(last.execution_time, 3000);
    assert!(last.has_error);
    assert_eq!(last.result, "done");

    for t in 0..(MAX_RESULTS as u64 + 5) {
        ui.query_input = format!("SELECT {}", t);
        ui.execute_query(&s, &"/p".to_string(), &mut loading, t);
        ui.update_query_result("ok".to_string(), false, t);
    }
    assert!(ui.query_results.len() <= MAX_RESULTS);
    assert!(ui.current_result_index < ui.query_results.len());
}

#[test]
fn query_result_sets_status_and_tables() {
    let mut ui = DatabaseUI::default();
    let s = service("database", "mysql");
    let mut loading = false;
    ui.refresh_schema(&s, &"/p".to_string(), &mut loading, 1).unwrap();
    assert_eq!(ui.query_results.last().unwrap().query, "Schema refresh");
    ui.query_results.last_mut().unwrap().query = "SHOW TABLES;".to_string();
    ui.process_query_result("users\nposts".to_string(), false, 2);
    assert_eq!(ui.tables.len(), 2);
    assert_eq!(ui.connection_status, ConnectionStatus::Connected);
    ui.process_query_result("denied".to_string(), true, 3);
    assert_eq!(ui.connection_status, ConnectionStatus::Error("Error en la consulta: denied".to_string()));
}

#[test]
fn schema_refresh_waits_while_busy() {
    let mut ui = DatabaseUI::default();
    let mut loading = true;
    assert!(ui.refresh_schema(&service("db", "postgres"), &"/p".to_string(), &mut loading, 0).is_none());
    let mut idle = false;
    let q = query_of(ui.refresh_schema(&service("db", "Postgres"), &"/p".to_string(), &mut idle, 0));
    assert_eq!(q, "SELECT tablename FROM pg_tables WHERE schemaname = 'public';");
}

#[test]
fn table_page_query() {
    let mut ui = DatabaseUI::default();
    let s = service("db", "mysql");
    let mut loading = false;
    assert!(ui.load_table_data(&s, &"/p".to_string(), &mut loading, 0).is_none());
    ui.current_table = "users".to_string();
    ui.table_page = 2;
    let q = query_of(ui.load_table_data(&s, &"/p".to_string(), &mut loading, 0));
    assert_eq!(q, "SELECT * FROM users LIMIT 50 OFFSET 100");
    let mut loading = false;
    ui.table_filter = "id > 3".to_string();
    ui.table_page = 0;
    let q = query_of(ui.load_table_data(&s, &"/p".to_string(), &mut loading, 0));
    assert_eq!(q, "SELECT * FROM users WHERE id > 3 LIMIT 50 OFFSET 0");
    let mut loading = false;
    ui.table_page = usize::MAX;
    ui.table_limit = 10;
    let q = query_of(ui.load_table_data(&s, &"/p".to_string(), &mut loading, 0));
    assert!(q.ends_with(&format!("LIMIT 10 OFFSET {}", (usize::MAX as u128) * 10)));
}

#[test]
fn explain_keeps_the_typed_query() {
    let mut ui = DatabaseUI::default();
    ui.query_input = "  SELECT * FROM t  ".to_string();
    let mut loading = false;
    let q = query_of(ui.explain_query(&service("db", "mysql"), &"/p".to_string(), &mut loading, 0));
    assert_eq!(q, "EXPLAIN SELECT * FROM t");
    assert_eq!(ui.query_input, "  SELECT * FROM t  ");
    assert_eq!(ui.query_history, vec!["EXPLAIN SELECT * FROM t"]);
}

#[test]
fn maintenance_statements_by_engine() {
    let mut ui = DatabaseUI::default();
    let p = "/p".to_string();
    let mut loading = false;
    let q = ui.optimize_database(&service("db", "MariaDB"), &p, &mut loading);
    assert_eq!(query_of(q), "OPTIMIZE TABLE;");
    let mut loading = false;
    let q = ui.optimize_database(&service("db", "postgres"), &p, &mut loading);
    assert_eq!(query_of(q), "VACUUM ANALYZE;");
    let mut loading = false;
    let q = ui.repair_database(&service("db", "sqlite"), &p, &mut loading);
    assert_eq!(query_of(q), "REINDEX;");
    let mut loading = false;
    let q = ui.analyze_database(&service("db", "mongo"), &p, &mut loading);
    assert_eq!(query_of(q), "ANALYZE TABLE;");
    let mut busy = true;
    assert!(ui.analyze_database(&service("db", "mysql"), &p, &mut busy).is_none());
    let mut loading = false;
    match ui.backup_database(&service("db", "mysql"), &p, &mut loading) {
        Some(DispatchRequest::LandoCommand { command, .. }) => assert_eq!(command, "db-export -s db"),
        other => panic!("unexpected {:?}", other),
    }
}

#[test]
fn credentials_command() {
    let mut ui = DatabaseUI::default();
    ui.new_user = "u".to_string();
    ui.new_password = "p".to_string();
    ui.new_database = "d".to_string();
    let mut loading = false;
    match ui.update_credentials(&service("db", "mysql"), &"/p".to_string(), &mut loading) {
        Some(DispatchRequest::LandoCommand { command, project_path }) => {
            assert_eq!(
                command,
                "config --set database.creds.user=u --set database.creds.password=p --set database.creds.database=d"
            );
            assert_eq!(project_path, "/p");
        }
        other => panic!("unexpected {:?}", other),
    }
}

#[test]
fn connection_test_marks_testing() {
    let mut ui = DatabaseUI::default();
    let mut loading = false;
    let r = ui.test_connection(&service("db", "mysql"), &"/p".to_string(), &mut loading);
    assert!(matches!(r, Some(DispatchRequest::TestDbConnection { .. })));
    assert_eq!(ui.connection_status, ConnectionStatus::Testing);
}

#[test]
fn templates_and_validity() {
    let mut ui = DatabaseUI::default();
    assert_eq!(ui.get_sql_templates("MySQL").len(), 18);
    assert_eq!(ui.get_sql_templates("postgres").len(), 18);
    assert_eq!(ui.get_sql_templates("sqlite").len(), 17);
    assert_eq!(ui.get_sql_templates("mongo").len(), 11);
    assert_eq!(ui.get_sql_templates("sqlite")[2].1, "SELECT name FROM sqlite_master WHERE type='table';");
    assert_eq!(ui.get_describe_template("postgresql"), "\\d table_name");
    assert_eq!(ui.get_show_tables_query("MariaDB"), "SHOW TABLES;");
    assert!(ui.is_valid_sql("  Select * from t"));
    assert!(!ui.is_valid_sql("   "));
    assert!(!ui.is_valid_sql("hello"));
    assert_eq!(ui.get_editor_rows(), 12);
    ui.split_view = true;
    assert_eq!(ui.get_editor_rows(), 8);
    ui.insert_template("SELECT 1;");
    ui.insert_template("SELECT 2;");
    assert_eq!(ui.query_input, "SELECT 1;\n\nSELECT 2;");
}

#[test]
fn query_formatting() {
    let mut ui = DatabaseUI::default();
    ui.query_input = "SELECT a,b FROM t WHERE x ORDER BY a GROUP BY b".to_string();
    ui.format_query();
    assert_eq!(ui.query_input, "SELECT a,\n    b\nFROM t\nWHERE x\nORDER BY a\nGROUP BY b");
}

#[test]
fn panels_are_made_once_per_service() {
    let mut m = ServiceUIManager::default();
    assert_eq!(m.ensure_panel(&service("database", "mysql:8.0")), ServiceType::Database);
    assert_eq!(m.ensure_panel(&service("database", "mysql:8.0")), ServiceType::Database);
    assert_eq!(m.database_uis.len(), 1);
    assert_eq!(m.database_uis[0].0, "database_mysql:8.0");
    assert_eq!(m.ensure_panel(&service("web", "node")), ServiceType::Node);
    assert_eq!(m.ensure_panel(&service("mail", "mailhog")), ServiceType::Generic);
    assert_eq!(m.node_uis.len(), 1);
    assert!(m.is_database_service("postgres"));
    m.database_uis[0].1.query_input = "SELECT 1".to_string();
    m.process_query_result(&"1 row".to_string(), false, 5);
    assert_eq!(m.database_uis[0].1.query_results[0].result, "1 row");
    assert_eq!(m.database_uis[0].1.connection_status, ConnectionStatus::Connected);
}
