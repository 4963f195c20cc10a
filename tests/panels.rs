use lando_gui::appserver::AppServerUI;
use lando_gui::commands::{DispatchRequest, LandoCommandOutcome};
use lando_gui::gui::LandoGui;
use lando_gui::models::{LandoApp, LandoService};
use lando_gui::node::{DependencyType, NodeTab, NodeUI};
use lando_gui::service::{
    classify_service, is_appserver_service, is_database_service, is_node_service, ServiceType,
};

fn service(name: &str, kind: &str) -> LandoService {
    LandoService { service: name.to_string(), kind: kind.to_string(), ..Default::default() }
}

fn shell_command(r: &DispatchRequest) -> (String, String, String) {
    match r {
        DispatchRequest::ShellCommand { project_path, service, command } => {
            (project_path.clone(), service.clone(), command.clone())
        }
        other => panic!("unexpected {:?}", other),
    }
}

#[test]
fn node_defaults() {
    let ui = NodeUI::default();
    assert_eq!(ui.available_scripts, vec!["start", "dev", "build", "test", "lint"]);
    assert_eq!(ui.debug_port, "9229");
    assert_eq!(ui.current_tab, NodeTab::Scripts);
    assert_eq!(ui.dependency_type, DependencyType::Production);
}

#[test]
fn npm_script_runs_in_service() {
    let mut ui = NodeUI::default();
    let mut loading = false;
    let r = ui.run_npm_script(&service("node", "node"), &"/p".to_string(), &mut loading, "build");
    assert!(loading);
    assert_eq!(shell_command(&r), ("/p".to_string(), "node".to_string(), "npm run build".to_string()));
}

#[test]
fn npm_command_needs_input() {
    let mut ui = NodeUI::default();
    let mut loading = false;
    ui.npm_command_input = "   ".to_string();
    assert!(ui.execute_npm_command(&service("node", "node"), &"/p".to_string(), &mut loading).is_none());
    assert!(!loading);
    ui.npm_command_input = "ci".to_string();
    let r = ui.execute_npm_command(&service("node", "node"), &"/p".to_string(), &mut loading).unwrap();
    assert!(loading);
    assert_eq!(shell_command(&r).2, "npm ci");
}

#[test]
fn install_package_builds_flags() {
    let mut ui = NodeUI::default();
    let mut loading = false;
    let s = service("node", "node");
    let p = "/p".to_string();
    ui.package_name = "lodash".to_string();
    let r = ui.install_package(&s, &p, &mut loading).unwrap();
    assert_eq!(shell_command(&r).2, "npm install lodash --save");
    ui.package_version = "4.17.21".to_string();
    ui.dependency_type = DependencyType::Development;
    let r = ui.install_package(&s, &p, &mut loading).unwrap();
    assert_eq!(shell_command(&r).2, "npm install lodash@4.17.21 --save-dev");
    ui.dependency_type = DependencyType::Peer;
    assert_eq!(shell_command(&ui.install_package(&s, &p, &mut loading).unwrap()).2,
        "npm install lodash@4.17.21 --save-peer");
    ui.dependency_type = DependencyType::Optional;
    assert_eq!(shell_command(&ui.install_package(&s, &p, &mut loading).unwrap()).2,
        "npm install lodash@4.17.21 --save-optional");
    ui.package_name = String::new();
    let mut idle = false;
    assert!(ui.install_package(&s, &p, &mut idle).is_none());
    assert!(!idle);
}

#[test]
fn modules_command_by_server_type() {
    let ui = AppServerUI::default();
    assert_eq!(ui.get_list_modules_command("Apache"), "apache2ctl -M");
    assert_eq!(ui.get_list_modules_command("nginx"), "nginx -V");
    assert_eq!(ui.get_list_modules_command("PHP"), "php -m");
    assert_eq!(ui.get_list_modules_command("node"), "status");
}

#[test]
fn custom_command_is_recorded() {
    let mut ui = AppServerUI::default();
    let mut loading = false;
    let s = service("appserver", "php");
    assert!(ui.execute_custom_command(&s, &"/p".to_string(), &mut loading).is_none());
    ui.command_input = "php -v".to_string();
    let r = ui.execute_custom_command(&s, &"/p".to_string(), &mut loading).unwrap();
    assert!(loading);
    assert_eq!(shell_command(&r), ("/p".to_string(), "appserver".to_string(), "php -v".to_string()));
    assert_eq!(ui.command_history, vec!["php -v"]);
}

#[test]
fn environment_variable_needs_key_and_value() {
    let mut ui = AppServerUI::default();
    ui.new_env_key = "APP_ENV".to_string();
    ui.add_environment_variable();
    assert!(ui.environment_vars.is_empty());
    ui.new_env_value = "dev".to_string();
    ui.add_environment_variable();
    assert_eq!(ui.environment_vars, vec![("APP_ENV".to_string(), "dev".to_string())]);
    assert!(ui.new_env_key.is_empty() && ui.new_env_value.is_empty());
}

#[test]
fn services_are_classified_by_name_then_type() {
    assert_eq!(classify_service(&service("MySQL", "whatever")), ServiceType::Database);
    assert_eq!(classify_service(&service("database", "mariadb")), ServiceType::Database);
    assert_eq!(classify_service(&service("appserver", "php:8.1")), ServiceType::AppServer);
    assert_eq!(classify_service(&service("nginx", "")), ServiceType::AppServer);
    assert_eq!(classify_service(&service("yarn", "")), ServiceType::Node);
    assert_eq!(classify_service(&service("web", "Node")), ServiceType::Node);
    assert_eq!(classify_service(&service("cache", "database")), ServiceType::Database);
    assert_eq!(classify_service(&service("mailhog", "mailhog")), ServiceType::Generic);
    assert!(is_database_service(&"redis".to_string()));
    assert!(!is_database_service(&"Redis".to_string()));
    assert!(is_appserver_service(&"tomcat".to_string()));
    assert!(is_node_service(&"nodejs".to_string()));
}

#[test]
fn poll_loop_applies_outcomes() {
    let mut gui = LandoGui::new();
    assert!(gui.is_loading);
    let app = LandoApp { name: "site1".to_string(), running: true, ..Default::default() };
    let fx = gui.handle_outcome(LandoCommandOutcome::List(vec![app]));
    assert!(!gui.is_loading);
    assert!(fx.terminal_write.is_none() && fx.query_update.is_none());
    assert_eq!(gui.apps[0].name, "site1");

    gui.handle_outcome(LandoCommandOutcome::Projects(vec!["/b".to_string(), "/a".to_string()]));
    gui.handle_outcome(LandoCommandOutcome::Projects(vec!["/a".to_string(), "/c".to_string()]));
    assert_eq!(gui.projects, vec!["/a", "/b", "/c"]);

    gui.handle_outcome(LandoCommandOutcome::CommandSuccess("done".to_string()));
    assert_eq!(gui.success_message.as_deref(), Some("done"));
    gui.handle_outcome(LandoCommandOutcome::Error("bad".to_string()));
    assert_eq!(gui.error_message.as_deref(), Some("bad"));
    assert!(gui.success_message.is_none());
    assert!(gui.db_query_result.is_none());
}

#[test]
fn query_results_reach_database_panels() {
    let mut gui = LandoGui::new();
    let fx = gui.handle_outcome(LandoCommandOutcome::DbQueryResult("1 row".to_string()));
    let u = fx.query_update.unwrap();
    assert_eq!(u.text, "1 row");
    assert!(!u.has_error);
    let fx = gui.handle_outcome(LandoCommandOutcome::Error("denied".to_string()));
    let u = fx.query_update.unwrap();
    assert!(u.has_error);
    assert_eq!(gui.db_query_result.as_deref(), Some("denied"));
}

#[test]
fn log_output_respects_filter() {
    let mut gui = LandoGui::new();
    gui.terminal_filter = "warn".to_string();
    let fx = gui.handle_outcome(LandoCommandOutcome::LogOutput(b"info: ok".to_vec()));
    assert!(fx.terminal_write.is_none());
    let fx = gui.handle_outcome(LandoCommandOutcome::LogOutput(b"warn: disk".to_vec()));
    assert_eq!(fx.terminal_write, Some(b"warn: disk".to_vec()));
    assert!(gui.show_terminal_popup);
    assert_eq!(gui.log_buffer, vec!["info: ok", "warn: disk"]);
    assert_eq!(gui.reapply_terminal_filter(), vec!["warn: disk"]);
    gui.clear_terminal();
    assert!(gui.log_buffer.is_empty() && gui.terminal_filter.is_empty());
}

#[test]
fn selection_change_requests_services() {
    let mut gui = LandoGui::new();
    gui.is_loading = false;
    assert!(gui.handle_project_selection_change(None).is_none());
    gui.selected_project_path = Some("/p".to_string());
    gui.db_query_input = "SELECT 1".to_string();
    match gui.handle_project_selection_change(None) {
        Some(DispatchRequest::ProjectInfo { project_path }) => assert_eq!(project_path, "/p"),
        other => panic!("unexpected {:?}", other),
    }
    assert!(gui.is_loading && gui.db_query_input.is_empty());
    assert!(gui.handle_project_selection_change(Some("/p".to_string())).is_none());
    let reqs = gui.refresh_all();
    assert_eq!(reqs.len(), 2);
    gui.services = vec![service("database", "mysql"), service("web", "Database"), service("x", "y")];
    assert_eq!(gui.get_database_services(), vec![1]);
    gui.navigate_home();
    assert!(gui.selected_project_path.is_none() && gui.services.is_empty());
    assert_eq!(gui.refresh_all().len(), 1);
    gui.projects = vec!["/p".to_string()];
    gui.clear_projects_list();
    assert!(gui.projects.is_empty());
}
