use vstd::prelude::*;

use crate::commands::{is_shell_request, DispatchRequest};
use crate::models::LandoService;
use crate::text::{has_content, is_blank, lowercased, to_lowercase};

verus! {

/// Working state of the application-server panel of a service.
pub struct AppServerUI {
    pub command_input: String,
    pub command_history: Vec<String>,
    pub logs_output: String,
    pub config_content: String,
    pub selected_config_file: String,
    pub available_configs: Vec<String>,
    pub service_status: ServiceStatus,
    pub auto_refresh_logs: bool,
    pub log_level_filter: LogLevel,
    pub current_tab: AppServerTab,
    pub restart_in_progress: bool,
    pub environment_vars: Vec<(String, String)>,
    pub new_env_key: String,
    pub new_env_value: String,
}

#[derive(Debug, Clone, PartialEq)]
pub enum ServiceStatus {
    Running,
    Stopped,
    Error(String),
    Unknown,
}

#[derive(Debug, Clone, Copy, PartialEq, Eq, Structural)]
pub enum LogLevel {
    All,
    Error,
    Warning,
    Info,
    Debug,
}

#[derive(Debug, Clone, Copy, PartialEq, Eq, Structural)]
pub enum AppServerTab {
    Control,
    Logs,
    Configuration,
    Environment,
    Monitoring,
}

/// The command that lists the modules of a server, by its lower-cased type.
pub open spec fn modules_command(server_type: Seq<char>) -> Seq<char> {
    if server_type == "apache"@ {
        "apache2ctl -M"@
    } else if server_type == "nginx"@ {
        "nginx -V"@
    } else if server_type == "php"@ {
        "php -m"@
    } else {
        "status"@
    }
}

/// The texts of a list of key/value pairs.
pub open spec fn pairs_view(v: Seq<(String, String)>) -> Seq<(Seq<char>, Seq<char>)> {
    v.map_values(|p: (String, String)| (p.0@, p.1@))
}

impl Default for AppServerUI {
    fn default() -> (r: Self)
        ensures
            r.command_input@.len() == 0,
            r.command_history@.len() == 0,
            r.available_configs.deep_view() == seq![
                "apache.conf"@,
                "nginx.conf"@,
                "php.ini"@,
                ".htaccess"@,
            ],
            r.service_status is Unknown,
            !r.auto_refresh_logs,
            r.log_level_filter == LogLevel::All,
            r.current_tab == AppServerTab::Control,
            !r.restart_in_progress,
            r.environment_vars@.len() == 0,
            r.new_env_key@.len() == 0,
            r.new_env_value@.len() == 0,
    {
        let configs = vec![
            String::from_str("apache.conf"),
            String::from_str("nginx.conf"),
            String::from_str("php.ini"),
            String::from_str(".htaccess"),
        ];
        let r = AppServerUI {
            command_input: String::new(),
            command_history: Vec::new(),
            logs_output: String::new(),
            config_content: String::new(),
            selected_config_file: String::new(),
            available_configs: configs,
            service_status: ServiceStatus::Unknown,
            auto_refresh_logs: false,
            log_level_filter: LogLevel::All,
            current_tab: AppServerTab::Control,
            restart_in_progress: false,
            environment_vars: Vec::new(),
            new_env_key: String::new(),
            new_env_value: String::new(),
        };
        assert(r.available_configs.deep_view() =~= seq![
            "apache.conf"@,
            "nginx.conf"@,
            "php.ini"@,
            ".htaccess"@,
        ]);
        r
    }
}

impl AppServerUI {
    /// The command that lists the modules of a server of the given type,
    /// whatever its case.
    pub fn get_list_modules_command(&self, server_type: &str) -> (r: String)
        ensures
            r@ == modules_command(lowercased(server_type@)),
    {
        let t = to_lowercase(server_type);
        if t.eq(&String::from_str("apache")) {
            String::from_str("apache2ctl -M")
        } else if t.eq(&String::from_str("nginx")) {
            String::from_str("nginx -V")
        } else if t.eq(&String::from_str("php")) {
            String::from_str("php -m")
        } else {
            String::from_str("status")
        }
    }

    /// Runs the typed command in the service when it holds one, and records
    /// it in the history.
    pub fn execute_custom_command(
        &mut self,
        service: &LandoService,
        project_path: &String,
        is_loading: &mut bool,
    ) -> (r: Option<DispatchRequest>)
        ensures
            has_content(old(self).command_input@) ==> *final(is_loading) && r is Some
                && is_shell_request(
                r->0,
                project_path@,
                service.service@,
                old(self).command_input@,
            ) && final(self).command_history.deep_view() == old(
                self,
            ).command_history.deep_view().push(old(self).command_input@) && (AppServerUI {
                command_history: old(self).command_history,
                ..*final(self)
            }) == *old(self),
            !has_content(old(self).command_input@) ==> *final(is_loading) == *old(is_loading)
                && r is None && *final(self) == *old(self),
    {
        if is_blank(self.command_input.as_str()) {
            return None;
        }
        *is_loading = true;
        let ghost before = *self;
        self.command_history.push(self.command_input.clone());
        proof {
            assert(self.command_history.deep_view() =~= before.command_history.deep_view().push(
                before.command_input@,
            ));
        }
        Some(
            DispatchRequest::ShellCommand {
                project_path: project_path.clone(),
                service: service.service.clone(),
                command: self.command_input.clone(),
            },
        )
    }

    /// Adds the typed variable to the list and clears the inputs, when both
    /// key and value are given.
    pub fn add_environment_variable(&mut self)
        ensures
            old(self).new_env_key@.len() > 0 && old(self).new_env_value@.len() > 0 ==> pairs_view(
                final(self).environment_vars@,
            ) == pairs_view(old(self).environment_vars@).push(
                (old(self).new_env_key@, old(self).new_env_value@),
            ) && final(self).new_env_key@.len() == 0 && final(self).new_env_value@.len() == 0
                && (AppServerUI {
                environment_vars: old(self).environment_vars,
                new_env_key: old(self).new_env_key,
                new_env_value: old(self).new_env_value,
                ..*final(self)
            }) == *old(self),
            !(old(self).new_env_key@.len() > 0 && old(self).new_env_value@.len() > 0)
                ==> *final(self) == *old(self),
    {
        if !self.new_env_key.as_str().is_empty() && !self.new_env_value.as_str().is_empty() {
            let ghost before = *self;
            self.environment_vars.push((self.new_env_key.clone(), self.new_env_value.clone()));
            self.new_env_key = String::new();
            self.new_env_value = String::new();
            proof {
                assert(pairs_view(self.environment_vars@) =~= pairs_view(
                    before.environment_vars@,
                ).push((before.new_env_key@, before.new_env_value@)));
            }
        }
    }

    // The panel's remaining actions start nothing yet and change nothing.

    pub fn refresh_service_status(&mut self)
        ensures
            *final(self) == *old(self),
    {
    }

    pub fn restart_service(&mut self)
        ensures
            *final(self) == *old(self),
    {
    }

    pub fn start_service(&mut self)
        ensures
            *final(self) == *old(self),
    {
    }

    pub fn stop_service(&mut self)
        ensures
            *final(self) == *old(self),
    {
    }

    pub fn export_logs(&mut self)
        ensures
            *final(self) == *old(self),
    {
    }

    pub fn restart_service_with_feedback(
        &mut self,
        _service: &LandoService,
        _project_path: &String,
        _is_loading: &mut bool,
    )
        ensures
            *final(self) == *old(self),
            *final(_is_loading) == *old(_is_loading),
    {
    }

    pub fn stop_service_with_feedback(
        &mut self,
        _service: &LandoService,
        _project_path: &String,
        _is_loading: &mut bool,
    )
        ensures
            *final(self) == *old(self),
            *final(_is_loading) == *old(_is_loading),
    {
    }

    pub fn start_service_with_feedback(
        &mut self,
        _service: &LandoService,
        _project_path: &String,
        _is_loading: &mut bool,
    )
        ensures
            *final(self) == *old(self),
            *final(_is_loading) == *old(_is_loading),
    {
    }

    pub fn reload_configuration(
        &mut self,
        _service: &LandoService,
        _project_path: &String,
        _is_loading: &mut bool,
    )
        ensures
            *final(self) == *old(self),
            *final(_is_loading) == *old(_is_loading),
    {
    }

    pub fn clear_cache(
        &mut self,
        _service: &LandoService,
        _project_path: &String,
        _is_loading: &mut bool,
    )
        ensures
            *final(self) == *old(self),
            *final(_is_loading) == *old(_is_loading),
    {
    }

    pub fn test_connection(
        &mut self,
        _service: &LandoService,
        _project_path: &String,
        _is_loading: &mut bool,
    )
        ensures
            *final(self) == *old(self),
            *final(_is_loading) == *old(_is_loading),
    {
    }

    pub fn refresh_logs(
        &mut self,
        _service: &LandoService,
        _project_path: &String,
        _is_loading: &mut bool,
    )
        ensures
            *final(self) == *old(self),
            *final(_is_loading) == *old(_is_loading),
    {
    }

    pub fn load_config_file(
        &mut self,
        _service: &LandoService,
        _project_path: &String,
        _is_loading: &mut bool,
    )
        ensures
            *final(self) == *old(self),
            *final(_is_loading) == *old(_is_loading),
    {
    }

    pub fn save_config_file(
        &mut self,
        _service: &LandoService,
        _project_path: &String,
        _is_loading: &mut bool,
    )
        ensures
            *final(self) == *old(self),
            *final(_is_loading) == *old(_is_loading),
    {
    }

    pub fn backup_config_file(
        &mut self,
        _service: &LandoService,
        _project_path: &String,
        _is_loading: &mut bool,
    )
        ensures
            *final(self) == *old(self),
            *final(_is_loading) == *old(_is_loading),
    {
    }

    pub fn validate_config(
        &mut self,
        _service: &LandoService,
        _project_path: &String,
        _is_loading: &mut bool,
    )
        ensures
            *final(self) == *old(self),
            *final(_is_loading) == *old(_is_loading),
    {
    }

    pub fn test_config(
        &mut self,
        _service: &LandoService,
        _project_path: &String,
        _is_loading: &mut bool,
    )
        ensures
            *final(self) == *old(self),
            *final(_is_loading) == *old(_is_loading),
    {
    }

    pub fn apply_environment_changes(
        &mut self,
        _service: &LandoService,
        _project_path: &String,
        _is_loading: &mut bool,
    )
        ensures
            *final(self) == *old(self),
            *final(_is_loading) == *old(_is_loading),
    {
    }

    pub fn reload_environment_variables(
        &mut self,
        _service: &LandoService,
        _project_path: &String,
        _is_loading: &mut bool,
    )
        ensures
            *final(self) == *old(self),
            *final(_is_loading) == *old(_is_loading),
    {
    }

    pub fn get_server_stats(
        &mut self,
        _service: &LandoService,
        _project_path: &String,
        _is_loading: &mut bool,
    )
        ensures
            *final(self) == *old(self),
            *final(_is_loading) == *old(_is_loading),
    {
    }

    pub fn get_active_connections(
        &mut self,
        _service: &LandoService,
        _project_path: &String,
        _is_loading: &mut bool,
    )
        ensures
            *final(self) == *old(self),
            *final(_is_loading) == *old(_is_loading),
    {
    }

    pub fn get_performance_metrics(
        &mut self,
        _service: &LandoService,
        _project_path: &String,
        _is_loading: &mut bool,
    )
        ensures
            *final(self) == *old(self),
            *final(_is_loading) == *old(_is_loading),
    {
    }

    pub fn show_access_logs(
        &mut self,
        _service: &LandoService,
        _project_path: &String,
        _is_loading: &mut bool,
    )
        ensures
            *final(self) == *old(self),
            *final(_is_loading) == *old(_is_loading),
    {
    }

    pub fn show_error_logs(
        &mut self,
        _service: &LandoService,
        _project_path: &String,
        _is_loading: &mut bool,
    )
        ensures
            *final(self) == *old(self),
            *final(_is_loading) == *old(_is_loading),
    {
    }

    pub fn show_debug_logs(
        &mut self,
        _service: &LandoService,
        _project_path: &String,
        _is_loading: &mut bool,
    )
        ensures
            *final(self) == *old(self),
            *final(_is_loading) == *old(_is_loading),
    {
    }

    pub fn show_config_diff(
        &mut self,
        _service: &LandoService,
        _project_path: &String,
        _is_loading: &mut bool,
    )
        ensures
            *final(self) == *old(self),
            *final(_is_loading) == *old(_is_loading),
    {
    }
}

} // verus!
