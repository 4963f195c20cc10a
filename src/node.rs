use vstd::prelude::*;

use crate::commands::{is_shell_request, DispatchRequest};
use crate::models::LandoService;
use crate::text::{concat, concat3, has_content, is_blank};

verus! {

/// Working state of the Node.js panel of a service.
pub struct NodeUI {
    pub command_input: String,
    pub command_history: Vec<String>,
    pub npm_command_input: String,
    pub package_name: String,
    pub package_version: String,
    pub script_name: String,
    pub installed_packages: Vec<PackageInfo>,
    pub available_scripts: Vec<String>,
    pub logs_output: String,
    pub debug_port: String,
    pub current_tab: NodeTab,
    pub node_version: String,
    pub npm_version: String,
    pub package_json_content: String,
    pub dependency_type: DependencyType,
    pub show_dev_dependencies: bool,
    pub show_global_packages: bool,
    pub environment_mode: EnvironmentMode,
    pub pm2_processes: Vec<PM2Process>,
}

#[derive(Debug, Clone, PartialEq)]
pub struct PackageInfo {
    pub name: String,
    pub version: String,
    pub description: Option<String>,
    pub is_dev_dependency: bool,
    pub is_outdated: bool,
}

#[derive(Debug, Clone, PartialEq)]
pub struct PM2Process {
    pub name: String,
    pub id: u32,
    pub status: String,
    pub cpu: String,
    pub memory: String,
    pub uptime: String,
}

#[derive(Debug, Clone, Copy, PartialEq, Eq, Structural)]
pub enum NodeTab {
    Scripts,
    Packages,
    Debug,
    Environment,
    PM2,
    Logs,
}

#[derive(Debug, Clone, Copy, PartialEq, Eq, Structural)]
pub enum DependencyType {
    Production,
    Development,
    Peer,
    Optional,
}

#[derive(Debug, Clone, PartialEq)]
pub enum EnvironmentMode {
    Development,
    Production,
    Test,
    Custom(String),
}

/// The flag of `npm install` that records a dependency of this kind.
pub open spec fn save_flag(d: DependencyType) -> Seq<char> {
    match d {
        DependencyType::Development => " --save-dev"@,
        DependencyType::Peer => " --save-peer"@,
        DependencyType::Optional => " --save-optional"@,
        DependencyType::Production => " --save"@,
    }
}

/// The `npm install` command for a package, an optional version and a
/// dependency kind.
pub open spec fn install_command(name: Seq<char>, version: Seq<char>, d: DependencyType) -> Seq<
    char,
> {
    "npm install "@ + name + (if version.len() > 0 {
        "@"@ + version
    } else {
        Seq::empty()
    }) + save_flag(d)
}

fn flag_of(d: DependencyType) -> (r: &'static str)
    ensures
        r@ == save_flag(d),
{
    match d {
        DependencyType::Development => " --save-dev",
        DependencyType::Peer => " --save-peer",
        DependencyType::Optional => " --save-optional",
        DependencyType::Production => " --save",
    }
}

impl Default for NodeUI {
    fn default() -> (r: Self)
        ensures
            r.command_input@.len() == 0,
            r.command_history@.len() == 0,
            r.npm_command_input@.len() == 0,
            r.package_name@.len() == 0,
            r.package_version@.len() == 0,
            r.available_scripts.deep_view() == seq!["start"@, "dev"@, "build"@, "test"@, "lint"@],
            r.debug_port@ == "9229"@,
            r.current_tab == NodeTab::Scripts,
            r.node_version@ == "N/A"@,
            r.npm_version@ == "N/A"@,
            r.dependency_type == DependencyType::Production,
            r.show_dev_dependencies,
            !r.show_global_packages,
            r.environment_mode is Development,
            r.installed_packages@.len() == 0,
            r.pm2_processes@.len() == 0,
    {
        let scripts = vec![
            String::from_str("start"),
            String::from_str("dev"),
            String::from_str("build"),
            String::from_str("test"),
            String::from_str("lint"),
        ];
        let r = NodeUI {
            command_input: String::new(),
            command_history: Vec::new(),
            npm_command_input: String::new(),
            package_name: String::new(),
            package_version: String::new(),
            script_name: String::new(),
            installed_packages: Vec::new(),
            available_scripts: scripts,
            logs_output: String::new(),
            debug_port: String::from_str("9229"),
            current_tab: NodeTab::Scripts,
            node_version: String::from_str("N/A"),
            npm_version: String::from_str("N/A"),
            package_json_content: String::new(),
            dependency_type: DependencyType::Production,
            show_dev_dependencies: true,
            show_global_packages: false,
            environment_mode: EnvironmentMode::Development,
            pm2_processes: Vec::new(),
        };
        assert(r.available_scripts.deep_view() =~= seq![
            "start"@,
            "dev"@,
            "build"@,
            "test"@,
            "lint"@,
        ]);
        r
    }
}

impl NodeUI {
    /// Runs `npm run <script>` in the service and marks the panel busy.
    pub fn run_npm_script(
        &mut self,
        service: &LandoService,
        project_path: &String,
        is_loading: &mut bool,
        script: &str,
    ) -> (r: DispatchRequest)
        ensures
            *final(self) == *old(self),
            *final(is_loading),
            is_shell_request(r, project_path@, service.service@, "npm run "@ + script@),
    {
        *is_loading = true;
        DispatchRequest::ShellCommand {
            project_path: project_path.clone(),
            service: service.service.clone(),
            command: concat("npm run ", script),
        }
    }

    /// Runs `npm <input>` in the service when the input holds a command.
    pub fn execute_npm_command(
        &mut self,
        service: &LandoService,
        project_path: &String,
        is_loading: &mut bool,
    ) -> (r: Option<DispatchRequest>)
        ensures
            *final(self) == *old(self),
            has_content(old(self).npm_command_input@) ==> *final(is_loading) && r is Some
                && is_shell_request(
                r->0,
                project_path@,
                service.service@,
                "npm "@ + old(self).npm_command_input@,
            ),
            !has_content(old(self).npm_command_input@) ==> *final(is_loading) == *old(is_loading)
                && r is None,
    {
        if is_blank(self.npm_command_input.as_str()) {
            return None;
        }
        *is_loading = true;
        Some(
            DispatchRequest::ShellCommand {
                project_path: project_path.clone(),
                service: service.service.clone(),
                command: concat("npm ", self.npm_command_input.as_str()),
            },
        )
    }

    /// Installs the chosen package, at the chosen version if one is given,
    /// recorded as the chosen kind of dependency.
    pub fn install_package(
        &mut self,
        service: &LandoService,
        project_path: &String,
        is_loading: &mut bool,
    ) -> (r: Option<DispatchRequest>)
        ensures
            *final(self) == *old(self),
            has_content(old(self).package_name@) ==> *final(is_loading) && r is Some && is_shell_request(
                r->0,
                project_path@,
                service.service@,
                install_command(old(self).package_name@, old(self).package_version@, old(self).dependency_type),
            ),
            !has_content(old(self).package_name@) ==> *final(is_loading) == *old(is_loading) && r is None,
    {
        if is_blank(self.package_name.as_str()) {
            return None;
        }
        *is_loading = true;
        let version_part = if !self.package_version.as_str().is_empty() {
            concat("@", self.package_version.as_str())
        } else {
            String::new()
        };
        let flag = flag_of(self.dependency_type);
        let command = concat(
            concat3("npm install ", self.package_name.as_str(), version_part.as_str()).as_str(),
            flag,
        );
        Some(
            DispatchRequest::ShellCommand {
                project_path: project_path.clone(),
                service: service.service.clone(),
                command,
            },
        )
    }

    // The panel's remaining actions start nothing yet and change nothing.

    pub fn load_package_json(
        &mut self,
        _service: &LandoService,
        _project_path: &String,
        _is_loading: &mut bool,
    )
        ensures
            *final(self) == *old(self),
            *final(_is_loading) == *old(_is_loading),
    {
    }

    pub fn save_package_json(
        &mut self,
        _service: &LandoService,
        _project_path: &String,
        _is_loading: &mut bool,
    )
        ensures
            *final(self) == *old(self),
            *final(_is_loading) == *old(_is_loading),
    {
    }

    pub fn search_package(
        &mut self,
        _service: &LandoService,
        _project_path: &String,
        _is_loading: &mut bool,
    )
        ensures
            *final(self) == *old(self),
            *final(_is_loading) == *old(_is_loading),
    {
    }

    pub fn refresh_packages_list(
        &mut self,
        _service: &LandoService,
        _project_path: &String,
        _is_loading: &mut bool,
    )
        ensures
            *final(self) == *old(self),
            *final(_is_loading) == *old(_is_loading),
    {
    }

    pub fn uninstall_package(
        &mut self,
        _service: &LandoService,
        _project_path: &String,
        _is_loading: &mut bool,
        _package: &str,
    )
        ensures
            *final(self) == *old(self),
            *final(_is_loading) == *old(_is_loading),
    {
    }

    pub fn update_package(
        &mut self,
        _service: &LandoService,
        _project_path: &String,
        _is_loading: &mut bool,
        _package: &str,
    )
        ensures
            *final(self) == *old(self),
            *final(_is_loading) == *old(_is_loading),
    {
    }

    pub fn start_debug_session(
        &mut self,
        _service: &LandoService,
        _project_path: &String,
        _is_loading: &mut bool,
    )
        ensures
            *final(self) == *old(self),
            *final(_is_loading) == *old(_is_loading),
    {
    }

    pub fn start_inspector(
        &mut self,
        _service: &LandoService,
        _project_path: &String,
        _is_loading: &mut bool,
    )
        ensures
            *final(self) == *old(self),
            *final(_is_loading) == *old(_is_loading),
    {
    }

    pub fn start_profiling(
        &mut self,
        _service: &LandoService,
        _project_path: &String,
        _is_loading: &mut bool,
    )
        ensures
            *final(self) == *old(self),
            *final(_is_loading) == *old(_is_loading),
    {
    }

    pub fn run_eslint(
        &mut self,
        _service: &LandoService,
        _project_path: &String,
        _is_loading: &mut bool,
    )
        ensures
            *final(self) == *old(self),
            *final(_is_loading) == *old(_is_loading),
    {
    }

    pub fn run_prettier(
        &mut self,
        _service: &LandoService,
        _project_path: &String,
        _is_loading: &mut bool,
    )
        ensures
            *final(self) == *old(self),
            *final(_is_loading) == *old(_is_loading),
    {
    }

    pub fn run_tests(
        &mut self,
        _service: &LandoService,
        _project_path: &String,
        _is_loading: &mut bool,
    )
        ensures
            *final(self) == *old(self),
            *final(_is_loading) == *old(_is_loading),
    {
    }

    pub fn run_coverage(
        &mut self,
        _service: &LandoService,
        _project_path: &String,
        _is_loading: &mut bool,
    )
        ensures
            *final(self) == *old(self),
            *final(_is_loading) == *old(_is_loading),
    {
    }

    pub fn show_npm_config(
        &mut self,
        _service: &LandoService,
        _project_path: &String,
        _is_loading: &mut bool,
    )
        ensures
            *final(self) == *old(self),
            *final(_is_loading) == *old(_is_loading),
    {
    }

    pub fn edit_npm_config(
        &mut self,
        _service: &LandoService,
        _project_path: &String,
        _is_loading: &mut bool,
    )
        ensures
            *final(self) == *old(self),
            *final(_is_loading) == *old(_is_loading),
    {
    }

    pub fn refresh_pm2_processes(
        &mut self,
        _service: &LandoService,
        _project_path: &String,
        _is_loading: &mut bool,
    )
        ensures
            *final(self) == *old(self),
            *final(_is_loading) == *old(_is_loading),
    {
    }

    pub fn pm2_start(
        &mut self,
        _service: &LandoService,
        _project_path: &String,
        _is_loading: &mut bool,
    )
        ensures
            *final(self) == *old(self),
            *final(_is_loading) == *old(_is_loading),
    {
    }

    pub fn pm2_stop_all(
        &mut self,
        _service: &LandoService,
        _project_path: &String,
        _is_loading: &mut bool,
    )
        ensures
            *final(self) == *old(self),
            *final(_is_loading) == *old(_is_loading),
    {
    }

    pub fn pm2_restart_all(
        &mut self,
        _service: &LandoService,
        _project_path: &String,
        _is_loading: &mut bool,
    )
        ensures
            *final(self) == *old(self),
            *final(_is_loading) == *old(_is_loading),
    {
    }

    pub fn pm2_delete_process(
        &mut self,
        _service: &LandoService,
        _project_path: &String,
        _is_loading: &mut bool,
        _name: &str,
    )
        ensures
            *final(self) == *old(self),
            *final(_is_loading) == *old(_is_loading),
    {
    }

    pub fn pm2_stop_process(
        &mut self,
        _service: &LandoService,
        _project_path: &String,
        _is_loading: &mut bool,
        _name: &str,
    )
        ensures
            *final(self) == *old(self),
            *final(_is_loading) == *old(_is_loading),
    {
    }

    pub fn pm2_restart_process(
        &mut self,
        _service: &LandoService,
        _project_path: &String,
        _is_loading: &mut bool,
        _name: &str,
    )
        ensures
            *final(self) == *old(self),
            *final(_is_loading) == *old(_is_loading),
    {
    }

    pub fn refresh_logs(
        &mut self,
        _service: &LandoService,
        _project_path: &String,
        _is_loading: &mut bool,
    )
        ensures
            *final(self) == *old(self),
            *final(_is_loading) == *old(_is_loading),
    {
    }

    pub fn show_npm_logs(
        &mut self,
        _service: &LandoService,
        _project_path: &String,
        _is_loading: &mut bool,
    )
        ensures
            *final(self) == *old(self),
            *final(_is_loading) == *old(_is_loading),
    {
    }

    pub fn show_pm2_logs(
        &mut self,
        _service: &LandoService,
        _project_path: &String,
        _is_loading: &mut bool,
    )
        ensures
            *final(self) == *old(self),
            *final(_is_loading) == *old(_is_loading),
    {
    }

    pub fn refresh_node_info(
        &mut self,
        _service: &LandoService,
        _project_path: &String,
        _is_loading: &mut bool,
    )
        ensures
            *final(self) == *old(self),
            *final(_is_loading) == *old(_is_loading),
    {
    }
}

} // verus!
