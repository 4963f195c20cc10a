use vstd::prelude::*;

use crate::commands::{DispatchRequest, LandoCommandOutcome};
use crate::models::{apps_view, services_view, LandoApp, LandoService};
use crate::scan::{is_merge, merge_projects};
use crate::service::{is_database_listing, is_database_name};
use crate::text::{contains_text, lossy, lossy_text, lowercased, text_contains};

verus! {

/// The state that the control panel keeps between frames, apart from what
/// only a window system can hold.
pub struct LandoGui {
    pub apps: Vec<LandoApp>,
    pub projects: Vec<String>,
    pub selected_project_path: Option<String>,
    pub services: Vec<LandoService>,
    pub db_query_input: String,
    pub db_query_result: Option<String>,
    pub shell_command_input: String,
    pub error_message: Option<String>,
    pub success_message: Option<String>,
    pub is_loading: bool,
    pub show_terminal_popup: bool,
    pub terminal_filter: String,
    pub log_buffer: Vec<String>,
    pub open_database_interface: Option<String>,
}

/// What applying one outcome asks of the parts of the panel that live
/// outside this state.
pub struct OutcomeEffects {
    /// Bytes to write to the terminal view.
    pub terminal_write: Option<Vec<u8>>,
    /// A query result (or failure) that every open database panel takes in,
    /// with whether it is a failure.
    pub query_update: Option<QueryUpdate>,
}

/// A query result, or a failure, for the open database panels.
pub struct QueryUpdate {
    pub text: String,
    pub has_error: bool,
}

/// The text of an optional string.
pub open spec fn opt_view(o: Option<String>) -> Option<Seq<char>> {
    match o {
        Some(s) => Some(s@),
        None => None,
    }
}

/// Whether a log line passes the terminal filter.
pub open spec fn passes_filter(line: Seq<char>, filter: Seq<char>) -> bool {
    filter.len() == 0 || contains_text(line, filter)
}

/// The fields that a given outcome never touches stay as they were.
pub open spec fn keeps_lists(before: LandoGui, after: LandoGui) -> bool {
    after.selected_project_path == before.selected_project_path && after.db_query_input
        == before.db_query_input && after.shell_command_input == before.shell_command_input
        && after.terminal_filter == before.terminal_filter && after.open_database_interface
        == before.open_database_interface
}

/// Whether a project is selected now that differs from the one selected
/// before.
pub open spec fn selection_changed(g: LandoGui, previous_path: Option<String>) -> bool {
    g.selected_project_path is Some && opt_view(g.selected_project_path) != opt_view(previous_path)
}

/// Whether a service is listed among the databases.
pub open spec fn is_database_entry(s: LandoService) -> bool {
    is_database_name(s.service@) || lowercased(s.kind@) == "database"@
}

impl LandoGui {
    /// The panel as it starts: empty and loading, since the environment
    /// listing is requested at once.
    pub fn new() -> (r: Self)
        ensures
            r.apps@.len() == 0,
            r.projects@.len() == 0,
            r.selected_project_path is None,
            r.services@.len() == 0,
            r.db_query_input@.len() == 0,
            r.db_query_result is None,
            r.shell_command_input@.len() == 0,
            r.error_message is None,
            r.success_message is None,
            r.is_loading,
            !r.show_terminal_popup,
            r.terminal_filter@.len() == 0,
            r.log_buffer@.len() == 0,
            r.open_database_interface is None,
    {
        LandoGui {
            apps: Vec::new(),
            projects: Vec::new(),
            selected_project_path: None,
            services: Vec::new(),
            db_query_input: String::new(),
            db_query_result: None,
            shell_command_input: String::new(),
            error_message: None,
            success_message: None,
            is_loading: true,
            show_terminal_popup: false,
            terminal_filter: String::new(),
            log_buffer: Vec::new(),
            open_database_interface: None,
        }
    }

    /// Applies one outcome taken from the channel: loading stops, earlier
    /// messages are cleared, and the outcome's own effect follows.
    pub fn handle_outcome(&mut self, outcome: LandoCommandOutcome) -> (r: OutcomeEffects)
        ensures
            !final(self).is_loading,
            !(outcome is Error) ==> final(self).error_message is None,
            !(outcome is CommandSuccess) ==> final(self).success_message is None,
            keeps_lists(*old(self), *final(self)),
            !(outcome is List) ==> final(self).apps == old(self).apps,
            !(outcome is Projects) ==> final(self).projects == old(self).projects,
            !(outcome is Info) ==> final(self).services == old(self).services,
            !(outcome is DbQueryResult || outcome is Error) ==> final(self).db_query_result == old(
                self,
            ).db_query_result,
            !(outcome is LogOutput) ==> final(self).log_buffer == old(self).log_buffer
                && final(self).show_terminal_popup == old(self).show_terminal_popup
                && r.terminal_write is None,
            match outcome {
                LandoCommandOutcome::List(apps) => apps_view(final(self).apps@) == apps_view(apps@)
                    && r.terminal_write is None && r.query_update is None,
                LandoCommandOutcome::Projects(found) => is_merge(
                    final(self).projects.deep_view(),
                    old(self).projects.deep_view(),
                    found.deep_view(),
                ) && r.terminal_write is None && r.query_update is None,
                LandoCommandOutcome::Info(services) => services_view(final(self).services@)
                    == services_view(services@) && r.terminal_write is None && r.query_update
                    is None,
                LandoCommandOutcome::DbQueryResult(text) => opt_view(final(self).db_query_result)
                    == Some(text@) && r.terminal_write is None && r.query_update is Some
                    && r.query_update->0.text@ == text@ && !r.query_update->0.has_error,
                LandoCommandOutcome::Error(msg) => opt_view(final(self).error_message) == Some(
                    msg@,
                ) && r.terminal_write is None && if old(self).db_query_result is Some || old(
                    self,
                ).db_query_input@.len() > 0 {
                    opt_view(final(self).db_query_result) == Some(msg@) && r.query_update is Some
                        && r.query_update->0.text@ == msg@ && r.query_update->0.has_error
                } else {
                    final(self).db_query_result == old(self).db_query_result && r.query_update
                        is None
                },
                LandoCommandOutcome::CommandSuccess(msg) => opt_view(final(self).success_message)
                    == Some(msg@) && !final(self).is_loading && final(self).error_message is None
                    && r.terminal_write is None && r.query_update is None,
                LandoCommandOutcome::FinishedLoading => r.terminal_write is None && r.query_update
                    is None,
                LandoCommandOutcome::LogOutput(bytes) => final(self).log_buffer.deep_view() == old(
                    self,
                ).log_buffer.deep_view().push(lossy_text(bytes@)) && final(self).show_terminal_popup
                    && r.query_update is None && (passes_filter(
                    lossy_text(bytes@),
                    old(self).terminal_filter@,
                ) ==> r.terminal_write is Some && r.terminal_write->0@ == bytes@) && (!passes_filter(
                    lossy_text(bytes@),
                    old(self).terminal_filter@,
                ) ==> r.terminal_write is None),
            },
    {
        self.is_loading = false;
        self.error_message = None;
        self.success_message = None;
        let mut effects = OutcomeEffects { terminal_write: None, query_update: None };
        match outcome {
            LandoCommandOutcome::List(apps) => {
                self.apps = apps;
            },
            LandoCommandOutcome::Projects(found) => {
                self.projects = merge_projects(&self.projects, &found);
            },
            LandoCommandOutcome::Info(services) => {
                self.services = services;
            },
            LandoCommandOutcome::DbQueryResult(text) => {
                self.db_query_result = Some(text.clone());
                effects.query_update = Some(QueryUpdate { text, has_error: false });
            },
            LandoCommandOutcome::Error(msg) => {
                self.error_message = Some(msg.clone());
                if self.db_query_result.is_some() || !self.db_query_input.as_str().is_empty() {
                    self.db_query_result = Some(msg.clone());
                    effects.query_update = Some(QueryUpdate { text: msg, has_error: true });
                }
            },
            LandoCommandOutcome::CommandSuccess(msg) => {
                self.success_message = Some(msg);
            },
            LandoCommandOutcome::FinishedLoading => {},
            LandoCommandOutcome::LogOutput(bytes) => {
                let line = lossy(&bytes);
                let ghost before = self.log_buffer.deep_view();
                let shown = self.terminal_filter.as_str().is_empty() || text_contains(
                    &line,
                    &self.terminal_filter,
                );
                self.log_buffer.push(line);
                assert(self.log_buffer.deep_view() =~= before.push(lossy_text(bytes@)));
                if shown {
                    effects.terminal_write = Some(bytes);
                }
                self.show_terminal_popup = true;
            },
        }
        effects
    }

    /// The log lines to show again after the filter changed, in order.
    pub fn reapply_terminal_filter(&self) -> (r: Vec<String>)
        ensures
            r.deep_view() == self.log_buffer.deep_view().filter(
                |l: Seq<char>| passes_filter(l, self.terminal_filter@),
            ),
    {
        let mut out: Vec<String> = Vec::new();
        let mut i: usize = 0;
        let ghost f = |l: Seq<char>| passes_filter(l, self.terminal_filter@);
        while i < self.log_buffer.len()
            invariant
                i <= self.log_buffer@.len(),
                f == (|l: Seq<char>| passes_filter(l, self.terminal_filter@)),
                out.deep_view() == self.log_buffer.deep_view().take(i as int).filter(f),
            decreases self.log_buffer@.len() - i,
        {
            let line = &self.log_buffer[i];
            let ghost pre = self.log_buffer.deep_view().take(i as int);
            assert(self.log_buffer.deep_view().take(i + 1) =~= pre.push(line@));
            reveal(Seq::filter);
            assert(pre.push(line@).drop_last() =~= pre);
            if self.terminal_filter.as_str().is_empty() || text_contains(line, &self.terminal_filter) {
                out.push(line.clone());
            }
            i = i + 1;
        }
        assert(self.log_buffer.deep_view().take(self.log_buffer@.len() as int) =~= self.log_buffer.deep_view());
        out
    }

    /// Empties the log and its filter.
    pub fn clear_terminal(&mut self)
        ensures
            final(self).log_buffer@.len() == 0,
            final(self).terminal_filter@.len() == 0,
            (LandoGui {
                log_buffer: old(self).log_buffer,
                terminal_filter: old(self).terminal_filter,
                ..*final(self)
            }) == *old(self),
    {
        self.log_buffer = Vec::new();
        self.terminal_filter = String::new();
    }

    /// Reloads the environment listing and, when a project is selected, its
    /// services.
    pub fn refresh_all(&mut self) -> (r: Vec<DispatchRequest>)
        ensures
            final(self).is_loading,
            (LandoGui { is_loading: old(self).is_loading, ..*final(self) }) == *old(self),
            match old(self).selected_project_path {
                Some(p) => r@.len() == 2 && r@[0] is ListApps && (match r@[1] {
                    DispatchRequest::ProjectInfo { project_path } => project_path@ == p@,
                    _ => false,
                }),
                None => r@.len() == 1 && r@[0] is ListApps,
            },
    {
        self.is_loading = true;
        let mut requests: Vec<DispatchRequest> = vec![DispatchRequest::ListApps];
        match &self.selected_project_path {
            Some(path) => {
                requests.push(DispatchRequest::ProjectInfo { project_path: path.clone() });
            },
            None => {},
        }
        requests
    }

    /// Leaves the selected project and clears what belonged to it.
    pub fn navigate_home(&mut self)
        ensures
            final(self).selected_project_path is None,
            final(self).services@.len() == 0,
            final(self).db_query_result is None,
            final(self).error_message is None,
            final(self).success_message is None,
            (LandoGui {
                selected_project_path: old(self).selected_project_path,
                services: old(self).services,
                db_query_result: old(self).db_query_result,
                error_message: old(self).error_message,
                success_message: old(self).success_message,
                ..*final(self)
            }) == *old(self),
    {
        self.selected_project_path = None;
        self.services = Vec::new();
        self.db_query_result = None;
        self.error_message = None;
        self.success_message = None;
    }

    /// Forgets the discovered projects, and the selection with its services.
    pub fn clear_projects_list(&mut self)
        ensures
            final(self).projects@.len() == 0,
            final(self).selected_project_path is None,
            old(self).selected_project_path is Some ==> final(self).services@.len() == 0,
            old(self).selected_project_path is None ==> final(self).services == old(self).services,
            (LandoGui {
                projects: old(self).projects,
                selected_project_path: old(self).selected_project_path,
                services: old(self).services,
                ..*final(self)
            }) == *old(self),
    {
        self.projects = Vec::new();
        if self.selected_project_path.is_some() {
            self.selected_project_path = None;
            self.services = Vec::new();
        }
    }

    /// Reacts to a change of the selected project: a newly selected project
    /// starts with empty inputs and has its services requested.
    pub fn handle_project_selection_change(&mut self, previous_path: Option<String>) -> (r: Option<
        DispatchRequest,
    >)
        ensures
            selection_changed(*old(self), previous_path) ==> {
                &&& final(self).is_loading
                &&& final(self).services@.len() == 0
                &&& final(self).db_query_input@.len() == 0
                &&& final(self).db_query_result is None
                &&& final(self).shell_command_input@.len() == 0
                &&& r is Some
                &&& match r->0 {
                    DispatchRequest::ProjectInfo { project_path } => project_path@ == old(self).selected_project_path->0@,
                    _ => false,
                }
                &&& (LandoGui {
                    is_loading: old(self).is_loading,
                    services: old(self).services,
                    db_query_input: old(self).db_query_input,
                    db_query_result: old(self).db_query_result,
                    shell_command_input: old(self).shell_command_input,
                    ..*final(self)
                }) == *old(self)
            },
            !selection_changed(*old(self), previous_path) ==> r is None && *final(self) == *old(self),
    {
        let changed = match (&self.selected_project_path, &previous_path) {
            (Some(a), Some(b)) => !a.eq(b),
            (Some(_), None) => true,
            (None, _) => false,
        };
        if !changed {
            return None;
        }
        match &self.selected_project_path {
            Some(path) => {
                let request = DispatchRequest::ProjectInfo { project_path: path.clone() };
                self.is_loading = true;
                self.services = Vec::new();
                self.db_query_input = String::new();
                self.db_query_result = None;
                self.shell_command_input = String::new();
                Some(request)
            },
            None => None,
        }
    }

    /// The positions of the services shown among the databases, in order.
    pub fn get_database_services(&self) -> (r: Vec<usize>)
        ensures
            forall|k: int| 0 <= k < r@.len() ==> r@[k] < self.services@.len(),
            forall|k: int, l: int| 0 <= k < l < r@.len() ==> r@[k] < r@[l],
            forall|i: usize|
                i < self.services@.len() ==> (#[trigger] r@.contains(i) <==> is_database_entry(
                    self.services@[i as int],
                )),
    {
        let mut out: Vec<usize> = Vec::new();
        let mut i: usize = 0;
        while i < self.services.len()
            invariant
                i <= self.services@.len(),
                forall|k: int| 0 <= k < out@.len() ==> out@[k] < i,
                forall|k: int, l: int| 0 <= k < l < out@.len() ==> out@[k] < out@[l],
                forall|j: usize|
                    j < i ==> (#[trigger] out@.contains(j) <==> is_database_entry(
                        self.services@[j as int],
                    )),
            decreases self.services@.len() - i,
        {
            let ghost before = out@;
            if is_database_listing(&self.services[i]) {
                out.push(i);
                assert forall|j: usize| j < i implies (#[trigger] out@.contains(j)
                    <==> before.contains(j)) by {
                    if out@.contains(j) {
                        let k = choose|k: int| 0 <= k < out@.len() && out@[k] == j;
                        if k < before.len() {
                            assert(before[k] == j);
                        }
                    }
                    if before.contains(j) {
                        let k = choose|k: int| 0 <= k < before.len() && before[k] == j;
                        assert(out@[k] == j);
                    }
                }
                assert(out@[out@.len() - 1] == i);
            } else {
                assert(!out@.contains(i));
            }
            i = i + 1;
        }
        out
    }
}

} // verus!
