use vstd::prelude::*;

use crate::appserver::AppServerUI;
use crate::database::{index_after, kept, recorded, results_view, DatabaseUI};
use crate::models::LandoService;
use crate::node::NodeUI;
use crate::text::{concat3, lowercased, to_lowercase};

verus! {

/// Which specialised panel a service gets.
#[derive(Debug, Clone, Copy, PartialEq, Eq, Structural)]
pub enum ServiceType {
    Database,
    AppServer,
    Node,
    Generic,
}

/// Service names known to be databases.
pub open spec fn is_database_name(n: Seq<char>) -> bool {
    n == "mysql"@ || n == "mariadb"@ || n == "postgres"@ || n == "postgresql"@ || n == "mongodb"@
        || n == "redis"@ || n == "sqlite"@ || n == "cassandra"@ || n == "elasticsearch"@ || n
        == "memcached"@
}

/// Service names known to be application servers.
pub open spec fn is_appserver_name(n: Seq<char>) -> bool {
    n == "apache"@ || n == "nginx"@ || n == "httpd"@ || n == "php"@ || n == "python"@ || n
        == "ruby"@ || n == "java"@ || n == "tomcat"@ || n == "jetty"@
}

/// Service names known to be Node.js runtimes.
pub open spec fn is_node_name(n: Seq<char>) -> bool {
    n == "node"@ || n == "nodejs"@ || n == "npm"@ || n == "yarn"@
}

/// The panel of a service from its lower-cased name and type: the name
/// decides first, the type only when the name is not known.
pub open spec fn classify(name: Seq<char>, kind: Seq<char>) -> ServiceType {
    if name == "database"@ || is_database_name(name) {
        ServiceType::Database
    } else if name == "appserver"@ || is_appserver_name(name) {
        ServiceType::AppServer
    } else if is_node_name(name) {
        ServiceType::Node
    } else if kind == "database"@ {
        ServiceType::Database
    } else if kind == "appserver"@ {
        ServiceType::AppServer
    } else if kind == "node"@ {
        ServiceType::Node
    } else {
        ServiceType::Generic
    }
}

fn is(s: &String, lit: &str) -> (r: bool)
    ensures
        r == (s@ == lit@),
{
    s.eq(&String::from_str(lit))
}

/// Whether the service name is one of the known databases.
pub fn is_database_service(service_name: &String) -> (r: bool)
    ensures
        r == is_database_name(service_name@),
{
    let n = service_name;
    is(n, "mysql") || is(n, "mariadb") || is(n, "postgres") || is(n, "postgresql") || is(
        n,
        "mongodb",
    ) || is(n, "redis") || is(n, "sqlite") || is(n, "cassandra") || is(n, "elasticsearch") || is(
        n,
        "memcached",
    )
}

/// Whether the service name is one of the known application servers.
pub fn is_appserver_service(service_name: &String) -> (r: bool)
    ensures
        r == is_appserver_name(service_name@),
{
    let n = service_name;
    is(n, "apache") || is(n, "nginx") || is(n, "httpd") || is(n, "php") || is(n, "python") || is(
        n,
        "ruby",
    ) || is(n, "java") || is(n, "tomcat") || is(n, "jetty")
}

/// Whether the service name is one of the known Node.js runtimes.
pub fn is_node_service(service_name: &String) -> (r: bool)
    ensures
        r == is_node_name(service_name@),
{
    let n = service_name;
    is(n, "node") || is(n, "nodejs") || is(n, "npm") || is(n, "yarn")
}

/// The panel that a service gets, decided by its name and then its type,
/// whatever their case.
pub fn classify_service(service: &LandoService) -> (r: ServiceType)
    ensures
        r == classify(lowercased(service.service@), lowercased(service.kind@)),
{
    let kind = to_lowercase(service.kind.as_str());
    let name = to_lowercase(service.service.as_str());
    if is(&name, "database") || is_database_service(&name) {
        ServiceType::Database
    } else if is(&name, "appserver") || is_appserver_service(&name) {
        ServiceType::AppServer
    } else if is_node_service(&name) {
        ServiceType::Node
    } else if is(&kind, "database") {
        ServiceType::Database
    } else if is(&kind, "appserver") {
        ServiceType::AppServer
    } else if is(&kind, "node") {
        ServiceType::Node
    } else {
        ServiceType::Generic
    }
}

/// Whether a service is shown among the databases: its name is a known
/// database, or its type, whatever its case, is `database`.
pub fn is_database_listing(service: &LandoService) -> (r: bool)
    ensures
        r == (is_database_name(service.service@) || lowercased(service.kind@) == "database"@),
{
    if is_database_service(&service.service) {
        return true;
    }
    let kind = to_lowercase(service.kind.as_str());
    is(&kind, "database")
}


/// The key under which a service's panel is kept: its name and type.
pub open spec fn panel_key(service: LandoService) -> Seq<char> {
    service.service@ + "_"@ + service.kind@
}

/// The keys of a list of keyed panels.
pub open spec fn keys_of<T>(v: Seq<(String, T)>) -> Seq<Seq<char>> {
    v.map_values(|e: (String, T)| e.0@)
}

/// No key occurs twice.
pub open spec fn unique_keys(k: Seq<Seq<char>>) -> bool {
    forall|i: int, j: int| 0 <= i < j < k.len() ==> k[i] != k[j]
}

/// The specialised panels of the services met so far, one per service
/// name and type.
pub struct ServiceUIManager {
    pub database_uis: Vec<(String, DatabaseUI)>,
    pub appserver_uis: Vec<(String, AppServerUI)>,
    pub node_uis: Vec<(String, NodeUI)>,
}

impl ServiceUIManager {
    /// Each list of panels holds each key once.
    pub open spec fn wf(&self) -> bool {
        unique_keys(keys_of(self.database_uis@)) && unique_keys(keys_of(self.appserver_uis@))
            && unique_keys(keys_of(self.node_uis@))
    }
}

impl Default for ServiceUIManager {
    fn default() -> (r: Self)
        ensures
            r.wf(),
            r.database_uis@.len() == 0,
            r.appserver_uis@.len() == 0,
            r.node_uis@.len() == 0,
    {
        ServiceUIManager { database_uis: Vec::new(), appserver_uis: Vec::new(), node_uis: Vec::new() }
    }
}

fn find_key<T>(v: &Vec<(String, T)>, key: &String) -> (r: Option<usize>)
    ensures
        match r {
            Some(i) => i < v@.len() && keys_of(v@)[i as int] == key@,
            None => !keys_of(v@).contains(key@),
        },
{
    let mut i: usize = 0;
    while i < v.len()
        invariant
            i <= v@.len(),
            forall|k: int| 0 <= k < i ==> keys_of(v@)[k] != key@,
        decreases v@.len() - i,
    {
        if v[i].0.eq(key) {
            return Some(i);
        }
        i = i + 1;
    }
    None
}

fn push_new_key<T>(v: &mut Vec<(String, T)>, key: String, panel: T)
    requires
        unique_keys(keys_of(old(v)@)),
        !keys_of(old(v)@).contains(key@),
    ensures
        unique_keys(keys_of(final(v)@)),
        keys_of(final(v)@) == keys_of(old(v)@).push(key@),
{
    let ghost before = keys_of(v@);
    let ghost k = key@;
    v.push((key, panel));
    assert(keys_of(v@) =~= before.push(k));
    assert forall|i: int, j: int| 0 <= i < j < keys_of(v@).len() implies keys_of(v@)[i]
        != keys_of(v@)[j] by {
        if j == before.len() {
            assert(before[i] != k);
        }
    }
}

impl ServiceUIManager {
    /// Whether the service name is one of the known databases.
    pub fn is_database_service(&self, service_name: &str) -> (r: bool)
        ensures
            r == is_database_name(service_name@),
    {
        is_database_service(&String::from_str(service_name))
    }

    /// Makes sure the panel that suits the service exists, and says which
    /// kind it is.
    pub fn ensure_panel(&mut self, service: &LandoService) -> (r: ServiceType)
        requires
            old(self).wf(),
        ensures
            final(self).wf(),
            r == classify(lowercased(service.service@), lowercased(service.kind@)),
            r == ServiceType::Database ==> keys_of(final(self).database_uis@).contains(
                panel_key(*service),
            ),
            r == ServiceType::AppServer ==> keys_of(final(self).appserver_uis@).contains(
                panel_key(*service),
            ),
            r == ServiceType::Node ==> keys_of(final(self).node_uis@).contains(panel_key(*service)),
            forall|k: Seq<char>| #[trigger]
                keys_of(old(self).database_uis@).contains(k) ==> keys_of(
                    final(self).database_uis@,
                ).contains(k),
    {
        let key = concat3(service.service.as_str(), "_", service.kind.as_str());
        let kind = classify_service(service);
        let ghost old_db = keys_of(self.database_uis@);
        match kind {
            ServiceType::Database => {
                if find_key(&self.database_uis, &key).is_none() {
                    push_new_key(&mut self.database_uis, key, DatabaseUI::default());
                    assert(keys_of(self.database_uis@)[old_db.len() as int] == panel_key(*service));
                }
            },
            ServiceType::AppServer => {
                if find_key(&self.appserver_uis, &key).is_none() {
                    let ghost before = keys_of(self.appserver_uis@);
                    push_new_key(&mut self.appserver_uis, key, AppServerUI::default());
                    assert(keys_of(self.appserver_uis@)[before.len() as int] == panel_key(*service));
                }
            },
            ServiceType::Node => {
                if find_key(&self.node_uis, &key).is_none() {
                    let ghost before = keys_of(self.node_uis@);
                    push_new_key(&mut self.node_uis, key, NodeUI::default());
                    assert(keys_of(self.node_uis@)[before.len() as int] == panel_key(*service));
                }
            },
            ServiceType::Generic => {},
        }
        assert forall|k: Seq<char>| #[trigger] old_db.contains(k) implies keys_of(
            self.database_uis@,
        ).contains(k) by {
            let i = choose|i: int| 0 <= i < old_db.len() && old_db[i] == k;
            assert(keys_of(self.database_uis@)[i] == k);
        }
        kind
    }

    /// Hands a query result, or failure, to every database panel.
    pub fn process_query_result(&mut self, result_text: &String, has_error: bool, now: u64)
        requires
            old(self).wf(),
        ensures
            final(self).wf(),
            keys_of(final(self).database_uis@) == keys_of(old(self).database_uis@),
            forall|i: int|
                0 <= i < final(self).database_uis@.len() ==> {
                    let before = old(self).database_uis@[i].1;
                    let after = (#[trigger] final(self).database_uis@[i]).1;
                    &&& results_view(after.query_results@) == kept(
                        recorded(
                            results_view(before.query_results@),
                            before.query_input@,
                            result_text@,
                            has_error,
                            now,
                        ),
                    )
                    &&& after.current_result_index == index_after(
                        before.query_results@.len(),
                        before.current_result_index,
                    )
                },
            final(self).appserver_uis == old(self).appserver_uis,
            final(self).node_uis == old(self).node_uis,
    {
        let ghost old_panels = self.database_uis@;
        let ghost old_app = self.appserver_uis;
        let ghost old_node = self.node_uis;
        let n = self.database_uis.len();
        let mut done: Vec<(String, DatabaseUI)> = Vec::new();
        let mut i: usize = 0;
        assert(old_panels.skip(0) =~= old_panels);
        while self.database_uis.len() > 0
            invariant
                i <= old_panels.len(),
                old_panels.len() == n,
                self.database_uis@ == old_panels.skip(i as int),
                self.appserver_uis == old_app,
                self.node_uis == old_node,
                unique_keys(keys_of(old_panels)),
                unique_keys(keys_of(old_app@)),
                unique_keys(keys_of(old_node@)),
                done@.len() == i,
                keys_of(done@) == keys_of(old_panels).take(i as int),
                forall|k: int|
                    0 <= k < i ==> {
                        let before = old_panels[k].1;
                        let after = (#[trigger] done@[k]).1;
                        &&& results_view(after.query_results@) == kept(
                            recorded(
                                results_view(before.query_results@),
                                before.query_input@,
                                result_text@,
                                has_error,
                                now,
                            ),
                        )
                        &&& after.current_result_index == index_after(
                            before.query_results@.len(),
                            before.current_result_index,
                        )
                    },
            decreases old_panels.len() - i,
        {
            assert(self.database_uis@.len() == old_panels.len() - i);
            let (key, mut panel) = self.database_uis.remove(0);
            assert(old_panels[i as int] == (key, panel));
            assert(self.database_uis@ =~= old_panels.skip(i + 1));
            panel.process_query_result(result_text.clone(), has_error, now);
            let ghost before = done@;
            done.push((key, panel));
            assert(keys_of(done@) =~= keys_of(old_panels).take(i + 1));
            assert forall|k: int| 0 <= k < i implies done@[k] == before[k] by {}
            i = i + 1;
        }
        assert(keys_of(old_panels).take(old_panels.len() as int) =~= keys_of(old_panels));
        self.database_uis = done;
    }
}

} // verus!
