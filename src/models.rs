use vstd::prelude::*;

verus! {

/// One environment as the listing query reports it.
#[derive(Clone, Debug, Default)]
pub struct LandoApp {
    pub name: String,
    pub location: String,
    pub urls: Vec<String>,
    pub running: bool,
}

/// The mathematical value of a [`LandoApp`].
pub struct AppView {
    pub name: Seq<char>,
    pub location: Seq<char>,
    pub urls: Seq<Seq<char>>,
    pub running: bool,
}

impl View for LandoApp {
    type V = AppView;

    open spec fn view(&self) -> AppView {
        AppView {
            name: self.name@,
            location: self.location@,
            urls: self.urls.deep_view(),
            running: self.running,
        }
    }
}

/// Where a service can be reached.
#[derive(Clone, Debug, Default)]
pub struct ServiceConnectionInfo {
    pub host: String,
    pub port: String,
}

/// The mathematical value of a [`ServiceConnectionInfo`].
pub struct ConnectionView {
    pub host: Seq<char>,
    pub port: Seq<char>,
}

impl View for ServiceConnectionInfo {
    type V = ConnectionView;

    open spec fn view(&self) -> ConnectionView {
        ConnectionView { host: self.host@, port: self.port@ }
    }
}

/// Credentials of a service, each part optional.
#[derive(Clone, Debug, Default)]
pub struct ServiceCreds {
    pub user: Option<String>,
    pub password: Option<String>,
    pub database: Option<String>,
}

/// The mathematical value of a [`ServiceCreds`].
pub struct CredsView {
    pub user: Option<Seq<char>>,
    pub password: Option<Seq<char>>,
    pub database: Option<Seq<char>>,
}

/// The text of an optional string.
pub open spec fn opt_text(o: Option<String>) -> Option<Seq<char>> {
    match o {
        Some(s) => Some(s@),
        None => None,
    }
}

impl View for ServiceCreds {
    type V = CredsView;

    open spec fn view(&self) -> CredsView {
        CredsView {
            user: opt_text(self.user),
            password: opt_text(self.password),
            database: opt_text(self.database),
        }
    }
}

/// One running component of a project, as the introspection query reports it.
#[derive(Clone, Debug, Default)]
pub struct LandoService {
    pub service: String,
    pub kind: String,
    pub urls: Vec<String>,
    pub version: String,
    pub internal_connection: Option<ServiceConnectionInfo>,
    pub external_connection: Option<ServiceConnectionInfo>,
    pub creds: Option<ServiceCreds>,
}

/// The mathematical value of a [`LandoService`].
pub struct ServiceView {
    pub service: Seq<char>,
    pub kind: Seq<char>,
    pub urls: Seq<Seq<char>>,
    pub version: Seq<char>,
    pub internal_connection: Option<ConnectionView>,
    pub external_connection: Option<ConnectionView>,
    pub creds: Option<CredsView>,
}

/// The value of an optional connection.
pub open spec fn opt_connection(o: Option<ServiceConnectionInfo>) -> Option<ConnectionView> {
    match o {
        Some(c) => Some(c@),
        None => None,
    }
}

impl View for LandoService {
    type V = ServiceView;

    open spec fn view(&self) -> ServiceView {
        ServiceView {
            service: self.service@,
            kind: self.kind@,
            urls: self.urls.deep_view(),
            version: self.version@,
            internal_connection: opt_connection(self.internal_connection),
            external_connection: opt_connection(self.external_connection),
            creds: match self.creds {
                Some(c) => Some(c@),
                None => None,
            },
        }
    }
}

/// The values of a list of apps.
pub open spec fn apps_view(v: Seq<LandoApp>) -> Seq<AppView> {
    v.map_values(|a: LandoApp| a@)
}

/// The values of a list of services.
pub open spec fn services_view(v: Seq<LandoService>) -> Seq<ServiceView> {
    v.map_values(|s: LandoService| s@)
}

} // verus!
