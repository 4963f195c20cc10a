use vstd::prelude::*;

use crate::models::{apps_view, services_view, AppView, LandoApp, LandoService, ServiceView};
use crate::text::{concat, concat3, contains_text, lossy, lossy_text, text_contains};

verus! {

/// The program that every invocation runs.
pub const LANDO: &'static str = "lando";

/// The text whose presence in the probe's output means the database is alive.
pub const ALIVE_MARKER: &'static str = "alive";

/// The shell command that probes a database server.
pub const PING_COMMAND: &'static str = "mysqladmin -u root ping";

/// The result text of a successful connection test.
pub const CONNECTION_OK: &'static str = "✅ Conexión exitosa";

// The texts that the outcomes' messages are made of.
pub const RUN_LANDO_FAILED: &'static str = "No se pudo ejecutar Lando: ";
pub const LIST_FAILED: &'static str = "Error de Lando: ";
pub const LIST_DECODE_FAILED: &'static str = "Error al parsear JSON: ";
pub const RUN_INFO_FAILED: &'static str = "No se pudo ejecutar Lando info: ";
pub const INFO_FAILED: &'static str = "Error de Lando info: ";
pub const INFO_DECODE_FAILED: &'static str = "Error al parsear JSON de lando info: ";
pub const WAIT_FAILED: &'static str = "Error esperando el comando '";
pub const COMMAND_PREFIX: &'static str = "Comando '";
pub const COMMAND_OK_SUFFIX: &'static str = "' finalizado con éxito.";
pub const COMMAND_FAILED_PREFIX: &'static str = "El comando '";
pub const COMMAND_FAILED_SUFFIX: &'static str = "' terminó con un error.";
pub const RUN_SSH_FAILED: &'static str = "No se pudo ejecutar Lando ssh: ";
pub const WAIT_SHELL_FAILED: &'static str = "Error esperando el comando ssh '";
pub const SHELL_PREFIX: &'static str = "Comando shell '";
pub const SHELL_FAILED_PREFIX: &'static str = "El comando shell '";
pub const QUOTE_COLON: &'static str = "': ";
pub const RUN_DB_CLI_FAILED: &'static str = "No se pudo ejecutar lando db-cli: ";
pub const QUERY_FAILED: &'static str = "Error ejecutando la consulta: ";
pub const RUN_PROBE_FAILED: &'static str = "No se pudo ejecutar test de conexión: ";
pub const PROBE_FAILED: &'static str = "Error probando conexión: ";
pub const PROBE_UNEXPECTED: &'static str = "Error de conexión (salida inesperada): ";

/// A message that background work hands to the single consumer.
#[derive(Debug)]
pub enum LandoCommandOutcome {
    List(Vec<LandoApp>),
    Projects(Vec<String>),
    Info(Vec<LandoService>),
    DbQueryResult(String),
    Error(String),
    CommandSuccess(String),
    FinishedLoading,
    LogOutput(Vec<u8>),
}

/// The mathematical value of a [`LandoCommandOutcome`].
pub enum OutcomeView {
    List(Seq<AppView>),
    Projects(Seq<Seq<char>>),
    Info(Seq<ServiceView>),
    DbQueryResult(Seq<char>),
    Error(Seq<char>),
    CommandSuccess(Seq<char>),
    FinishedLoading,
    LogOutput(Seq<u8>),
}

impl View for LandoCommandOutcome {
    type V = OutcomeView;

    open spec fn view(&self) -> OutcomeView {
        match self {
            LandoCommandOutcome::List(a) => OutcomeView::List(apps_view(a@)),
            LandoCommandOutcome::Projects(p) => OutcomeView::Projects(p.deep_view()),
            LandoCommandOutcome::Info(s) => OutcomeView::Info(services_view(s@)),
            LandoCommandOutcome::DbQueryResult(t) => OutcomeView::DbQueryResult(t@),
            LandoCommandOutcome::Error(t) => OutcomeView::Error(t@),
            LandoCommandOutcome::CommandSuccess(t) => OutcomeView::CommandSuccess(t@),
            LandoCommandOutcome::FinishedLoading => OutcomeView::FinishedLoading,
            LandoCommandOutcome::LogOutput(b) => OutcomeView::LogOutput(b@),
        }
    }
}

impl OutcomeView {
    /// Whether this outcome ends the operation that produced it.
    pub open spec fn is_terminal(self) -> bool {
        !(self is LogOutput)
    }
}

/// What a finished process left behind: its exit verdict and both streams.
pub struct ProcessOutput {
    pub success: bool,
    pub stdout: Vec<u8>,
    pub stderr: Vec<u8>,
}

/// A process to launch: the program, its arguments and its working directory.
pub struct Invocation {
    pub program: String,
    pub args: Vec<String>,
    pub working_dir: Option<String>,
}

/// The arguments of an invocation, as texts.
pub open spec fn args_of(i: Invocation) -> Seq<Seq<char>> {
    i.args.deep_view()
}

/// The working directory of an invocation, as a text.
pub open spec fn dir_of(i: Invocation) -> Option<Seq<char>> {
    match i.working_dir {
        Some(d) => Some(d@),
        None => None,
    }
}

fn lando_invocation(args: Vec<String>, dir: Option<String>) -> (r: Invocation)
    ensures
        r.program@ == LANDO@,
        r.args@ == args@,
        r.working_dir == dir,
{
    Invocation { program: String::from_str(LANDO), args, working_dir: dir }
}

/// `lando list --format json`.
pub fn list_apps_invocation() -> (r: Invocation)
    ensures
        r.program@ == LANDO@,
        args_of(r) == seq!["list"@, "--format"@, "json"@],
        r.working_dir is None,
{
    let args = vec![String::from_str("list"), String::from_str("--format"), String::from_str("json")];
    let r = lando_invocation(args, None);
    assert(args_of(r) =~= seq!["list"@, "--format"@, "json"@]);
    r
}

/// `lando info --format json`, run inside the project.
pub fn project_info_invocation(project_path: &String) -> (r: Invocation)
    ensures
        r.program@ == LANDO@,
        args_of(r) == seq!["info"@, "--format"@, "json"@],
        dir_of(r) == Some(project_path@),
{
    let args = vec![String::from_str("info"), String::from_str("--format"), String::from_str("json")];
    let r = lando_invocation(args, Some(project_path.clone()));
    assert(args_of(r) =~= seq!["info"@, "--format"@, "json"@]);
    r
}

/// `lando <command>`, run inside the project.
pub fn lando_command_invocation(command: &String, project_path: &String) -> (r: Invocation)
    ensures
        r.program@ == LANDO@,
        args_of(r) == seq![command@],
        dir_of(r) == Some(project_path@),
{
    let args = vec![command.clone()];
    let r = lando_invocation(args, Some(project_path.clone()));
    assert(args_of(r) =~= seq![command@]);
    r
}

/// `lando ssh -s <service> -c <command>`, run inside the project.
pub fn shell_command_invocation(project_path: &String, service: &String, command: &String) -> (r:
    Invocation)
    ensures
        r.program@ == LANDO@,
        args_of(r) == seq!["ssh"@, "-s"@, service@, "-c"@, command@],
        dir_of(r) == Some(project_path@),
{
    let args = vec![
        String::from_str("ssh"),
        String::from_str("-s"),
        service.clone(),
        String::from_str("-c"),
        command.clone(),
    ];
    let r = lando_invocation(args, Some(project_path.clone()));
    assert(args_of(r) =~= seq!["ssh"@, "-s"@, service@, "-c"@, command@]);
    r
}

/// `lando db-cli -s <service> [-u root] -e <query>`, run inside the project;
/// `privileged` asks for the root user.
pub fn db_query_invocation(project_path: &String, service: &String, query: &String, privileged: bool)
    -> (r: Invocation)
    ensures
        r.program@ == LANDO@,
        privileged ==> args_of(r) == seq![
            "db-cli"@,
            "-s"@,
            service@,
            "-u"@,
            "root"@,
            "-e"@,
            query@,
        ],
        !privileged ==> args_of(r) == seq!["db-cli"@, "-s"@, service@, "-e"@, query@],
        dir_of(r) == Some(project_path@),
{
    let args = if privileged {
        vec![
            String::from_str("db-cli"),
            String::from_str("-s"),
            service.clone(),
            String::from_str("-u"),
            String::from_str("root"),
            String::from_str("-e"),
            query.clone(),
        ]
    } else {
        vec![
            String::from_str("db-cli"),
            String::from_str("-s"),
            service.clone(),
            String::from_str("-e"),
            query.clone(),
        ]
    };
    let r = lando_invocation(args, Some(project_path.clone()));
    assert(privileged ==> args_of(r) =~= seq![
        "db-cli"@,
        "-s"@,
        service@,
        "-u"@,
        "root"@,
        "-e"@,
        query@,
    ]);
    assert(!privileged ==> args_of(r) =~= seq!["db-cli"@, "-s"@, service@, "-e"@, query@]);
    r
}

/// The liveness probe: `lando ssh -s <service> -c "mysqladmin -u root ping"`.
pub fn db_connection_test_invocation(project_path: &String, service: &String) -> (r: Invocation)
    ensures
        r.program@ == LANDO@,
        args_of(r) == seq!["ssh"@, "-s"@, service@, "-c"@, PING_COMMAND@],
        dir_of(r) == Some(project_path@),
{
    let ping = String::from_str(PING_COMMAND);
    shell_command_invocation(project_path, service, &ping)
}


/// What a listing or introspection query reports, given how its process
/// ended and what its standard output decodes to.
pub open spec fn query_outcome<T>(
    output: Result<ProcessOutput, String>,
    decoded: Result<Seq<T>, Seq<char>>,
    run_failed: Seq<char>,
    failed: Seq<char>,
    decode_failed: Seq<char>,
    found: spec_fn(Seq<T>) -> OutcomeView,
) -> OutcomeView {
    match output {
        Err(e) => OutcomeView::Error(run_failed + e@),
        Ok(o) => if !o.success {
            OutcomeView::Error(failed + lossy_text(o.stderr@))
        } else {
            match decoded {
                Ok(items) => found(items),
                Err(e) => OutcomeView::Error(decode_failed + e),
            }
        },
    }
}

pub open spec fn decoded_apps(d: Result<Vec<LandoApp>, String>) -> Result<Seq<AppView>, Seq<char>> {
    match d {
        Ok(v) => Ok(apps_view(v@)),
        Err(e) => Err(e@),
    }
}

pub open spec fn decoded_services(d: Result<Vec<LandoService>, String>) -> Result<
    Seq<ServiceView>,
    Seq<char>,
> {
    match d {
        Ok(v) => Ok(services_view(v@)),
        Err(e) => Err(e@),
    }
}

/// The outcome of `lando list`.
pub open spec fn list_apps_spec(
    output: Result<ProcessOutput, String>,
    decoded: Result<Vec<LandoApp>, String>,
) -> OutcomeView {
    query_outcome(
        output,
        decoded_apps(decoded),
        RUN_LANDO_FAILED@,
        LIST_FAILED@,
        LIST_DECODE_FAILED@,
        |a: Seq<AppView>| OutcomeView::List(a),
    )
}

/// The outcome of `lando info`.
pub open spec fn project_info_spec(
    output: Result<ProcessOutput, String>,
    decoded: Result<Vec<LandoService>, String>,
) -> OutcomeView {
    query_outcome(
        output,
        decoded_services(decoded),
        RUN_INFO_FAILED@,
        INFO_FAILED@,
        INFO_DECODE_FAILED@,
        |s: Seq<ServiceView>| OutcomeView::Info(s),
    )
}

/// The single outcome of the environment listing. `output` is how the
/// listing process ended (or why it could not start); `decoded` is what its
/// standard output decodes to, consulted only when the process succeeded.
pub fn list_apps_outcome(
    output: Result<ProcessOutput, String>,
    decoded: Result<Vec<LandoApp>, String>,
) -> (r: LandoCommandOutcome)
    ensures
        r@ == list_apps_spec(output, decoded),
{
    match output {
        Err(e) => LandoCommandOutcome::Error(concat(RUN_LANDO_FAILED, e.as_str())),
        Ok(o) => if !o.success {
            let err = lossy(&o.stderr);
            LandoCommandOutcome::Error(concat(LIST_FAILED, err.as_str()))
        } else {
            match decoded {
                Ok(apps) => LandoCommandOutcome::List(apps),
                Err(e) => LandoCommandOutcome::Error(concat(LIST_DECODE_FAILED, e.as_str())),
            }
        },
    }
}

/// The single outcome of the project introspection, shaped as
/// [`list_apps_outcome`].
pub fn project_info_outcome(
    output: Result<ProcessOutput, String>,
    decoded: Result<Vec<LandoService>, String>,
) -> (r: LandoCommandOutcome)
    ensures
        r@ == project_info_spec(output, decoded),
{
    match output {
        Err(e) => LandoCommandOutcome::Error(concat(RUN_INFO_FAILED, e.as_str())),
        Ok(o) => if !o.success {
            let err = lossy(&o.stderr);
            LandoCommandOutcome::Error(concat(INFO_FAILED, err.as_str()))
        } else {
            match decoded {
                Ok(services) => LandoCommandOutcome::Info(services),
                Err(e) => LandoCommandOutcome::Error(concat(INFO_DECODE_FAILED, e.as_str())),
            }
        },
    }
}

/// Two listings made from equal process results and equal decoded values
/// report equal outcomes.
pub proof fn lemma_list_apps_idempotent(
    output1: Result<ProcessOutput, String>,
    decoded1: Result<Vec<LandoApp>, String>,
    output2: Result<ProcessOutput, String>,
    decoded2: Result<Vec<LandoApp>, String>,
)
    requires
        output_view(output1) == output_view(output2),
        decoded_apps(decoded1) == decoded_apps(decoded2),
    ensures
        list_apps_spec(output1, decoded1) == list_apps_spec(output2, decoded2),
{
}

/// How a process ended, as plain values.
pub open spec fn output_view(o: Result<ProcessOutput, String>) -> Result<
    (bool, Seq<u8>, Seq<u8>),
    Seq<char>,
> {
    match o {
        Ok(p) => Ok((p.success, p.stdout@, p.stderr@)),
        Err(e) => Err(e@),
    }
}

/// Which streaming command an operation runs.
pub enum StreamingKind {
    /// `lando <command>` inside a project.
    Lifecycle,
    /// `lando ssh -s <service> -c <command>` inside a project.
    Shell,
}

/// The message of a streaming command that could not be launched.
pub open spec fn spawn_failed_message(kind: StreamingKind, e: Seq<char>) -> Seq<char> {
    match kind {
        StreamingKind::Lifecycle => RUN_LANDO_FAILED@ + e,
        StreamingKind::Shell => RUN_SSH_FAILED@ + e,
    }
}

/// The terminal outcome of a streaming command, from what waiting for its
/// exit returned: `Ok(true)` for a successful exit status, `Ok(false)` for
/// any other, `Err` when the wait itself failed.
pub open spec fn streaming_finished_spec(
    kind: StreamingKind,
    command: Seq<char>,
    wait: Result<bool, Seq<char>>,
) -> OutcomeView {
    match (kind, wait) {
        (StreamingKind::Lifecycle, Err(e)) => OutcomeView::Error(
            WAIT_FAILED@ + command + QUOTE_COLON@ + e,
        ),
        (StreamingKind::Shell, Err(e)) => OutcomeView::Error(
            WAIT_SHELL_FAILED@ + command + QUOTE_COLON@ + e,
        ),
        (StreamingKind::Lifecycle, Ok(true)) => OutcomeView::CommandSuccess(
            COMMAND_PREFIX@ + command + COMMAND_OK_SUFFIX@,
        ),
        (StreamingKind::Shell, Ok(true)) => OutcomeView::CommandSuccess(
            SHELL_PREFIX@ + command + COMMAND_OK_SUFFIX@,
        ),
        (StreamingKind::Lifecycle, Ok(false)) => OutcomeView::Error(
            COMMAND_FAILED_PREFIX@ + command + COMMAND_FAILED_SUFFIX@,
        ),
        (StreamingKind::Shell, Ok(false)) => OutcomeView::Error(
            SHELL_FAILED_PREFIX@ + command + COMMAND_FAILED_SUFFIX@,
        ),
    }
}

pub open spec fn wait_view(w: Result<bool, String>) -> Result<bool, Seq<char>> {
    match w {
        Ok(b) => Ok(b),
        Err(e) => Err(e@),
    }
}

/// The outcome of a streaming command that could not be launched.
pub fn streaming_spawn_failed(kind: &StreamingKind, error: &String) -> (r: LandoCommandOutcome)
    ensures
        r@ == OutcomeView::Error(spawn_failed_message(*kind, error@)),
{
    match kind {
        StreamingKind::Lifecycle => LandoCommandOutcome::Error(concat(RUN_LANDO_FAILED, error.as_str())),
        StreamingKind::Shell => LandoCommandOutcome::Error(concat(RUN_SSH_FAILED, error.as_str())),
    }
}

/// The terminal outcome of a streaming command once both of its streams are
/// drained and its exit status is known. It is a success exactly when the
/// exit status is, and every failure names the command.
pub fn streaming_finished(kind: &StreamingKind, command: &String, wait: Result<bool, String>) -> (r:
    LandoCommandOutcome)
    ensures
        r@ == streaming_finished_spec(*kind, command@, wait_view(wait)),
        (r is CommandSuccess) <==> wait == Ok::<bool, String>(true),
        (r is CommandSuccess) || (r is Error),
        r@.is_terminal(),
        r is Error ==> contains_text(r->Error_0@, command@),
{
    let r = match (kind, wait) {
        (StreamingKind::Lifecycle, Err(e)) => LandoCommandOutcome::Error(
            concat(concat3(WAIT_FAILED, command.as_str(), QUOTE_COLON).as_str(), e.as_str()),
        ),
        (StreamingKind::Shell, Err(e)) => LandoCommandOutcome::Error(
            concat(concat3(WAIT_SHELL_FAILED, command.as_str(), QUOTE_COLON).as_str(), e.as_str()),
        ),
        (StreamingKind::Lifecycle, Ok(true)) => LandoCommandOutcome::CommandSuccess(
            concat3(COMMAND_PREFIX, command.as_str(), COMMAND_OK_SUFFIX),
        ),
        (StreamingKind::Shell, Ok(true)) => LandoCommandOutcome::CommandSuccess(
            concat3(SHELL_PREFIX, command.as_str(), COMMAND_OK_SUFFIX),
        ),
        (StreamingKind::Lifecycle, Ok(false)) => LandoCommandOutcome::Error(
            concat3(COMMAND_FAILED_PREFIX, command.as_str(), COMMAND_FAILED_SUFFIX),
        ),
        (StreamingKind::Shell, Ok(false)) => LandoCommandOutcome::Error(
            concat3(SHELL_FAILED_PREFIX, command.as_str(), COMMAND_FAILED_SUFFIX),
        ),
    };
    proof {
        lemma_names_command(*kind, command@, wait_view(wait));
    }
    r
}

proof fn lemma_occurs_between(a: Seq<char>, b: Seq<char>, c: Seq<char>)
    ensures
        contains_text(a + b + c, b),
{
    assert((a + b + c).subrange(a.len() as int, (a.len() + b.len()) as int) =~= b);
    assert(crate::text::occurs_at(a + b + c, b, a.len() as int));
}

/// Every failure of a streaming command mentions the command.
pub proof fn lemma_names_command(kind: StreamingKind, command: Seq<char>, wait: Result<bool, Seq<char>>)
    ensures
        streaming_finished_spec(kind, command, wait) is Error ==> contains_text(
            streaming_finished_spec(kind, command, wait)->Error_0,
            command,
        ),
{
    match (kind, wait) {
        (StreamingKind::Lifecycle, Err(e)) => {
            lemma_occurs_between(WAIT_FAILED@, command, QUOTE_COLON@ + e);
            assert(WAIT_FAILED@ + command + QUOTE_COLON@ + e =~= WAIT_FAILED@ + command + (QUOTE_COLON@ + e));
        },
        (StreamingKind::Shell, Err(e)) => {
            lemma_occurs_between(WAIT_SHELL_FAILED@, command, QUOTE_COLON@ + e);
            assert(WAIT_SHELL_FAILED@ + command + QUOTE_COLON@ + e =~= WAIT_SHELL_FAILED@ + command + (QUOTE_COLON@ + e));
        },
        (StreamingKind::Lifecycle, Ok(false)) => {
            lemma_occurs_between(COMMAND_FAILED_PREFIX@, command, COMMAND_FAILED_SUFFIX@);
        },
        (StreamingKind::Shell, Ok(false)) => {
            lemma_occurs_between(SHELL_FAILED_PREFIX@, command, COMMAND_FAILED_SUFFIX@);
        },
        _ => {},
    }
}


/// What one read of a stream pump leads to.
pub enum PumpStep {
    /// Hand this chunk to the consumer and read again.
    Forward(LandoCommandOutcome),
    /// The stream is finished: it ended, or a read failed.
    Stop,
}

/// The chunk that one read forwards, if the pump goes on.
pub open spec fn pump_spec(read: Result<Seq<u8>, Seq<char>>) -> Option<OutcomeView> {
    match read {
        Ok(d) => if d.len() > 0 {
            Some(OutcomeView::LogOutput(d))
        } else {
            None
        },
        Err(_) => None,
    }
}

pub open spec fn read_view(read: Result<Vec<u8>, String>) -> Result<Seq<u8>, Seq<char>> {
    match read {
        Ok(d) => Ok(d@),
        Err(e) => Err(e@),
    }
}

/// One step of a stream pump: a read that gave bytes forwards them as a log
/// chunk; a read that gave none (end of stream) or failed stops the pump.
pub fn pump_step(read: Result<Vec<u8>, String>) -> (r: PumpStep)
    ensures
        match pump_spec(read_view(read)) {
            Some(o) => r is Forward && r->Forward_0@ == o,
            None => r is Stop,
        },
{
    match read {
        Ok(d) => if d.len() > 0 {
            PumpStep::Forward(LandoCommandOutcome::LogOutput(d))
        } else {
            PumpStep::Stop
        },
        Err(_) => PumpStep::Stop,
    }
}

/// The bytes a stream produced, read by read, up to its end or its first
/// failed read.
pub open spec fn produced(reads: Seq<Result<Seq<u8>, Seq<char>>>) -> Seq<u8>
    decreases reads.len(),
{
    if reads.len() == 0 {
        Seq::empty()
    } else {
        match reads[0] {
            Ok(d) => if d.len() == 0 {
                Seq::empty()
            } else {
                d + produced(reads.drop_first())
            },
            Err(_) => Seq::empty(),
        }
    }
}

/// The outcomes a pump forwards when its reads return `reads`, in order.
pub open spec fn forwarded(reads: Seq<Result<Seq<u8>, Seq<char>>>) -> Seq<OutcomeView>
    decreases reads.len(),
{
    if reads.len() == 0 {
        Seq::empty()
    } else {
        match pump_spec(reads[0]) {
            Some(o) => seq![o] + forwarded(reads.drop_first()),
            None => Seq::empty(),
        }
    }
}

/// The concatenated payloads of the log chunks among `outs`.
pub open spec fn log_payload(outs: Seq<OutcomeView>) -> Seq<u8>
    decreases outs.len(),
{
    if outs.len() == 0 {
        Seq::empty()
    } else {
        match outs[0] {
            OutcomeView::LogOutput(d) => d + log_payload(outs.drop_first()),
            _ => log_payload(outs.drop_first()),
        }
    }
}

/// A stream pump forwards exactly the bytes its stream produced, in the
/// order they were produced, and only as non-terminal log chunks.
pub proof fn lemma_pump_preserves_bytes(reads: Seq<Result<Seq<u8>, Seq<char>>>)
    ensures
        log_payload(forwarded(reads)) == produced(reads),
        forall|i: int|
            0 <= i < forwarded(reads).len() ==> (#[trigger] forwarded(reads)[i]) is LogOutput
                && forwarded(reads)[i]->LogOutput_0.len() > 0,
        forall|i: int| 0 <= i < forwarded(reads).len() ==> !forwarded(reads)[i].is_terminal(),
    decreases reads.len(),
{
    if reads.len() > 0 {
        lemma_pump_preserves_bytes(reads.drop_first());
        match pump_spec(reads[0]) {
            Some(o) => {
                let f = forwarded(reads);
                assert(f == seq![o] + forwarded(reads.drop_first()));
                assert(f.drop_first() =~= forwarded(reads.drop_first()));
                assert forall|i: int| 0 <= i < f.len() implies (#[trigger] f[i]) is LogOutput
                    && f[i]->LogOutput_0.len() > 0 by {
                    if i > 0 {
                        assert(f[i] == forwarded(reads.drop_first())[i - 1]);
                    }
                }
            },
            None => {},
        }
    }
}


/// The outcomes of one stream among a delivery whose entries are tagged
/// with the stream they came from (`true` for standard output).
pub open spec fn from_stream(m: Seq<(bool, OutcomeView)>, stdout: bool) -> Seq<OutcomeView>
    decreases m.len(),
{
    if m.len() == 0 {
        Seq::empty()
    } else if m.last().0 == stdout {
        from_stream(m.drop_last(), stdout).push(m.last().1)
    } else {
        from_stream(m.drop_last(), stdout)
    }
}

/// A tagged delivery as the consumer sees it.
pub open spec fn untagged(m: Seq<(bool, OutcomeView)>) -> Seq<OutcomeView> {
    m.map_values(|e: (bool, OutcomeView)| e.1)
}

/// The payload of one outcome, if it is a log chunk.
pub open spec fn chunk_bytes(o: OutcomeView) -> Seq<u8> {
    match o {
        OutcomeView::LogOutput(d) => d,
        _ => Seq::empty(),
    }
}

proof fn lemma_log_payload_push(outs: Seq<OutcomeView>, o: OutcomeView)
    ensures
        log_payload(outs.push(o)) == log_payload(outs) + chunk_bytes(o),
    decreases outs.len(),
{
    if outs.len() == 0 {
        assert(outs.push(o).drop_first() =~= Seq::<OutcomeView>::empty());
        assert(log_payload(outs.push(o).drop_first()) == Seq::<u8>::empty());
        assert(log_payload(outs.push(o)) =~= log_payload(outs) + chunk_bytes(o));
    } else {
        lemma_log_payload_push(outs.drop_first(), o);
        assert(outs.push(o).drop_first() =~= outs.drop_first().push(o));
        match outs[0] {
            OutcomeView::LogOutput(d) => {
                assert(log_payload(outs.push(o)) =~= log_payload(outs) + chunk_bytes(o));
            },
            _ => {},
        }
    }
}

proof fn lemma_split_payload(m: Seq<(bool, OutcomeView)>)
    ensures
        log_payload(untagged(m)).len() == log_payload(from_stream(m, true)).len() + log_payload(
            from_stream(m, false),
        ).len(),
    decreases m.len(),
{
    if m.len() > 0 {
        let init = m.drop_last();
        lemma_split_payload(init);
        assert(untagged(m) =~= untagged(init).push(m.last().1));
        lemma_log_payload_push(untagged(init), m.last().1);
        if m.last().0 {
            lemma_log_payload_push(from_stream(init, true), m.last().1);
        } else {
            lemma_log_payload_push(from_stream(init, false), m.last().1);
        }
    } else {
        assert(untagged(m) =~= Seq::<OutcomeView>::empty());
    }
}

/// Both pumps of an operation share the channel, which keeps the order of
/// each producer: then the consumer receives each stream's bytes whole and
/// in order, nothing else, and only non-empty log chunks from them.
pub proof fn lemma_fan_in_preserves_streams(
    stdout_reads: Seq<Result<Seq<u8>, Seq<char>>>,
    stderr_reads: Seq<Result<Seq<u8>, Seq<char>>>,
    delivered: Seq<(bool, OutcomeView)>,
)
    requires
        from_stream(delivered, true) == forwarded(stdout_reads),
        from_stream(delivered, false) == forwarded(stderr_reads),
    ensures
        log_payload(from_stream(delivered, true)) == produced(stdout_reads),
        log_payload(from_stream(delivered, false)) == produced(stderr_reads),
        log_payload(untagged(delivered)).len() == produced(stdout_reads).len() + produced(
            stderr_reads,
        ).len(),
        forall|i: int|
            0 <= i < delivered.len() ==> (#[trigger] delivered[i]).1 is LogOutput
                && delivered[i].1->LogOutput_0.len() > 0,
{
    lemma_pump_preserves_bytes(stdout_reads);
    lemma_pump_preserves_bytes(stderr_reads);
    lemma_split_payload(delivered);
    assert forall|i: int| 0 <= i < delivered.len() implies (#[trigger] delivered[i]).1 is LogOutput
        && delivered[i].1->LogOutput_0.len() > 0 by {
        lemma_from_stream_member(delivered, i);
        let f = from_stream(delivered, delivered[i].0);
        let k = choose|k: int| 0 <= k < f.len() && f[k] == delivered[i].1;
        if delivered[i].0 {
            assert(forwarded(stdout_reads)[k] == delivered[i].1);
        } else {
            assert(forwarded(stderr_reads)[k] == delivered[i].1);
        }
    }
}

proof fn lemma_from_stream_member(m: Seq<(bool, OutcomeView)>, i: int)
    requires
        0 <= i < m.len(),
    ensures
        from_stream(m, m[i].0).contains(m[i].1),
    decreases m.len(),
{
    let f = from_stream(m, m[i].0);
    if i == m.len() - 1 {
        assert(f.last() == m[i].1);
        assert(f[f.len() - 1] == m[i].1);
    } else {
        let init = m.drop_last();
        assert(init[i] == m[i]);
        lemma_from_stream_member(init, i);
        let g = from_stream(init, m[i].0);
        let k = choose|k: int| 0 <= k < g.len() && g[k] == m[i].1;
        if m.last().0 == m[i].0 {
            assert(f == g.push(m.last().1));
            assert(f[k] == m[i].1);
        } else {
            assert(f == g);
        }
    }
}

/// What the first, privileged attempt of a data query leads to.
pub enum QueryStep {
    /// The query is over with this outcome.
    Done(LandoCommandOutcome),
    /// The attempt exited unsuccessfully: run the fallback attempt.
    Retry,
}

/// The outcome of the first attempt of a data query, or `None` when the
/// fallback attempt is owed.
pub open spec fn first_attempt_spec(output: Result<ProcessOutput, String>) -> Option<OutcomeView> {
    match output {
        Err(e) => Some(OutcomeView::Error(RUN_DB_CLI_FAILED@ + e@)),
        Ok(o) => if o.success {
            Some(OutcomeView::DbQueryResult(lossy_text(o.stdout@)))
        } else {
            None
        },
    }
}

/// The outcome of the fallback attempt of a data query.
pub open spec fn fallback_attempt_spec(output: Result<ProcessOutput, String>) -> OutcomeView {
    match output {
        Err(e) => OutcomeView::Error(RUN_DB_CLI_FAILED@ + e@),
        Ok(o) => if o.success {
            OutcomeView::DbQueryResult(lossy_text(o.stdout@))
        } else {
            OutcomeView::Error(QUERY_FAILED@ + lossy_text(o.stderr@))
        },
    }
}

/// Decides on the privileged attempt of a data query: its standard output
/// is the result when it succeeded, a launch failure is final, and an
/// unsuccessful exit asks for the fallback attempt.
pub fn db_query_first_attempt(output: Result<ProcessOutput, String>) -> (r: QueryStep)
    ensures
        match first_attempt_spec(output) {
            Some(o) => r is Done && r->Done_0@ == o,
            None => r is Retry,
        },
{
    match output {
        Err(e) => QueryStep::Done(LandoCommandOutcome::Error(concat(RUN_DB_CLI_FAILED, e.as_str()))),
        Ok(o) => if o.success {
            QueryStep::Done(LandoCommandOutcome::DbQueryResult(lossy(&o.stdout)))
        } else {
            QueryStep::Retry
        },
    }
}

/// Decides on the fallback attempt of a data query; its failure is final.
pub fn db_query_fallback_attempt(output: Result<ProcessOutput, String>) -> (r: LandoCommandOutcome)
    ensures
        r@ == fallback_attempt_spec(output),
{
    match output {
        Err(e) => LandoCommandOutcome::Error(concat(RUN_DB_CLI_FAILED, e.as_str())),
        Ok(o) => if o.success {
            LandoCommandOutcome::DbQueryResult(lossy(&o.stdout))
        } else {
            let err = lossy(&o.stderr);
            LandoCommandOutcome::Error(concat(QUERY_FAILED, err.as_str()))
        },
    }
}

/// The whole data query: its outcome and how many attempts it launched,
/// given what each attempt would return.
pub open spec fn db_query_spec(
    first: Result<ProcessOutput, String>,
    second: Result<ProcessOutput, String>,
) -> (OutcomeView, nat) {
    match first_attempt_spec(first) {
        Some(o) => (o, 1),
        None => (fallback_attempt_spec(second), 2),
    }
}

/// A data query whose attempts both launch reports a result when either
/// attempt succeeds and a failure only when both fail; the fallback runs
/// exactly once after an unsuccessful first attempt and never after a
/// successful one.
pub proof fn lemma_query_retry(first: Result<ProcessOutput, String>, second: Result<ProcessOutput, String>)
    requires
        first is Ok,
        second is Ok,
    ensures
        (db_query_spec(first, second).0 is DbQueryResult) <==> (first->Ok_0.success
            || second->Ok_0.success),
        (db_query_spec(first, second).0 is Error) <==> (!first->Ok_0.success
            && !second->Ok_0.success),
        db_query_spec(first, second).1 == if first->Ok_0.success {
            1nat
        } else {
            2nat
        },
{
}

/// The verdict of a liveness probe that exited successfully, from its
/// standard output as text.
pub open spec fn probe_verdict_spec(stdout: Seq<char>) -> OutcomeView {
    if contains_text(stdout, ALIVE_MARKER@) {
        OutcomeView::DbQueryResult(CONNECTION_OK@)
    } else {
        OutcomeView::Error(PROBE_UNEXPECTED@ + stdout)
    }
}

/// The outcome of a connection test.
pub open spec fn connection_test_spec(output: Result<ProcessOutput, String>) -> OutcomeView {
    match output {
        Err(e) => OutcomeView::Error(RUN_PROBE_FAILED@ + e@),
        Ok(o) => if o.success {
            probe_verdict_spec(lossy_text(o.stdout@))
        } else {
            OutcomeView::Error(PROBE_FAILED@ + lossy_text(o.stderr@))
        },
    }
}

/// Judges the output of a successful probe: healthy exactly when it holds
/// the marker text.
pub fn probe_verdict(stdout: &String) -> (r: LandoCommandOutcome)
    ensures
        r@ == probe_verdict_spec(stdout@),
{
    let marker = String::from_str(ALIVE_MARKER);
    if text_contains(stdout, &marker) {
        LandoCommandOutcome::DbQueryResult(String::from_str(CONNECTION_OK))
    } else {
        LandoCommandOutcome::Error(concat(PROBE_UNEXPECTED, stdout.as_str()))
    }
}

/// The single outcome of a connection test. A probe that exits successfully
/// without reporting the server alive is still a failure.
pub fn db_connection_test_outcome(output: Result<ProcessOutput, String>) -> (r: LandoCommandOutcome)
    ensures
        r@ == connection_test_spec(output),
{
    match output {
        Err(e) => LandoCommandOutcome::Error(concat(RUN_PROBE_FAILED, e.as_str())),
        Ok(o) => if o.success {
            let text = lossy(&o.stdout);
            probe_verdict(&text)
        } else {
            let err = lossy(&o.stderr);
            LandoCommandOutcome::Error(concat(PROBE_FAILED, err.as_str()))
        },
    }
}


/// An operation that the consumer asks the dispatcher to start in the
/// background.
#[derive(Debug)]
pub enum DispatchRequest {
    ListApps,
    ScanProjects { root: String },
    ProjectInfo { project_path: String },
    LandoCommand { command: String, project_path: String },
    ShellCommand { project_path: String, service: String, command: String },
    DbQuery { project_path: String, service: String, query: String },
    TestDbConnection { project_path: String, service: String },
}

/// A shell command for a service of a project.
pub open spec fn is_shell_request(
    r: DispatchRequest,
    project_path: Seq<char>,
    service: Seq<char>,
    command: Seq<char>,
) -> bool {
    match r {
        DispatchRequest::ShellCommand { project_path: p, service: s, command: c } => p@
            == project_path && s@ == service && c@ == command,
        _ => false,
    }
}

/// A data query for a service of a project.
pub open spec fn is_query_request(
    r: DispatchRequest,
    project_path: Seq<char>,
    service: Seq<char>,
    query: Seq<char>,
) -> bool {
    match r {
        DispatchRequest::DbQuery { project_path: p, service: s, query: q } => p@ == project_path
            && s@ == service && q@ == query,
        _ => false,
    }
}

/// A lifecycle command inside a project.
pub open spec fn is_lando_request(r: DispatchRequest, command: Seq<char>, project_path: Seq<char>) -> bool {
    match r {
        DispatchRequest::LandoCommand { command: c, project_path: p } => c@ == command && p@
            == project_path,
        _ => false,
    }
}

/// The process that a request launches first; a scan launches none.
pub fn request_invocation(req: &DispatchRequest) -> (r: Option<Invocation>)
    ensures
        match req {
            DispatchRequest::ScanProjects { .. } => r is None,
            DispatchRequest::ListApps => r is Some && args_of(r->0) == seq![
                "list"@,
                "--format"@,
                "json"@,
            ] && r->0.working_dir is None,
            DispatchRequest::ProjectInfo { project_path } => r is Some && args_of(r->0) == seq![
                "info"@,
                "--format"@,
                "json"@,
            ] && dir_of(r->0) == Some(project_path@),
            DispatchRequest::LandoCommand { command, project_path } => r is Some && args_of(r->0)
                == seq![command@] && dir_of(r->0) == Some(project_path@),
            DispatchRequest::ShellCommand { project_path, service, command } => r is Some
                && args_of(r->0) == seq!["ssh"@, "-s"@, service@, "-c"@, command@] && dir_of(r->0)
                == Some(project_path@),
            DispatchRequest::DbQuery { project_path, service, query } => r is Some && args_of(r->0)
                == seq!["db-cli"@, "-s"@, service@, "-u"@, "root"@, "-e"@, query@] && dir_of(r->0)
                == Some(project_path@),
            DispatchRequest::TestDbConnection { project_path, service } => r is Some && args_of(
                r->0,
            ) == seq!["ssh"@, "-s"@, service@, "-c"@, PING_COMMAND@] && dir_of(r->0) == Some(
                project_path@,
            ),
        },
        r is Some ==> r->0.program@ == LANDO@,
{
    match req {
        DispatchRequest::ScanProjects { .. } => None,
        DispatchRequest::ListApps => Some(list_apps_invocation()),
        DispatchRequest::ProjectInfo { project_path } => Some(project_info_invocation(project_path)),
        DispatchRequest::LandoCommand { command, project_path } => Some(
            lando_command_invocation(command, project_path),
        ),
        DispatchRequest::ShellCommand { project_path, service, command } => Some(
            shell_command_invocation(project_path, service, command),
        ),
        DispatchRequest::DbQuery { project_path, service, query } => Some(
            db_query_invocation(project_path, service, query, true),
        ),
        DispatchRequest::TestDbConnection { project_path, service } => Some(
            db_connection_test_invocation(project_path, service),
        ),
    }
}

} // verus!
