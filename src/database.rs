use vstd::prelude::*;

use crate::appserver::pairs_view;
use crate::commands::{is_lando_request, is_query_request, DispatchRequest};
use crate::models::LandoService;
use crate::text::{
    chars_of, collect_string, concat, concat3, contains_text, first_word, first_word_of, has_content,
    is_blank, lines, lines_of, lowercased, occurs_at, parse_i32, parse_i32_spec, replace,
    replace_all, starts_with, text_contains, to_decimal, decimal, to_lowercase, trim, trim_chars,
    trim_ws,
};

verus! {

/// How many results the panel keeps.
pub const MAX_RESULTS: usize = 20;

/// How many distinct queries the history keeps.
pub const MAX_HISTORY: usize = 50;

/// One query and what became of it. Times are whole seconds since the Unix
/// epoch; the execution time is in milliseconds.
#[derive(Debug, Clone)]
pub struct QueryResult {
    pub query: String,
    pub result: String,
    pub execution_time: u64,
    pub timestamp: u64,
    pub rows_affected: Option<i32>,
    pub has_error: bool,
}

/// The mathematical value of a [`QueryResult`].
pub struct ResultView {
    pub query: Seq<char>,
    pub result: Seq<char>,
    pub execution_time: u64,
    pub timestamp: u64,
    pub rows_affected: Option<i32>,
    pub has_error: bool,
}

impl View for QueryResult {
    type V = ResultView;

    open spec fn view(&self) -> ResultView {
        ResultView {
            query: self.query@,
            result: self.result@,
            execution_time: self.execution_time,
            timestamp: self.timestamp,
            rows_affected: self.rows_affected,
            has_error: self.has_error,
        }
    }
}

/// The values of a list of results.
pub open spec fn results_view(v: Seq<QueryResult>) -> Seq<ResultView> {
    v.map_values(|r: QueryResult| r@)
}

#[derive(Debug, Clone)]
pub struct TableInfo {
    pub name: String,
    pub columns: Vec<ColumnInfo>,
    pub row_count: Option<i64>,
    pub table_type: String,
}

#[derive(Debug, Clone)]
pub struct ColumnInfo {
    pub name: String,
    pub data_type: String,
    pub nullable: bool,
    pub default_value: Option<String>,
    pub is_primary_key: bool,
}

#[derive(Debug, Clone, Copy, PartialEq, Eq, Structural)]
pub enum DatabaseTab {
    QueryEditor,
    SchemaExplorer,
    TableBrowser,
    Connections,
    QueryHistory,
    Tools,
}

#[derive(Debug, Clone, PartialEq)]
pub enum ConnectionStatus {
    Connected,
    Disconnected,
    Testing,
    Error(String),
}

/// Working state of the database panel of a service.
pub struct DatabaseUI {
    pub query_input: String,
    pub query_results: Vec<QueryResult>,
    pub current_result_index: usize,
    pub query_history: Vec<String>,
    pub selected_history_index: Option<usize>,
    pub saved_queries: Vec<(String, String)>,
    pub query_name_input: String,
    pub tables: Vec<TableInfo>,
    pub selected_table: Option<String>,
    pub schema_filter: String,
    pub show_views: bool,
    pub show_procedures: bool,
    pub table_data: String,
    pub current_table: String,
    pub table_page: usize,
    pub table_limit: usize,
    pub table_sort_column: String,
    pub table_sort_desc: bool,
    pub table_filter: String,
    pub new_user: String,
    pub new_password: String,
    pub new_database: String,
    pub connection_status: ConnectionStatus,
    pub connection_test_result: String,
    pub current_tab: DatabaseTab,
    pub split_view: bool,
    pub auto_complete_enabled: bool,
    pub syntax_highlighting: bool,
    pub show_line_numbers: bool,
    pub show_save_query_dialog: bool,
    pub query_timeout: u32,
    pub max_rows: usize,
    pub enable_query_cache: bool,
}

/// The database engines whose SQL dialects the panel knows.
#[derive(Debug, Clone, Copy, PartialEq, Eq, Structural)]
pub enum DbFamily {
    MySql,
    Postgres,
    Sqlite,
    Other,
}

/// The engine that a lower-cased service type names.
pub open spec fn family(t: Seq<char>) -> DbFamily {
    if t == "mysql"@ || t == "mariadb"@ {
        DbFamily::MySql
    } else if t == "postgresql"@ || t == "postgres"@ {
        DbFamily::Postgres
    } else if t == "sqlite"@ {
        DbFamily::Sqlite
    } else {
        DbFamily::Other
    }
}

fn is(s: &String, lit: &str) -> (r: bool)
    ensures
        r == (s@ == lit@),
{
    s.eq(&String::from_str(lit))
}

/// The engine of a service type, whatever its case.
pub fn family_of(db_type: &str) -> (r: DbFamily)
    ensures
        r == family(lowercased(db_type@)),
{
    let t = to_lowercase(db_type);
    if is(&t, "mysql") || is(&t, "mariadb") {
        DbFamily::MySql
    } else if is(&t, "postgresql") || is(&t, "postgres") {
        DbFamily::Postgres
    } else if is(&t, "sqlite") {
        DbFamily::Sqlite
    } else {
        DbFamily::Other
    }
}

/// The query that lists the tables, by engine.
pub open spec fn show_tables_query(f: DbFamily) -> Seq<char> {
    match f {
        DbFamily::Postgres => "SELECT tablename FROM pg_tables WHERE schemaname = 'public';"@,
        DbFamily::Sqlite => "SELECT name FROM sqlite_master WHERE type='table';"@,
        _ => "SHOW TABLES;"@,
    }
}

/// The query that describes a table, by engine.
pub open spec fn describe_template(f: DbFamily) -> Seq<char> {
    match f {
        DbFamily::Postgres => "\\d table_name"@,
        DbFamily::Sqlite => "PRAGMA table_info(table_name);"@,
        _ => "DESCRIBE table_name;"@,
    }
}

/// The statement that reclaims space, by engine.
pub open spec fn optimize_query(f: DbFamily) -> Seq<char> {
    match f {
        DbFamily::Postgres => "VACUUM ANALYZE;"@,
        DbFamily::Sqlite => "VACUUM;"@,
        _ => "OPTIMIZE TABLE;"@,
    }
}

/// The statement that rebuilds indexes, by engine.
pub open spec fn repair_query(f: DbFamily) -> Seq<char> {
    match f {
        DbFamily::Postgres => "REINDEX DATABASE;"@,
        DbFamily::Sqlite => "REINDEX;"@,
        _ => "REPAIR TABLE;"@,
    }
}

/// The statement that refreshes statistics, by engine.
pub open spec fn analyze_query(f: DbFamily) -> Seq<char> {
    match f {
        DbFamily::Postgres | DbFamily::Sqlite => "ANALYZE;"@,
        _ => "ANALYZE TABLE;"@,
    }
}

fn show_tables_text(f: DbFamily) -> (r: &'static str)
    ensures
        r@ == show_tables_query(f),
{
    match f {
        DbFamily::Postgres => "SELECT tablename FROM pg_tables WHERE schemaname = 'public';",
        DbFamily::Sqlite => "SELECT name FROM sqlite_master WHERE type='table';",
        _ => "SHOW TABLES;",
    }
}

fn describe_text(f: DbFamily) -> (r: &'static str)
    ensures
        r@ == describe_template(f),
{
    match f {
        DbFamily::Postgres => "\\d table_name",
        DbFamily::Sqlite => "PRAGMA table_info(table_name);",
        _ => "DESCRIBE table_name;",
    }
}

/// The statements that every engine understands, as (label, SQL) pairs.
pub open spec fn common_templates(f: DbFamily) -> Seq<(Seq<char>, Seq<char>)> {
    seq![
        ("📋 SELECT"@, "SELECT * FROM table_name LIMIT 10;"@),
        ("🔍 COUNT"@, "SELECT COUNT(*) FROM table_name;"@),
        ("📊 TABLES"@, show_tables_query(f)),
        ("🏗️ DESCRIBE"@, describe_template(f)),
        ("🔍 WHERE"@, "SELECT * FROM table_name WHERE column = 'value';"@),
        ("📈 ORDER BY"@, "SELECT * FROM table_name ORDER BY column DESC;"@),
        ("📊 GROUP BY"@, "SELECT column, COUNT(*) FROM table_name GROUP BY column;"@),
        ("🔗 JOIN"@, "SELECT * FROM table1 t1 JOIN table2 t2 ON t1.id = t2.table1_id;"@),
    ]
}

/// The statements particular to an engine.
pub open spec fn engine_templates(f: DbFamily) -> Seq<(Seq<char>, Seq<char>)> {
    match f {
        DbFamily::MySql => seq![
            ("📈 STATUS"@, "SHOW STATUS;"@),
            ("🔧 PROCESSES"@, "SHOW PROCESSLIST;"@),
            ("💾 DATABASES"@, "SHOW DATABASES;"@),
            ("🔍 INDEX"@, "SHOW INDEX FROM table_name;"@),
            ("📊 VARIABLES"@, "SHOW VARIABLES LIKE '%buffer%';"@),
            ("🔧 ENGINES"@, "SHOW ENGINES;"@),
            ("📈 PERFORMANCE"@, "SELECT * FROM performance_schema.events_statements_summary_by_digest LIMIT 10;"@),
            ("🔍 USERS"@, "SELECT User, Host FROM mysql.user;"@),
            ("📊 TABLES STATUS"@, "SHOW TABLE STATUS;"@),
            ("🔧 CREATE TABLE"@, "CREATE TABLE example_table (\n    id INT AUTO_INCREMENT PRIMARY KEY,\n    name VARCHAR(255) NOT NULL,\n    created_at TIMESTAMP DEFAULT CURRENT_TIMESTAMP\n);"@),
        ],
        DbFamily::Postgres => seq![
            ("📈 STATS"@, "SELECT * FROM pg_stat_database;"@),
            ("🔧 ACTIVITY"@, "SELECT * FROM pg_stat_activity;"@),
            ("💾 SCHEMAS"@, "SELECT schema_name FROM information_schema.schemata;"@),
            ("🔍 INDEXES"@, "SELECT * FROM pg_indexes WHERE tablename = 'table_name';"@),
            ("📊 TABLES INFO"@, "SELECT schemaname, tablename, tableowner FROM pg_tables;"@),
            ("🔧 LOCKS"@, "SELECT * FROM pg_locks;"@),
            ("📈 QUERY STATS"@, "SELECT query, calls, total_time FROM pg_stat_statements ORDER BY total_time DESC LIMIT 10;"@),
            ("🔍 USERS"@, "SELECT usename, usesuper FROM pg_user;"@),
            ("📊 SIZE"@, "SELECT pg_size_pretty(pg_total_relation_size('table_name'));"@),
            ("🔧 CREATE TABLE"@, "CREATE TABLE example_table (\n    id SERIAL PRIMARY KEY,\n    name VARCHAR(255) NOT NULL,\n    created_at TIMESTAMP DEFAULT CURRENT_TIMESTAMP\n);"@),
        ],
        DbFamily::Sqlite => seq![
            ("📈 PRAGMA"@, "PRAGMA database_list;"@),
            ("🔧 INFO"@, "PRAGMA table_info(table_name);"@),
            ("🔍 INDEX"@, "PRAGMA index_list(table_name);"@),
            ("📊 SCHEMA"@, "SELECT sql FROM sqlite_master WHERE type='table';"@),
            ("🔧 VERSION"@, "SELECT sqlite_version();"@),
            ("📈 STATS"@, "PRAGMA stats;"@),
            ("🔍 FOREIGN KEYS"@, "PRAGMA foreign_key_list(table_name);"@),
            ("📊 SIZE"@, "PRAGMA page_count; PRAGMA page_size;"@),
            ("🔧 CREATE TABLE"@, "CREATE TABLE example_table (\n    id INTEGER PRIMARY KEY AUTOINCREMENT,\n    name TEXT NOT NULL,\n    created_at DATETIME DEFAULT CURRENT_TIMESTAMP\n);"@),
        ],
        DbFamily::Other => seq![
            ("📊 INFO"@, "SELECT * FROM information_schema.tables;"@),
            ("🔍 COLUMNS"@, "SELECT * FROM information_schema.columns WHERE table_name = 'table_name';"@),
            ("📈 STATS"@, "SELECT * FROM information_schema.table_statistics;"@),
        ],
    }
}

fn push_pair(v: &mut Vec<(String, String)>, label: &str, sql: &str)
    ensures
        pairs_view(final(v)@) == pairs_view(old(v)@).push((label@, sql@)),
{
    let ghost before = pairs_view(v@);
    v.push((String::from_str(label), String::from_str(sql)));
    assert(pairs_view(v@) =~= before.push((label@, sql@)));
}

/// The SQL keywords that a query may start with.
pub open spec fn sql_keywords() -> Seq<Seq<char>> {
    seq![
        "select"@,
        "insert"@,
        "update"@,
        "delete"@,
        "show"@,
        "describe"@,
        "explain"@,
        "pragma"@,
        "create"@,
        "drop"@,
        "alter"@,
    ]
}

/// Whether a lower-cased, trimmed text starts with a known keyword.
pub open spec fn valid_sql(t: Seq<char>) -> bool {
    t.len() > 0 && exists|k: int| 0 <= k < sql_keywords().len() && occurs_at(t, #[trigger] sql_keywords()[k], 0)
}

fn begins(t: &Vec<char>, k: &str) -> (r: bool)
    ensures
        r == occurs_at(t@, k@, 0),
{
    let kc = chars_of(k);
    starts_with(t, &kc)
}

/// The layout that the formatter gives a query: a line break after each
/// comma and before each main clause.
pub open spec fn formatted(q: Seq<char>) -> Seq<char> {
    replace_all(
        replace_all(
            replace_all(
                replace_all(replace_all(q, ","@, ",\n    "@), " FROM "@, "\nFROM "@),
                " WHERE "@,
                "\nWHERE "@,
            ),
            " ORDER BY "@,
            "\nORDER BY "@,
        ),
        " GROUP BY "@,
        "\nGROUP BY "@,
    )
}

fn replace_text(s: &Vec<char>, p: &str, t: &str) -> (r: Vec<char>)
    requires
        p@.len() > 0,
    ensures
        r@ == replace_all(s@, p@, t@),
{
    let pc = chars_of(p);
    let tc = chars_of(t);
    replace(s, &pc, &tc)
}


/// How long a query ran, in milliseconds, from the seconds at which it
/// started and ended; a clock that went back gives zero, and the count
/// stops at the largest `u64`.
pub open spec fn elapsed_ms(start: u64, now: u64) -> u64 {
    if now <= start {
        0
    } else if (now - start) * 1000 > u64::MAX {
        u64::MAX
    } else {
        ((now - start) * 1000) as u64
    }
}

fn elapsed(start: u64, now: u64) -> (r: u64)
    ensures
        r == elapsed_ms(start, now),
{
    if now <= start {
        0
    } else if now - start > u64::MAX / 1000 {
        u64::MAX
    } else {
        (now - start) * 1000
    }
}

/// The first number that starts a line, among `ls`.
pub open spec fn first_number(ls: Seq<Seq<char>>) -> Option<i32>
    decreases ls.len(),
{
    if ls.len() == 0 {
        None
    } else {
        match first_word(ls[0]) {
            Some(w) => match parse_i32_spec(w) {
                Some(v) => Some(v),
                None => first_number(ls.drop_first()),
            },
            None => first_number(ls.drop_first()),
        }
    }
}

/// The row count that a result text reports: when it mentions rows, the
/// first line that starts with a number gives it.
pub open spec fn rows_affected(text: Seq<char>) -> Option<i32> {
    if contains_text(text, "row"@) {
        first_number(lines_of(text))
    } else {
        None
    }
}

/// The table that one line of a table listing names, if any: the first
/// word of a line that is not blank and is no border of a drawn table.
pub open spec fn table_name_of(line: Seq<char>) -> Option<Seq<char>> {
    let t = trim_ws(line);
    if t.len() > 0 && t[0] != '+' && t[0] != '|' && t[0] != '-' {
        first_word(t)
    } else {
        None
    }
}

/// The tables that a listing names, line by line.
pub open spec fn table_names(ls: Seq<Seq<char>>) -> Seq<Seq<char>>
    decreases ls.len(),
{
    if ls.len() == 0 {
        Seq::empty()
    } else {
        match table_name_of(ls.last()) {
            Some(n) => table_names(ls.drop_last()).push(n),
            None => table_names(ls.drop_last()),
        }
    }
}

/// The names of a list of tables.
pub open spec fn names_of(t: Seq<TableInfo>) -> Seq<Seq<char>> {
    t.map_values(|i: TableInfo| i.name@)
}

/// Whether every table of the list is a bare entry as a listing makes it.
pub open spec fn bare_tables(t: Seq<TableInfo>) -> bool {
    forall|i: int|
        0 <= i < t.len() ==> (#[trigger] t[i]).columns@.len() == 0 && t[i].row_count is None
            && t[i].table_type@ == "table"@
}

/// The result list once a result text has come in: the last result takes
/// it in; with no result yet, a new one is made of the query input.
pub open spec fn recorded(
    results: Seq<ResultView>,
    query_input: Seq<char>,
    text: Seq<char>,
    has_error: bool,
    now: u64,
) -> Seq<ResultView> {
    if results.len() > 0 {
        let last = results.last();
        results.update(
            results.len() - 1,
            ResultView {
                result: text,
                execution_time: elapsed_ms(last.timestamp, now),
                has_error,
                rows_affected: rows_affected(text),
                ..last
            },
        )
    } else {
        seq![
            ResultView {
                query: query_input,
                result: text,
                execution_time: 0,
                timestamp: now,
                rows_affected: rows_affected(text),
                has_error,
            },
        ]
    }
}

/// The results kept of a list: the oldest goes once there are too many.
pub open spec fn kept(s: Seq<ResultView>) -> Seq<ResultView> {
    if s.len() > MAX_RESULTS {
        s.drop_first()
    } else {
        s
    }
}

/// The index of the current result after a result text came in.
pub open spec fn index_after(results_len: nat, index: usize) -> usize {
    let idx: usize = if results_len > 0 {
        index
    } else {
        0
    };
    if results_len > MAX_RESULTS && idx > 0 {
        (idx - 1) as usize
    } else {
        idx
    }
}

/// Whether a query lists tables, so that its result is a table listing.
pub open spec fn lists_tables(q: Seq<char>) -> bool {
    contains_text(q, "SHOW TABLES"@) || contains_text(q, "SELECT tablename"@) || contains_text(
        q,
        "SELECT name"@,
    )
}

/// The message of a connection status after a failed query.
pub const QUERY_ERROR: &'static str = "Error en la consulta: ";


/// Placeholder texts of results whose outcome has not come in.
pub const RUNNING_QUERY: &'static str = "Ejecutando consulta...";
pub const SCHEMA_REFRESH: &'static str = "Schema refresh";
pub const LOADING_SCHEMA: &'static str = "Cargando schema...";
pub const LOADING_TABLE: &'static str = "Cargando datos de la tabla...";

/// The history after a query ran: a query not yet in it is appended, and
/// the oldest goes once there are too many.
pub open spec fn history_after(h: Seq<Seq<char>>, q: Seq<char>) -> Seq<Seq<char>> {
    if h.contains(q) {
        h
    } else if h.len() + 1 > MAX_HISTORY {
        h.push(q).drop_first()
    } else {
        h.push(q)
    }
}

/// The result that stands for a query until its outcome comes in.
pub open spec fn placeholder(query: Seq<char>, text: Seq<char>, now: u64) -> ResultView {
    ResultView {
        query,
        result: text,
        execution_time: 0,
        timestamp: now,
        rows_affected: None,
        has_error: false,
    }
}

/// `after` is `before` with a placeholder for `query` appended and made
/// the current result, and nothing else changed but the history.
pub open spec fn started(
    before: DatabaseUI,
    after: DatabaseUI,
    query: Seq<char>,
    text: Seq<char>,
    now: u64,
) -> bool {
    &&& results_view(after.query_results@) == results_view(before.query_results@).push(
        placeholder(query, text, now),
    )
    &&& after.current_result_index == before.query_results@.len()
}

/// The query that pages through a table: its rows, filtered when a filter
/// is given, one page at a time.
pub open spec fn table_query(table: Seq<char>, filter: Seq<char>, page: usize, limit: usize) -> Seq<
    char,
> {
    "SELECT * FROM "@ + table + (if filter.len() > 0 {
        " WHERE "@ + filter
    } else {
        Seq::empty()
    }) + " LIMIT "@ + decimal(limit as nat) + " OFFSET "@ + decimal((page * limit) as nat)
}

/// The command that sets a service's credentials.
pub open spec fn credentials_command(user: Seq<char>, password: Seq<char>, database: Seq<char>) -> Seq<
    char,
> {
    "config --set database.creds.user="@ + user + " --set database.creds.password="@ + password
        + " --set database.creds.database="@ + database
}

/// The texts of a query history.
pub open spec fn history_view(h: Seq<String>) -> Seq<Seq<char>> {
    h.map_values(|q: String| q@)
}

proof fn lemma_prefixed_has_content(t: Seq<char>)
    ensures
        crate::text::has_content("EXPLAIN "@ + t),
{
    reveal_strlit("EXPLAIN ");
    assert(!crate::text::is_ws(("EXPLAIN "@ + t)[0]));
}


impl Default for DatabaseUI {
    fn default() -> (r: Self)
        ensures
            r.query_input@.len() == 0,
            r.query_results@.len() == 0,
            r.current_result_index == 0,
            r.query_history@.len() == 0,
            r.tables@.len() == 0,
            r.current_table@.len() == 0,
            r.table_page == 0,
            r.table_limit == 50,
            r.table_filter@.len() == 0,
            r.connection_status is Disconnected,
            r.current_tab == DatabaseTab::QueryEditor,
            !r.split_view,
            r.query_timeout == 30,
            r.max_rows == 1000,
    {
        DatabaseUI {
            query_input: String::new(),
            query_results: Vec::new(),
            current_result_index: 0,
            query_history: Vec::new(),
            selected_history_index: None,
            saved_queries: Vec::new(),
            query_name_input: String::new(),
            tables: Vec::new(),
            selected_table: None,
            schema_filter: String::new(),
            show_views: true,
            show_procedures: true,
            table_data: String::new(),
            current_table: String::new(),
            table_page: 0,
            table_limit: 50,
            table_sort_column: String::new(),
            table_sort_desc: false,
            table_filter: String::new(),
            new_user: String::new(),
            new_password: String::new(),
            new_database: String::new(),
            connection_status: ConnectionStatus::Disconnected,
            connection_test_result: String::new(),
            current_tab: DatabaseTab::QueryEditor,
            split_view: false,
            auto_complete_enabled: true,
            syntax_highlighting: true,
            show_line_numbers: true,
            show_save_query_dialog: false,
            query_timeout: 30,
            max_rows: 1000,
            enable_query_cache: true,
        }
    }
}

impl DatabaseUI {
    /// The rows that the query editor shows.
    pub fn get_editor_rows(&self) -> (r: usize)
        ensures
            r == if self.split_view {
                8usize
            } else {
                12usize
            },
    {
        if self.split_view {
            8
        } else {
            12
        }
    }

    /// Appends a template to the query, after a blank line when the query
    /// already holds text.
    pub fn insert_template(&mut self, template: &str)
        ensures
            final(self).query_input@ == if old(self).query_input@.len() > 0 {
                old(self).query_input@ + "\n\n"@ + template@
            } else {
                template@
            },
            (DatabaseUI { query_input: old(self).query_input, ..*final(self) }) == *old(self),
    {
        if !self.query_input.as_str().is_empty() {
            self.query_input = concat3(self.query_input.as_str(), "\n\n", template);
        } else {
            self.query_input = String::from_str(template);
        }
    }

    /// The query that lists the tables of a database of the given type.
    pub fn get_show_tables_query(&self, db_type: &str) -> (r: String)
        ensures
            r@ == show_tables_query(family(lowercased(db_type@))),
    {
        String::from_str(show_tables_text(family_of(db_type)))
    }

    /// The query that describes a table of a database of the given type.
    pub fn get_describe_template(&self, db_type: &str) -> (r: String)
        ensures
            r@ == describe_template(family(lowercased(db_type@))),
    {
        String::from_str(describe_text(family_of(db_type)))
    }

    /// The query templates offered for a database of the given type: the
    /// common ones, then those of its engine.
    pub fn get_sql_templates(&self, db_type: &str) -> (r: Vec<(String, String)>)
        ensures
            pairs_view(r@) == common_templates(family(lowercased(db_type@))) + engine_templates(
                family(lowercased(db_type@)),
            ),
    {
        let f = family_of(db_type);
        let mut v: Vec<(String, String)> = Vec::new();
        push_pair(&mut v, "📋 SELECT", "SELECT * FROM table_name LIMIT 10;");
        push_pair(&mut v, "🔍 COUNT", "SELECT COUNT(*) FROM table_name;");
        push_pair(&mut v, "📊 TABLES", show_tables_text(f));
        push_pair(&mut v, "🏗️ DESCRIBE", describe_text(f));
        push_pair(&mut v, "🔍 WHERE", "SELECT * FROM table_name WHERE column = 'value';");
        push_pair(&mut v, "📈 ORDER BY", "SELECT * FROM table_name ORDER BY column DESC;");
        push_pair(&mut v, "📊 GROUP BY", "SELECT column, COUNT(*) FROM table_name GROUP BY column;");
        push_pair(&mut v, "🔗 JOIN", "SELECT * FROM table1 t1 JOIN table2 t2 ON t1.id = t2.table1_id;");
        let ghost common = pairs_view(v@);
        assert(common =~= common_templates(f));
        match f {
            DbFamily::MySql => {
                push_pair(&mut v, "📈 STATUS", "SHOW STATUS;");
                push_pair(&mut v, "🔧 PROCESSES", "SHOW PROCESSLIST;");
                push_pair(&mut v, "💾 DATABASES", "SHOW DATABASES;");
                push_pair(&mut v, "🔍 INDEX", "SHOW INDEX FROM table_name;");
                push_pair(&mut v, "📊 VARIABLES", "SHOW VARIABLES LIKE '%buffer%';");
                push_pair(&mut v, "🔧 ENGINES", "SHOW ENGINES;");
                push_pair(&mut v, "📈 PERFORMANCE", "SELECT * FROM performance_schema.events_statements_summary_by_digest LIMIT 10;");
                push_pair(&mut v, "🔍 USERS", "SELECT User, Host FROM mysql.user;");
                push_pair(&mut v, "📊 TABLES STATUS", "SHOW TABLE STATUS;");
                push_pair(&mut v, "🔧 CREATE TABLE", "CREATE TABLE example_table (\n    id INT AUTO_INCREMENT PRIMARY KEY,\n    name VARCHAR(255) NOT NULL,\n    created_at TIMESTAMP DEFAULT CURRENT_TIMESTAMP\n);");
            },
            DbFamily::Postgres => {
                push_pair(&mut v, "📈 STATS", "SELECT * FROM pg_stat_database;");
                push_pair(&mut v, "🔧 ACTIVITY", "SELECT * FROM pg_stat_activity;");
                push_pair(&mut v, "💾 SCHEMAS", "SELECT schema_name FROM information_schema.schemata;");
                push_pair(&mut v, "🔍 INDEXES", "SELECT * FROM pg_indexes WHERE tablename = 'table_name';");
                push_pair(&mut v, "📊 TABLES INFO", "SELECT schemaname, tablename, tableowner FROM pg_tables;");
                push_pair(&mut v, "🔧 LOCKS", "SELECT * FROM pg_locks;");
                push_pair(&mut v, "📈 QUERY STATS", "SELECT query, calls, total_time FROM pg_stat_statements ORDER BY total_time DESC LIMIT 10;");
                push_pair(&mut v, "🔍 USERS", "SELECT usename, usesuper FROM pg_user;");
                push_pair(&mut v, "📊 SIZE", "SELECT pg_size_pretty(pg_total_relation_size('table_name'));");
                push_pair(&mut v, "🔧 CREATE TABLE", "CREATE TABLE example_table (\n    id SERIAL PRIMARY KEY,\n    name VARCHAR(255) NOT NULL,\n    created_at TIMESTAMP DEFAULT CURRENT_TIMESTAMP\n);");
            },
            DbFamily::Sqlite => {
                push_pair(&mut v, "📈 PRAGMA", "PRAGMA database_list;");
                push_pair(&mut v, "🔧 INFO", "PRAGMA table_info(table_name);");
                push_pair(&mut v, "🔍 INDEX", "PRAGMA index_list(table_name);");
                push_pair(&mut v, "📊 SCHEMA", "SELECT sql FROM sqlite_master WHERE type='table';");
                push_pair(&mut v, "🔧 VERSION", "SELECT sqlite_version();");
                push_pair(&mut v, "📈 STATS", "PRAGMA stats;");
                push_pair(&mut v, "🔍 FOREIGN KEYS", "PRAGMA foreign_key_list(table_name);");
                push_pair(&mut v, "📊 SIZE", "PRAGMA page_count; PRAGMA page_size;");
                push_pair(&mut v, "🔧 CREATE TABLE", "CREATE TABLE example_table (\n    id INTEGER PRIMARY KEY AUTOINCREMENT,\n    name TEXT NOT NULL,\n    created_at DATETIME DEFAULT CURRENT_TIMESTAMP\n);");
            },
            DbFamily::Other => {
                push_pair(&mut v, "📊 INFO", "SELECT * FROM information_schema.tables;");
                push_pair(&mut v, "🔍 COLUMNS", "SELECT * FROM information_schema.columns WHERE table_name = 'table_name';");
                push_pair(&mut v, "📈 STATS", "SELECT * FROM information_schema.table_statistics;");
            },
        }
        assert(pairs_view(v@) =~= common + engine_templates(f));
        v
    }

    /// Whether a text looks like SQL: once trimmed and lower-cased it is not
    /// empty and starts with a known keyword.
    pub fn is_valid_sql(&self, sql: &str) -> (r: bool)
        ensures
            r == valid_sql(lowercased(trim_ws(sql@))),
    {
        let trimmed = trim(sql);
        let lowered = to_lowercase(trimmed.as_str());
        let t = chars_of(lowered.as_str());
        if t.len() == 0 {
            return false;
        }
        let ghost kw = sql_keywords();
        let r = begins(&t, "select") || begins(&t, "insert") || begins(&t, "update") || begins(
            &t,
            "delete",
        ) || begins(&t, "show") || begins(&t, "describe") || begins(&t, "explain") || begins(
            &t,
            "pragma",
        ) || begins(&t, "create") || begins(&t, "drop") || begins(&t, "alter");
        assert(kw[0] == "select"@ && kw[1] == "insert"@ && kw[2] == "update"@ && kw[3] == "delete"@
            && kw[4] == "show"@ && kw[5] == "describe"@ && kw[6] == "explain"@ && kw[7]
            == "pragma"@ && kw[8] == "create"@ && kw[9] == "drop"@ && kw[10] == "alter"@);
        r
    }

    /// Lays the query out: a line break after each comma and before each
    /// main clause.
    pub fn format_query(&mut self)
        ensures
            final(self).query_input@ == formatted(old(self).query_input@),
            (DatabaseUI { query_input: old(self).query_input, ..*final(self) }) == *old(self),
    {
        proof {
            reveal_strlit(",");
            reveal_strlit(" FROM ");
            reveal_strlit(" WHERE ");
            reveal_strlit(" ORDER BY ");
            reveal_strlit(" GROUP BY ");
        }
        let q = chars_of(self.query_input.as_str());
        let q = replace_text(&q, ",", ",\n    ");
        let q = replace_text(&q, " FROM ", "\nFROM ");
        let q = replace_text(&q, " WHERE ", "\nWHERE ");
        let q = replace_text(&q, " ORDER BY ", "\nORDER BY ");
        let q = replace_text(&q, " GROUP BY ", "\nGROUP BY ");
        self.query_input = collect_string(&q);
    }

    /// The row count that a result text reports, if any.
    pub fn extract_rows_affected(&self, result: &str) -> (r: Option<i32>)
        ensures
            r == rows_affected(result@),
    {
        let text = String::from_str(result);
        if !text_contains(&text, &String::from_str("row")) {
            return None;
        }
        let c = chars_of(result);
        let ls = lines(&c);
        let mut i: usize = 0;
        assert(ls.deep_view().skip(0) =~= ls.deep_view());
        while i < ls.len()
            invariant
                i <= ls@.len(),
                ls.deep_view() == lines_of(result@),
                contains_text(result@, "row"@),
                first_number(lines_of(result@)) == first_number(ls.deep_view().skip(i as int)),
            decreases ls@.len() - i,
        {
            let ghost rest = ls.deep_view().skip(i as int);
            assert(rest[0] == ls@[i as int]@);
            assert(rest.drop_first() =~= ls.deep_view().skip(i + 1));
            match first_word_of(&ls[i]) {
                Some(w) => match parse_i32(&w) {
                    Some(v) => {
                        return Some(v);
                    },
                    None => {},
                },
                None => {},
            }
            i = i + 1;
        }
        None
    }

    /// Rebuilds the table list from a table listing.
    pub fn parse_tables_from_result(&mut self, result: &str)
        ensures
            names_of(final(self).tables@) == table_names(lines_of(result@)),
            bare_tables(final(self).tables@),
            (DatabaseUI { tables: old(self).tables, ..*final(self) }) == *old(self),
    {
        let c = chars_of(result);
        let ls = lines(&c);
        let mut tables: Vec<TableInfo> = Vec::new();
        let mut i: usize = 0;
        while i < ls.len()
            invariant
                i <= ls@.len(),
                ls.deep_view() == lines_of(result@),
                names_of(tables@) == table_names(ls.deep_view().take(i as int)),
                bare_tables(tables@),
            decreases ls@.len() - i,
        {
            let ghost pre = ls.deep_view().take(i as int);
            let ghost next = ls.deep_view().take(i + 1);
            assert(next.drop_last() =~= pre);
            assert(next.last() == ls@[i as int]@);
            let t = trim_chars(&ls[i]);
            if t.len() > 0 && t[0] != '+' && t[0] != '|' && t[0] != '-' {
                match first_word_of(&t) {
                    Some(w) => {
                        let ghost before = tables@;
                        tables.push(
                            TableInfo {
                                name: collect_string(&w),
                                columns: Vec::new(),
                                row_count: None,
                                table_type: String::from_str("table"),
                            },
                        );
                        assert(names_of(tables@) =~= names_of(before).push(w@));
                    },
                    None => {},
                }
            }
            i = i + 1;
        }
        assert(ls.deep_view().take(ls@.len() as int) =~= ls.deep_view());
        self.tables = tables;
    }

    /// Takes in the text of a query result: the latest result records it
    /// (or a new one is made of the query input), the oldest result goes
    /// when there are too many, and the current index follows.
    pub fn update_query_result(&mut self, result_text: String, has_error: bool, now: u64)
        ensures
            results_view(final(self).query_results@) == kept(
                recorded(
                    results_view(old(self).query_results@),
                    old(self).query_input@,
                    result_text@,
                    has_error,
                    now,
                ),
            ),
            final(self).current_result_index == index_after(
                old(self).query_results@.len(),
                old(self).current_result_index,
            ),
            (DatabaseUI {
                query_results: old(self).query_results,
                current_result_index: old(self).current_result_index,
                ..*final(self)
            }) == *old(self),
    {
        let rows = self.extract_rows_affected(result_text.as_str());
        let ghost before = results_view(self.query_results@);
        let n = self.query_results.len();
        if n > 0 {
            let last = &self.query_results[n - 1];
            let updated = QueryResult {
                query: last.query.clone(),
                result: result_text,
                execution_time: elapsed(last.timestamp, now),
                timestamp: last.timestamp,
                rows_affected: rows,
                has_error,
            };
            self.query_results.set(n - 1, updated);
        } else {
            let fresh = QueryResult {
                query: self.query_input.clone(),
                result: result_text,
                execution_time: 0,
                timestamp: now,
                rows_affected: rows,
                has_error,
            };
            self.query_results.push(fresh);
            self.current_result_index = 0;
        }
        let ghost staged = results_view(self.query_results@);
        assert(staged =~= recorded(before, self.query_input@, result_text@, has_error, now));
        if self.query_results.len() > MAX_RESULTS {
            self.query_results.remove(0);
            assert(results_view(self.query_results@) =~= staged.drop_first());
            if self.current_result_index > 0 {
                self.current_result_index = self.current_result_index - 1;
            }
        }
    }

    /// Takes in a query result for this panel: records it, rebuilds the
    /// table list when the current query lists tables, and sets the
    /// connection status from the outcome.
    pub fn process_query_result(&mut self, result_text: String, has_error: bool, now: u64)
        ensures
            results_view(final(self).query_results@) == kept(
                recorded(
                    results_view(old(self).query_results@),
                    old(self).query_input@,
                    result_text@,
                    has_error,
                    now,
                ),
            ),
            final(self).current_result_index == index_after(
                old(self).query_results@.len(),
                old(self).current_result_index,
            ),
            ({
                let idx = final(self).current_result_index as int;
                if idx < final(self).query_results@.len() && lists_tables(
                    final(self).query_results@[idx].query@,
                ) {
                    names_of(final(self).tables@) == table_names(lines_of(result_text@))
                        && bare_tables(final(self).tables@)
                } else {
                    final(self).tables == old(self).tables
                }
            }),
            has_error ==> final(self).connection_status is Error
                && final(self).connection_status->Error_0@ == QUERY_ERROR@ + result_text@,
            !has_error ==> final(self).connection_status is Connected,
            (DatabaseUI {
                query_results: old(self).query_results,
                current_result_index: old(self).current_result_index,
                tables: old(self).tables,
                connection_status: old(self).connection_status,
                ..*final(self)
            }) == *old(self),
    {
        let text = result_text.clone();
        self.update_query_result(result_text, has_error, now);
        let idx = self.current_result_index;
        if idx < self.query_results.len() {
            let q = &self.query_results[idx].query;
            if text_contains(q, &String::from_str("SHOW TABLES")) || text_contains(
                q,
                &String::from_str("SELECT tablename"),
            ) || text_contains(q, &String::from_str("SELECT name")) {
                self.parse_tables_from_result(text.as_str());
            }
        }
        if has_error {
            self.connection_status = ConnectionStatus::Error(concat(QUERY_ERROR, text.as_str()));
        } else {
            self.connection_status = ConnectionStatus::Connected;
        }
    }

    fn add_placeholder(&mut self, query: String, text: &str, now: u64)
        ensures
            started(*old(self), *final(self), query@, text@, now),
            (DatabaseUI {
                query_results: old(self).query_results,
                current_result_index: old(self).current_result_index,
                ..*final(self)
            }) == *old(self),
    {
        let ghost before = results_view(self.query_results@);
        self.query_results.push(
            QueryResult {
                query,
                result: String::from_str(text),
                execution_time: 0,
                timestamp: now,
                rows_affected: None,
                has_error: false,
            },
        );
        assert(results_view(self.query_results@) =~= before.push(placeholder(query@, text@, now)));
        self.current_result_index = self.query_results.len() - 1;
    }

    fn remember_query(&mut self)
        ensures
            history_view(final(self).query_history@) == history_after(
                history_view(old(self).query_history@),
                old(self).query_input@,
            ),
            (DatabaseUI { query_history: old(self).query_history, ..*final(self) }) == *old(self),
    {
        let ghost h = history_view(self.query_history@);
        let mut i: usize = 0;
        while i < self.query_history.len()
            invariant
                i <= self.query_history@.len(),
                h == history_view(self.query_history@),
                forall|k: int| 0 <= k < i ==> h[k] != self.query_input@,
            decreases self.query_history@.len() - i,
        {
            if self.query_history[i].eq(&self.query_input) {
                assert(h[i as int] == self.query_input@);
                return ;
            }
            i = i + 1;
        }
        assert(!h.contains(self.query_input@));
        self.query_history.push(self.query_input.clone());
        assert(history_view(self.query_history@) =~= h.push(self.query_input@));
        if self.query_history.len() > MAX_HISTORY {
            self.query_history.remove(0);
            assert(history_view(self.query_history@) =~= h.push(self.query_input@).drop_first());
        }
    }

    /// Runs the query typed in the editor when it holds one: the history
    /// records it, a placeholder result stands for it, and the panel is busy.
    pub fn execute_query(
        &mut self,
        service: &LandoService,
        project_path: &String,
        is_loading: &mut bool,
        now: u64,
    ) -> (r: Option<DispatchRequest>)
        ensures
            has_content(old(self).query_input@) ==> {
                &&& *final(is_loading)
                &&& r is Some
                &&& is_query_request(r->0, project_path@, service.service@, old(self).query_input@)
                &&& history_view(final(self).query_history@) == history_after(
                    history_view(old(self).query_history@),
                    old(self).query_input@,
                )
                &&& started(*old(self), *final(self), old(self).query_input@, RUNNING_QUERY@, now)
                &&& (DatabaseUI {
                    query_history: old(self).query_history,
                    query_results: old(self).query_results,
                    current_result_index: old(self).current_result_index,
                    ..*final(self)
                }) == *old(self)
            },
            !has_content(old(self).query_input@) ==> r is None && *final(self) == *old(self)
                && *final(is_loading) == *old(is_loading),
    {
        if is_blank(self.query_input.as_str()) {
            return None;
        }
        *is_loading = true;
        self.remember_query();
        let q = self.query_input.clone();
        self.add_placeholder(q, RUNNING_QUERY, now);
        Some(
            DispatchRequest::DbQuery {
                project_path: project_path.clone(),
                service: service.service.clone(),
                query: self.query_input.clone(),
            },
        )
    }

    /// Runs `EXPLAIN` on the query typed in the editor, which stays as it
    /// was typed.
    pub fn explain_query(
        &mut self,
        service: &LandoService,
        project_path: &String,
        is_loading: &mut bool,
        now: u64,
    ) -> (r: Option<DispatchRequest>)
        ensures
            has_content(old(self).query_input@) ==> {
                let q = "EXPLAIN "@ + trim_ws(old(self).query_input@);
                &&& *final(is_loading)
                &&& r is Some
                &&& is_query_request(r->0, project_path@, service.service@, q)
                &&& history_view(final(self).query_history@) == history_after(
                    history_view(old(self).query_history@),
                    q,
                )
                &&& started(*old(self), *final(self), q, RUNNING_QUERY@, now)
                &&& (DatabaseUI {
                    query_history: old(self).query_history,
                    query_results: old(self).query_results,
                    current_result_index: old(self).current_result_index,
                    ..*final(self)
                }) == *old(self)
            },
            !has_content(old(self).query_input@) ==> r is None && *final(self) == *old(self)
                && *final(is_loading) == *old(is_loading),
    {
        if is_blank(self.query_input.as_str()) {
            return None;
        }
        let trimmed = trim(self.query_input.as_str());
        let explain = concat("EXPLAIN ", trimmed.as_str());
        let typed = self.query_input.clone();
        self.query_input = explain;
        proof {
            lemma_prefixed_has_content(trimmed@);
        }
        let r = self.execute_query(service, project_path, is_loading, now);
        self.query_input = typed;
        r
    }

    /// Asks for the list of tables, unless the panel is busy.
    pub fn refresh_schema(
        &mut self,
        service: &LandoService,
        project_path: &String,
        is_loading: &mut bool,
        now: u64,
    ) -> (r: Option<DispatchRequest>)
        ensures
            *old(is_loading) ==> r is None && *final(self) == *old(self) && *final(is_loading),
            !*old(is_loading) ==> {
                &&& *final(is_loading)
                &&& r is Some
                &&& is_query_request(
                    r->0,
                    project_path@,
                    service.service@,
                    show_tables_query(family(lowercased(service.kind@))),
                )
                &&& started(*old(self), *final(self), SCHEMA_REFRESH@, LOADING_SCHEMA@, now)
                &&& (DatabaseUI {
                    query_results: old(self).query_results,
                    current_result_index: old(self).current_result_index,
                    ..*final(self)
                }) == *old(self)
            },
    {
        if *is_loading {
            return None;
        }
        *is_loading = true;
        self.add_placeholder(String::from_str(SCHEMA_REFRESH), LOADING_SCHEMA, now);
        let query = self.get_show_tables_query(service.kind.as_str());
        Some(
            DispatchRequest::DbQuery {
                project_path: project_path.clone(),
                service: service.service.clone(),
                query,
            },
        )
    }

    /// Asks for the current page of the current table, unless the panel is
    /// busy or no table is chosen.
    pub fn load_table_data(
        &mut self,
        service: &LandoService,
        project_path: &String,
        is_loading: &mut bool,
        now: u64,
    ) -> (r: Option<DispatchRequest>)
        ensures
            (*old(is_loading) || old(self).current_table@.len() == 0) ==> r is None && *final(self)
                == *old(self) && *final(is_loading) == *old(is_loading),
            !(*old(is_loading) || old(self).current_table@.len() == 0) ==> {
                let q = table_query(
                    old(self).current_table@,
                    old(self).table_filter@,
                    old(self).table_page,
                    old(self).table_limit,
                );
                &&& *final(is_loading)
                &&& r is Some
                &&& is_query_request(r->0, project_path@, service.service@, q)
                &&& started(*old(self), *final(self), q, LOADING_TABLE@, now)
                &&& (DatabaseUI {
                    query_results: old(self).query_results,
                    current_result_index: old(self).current_result_index,
                    ..*final(self)
                }) == *old(self)
            },
    {
        if *is_loading || self.current_table.as_str().is_empty() {
            return None;
        }
        *is_loading = true;
        let mut query = concat("SELECT * FROM ", self.current_table.as_str());
        if !self.table_filter.as_str().is_empty() {
            query = concat3(query.as_str(), " WHERE ", self.table_filter.as_str());
        }
        let ghost head = query@;
        assert(head =~= "SELECT * FROM "@ + self.current_table@ + (if self.table_filter@.len() > 0 {
            " WHERE "@ + self.table_filter@
        } else {
            Seq::empty()
        }));
        let limit = to_decimal(self.table_limit as u128);
        let page = self.table_page as u128;
        let size = self.table_limit as u128;
        assert(page * size <= 0xffff_ffff_ffff_ffffu128 * 0xffff_ffff_ffff_ffffu128) by (nonlinear_arith)
            requires
                page <= 0xffff_ffff_ffff_ffffu128,
                size <= 0xffff_ffff_ffff_ffffu128,
        ;
        let offset = to_decimal(page * size);
        query = concat3(query.as_str(), " LIMIT ", limit.as_str());
        query = concat3(query.as_str(), " OFFSET ", offset.as_str());
        assert(query@ =~= table_query(
            self.current_table@,
            self.table_filter@,
            self.table_page,
            self.table_limit,
        ));
        let q = query.clone();
        self.add_placeholder(q, LOADING_TABLE, now);
        Some(
            DispatchRequest::DbQuery {
                project_path: project_path.clone(),
                service: service.service.clone(),
                query,
            },
        )
    }

    /// Probes the server, unless the panel is busy.
    pub fn test_connection(
        &mut self,
        service: &LandoService,
        project_path: &String,
        is_loading: &mut bool,
    ) -> (r: Option<DispatchRequest>)
        ensures
            *old(is_loading) ==> r is None && *final(self) == *old(self) && *final(is_loading),
            !*old(is_loading) ==> *final(is_loading) && final(self).connection_status is Testing
                && (DatabaseUI { connection_status: old(self).connection_status, ..*final(self) })
                == *old(self) && r is Some && (match r->0 {
                DispatchRequest::TestDbConnection { project_path: p, service: s } => p@
                    == project_path@ && s@ == service.service@,
                _ => false,
            }),
    {
        if *is_loading {
            return None;
        }
        *is_loading = true;
        self.connection_status = ConnectionStatus::Testing;
        Some(
            DispatchRequest::TestDbConnection {
                project_path: project_path.clone(),
                service: service.service.clone(),
            },
        )
    }

    /// Sets the typed credentials on the project, unless the panel is busy.
    pub fn update_credentials(
        &mut self,
        _service: &LandoService,
        project_path: &String,
        is_loading: &mut bool,
    ) -> (r: Option<DispatchRequest>)
        ensures
            *final(self) == *old(self),
            *old(is_loading) ==> r is None && *final(is_loading),
            !*old(is_loading) ==> *final(is_loading) && r is Some && is_lando_request(
                r->0,
                credentials_command(
                    old(self).new_user@,
                    old(self).new_password@,
                    old(self).new_database@,
                ),
                project_path@,
            ),
    {
        if *is_loading {
            return None;
        }
        *is_loading = true;
        let command = concat(
            concat3(
                concat3(
                    "config --set database.creds.user=",
                    self.new_user.as_str(),
                    " --set database.creds.password=",
                ).as_str(),
                self.new_password.as_str(),
                " --set database.creds.database=",
            ).as_str(),
            self.new_database.as_str(),
        );
        Some(DispatchRequest::LandoCommand { command, project_path: project_path.clone() })
    }

    fn maintenance(
        service: &LandoService,
        project_path: &String,
        is_loading: &mut bool,
        query: &str,
    ) -> (r: Option<DispatchRequest>)
        ensures
            *old(is_loading) ==> r is None && *final(is_loading),
            !*old(is_loading) ==> *final(is_loading) && r is Some && is_query_request(
                r->0,
                project_path@,
                service.service@,
                query@,
            ),
    {
        if *is_loading {
            return None;
        }
        *is_loading = true;
        Some(
            DispatchRequest::DbQuery {
                project_path: project_path.clone(),
                service: service.service.clone(),
                query: String::from_str(query),
            },
        )
    }

    /// Reclaims space with the engine's own statement, unless the panel is
    /// busy.
    pub fn optimize_database(
        &mut self,
        service: &LandoService,
        project_path: &String,
        is_loading: &mut bool,
    ) -> (r: Option<DispatchRequest>)
        ensures
            *final(self) == *old(self),
            *old(is_loading) ==> r is None && *final(is_loading),
            !*old(is_loading) ==> *final(is_loading) && r is Some && is_query_request(
                r->0,
                project_path@,
                service.service@,
                optimize_query(family(lowercased(service.kind@))),
            ),
    {
        let f = family_of(service.kind.as_str());
        let q = match f {
            DbFamily::Postgres => "VACUUM ANALYZE;",
            DbFamily::Sqlite => "VACUUM;",
            _ => "OPTIMIZE TABLE;",
        };
        Self::maintenance(service, project_path, is_loading, q)
    }

    /// Rebuilds indexes with the engine's own statement, unless the panel is
    /// busy.
    pub fn repair_database(
        &mut self,
        service: &LandoService,
        project_path: &String,
        is_loading: &mut bool,
    ) -> (r: Option<DispatchRequest>)
        ensures
            *final(self) == *old(self),
            *old(is_loading) ==> r is None && *final(is_loading),
            !*old(is_loading) ==> *final(is_loading) && r is Some && is_query_request(
                r->0,
                project_path@,
                service.service@,
                repair_query(family(lowercased(service.kind@))),
            ),
    {
        let f = family_of(service.kind.as_str());
        let q = match f {
            DbFamily::Postgres => "REINDEX DATABASE;",
            DbFamily::Sqlite => "REINDEX;",
            _ => "REPAIR TABLE;",
        };
        Self::maintenance(service, project_path, is_loading, q)
    }

    /// Refreshes the planner's statistics, unless the panel is busy.
    pub fn analyze_database(
        &mut self,
        service: &LandoService,
        project_path: &String,
        is_loading: &mut bool,
    ) -> (r: Option<DispatchRequest>)
        ensures
            *final(self) == *old(self),
            *old(is_loading) ==> r is None && *final(is_loading),
            !*old(is_loading) ==> *final(is_loading) && r is Some && is_query_request(
                r->0,
                project_path@,
                service.service@,
                analyze_query(family(lowercased(service.kind@))),
            ),
    {
        let f = family_of(service.kind.as_str());
        let q = match f {
            DbFamily::Postgres | DbFamily::Sqlite => "ANALYZE;",
            _ => "ANALYZE TABLE;",
        };
        Self::maintenance(service, project_path, is_loading, q)
    }

    /// Exports the service's database with `lando db-export`, unless the
    /// panel is busy.
    pub fn backup_database(
        &mut self,
        service: &LandoService,
        project_path: &String,
        is_loading: &mut bool,
    ) -> (r: Option<DispatchRequest>)
        ensures
            *final(self) == *old(self),
            *old(is_loading) ==> r is None && *final(is_loading),
            !*old(is_loading) ==> *final(is_loading) && r is Some && is_lando_request(
                r->0,
                "db-export -s "@ + service.service@,
                project_path@,
            ),
    {
        if *is_loading {
            return None;
        }
        *is_loading = true;
        Some(
            DispatchRequest::LandoCommand {
                command: concat("db-export -s ", service.service.as_str()),
                project_path: project_path.clone(),
            },
        )
    }
}

} // verus!
