//! The configuration: its sections, their defaults, how each namespace is
//! resolved against the defaults, and the checks `validate` runs.
use vstd::prelude::*;
use crate::text::{cat, cat3, decimal_digits, u64_text};
use crate::wrappers::path_is_file;

verus! {

/// A length of time: whole seconds and the nanoseconds beyond them.
#[derive(Clone, Copy, Debug, PartialEq, Eq, Structural)]
pub struct Interval {
    pub secs: u64,
    pub nanos: u32,
}

/// The whole configuration file.
#[derive(Debug)]
pub struct MainConfig {
    pub defaults: Defaults,
    pub http: Http,
    pub namespaces: Vec<Namespace>,
}

/// Values every namespace inherits unless it sets its own.
#[derive(Debug)]
pub struct Defaults {
    pub scan_interval: Interval,
    pub cleanup_interval: Interval,
    pub query: String,
}

/// One `[[namespaces]]` entry, as written.
#[derive(Debug)]
pub struct Namespace {
    pub name: String,
    pub host: String,
    pub api_key: Option<String>,
    pub tls: Option<Tls>,
    pub scan_interval: Option<Interval>,
    pub cleanup_interval: Option<Interval>,
    pub query: Option<String>,
}

/// Paths of the client certificate, its key, and optionally a CA certificate.
#[derive(Debug, Clone)]
pub struct Tls {
    pub cert_path: String,
    pub key_path: String,
    pub ca_path: Option<String>,
}

/// The `[http]` section.
#[derive(Debug)]
pub struct Http {
    pub port: u16,
    pub temporal_metrics_port: u16,
}

/// A namespace with every setting decided.
#[derive(Debug, Clone)]
pub struct ResolvedNamespace {
    pub name: String,
    pub host: String,
    pub api_key: Option<String>,
    pub tls: Option<Tls>,
    pub scan_interval: Interval,
    pub cleanup_interval: Interval,
    pub query: String,
}

/// One hour.
pub fn default_scan() -> (r: Interval)
    ensures
        r == (Interval { secs: 3600, nanos: 0 }),
{
    Interval { secs: 3600, nanos: 0 }
}

/// One day.
pub fn default_cleanup() -> (r: Interval)
    ensures
        r == (Interval { secs: 86_400, nanos: 0 }),
{
    Interval { secs: 86_400, nanos: 0 }
}

/// The default Temporal list filter: workflows that are still running.
pub fn default_query() -> (r: String)
    ensures
        r@ == "ExecutionStatus = 'Running'"@,
{
    String::from_str("ExecutionStatus = 'Running'")
}

/// The default port of the HTTP API.
pub fn default_port() -> (r: u16)
    ensures
        r == 8000,
{
    8000
}

/// The default port of the Temporal client's metrics exporter.
pub fn default_temporal_metrics_port() -> (r: u16)
    ensures
        r == 9000,
{
    9000
}

impl Default for Defaults {
    fn default() -> (r: Self)
        ensures
            r.scan_interval == (Interval { secs: 3600, nanos: 0 }),
            r.cleanup_interval == (Interval { secs: 86_400, nanos: 0 }),
            r.query@ == "ExecutionStatus = 'Running'"@,
    {
        Defaults {
            scan_interval: default_scan(),
            cleanup_interval: default_cleanup(),
            query: default_query(),
        }
    }
}

impl Default for Http {
    fn default() -> (r: Self)
        ensures
            r.port == 8000,
            r.temporal_metrics_port == 9000,
    {
        Http { port: default_port(), temporal_metrics_port: default_temporal_metrics_port() }
    }
}

/// The address a server listens on for a port: every interface.
pub open spec fn listen_address_of(port: u16) -> Seq<char> {
    "0.0.0.0:"@ + decimal_digits(port as nat)
}

/// `0.0.0.0:<port>`.
pub fn listen_address(port: u16) -> (r: String)
    ensures
        r@ == listen_address_of(port),
{
    let digits = u64_text(port as u64);
    cat("0.0.0.0:", digits.as_str())
}

/// A namespace with each unset setting taken from the defaults.
pub open spec fn resolved(ns: Namespace, d: Defaults) -> ResolvedNamespace {
    ResolvedNamespace {
        name: ns.name,
        host: ns.host,
        api_key: ns.api_key,
        tls: ns.tls,
        scan_interval: match ns.scan_interval {
            Some(i) => i,
            None => d.scan_interval,
        },
        cleanup_interval: match ns.cleanup_interval {
            Some(i) => i,
            None => d.cleanup_interval,
        },
        query: match ns.query {
            Some(q) => q,
            None => d.query,
        },
    }
}

/// A namespace's own settings win over `[defaults]`; an unset one takes the
/// default; name, host, API key and TLS are the namespace's own.
pub proof fn law_namespace_settings_override_defaults(ns: Namespace, d: Defaults)
    ensures
        resolved(ns, d).name == ns.name,
        resolved(ns, d).host == ns.host,
        resolved(ns, d).api_key == ns.api_key,
        resolved(ns, d).tls == ns.tls,
        ns.scan_interval matches Some(x) ==> resolved(ns, d).scan_interval == x,
        ns.scan_interval is None ==> resolved(ns, d).scan_interval == d.scan_interval,
        ns.cleanup_interval matches Some(x) ==> resolved(ns, d).cleanup_interval == x,
        ns.cleanup_interval is None ==> resolved(ns, d).cleanup_interval == d.cleanup_interval,
        ns.query matches Some(q) ==> resolved(ns, d).query == q,
        ns.query is None ==> resolved(ns, d).query == d.query,
{
}

fn copy_opt_string(s: &Option<String>) -> (r: Option<String>)
    ensures
        r == *s,
{
    match s {
        Some(v) => Some(v.clone()),
        None => None,
    }
}

fn copy_tls(t: &Tls) -> (r: Tls)
    ensures
        r == *t,
{
    Tls {
        cert_path: t.cert_path.clone(),
        key_path: t.key_path.clone(),
        ca_path: copy_opt_string(&t.ca_path),
    }
}

fn copy_opt_tls(t: &Option<Tls>) -> (r: Option<Tls>)
    ensures
        r == *t,
{
    match t {
        Some(v) => Some(copy_tls(v)),
        None => None,
    }
}

fn resolve_one(ns: &Namespace, d: &Defaults) -> (r: ResolvedNamespace)
    ensures
        r == resolved(*ns, *d),
{
    ResolvedNamespace {
        name: ns.name.clone(),
        host: ns.host.clone(),
        api_key: copy_opt_string(&ns.api_key),
        tls: copy_opt_tls(&ns.tls),
        scan_interval: match ns.scan_interval {
            Some(i) => i,
            None => d.scan_interval,
        },
        cleanup_interval: match ns.cleanup_interval {
            Some(i) => i,
            None => d.cleanup_interval,
        },
        query: match &ns.query {
            Some(q) => q.clone(),
            None => d.query.clone(),
        },
    }
}

impl MainConfig {
    /// Every namespace, in order, with each unset setting taken from `[defaults]`.
    pub fn resolve_namespace_section(&self) -> (r: Vec<ResolvedNamespace>)
        ensures
            r@.len() == self.namespaces@.len(),
            forall|i: int|
                0 <= i < r@.len() ==> #[trigger] r@[i] == resolved(
                    self.namespaces@[i],
                    self.defaults,
                ),
            forall|i: int|
                0 <= i < r@.len() ==> {
                    let ns = self.namespaces@[i];
                    let d = self.defaults;
                    &&& (#[trigger] r@[i]).name == ns.name
                    &&& r@[i].host == ns.host
                    &&& r@[i].api_key == ns.api_key
                    &&& r@[i].tls == ns.tls
                    &&& (ns.scan_interval matches Some(x) ==> r@[i].scan_interval == x)
                    &&& (ns.scan_interval is None ==> r@[i].scan_interval == d.scan_interval)
                    &&& (ns.cleanup_interval matches Some(x) ==> r@[i].cleanup_interval == x)
                    &&& (ns.cleanup_interval is None ==> r@[i].cleanup_interval
                        == d.cleanup_interval)
                    &&& (ns.query matches Some(q) ==> r@[i].query == q)
                    &&& (ns.query is None ==> r@[i].query == d.query)
                },
    {
        let mut out: Vec<ResolvedNamespace> = Vec::new();
        let n = self.namespaces.len();
        let mut i: usize = 0;
        while i < n
            invariant
                n == self.namespaces@.len(),
                i <= n,
                out@.len() == i,
                forall|k: int|
                    0 <= k < i ==> #[trigger] out@[k] == resolved(
                        self.namespaces@[k],
                        self.defaults,
                    ),
            decreases n - i,
        {
            out.push(resolve_one(&self.namespaces[i], &self.defaults));
            i = i + 1;
        }
        out
    }
}

// ---------------------------------------------------------------------------
// Validation
// ---------------------------------------------------------------------------

/// What `validate` can find wrong.
#[derive(Debug)]
pub enum ConfigError {
    /// No namespace is configured.
    NoNamespaces,
    /// A namespace name is used twice.
    DuplicateNamespace { name: String },
    /// A namespace has an empty host.
    EmptyHost { name: String },
    /// A TLS path of a namespace is not a file.
    MissingFile { name: String, path: String },
}

/// The view of a [`ConfigError`].
pub enum ConfigProblem {
    NoNamespaces,
    DuplicateNamespace { name: Seq<char> },
    EmptyHost { name: Seq<char> },
    MissingFile { name: Seq<char>, path: Seq<char> },
}

impl View for ConfigError {
    type V = ConfigProblem;

    open spec fn view(&self) -> ConfigProblem {
        match self {
            ConfigError::NoNamespaces => ConfigProblem::NoNamespaces,
            ConfigError::DuplicateNamespace { name } => ConfigProblem::DuplicateNamespace {
                name: name@,
            },
            ConfigError::EmptyHost { name } => ConfigProblem::EmptyHost { name: name@ },
            ConfigError::MissingFile { name, path } => ConfigProblem::MissingFile {
                name: name@,
                path: path@,
            },
        }
    }
}

/// The text a configuration problem is reported with.
pub open spec fn problem_message(p: ConfigProblem) -> Seq<char> {
    match p {
        ConfigProblem::NoNamespaces => "no one namespace was defined"@,
        ConfigProblem::DuplicateNamespace { name } => "namespace '"@ + name + "' dublicate"@,
        ConfigProblem::EmptyHost { name } => "namespace '"@ + name + "': empty host"@,
        ConfigProblem::MissingFile { name, path } => "namespace '"@ + name
            + "': file not defined: "@ + path,
    }
}

impl ConfigError {
    /// The text this problem is reported with.
    pub fn message(&self) -> (r: String)
        ensures
            r@ == problem_message(self@),
    {
        match self {
            ConfigError::NoNamespaces => String::from_str("no one namespace was defined"),
            ConfigError::DuplicateNamespace { name } => cat3(
                "namespace '",
                name.as_str(),
                "' dublicate",
            ),
            ConfigError::EmptyHost { name } => cat3("namespace '", name.as_str(), "': empty host"),
            ConfigError::MissingFile { name, path } => {
                let mut s = cat3("namespace '", name.as_str(), "': file not defined: ");
                s.append(path.as_str());
                s
            },
        }
    }
}

/// The view of a validation result.
pub open spec fn check_view(r: Result<(), ConfigError>) -> Result<(), ConfigProblem> {
    match r {
        Ok(()) => Ok(()),
        Err(e) => Err(e@),
    }
}

/// The TLS paths of a namespace, in the order they are checked:
/// certificate, key, then CA where one is set.
pub open spec fn tls_paths(ns: ResolvedNamespace) -> Seq<Seq<char>> {
    match ns.tls {
        None => Seq::empty(),
        Some(t) => seq![t.cert_path@, t.key_path@] + match t.ca_path {
            Some(c) => seq![c@],
            None => Seq::empty(),
        },
    }
}

/// Whether `files` holds one answer per TLS path of each namespace.
pub open spec fn files_fit(nss: Seq<ResolvedNamespace>, files: Seq<Seq<bool>>) -> bool {
    &&& files.len() == nss.len()
    &&& forall|i: int| 0 <= i < nss.len() ==> (#[trigger] files[i]).len() == tls_paths(nss[i]).len()
}

/// Whether the name of namespace `i` was used by an earlier namespace.
pub open spec fn name_taken(nss: Seq<ResolvedNamespace>, i: int) -> bool {
    exists|j: int| 0 <= j < i && (#[trigger] nss[j]).name@ == nss[i].name@
}

/// The first path whose answer says it is not a file.
pub open spec fn first_missing(paths: Seq<Seq<char>>, present: Seq<bool>) -> Option<Seq<char>>
    decreases paths.len(),
{
    if paths.len() == 0 {
        None
    } else if !present[0] {
        Some(paths[0])
    } else {
        first_missing(paths.drop_first(), present.drop_first())
    }
}

/// The first problem from namespace `i` on, given which TLS paths are files.
pub open spec fn problems_from(nss: Seq<ResolvedNamespace>, files: Seq<Seq<bool>>, i: int) -> Result<(), ConfigProblem>
    decreases nss.len() - i,
{
    if i < 0 || i >= nss.len() {
        Ok(())
    } else if name_taken(nss, i) {
        Err(ConfigProblem::DuplicateNamespace { name: nss[i].name@ })
    } else if nss[i].host@.len() == 0 {
        Err(ConfigProblem::EmptyHost { name: nss[i].name@ })
    } else {
        match first_missing(tls_paths(nss[i]), files[i]) {
            Some(p) => Err(ConfigProblem::MissingFile { name: nss[i].name@, path: p }),
            None => problems_from(nss, files, i + 1),
        }
    }
}

/// The outcome of validation, given which TLS paths are files: at least one
/// namespace, then per namespace in order no name used before, a non-empty
/// host, and every TLS path a file.
pub open spec fn validation(nss: Seq<ResolvedNamespace>, files: Seq<Seq<bool>>) -> Result<(), ConfigProblem> {
    if nss.len() == 0 {
        Err(ConfigProblem::NoNamespaces)
    } else {
        problems_from(nss, files, 0)
    }
}

/// The TLS paths of a namespace, in checking order.
fn tls_path_list(ns: &ResolvedNamespace) -> (r: Vec<String>)
    ensures
        r.deep_view() == tls_paths(*ns),
{
    let mut out: Vec<String> = Vec::new();
    match &ns.tls {
        None => {},
        Some(t) => {
            out.push(t.cert_path.clone());
            out.push(t.key_path.clone());
            match &t.ca_path {
                Some(c) => out.push(c.clone()),
                None => {},
            }
        },
    }
    assert(out.deep_view() =~= tls_paths(*ns));
    out
}

/// Whether an earlier namespace has the same name as namespace `i`.
fn earlier_name_used(nss: &[ResolvedNamespace], i: usize) -> (r: bool)
    requires
        i < nss@.len(),
    ensures
        r == name_taken(nss@, i as int),
{
    let mut j: usize = 0;
    while j < i
        invariant
            i < nss@.len(),
            j <= i,
            forall|k: int| 0 <= k < j ==> (#[trigger] nss@[k]).name@ != nss@[i as int].name@,
        decreases i - j,
    {
        if nss[j].name.eq(&nss[i].name) {
            return true;
        }
        j = j + 1;
    }
    false
}

/// The first path whose answer says it is not a file.
fn first_missing_path(paths: &Vec<String>, present: &Vec<bool>) -> (r: Option<String>)
    requires
        paths@.len() == present@.len(),
    ensures
        match r {
            Some(p) => first_missing(paths.deep_view(), present@) == Some(p@),
            None => first_missing(paths.deep_view(), present@) is None,
        },
{
    let n = paths.len();
    let mut k: usize = 0;
    assert(paths.deep_view().skip(0) == paths.deep_view());
    assert(present@.skip(0) == present@);
    while k < n
        invariant
            n == paths@.len(),
            n == present@.len(),
            k <= n,
            first_missing(paths.deep_view(), present@) == first_missing(
                paths.deep_view().skip(k as int),
                present@.skip(k as int),
            ),
        decreases n - k,
    {
        let ghost ps = paths.deep_view().skip(k as int);
        let ghost qs = present@.skip(k as int);
        assert(ps[0] == paths@[k as int]@);
        assert(qs[0] == present@[k as int]);
        assert(ps.drop_first() == paths.deep_view().skip(k + 1));
        assert(qs.drop_first() == present@.skip(k + 1));
        if !present[k] {
            return Some(paths[k].clone());
        }
        k = k + 1;
    }
    None
}

/// Validates the namespaces, given for each namespace whether each of its
/// TLS paths (certificate, key, then CA) is a file.
pub fn validate_with_files(namespaces: &[ResolvedNamespace], files: &Vec<Vec<bool>>) -> (r: Result<(), ConfigError>)
    requires
        files_fit(namespaces@, files.deep_view()),
    ensures
        check_view(r) == validation(namespaces@, files.deep_view()),
{
    let n = namespaces.len();
    if n == 0 {
        return Err(ConfigError::NoNamespaces);
    }
    let mut i: usize = 0;
    while i < n
        invariant
            n == namespaces@.len(),
            n > 0,
            i <= n,
            files_fit(namespaces@, files.deep_view()),
            validation(namespaces@, files.deep_view()) == problems_from(
                namespaces@,
                files.deep_view(),
                i as int,
            ),
        decreases n - i,
    {
        let ns = &namespaces[i];
        if earlier_name_used(namespaces, i) {
            return Err(ConfigError::DuplicateNamespace { name: ns.name.clone() });
        }
        if ns.host.as_str().is_empty() {
            return Err(ConfigError::EmptyHost { name: ns.name.clone() });
        }
        let paths = tls_path_list(ns);
        assert(files.deep_view()[i as int] == files@[i as int]@);
        match first_missing_path(&paths, &files[i]) {
            Some(p) => {
                return Err(ConfigError::MissingFile { name: ns.name.clone(), path: p });
            },
            None => {},
        }
        i = i + 1;
    }
    Ok(())
}

/// Checks the resolved namespaces: at least one is defined, no name is used
/// twice, no host is empty, and every TLS path names a file. Which paths are
/// files is asked of the file system, so the outcome is stated for the
/// answers it gave.
pub fn validate(namespaces: &[ResolvedNamespace]) -> (r: Result<(), ConfigError>)
    ensures
        exists|files: Seq<Seq<bool>>|
            files_fit(namespaces@, files) && check_view(r) == validation(namespaces@, files),
{
    let n = namespaces.len();
    let mut files: Vec<Vec<bool>> = Vec::new();
    let mut i: usize = 0;
    while i < n
        invariant
            n == namespaces@.len(),
            i <= n,
            files@.len() == i,
            forall|k: int|
                0 <= k < i ==> (#[trigger] files.deep_view()[k]).len() == tls_paths(
                    namespaces@[k],
                ).len(),
        decreases n - i,
    {
        let paths = tls_path_list(&namespaces[i]);
        let mut present: Vec<bool> = Vec::new();
        let m = paths.len();
        let mut k: usize = 0;
        while k < m
            invariant
                m == paths@.len(),
                k <= m,
                present@.len() == k,
            decreases m - k,
        {
            present.push(path_is_file(paths[k].as_str()));
            k = k + 1;
        }
        assert(paths.deep_view().len() == paths@.len());
        let ghost before = files.deep_view();
        files.push(present);
        assert forall|k: int| 0 <= k < i + 1 implies (#[trigger] files.deep_view()[k]).len()
            == tls_paths(namespaces@[k]).len() by {
            if k < i {
                assert(files.deep_view()[k] == before[k]);
            }
        }
        i = i + 1;
    }
    let r = validate_with_files(namespaces, &files);
    assert(files_fit(namespaces@, files.deep_view()));
    r
}

} // verus!

verus! {

/// What validation demands, stated directly: at least one namespace, names
/// pairwise distinct, every host non-empty, and every TLS path a file.
pub open spec fn config_sound(nss: Seq<ResolvedNamespace>, files: Seq<Seq<bool>>) -> bool {
    &&& nss.len() > 0
    &&& forall|i: int, j: int|
        0 <= i < j < nss.len() ==> (#[trigger] nss[i]).name@ != (#[trigger] nss[j]).name@
    &&& forall|i: int| 0 <= i < nss.len() ==> (#[trigger] nss[i]).host@.len() > 0
    &&& forall|i: int, k: int|
        0 <= i < nss.len() && 0 <= k < files[i].len() ==> #[trigger] files[i][k]
}

/// The checks made for one namespace pass.
pub open spec fn namespace_passes(nss: Seq<ResolvedNamespace>, files: Seq<Seq<bool>>, k: int) -> bool {
    &&& !name_taken(nss, k)
    &&& nss[k].host@.len() > 0
    &&& first_missing(tls_paths(nss[k]), files[k]) is None
}

proof fn lemma_first_missing_none(paths: Seq<Seq<char>>, present: Seq<bool>)
    requires
        paths.len() == present.len(),
    ensures
        first_missing(paths, present) is None <==> forall|k: int|
            0 <= k < present.len() ==> #[trigger] present[k],
    decreases paths.len(),
{
    if paths.len() > 0 {
        lemma_first_missing_none(paths.drop_first(), present.drop_first());
        if first_missing(paths, present) is None {
            assert forall|k: int| 0 <= k < present.len() implies #[trigger] present[k] by {
                if k > 0 {
                    assert(present[k] == present.drop_first()[k - 1]);
                }
            }
        }
        if forall|k: int| 0 <= k < present.len() ==> #[trigger] present[k] {
            assert(present[0]);
            assert forall|k: int| 0 <= k < present.drop_first().len() implies #[trigger] present.drop_first()[k] by {
                assert(present.drop_first()[k] == present[k + 1]);
            }
        }
    }
}

proof fn lemma_problems_from_ok(nss: Seq<ResolvedNamespace>, files: Seq<Seq<bool>>, i: int)
    requires
        0 <= i <= nss.len(),
    ensures
        problems_from(nss, files, i) is Ok <==> forall|k: int|
            i <= k < nss.len() ==> #[trigger] namespace_passes(nss, files, k),
    decreases nss.len() - i,
{
    if i < nss.len() {
        lemma_problems_from_ok(nss, files, i + 1);
        if problems_from(nss, files, i) is Ok {
            assert(namespace_passes(nss, files, i));
        }
        if forall|k: int| i <= k < nss.len() ==> #[trigger] namespace_passes(nss, files, k) {
            assert(namespace_passes(nss, files, i));
        }
    }
}

/// Validation accepts exactly the sound configurations: it fails precisely
/// when there is no namespace, a name is used twice, a host is empty, or a
/// TLS path is not a file.
pub proof fn law_validation_accepts_exactly_sound_configs(nss: Seq<ResolvedNamespace>, files: Seq<Seq<bool>>)
    requires
        files_fit(nss, files),
    ensures
        validation(nss, files) is Ok <==> config_sound(nss, files),
{
    if nss.len() > 0 {
        lemma_problems_from_ok(nss, files, 0);
        assert forall|k: int| 0 <= k < nss.len() implies (first_missing(tls_paths(nss[k]), files[k]) is None <==> forall|m: int|
            0 <= m < files[k].len() ==> #[trigger] files[k][m]) by {
            assert(files[k].len() == tls_paths(nss[k]).len());
            lemma_first_missing_none(tls_paths(nss[k]), files[k]);
        }
        if validation(nss, files) is Ok {
            assert forall|i: int, j: int| 0 <= i < j < nss.len() implies (#[trigger] nss[i]).name@
                != (#[trigger] nss[j]).name@ by {
                assert(namespace_passes(nss, files, j));
                assert(!name_taken(nss, j));
            }
            assert forall|i: int| 0 <= i < nss.len() implies (#[trigger] nss[i]).host@.len() > 0 by {
                assert(namespace_passes(nss, files, i));
            }
            assert forall|i: int, k: int| 0 <= i < nss.len() && 0 <= k < files[i].len() implies #[trigger] files[i][k] by {
                assert(namespace_passes(nss, files, i));
            }
        }
        if config_sound(nss, files) {
            assert forall|k: int| 0 <= k < nss.len() implies #[trigger] namespace_passes(nss, files, k) by {
                if name_taken(nss, k) {
                    let j = choose|j: int| 0 <= j < k && (#[trigger] nss[j]).name@ == nss[k].name@;
                    assert(nss[j].name@ != nss[k].name@);
                }
                assert(nss[k].host@.len() > 0);
                assert forall|m: int| 0 <= m < files[k].len() implies #[trigger] files[k][m] by {
                    assert(files[k][m]);
                }
            }
        }
    }
}

} // verus!
