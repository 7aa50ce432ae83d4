//! Source intake for a migration run: what kind of source is given, how a
//! git failure is classified, how tool output is normalized, what a
//! `packageManager` field says, which pipeline stages a changed file
//! invalidates, and how two snapshots differ.

use vstd::prelude::*;
use vstd::string::*;

use crate::text::{
    cat3, chars_of, chars_trim, has_infix, has_prefix, has_suffix, insert_sorted_unique,
    seq_lt, str_contains, str_ends_with, str_starts_with, string_from_chars, string_views,
    strictly_sorted, trim, usize_to_string,
};



pub mod forecast;
pub mod context;

verus! {

// ── Source kinds and failure classes ─────────────────────────────────────

/// What the import source names.
#[derive(Debug, Clone, Copy, PartialEq, Eq, Structural)]
pub enum SourceKind {
    /// A directory on this machine.
    LocalPath,
    /// A git remote to clone.
    GitUrl,
}

impl SourceKind {
    /// Stable lowercase tag.
    pub open spec fn tag(self) -> Seq<char> {
        match self {
            SourceKind::LocalPath => "local_path"@,
            SourceKind::GitUrl => "git_url"@,
        }
    }

    /// Stable lowercase tag.
    pub fn as_str(self) -> (s: &'static str)
        ensures
            s@ == self.tag(),
    {
        match self {
            SourceKind::LocalPath => "local_path",
            SourceKind::GitUrl => "git_url",
        }
    }
}

/// The class of an intake failure.
#[derive(Debug, Clone, Copy, PartialEq, Eq, Structural)]
pub enum IntakeErrorClass {
    /// Credentials were refused.
    Auth,
    /// The remote could not be reached.
    Network,
    /// A revision or file does not exist.
    MissingFiles,
    /// The source is not a usable repository.
    IncompatibleRepo,
    /// Anything else.
    Unknown,
}

impl IntakeErrorClass {
    /// Stable lowercase tag.
    pub open spec fn tag(self) -> Seq<char> {
        match self {
            IntakeErrorClass::Auth => "auth"@,
            IntakeErrorClass::Network => "network"@,
            IntakeErrorClass::MissingFiles => "missing_files"@,
            IntakeErrorClass::IncompatibleRepo => "incompatible_repo"@,
            IntakeErrorClass::Unknown => "unknown"@,
        }
    }

    /// Stable lowercase tag.
    pub fn as_str(self) -> (s: &'static str)
        ensures
            s@ == self.tag(),
    {
        match self {
            IntakeErrorClass::Auth => "auth",
            IntakeErrorClass::Network => "network",
            IntakeErrorClass::MissingFiles => "missing_files",
            IntakeErrorClass::IncompatibleRepo => "incompatible_repo",
            IntakeErrorClass::Unknown => "unknown",
        }
    }

    /// The process exit code of a failure of this class.
    pub open spec fn exit_code_spec(self) -> i32 {
        match self {
            IntakeErrorClass::Auth => 41,
            IntakeErrorClass::Network => 42,
            IntakeErrorClass::MissingFiles => 43,
            IntakeErrorClass::IncompatibleRepo => 44,
            IntakeErrorClass::Unknown => 45,
        }
    }
}

/// A classified intake failure.
#[derive(Debug, Clone, PartialEq, Eq)]
pub struct IntakeFailure {
    /// Failure class.
    pub class: IntakeErrorClass,
    /// Human-readable reason.
    pub message: String,
}

impl IntakeFailure {
    /// Build a failure.
    pub fn new(class: IntakeErrorClass, message: &str) -> (f: IntakeFailure)
        ensures
            f.class == class,
            f.message@ == message@,
    {
        IntakeFailure { class, message: String::from_str(message) }
    }

    /// The process exit code the failure maps to.
    pub fn exit_code(&self) -> (c: i32)
        ensures
            c == self.class.exit_code_spec(),
    {
        match self.class {
            IntakeErrorClass::Auth => 41,
            IntakeErrorClass::Network => 42,
            IntakeErrorClass::MissingFiles => 43,
            IntakeErrorClass::IncompatibleRepo => 44,
            IntakeErrorClass::Unknown => 45,
        }
    }

    /// The exit message the failure maps to.
    pub fn exit_message(&self) -> (s: String)
        ensures
            s@ == "intake_failed class="@ + self.class.tag() + " reason="@ + self.message@,
    {
        cat3("intake_failed class=", self.class.as_str(), " reason=").concat(self.message.as_str())
    }
}

// ── Source kind detection ────────────────────────────────────────────────

/// Whether a source string looks like a git remote.
pub open spec fn git_url_like(source: Seq<char>) -> bool {
    let t = trim(source);
    has_prefix(t, "https://"@) || has_prefix(t, "http://"@) || has_prefix(t, "ssh://"@)
        || has_prefix(t, "git@"@) || has_prefix(t, "file://"@) || has_suffix(t, ".git"@)
}

/// Whether a source string looks like a git remote.
pub fn looks_like_git_url(source: &str) -> (b: bool)
    ensures
        b == git_url_like(source@),
{
    let chars = chars_of(source);
    let trimmed = chars_trim(chars.as_slice());
    let t = string_from_chars(trimmed.as_slice());
    let t = t.as_str();
    str_starts_with(t, "https://") || str_starts_with(t, "http://") || str_starts_with(t, "ssh://")
        || str_starts_with(t, "git@") || str_starts_with(t, "file://") || str_ends_with(t, ".git")
}

/// A source is a git remote when it looks like one and no local path of
/// that name exists; otherwise it is a local path.
pub fn detect_source_kind(source: &str, path_exists: bool) -> (k: SourceKind)
    ensures
        k == (if git_url_like(source@) && !path_exists {
            SourceKind::GitUrl
        } else {
            SourceKind::LocalPath
        }),
{
    if looks_like_git_url(source) && !path_exists {
        SourceKind::GitUrl
    } else {
        SourceKind::LocalPath
    }
}

// ── Git failure classification ───────────────────────────────────────────

/// The Unicode lowercase of a text (`str::to_lowercase`).
pub uninterp spec fn unicode_lower(s: Seq<char>) -> Seq<char>;

/// Calls `str::to_lowercase`, which maps each character to its Unicode
/// lowercase mapping independently of locale; the contract names the
/// result as a function of the text and states that ASCII text is mapped
/// by ASCII lowercasing.
#[verifier::external_body]
fn to_lowercase(s: &str) -> (r: String)
    ensures
        r@ == unicode_lower(s@),
        crate::text::is_ascii_seq(s@) ==> r@ == crate::text::ascii_lower_seq(s@),
{
    s.to_lowercase()
}

/// Whether any needle occurs in `hay`.
pub open spec fn any_infix(hay: Seq<char>, needles: Seq<Seq<char>>) -> bool {
    exists|i: int| 0 <= i < needles.len() && has_infix(hay, #[trigger] needles[i])
}

/// Patterns of an authentication failure.
pub open spec fn auth_patterns() -> Seq<Seq<char>> {
    seq![
        "authentication failed"@,
        "permission denied"@,
        "could not read from remote repository"@,
        "access denied"@,
        "fatal: repository"@,
    ]
}

/// Patterns of a network failure.
pub open spec fn network_patterns() -> Seq<Seq<char>> {
    seq![
        "could not resolve host"@,
        "failed to connect"@,
        "connection timed out"@,
        "network is unreachable"@,
        "operation timed out"@,
        "tls"@,
        "proxy"@,
    ]
}

/// Patterns of a missing revision or file.
pub open spec fn missing_patterns() -> Seq<Seq<char>> {
    seq![
        "unknown revision"@,
        "bad object"@,
        "did not match any file"@,
        "no such file or directory"@,
    ]
}

/// Patterns of an unusable repository.
pub open spec fn incompatible_patterns() -> Seq<Seq<char>> {
    seq![
        "not a git repository"@,
        "does not appear to be a git repository"@,
        "invalid path"@,
        "unsupported repository format"@,
    ]
}

/// The class of lowercased git stderr: the first pattern family that
/// matches, in the order auth, network, missing files, incompatible repo.
pub open spec fn classify_spec(lower: Seq<char>) -> IntakeErrorClass {
    if any_infix(lower, auth_patterns()) {
        IntakeErrorClass::Auth
    } else if any_infix(lower, network_patterns()) {
        IntakeErrorClass::Network
    } else if any_infix(lower, missing_patterns()) {
        IntakeErrorClass::MissingFiles
    } else if any_infix(lower, incompatible_patterns()) {
        IntakeErrorClass::IncompatibleRepo
    } else {
        IntakeErrorClass::Unknown
    }
}

fn any_pattern(hay: &str, patterns: &Vec<&'static str>, ghost_patterns: Ghost<Seq<Seq<char>>>) -> (b:
    bool)
    requires
        patterns@.len() == ghost_patterns@.len(),
        forall|i: int| 0 <= i < patterns@.len() ==> (#[trigger] patterns@[i])@ == ghost_patterns@[i],
    ensures
        b == any_infix(hay@, ghost_patterns@),
{
    let mut i: usize = 0;
    while i < patterns.len()
        invariant
            i <= patterns@.len(),
            patterns@.len() == ghost_patterns@.len(),
            forall|k: int| 0 <= k < patterns@.len() ==> (#[trigger] patterns@[k])@ == ghost_patterns@[k],
            forall|k: int| 0 <= k < i ==> !has_infix(hay@, #[trigger] ghost_patterns@[k]),
        decreases patterns@.len() - i,
    {
        if str_contains(hay, patterns[i]) {
            proof {
                assert(has_infix(hay@, ghost_patterns@[i as int]));
            }
            return true;
        }
        i = i + 1;
    }
    false
}

/// Classify already-lowercased git stderr.
pub fn classify_lowered_stderr(lower: &str) -> (c: IntakeErrorClass)
    ensures
        c == classify_spec(lower@),
{
    let auth = vec![
        "authentication failed",
        "permission denied",
        "could not read from remote repository",
        "access denied",
        "fatal: repository",
    ];
    if any_pattern(lower, &auth, Ghost(auth_patterns())) {
        return IntakeErrorClass::Auth;
    }
    let network = vec![
        "could not resolve host",
        "failed to connect",
        "connection timed out",
        "network is unreachable",
        "operation timed out",
        "tls",
        "proxy",
    ];
    if any_pattern(lower, &network, Ghost(network_patterns())) {
        return IntakeErrorClass::Network;
    }
    let missing = vec![
        "unknown revision",
        "bad object",
        "did not match any file",
        "no such file or directory",
    ];
    if any_pattern(lower, &missing, Ghost(missing_patterns())) {
        return IntakeErrorClass::MissingFiles;
    }
    let incompatible = vec![
        "not a git repository",
        "does not appear to be a git repository",
        "invalid path",
        "unsupported repository format",
    ];
    if any_pattern(lower, &incompatible, Ghost(incompatible_patterns())) {
        return IntakeErrorClass::IncompatibleRepo;
    }
    IntakeErrorClass::Unknown
}

/// Classify git stderr by the known error shapes of its lowercase form.
pub fn classify_git_stderr(stderr: &str) -> (c: IntakeErrorClass)
    ensures
        c == classify_spec(unicode_lower(stderr@)),
{
    let lower = to_lowercase(stderr);
    classify_lowered_stderr(lower.as_str())
}

// ── Stderr normalization ─────────────────────────────────────────────────

/// Append the trimmed current line to the parts, unless it is blank.
pub open spec fn flush_line(parts: Seq<Seq<char>>, cur: Seq<char>) -> Seq<Seq<char>> {
    if trim(cur).len() > 0 {
        parts.push(trim(cur))
    } else {
        parts
    }
}

/// The non-blank trimmed lines of `s`, split on `'\n'`, as the state after
/// reading `s`: finished parts and the current partial line.
pub open spec fn lines_state(s: Seq<char>) -> (Seq<Seq<char>>, Seq<char>)
    decreases s.len(),
{
    if s.len() == 0 {
        (Seq::empty(), Seq::empty())
    } else {
        let (parts, cur) = lines_state(s.drop_last());
        if s.last() == '\n' {
            (flush_line(parts, cur), Seq::empty())
        } else {
            (parts, cur.push(s.last()))
        }
    }
}

/// The non-blank trimmed lines of `s`.
pub open spec fn nonblank_lines(s: Seq<char>) -> Seq<Seq<char>> {
    flush_line(lines_state(s).0, lines_state(s).1)
}

/// `parts` joined with `" | "`.
pub open spec fn join_bar(parts: Seq<Seq<char>>) -> Seq<char>
    decreases parts.len(),
{
    if parts.len() == 0 {
        Seq::empty()
    } else if parts.len() == 1 {
        parts[0]
    } else {
        join_bar(parts.drop_last()) + " | "@ + parts.last()
    }
}

/// Stderr on one line: the non-blank trimmed lines joined with `" | "`, or
/// `"no stderr output"` when there are none.
pub open spec fn normalize_spec(s: Seq<char>) -> Seq<char> {
    if nonblank_lines(s).len() == 0 {
        "no stderr output"@
    } else {
        join_bar(nonblank_lines(s))
    }
}

fn flush_exec(parts: &mut Vec<String>, cur: &Vec<char>)
    ensures
        string_views(final(parts)@) == flush_line(string_views(old(parts)@), cur@),
{
    let t = chars_trim(cur.as_slice());
    if t.len() > 0 {
        parts.push(string_from_chars(t.as_slice()));
        proof {
            assert(string_views(parts@) =~= string_views(old(parts)@).push(trim(cur@)));
        }
    }
}

/// Put stderr on one line.
pub fn normalize_stderr(stderr: &str) -> (s: String)
    ensures
        s@ == normalize_spec(stderr@),
{
    let chars = chars_of(stderr);
    let mut parts: Vec<String> = Vec::new();
    let mut cur: Vec<char> = Vec::new();
    let mut i: usize = 0;
    while i < chars.len()
        invariant
            i <= chars@.len(),
            (string_views(parts@), cur@) == lines_state(chars@.take(i as int)),
        decreases chars@.len() - i,
    {
        proof {
            assert(chars@.take(i as int + 1).drop_last() =~= chars@.take(i as int));
        }
        let c = chars[i];
        if c == '\n' {
            flush_exec(&mut parts, &cur);
            cur = Vec::new();
        } else {
            cur.push(c);
        }
        i = i + 1;
    }
    proof {
        assert(chars@.take(i as int) =~= chars@);
    }
    flush_exec(&mut parts, &cur);
    if parts.len() == 0 {
        return String::from_str("no stderr output");
    }
    let mut out = String::new();
    let mut k: usize = 0;
    while k < parts.len()
        invariant
            k <= parts@.len(),
            parts@.len() > 0,
            k == 0 ==> out@.len() == 0,
            k > 0 ==> out@ == join_bar(string_views(parts@).take(k as int)),
        decreases parts@.len() - k,
    {
        proof {
            assert(string_views(parts@).take(k as int + 1).drop_last() =~= string_views(parts@).take(
                k as int,
            ));
        }
        if k > 0 {
            out.append(" | ");
        }
        out.append(parts[k].as_str());
        proof {
            if k == 0 {
                assert(out@ =~= string_views(parts@).take(1)[0]);
            }
        }
        k = k + 1;
    }
    proof {
        assert(string_views(parts@).take(k as int) =~= string_views(parts@));
    }
    out
}

// ── packageManager field ─────────────────────────────────────────────────

/// The position of the last `c` in `s`, if any.
pub open spec fn last_index_of(s: Seq<char>, c: char) -> int
    decreases s.len(),
{
    if s.len() == 0 {
        -1
    } else if s.last() == c {
        s.len() - 1
    } else {
        last_index_of(s.drop_last(), c)
    }
}

/// `(manager, version)` of a `packageManager` field such as `pnpm@9.1.0`:
/// split at the last `@`; a field without `@`, or whose `@` is its first
/// character, is all manager and no version.
pub open spec fn package_manager_spec(value: Seq<char>) -> (Seq<char>, Option<Seq<char>>) {
    let at = last_index_of(value, '@');
    if at <= 0 {
        (value, None)
    } else {
        (value.take(at), Some(value.skip(at + 1)))
    }
}

proof fn lemma_last_index_range(s: Seq<char>, c: char)
    ensures
        -1 <= last_index_of(s, c) < s.len(),
        last_index_of(s, c) >= 0 ==> s[last_index_of(s, c)] == c,
        forall|j: int| last_index_of(s, c) < j < s.len() ==> s[j] != c,
    decreases s.len(),
{
    if s.len() > 0 && s.last() != c {
        lemma_last_index_range(s.drop_last(), c);
        assert forall|j: int| last_index_of(s, c) < j < s.len() implies s[j] != c by {
            if j < s.len() - 1 {
                assert(s.drop_last()[j] == s[j]);
            }
        }
    }
}

/// Split a `packageManager` field into manager and version.
pub fn parse_package_manager_field(value: &str) -> (r: (Option<String>, Option<String>))
    ensures
        r.0 matches Some(m) && m@ == package_manager_spec(value@).0,
        match r.1 {
            None => package_manager_spec(value@).1 is None,
            Some(v) => package_manager_spec(value@).1 == Some(v@),
        },
{
    let chars = chars_of(value);
    let n = chars.len();
    let mut i: usize = n;
    proof {
        assert(chars@.take(n as int) =~= chars@);
    }
    while i > 0 && chars[i - 1] != '@'
        invariant
            i <= n,
            n == chars@.len(),
            last_index_of(chars@, '@') == last_index_of(chars@.take(i as int), '@'),
        decreases i,
    {
        proof {
            assert(chars@.take(i as int).drop_last() =~= chars@.take(i as int - 1));
        }
        i = i - 1;
    }
    proof {
        if i > 0 {
            assert(chars@.take(i as int).last() == '@');
        }
    }
    if i <= 1 {
        return (Some(String::from_str(value)), None);
    }
    let at = i - 1;
    let mut manager: Vec<char> = Vec::new();
    let mut k: usize = 0;
    while k < at
        invariant
            k <= at,
            at < n,
            n == chars@.len(),
            manager@ == chars@.take(k as int),
        decreases at - k,
    {
        manager.push(chars[k]);
        proof {
            assert(chars@.take(k as int + 1) =~= chars@.take(k as int).push(chars@[k as int]));
        }
        k = k + 1;
    }
    let mut version: Vec<char> = Vec::new();
    let mut j: usize = at + 1;
    proof {
        assert(chars@.subrange(at + 1, at + 1) =~= Seq::<char>::empty());
    }
    while j < n
        invariant
            at + 1 <= j <= n,
            n == chars@.len(),
            version@ == chars@.subrange(at + 1, j as int),
        decreases n - j,
    {
        version.push(chars[j]);
        proof {
            assert(chars@.subrange(at + 1, j as int + 1) =~= chars@.subrange(at + 1, j as int).push(
                chars@[j as int],
            ));
        }
        j = j + 1;
    }
    proof {
        assert(chars@.subrange(at + 1, n as int) =~= chars@.skip(at + 1));
    }
    (Some(string_from_chars(manager.as_slice())), Some(string_from_chars(version.as_slice())))
}

// ── Bundler runtime markers ──────────────────────────────────────────────

/// The runtime environment marker a bundler implies.
pub open spec fn runtime_marker_spec(bundler: Option<Seq<char>>) -> Option<Seq<char>> {
    match bundler {
        None => None,
        Some(b) => if b == "vite"@ || b == "sveltekit"@ || b == "astro"@ {
            Some("import.meta.env"@)
        } else if b == "bun"@ {
            Some("Bun.env"@)
        } else {
            Some("process.env"@)
        },
    }
}

/// The runtime environment marker a bundler implies.
pub fn inferred_runtime_marker_for_bundler(bundler: Option<&str>) -> (m: Option<&'static str>)
    ensures
        match m {
            None => runtime_marker_spec(
                match bundler {
                    None => None,
                    Some(b) => Some(b@),
                },
            ) is None,
            Some(s) => runtime_marker_spec(
                match bundler {
                    None => None,
                    Some(b) => Some(b@),
                },
            ) == Some(s@),
        },
{
    match bundler {
        None => None,
        Some(b) => {
            let owned = String::from_str(b);
            if owned == String::from_str("vite") || owned == String::from_str("sveltekit")
                || owned == String::from_str("astro") {
                Some("import.meta.env")
            } else if owned == String::from_str("bun") {
                Some("Bun.env")
            } else {
                Some("process.env")
            }
        },
    }
}

// ── Paths ────────────────────────────────────────────────────────────────

/// The final component of a path (`Path::file_name`).
pub uninterp spec fn file_name_of(path: Seq<char>) -> Option<Seq<char>>;

/// The extension of a path (`Path::extension`).
pub uninterp spec fn extension_of(path: Seq<char>) -> Option<Seq<char>>;

/// Calls `std::path::Path::file_name` on a UTF-8 path; the contract names
/// the result as a function of the path text (components are parsed from
/// the text alone).
#[verifier::external_body]
fn path_file_name(path: &str) -> (r: Option<String>)
    ensures
        match r {
            None => file_name_of(path@) is None,
            Some(s) => file_name_of(path@) == Some(s@),
        },
{
    std::path::Path::new(path).file_name().and_then(|n| n.to_str()).map(|n| n.to_string())
}

/// Calls `std::path::Path::extension` on a UTF-8 path; the contract names
/// the result as a function of the path text.
#[verifier::external_body]
pub(crate) fn path_extension(path: &str) -> (r: Option<String>)
    ensures
        match r {
            None => extension_of(path@) is None,
            Some(s) => extension_of(path@) == Some(s@),
        },
{
    std::path::Path::new(path).extension().and_then(|n| n.to_str()).map(|n| n.to_string())
}

/// Whether `s` is one of `options`.
pub open spec fn one_of(s: Seq<char>, options: Seq<Seq<char>>) -> bool {
    exists|i: int| 0 <= i < options.len() && options[i] == s
}

fn one_of_exec(s: &String, options: &Vec<&'static str>, ghost_options: Ghost<Seq<Seq<char>>>) -> (b: bool)
    requires
        options@.len() == ghost_options@.len(),
        forall|i: int| 0 <= i < options@.len() ==> (#[trigger] options@[i])@ == ghost_options@[i],
    ensures
        b == one_of(s@, ghost_options@),
{
    let mut i: usize = 0;
    while i < options.len()
        invariant
            i <= options@.len(),
            options@.len() == ghost_options@.len(),
            forall|k: int| 0 <= k < options@.len() ==> (#[trigger] options@[k])@ == ghost_options@[k],
            forall|k: int| 0 <= k < i ==> ghost_options@[k] != s@,
        decreases options@.len() - i,
    {
        if *s == String::from_str(options[i]) {
            return true;
        }
        i = i + 1;
    }
    false
}

/// Extensions of JavaScript / TypeScript sources.
pub open spec fn js_ts_extensions() -> Seq<Seq<char>> {
    seq!["ts"@, "tsx"@, "js"@, "jsx"@, "mjs"@, "cjs"@, "mts"@, "cts"@]
}

/// Whether a path names a JavaScript / TypeScript source by extension.
pub open spec fn is_js_ts_spec(path: Seq<char>) -> bool {
    match extension_of(path) {
        None => false,
        Some(e) => one_of(e, js_ts_extensions()),
    }
}

/// Whether a path names a JavaScript / TypeScript source by extension.
pub fn is_js_ts_source_file(path: &str) -> (b: bool)
    ensures
        b == is_js_ts_spec(path@),
{
    match path_extension(path) {
        None => false,
        Some(e) => {
            let options = vec!["ts", "tsx", "js", "jsx", "mjs", "cjs", "mts", "cts"];
            one_of_exec(&e, &options, Ghost(js_ts_extensions()))
        },
    }
}

/// Extensions of stylesheets.
pub open spec fn style_extensions() -> Seq<Seq<char>> {
    seq!["css"@, "scss"@, "sass"@, "less"@]
}

/// Extensions of prose documents.
pub open spec fn prose_extensions() -> Seq<Seq<char>> {
    seq!["md"@, "mdx"@, "txt"@]
}

/// The stages of the translation pipeline, in order.
pub open spec fn pipeline_stages() -> Seq<Seq<char>> {
    seq![
        "ingest"@,
        "ir_lower"@,
        "plan"@,
        "translate"@,
        "emit"@,
        "optimize"@,
        "write_generated"@,
    ]
}

/// Every pipeline stage, in order.
pub fn watch_pipeline_stages() -> (v: Vec<String>)
    ensures
        string_views(v@) == pipeline_stages(),
{
    let v = vec![
        String::from_str("ingest"),
        String::from_str("ir_lower"),
        String::from_str("plan"),
        String::from_str("translate"),
        String::from_str("emit"),
        String::from_str("optimize"),
        String::from_str("write_generated"),
    ];
    proof {
        assert(string_views(v@) =~= pipeline_stages());
    }
    v
}

/// Lockfile names that pin dependency resolution.
pub open spec fn lockfile_names() -> Seq<Seq<char>> {
    seq![
        "package-lock.json"@,
        "pnpm-lock.yaml"@,
        "yarn.lock"@,
        "bun.lockb"@,
        "bun.lock"@,
        "npm-shrinkwrap.json"@,
    ]
}

/// Whether a change to `path` touches configuration every stage reads.
pub open spec fn is_config_path(path: Seq<char>) -> bool {
    let name = match file_name_of(path) {
        None => Seq::<char>::empty(),
        Some(n) => n,
    };
    let lower = crate::text::ascii_lower_seq(path);
    name == "package.json"@ || name == "tsconfig.json"@ || name == "tsconfig.base.json"@ || one_of(
        name,
        lockfile_names(),
    ) || has_suffix(lower, ".config.ts"@) || has_suffix(lower, ".config.js"@) || has_suffix(
        lower,
        ".config.mjs"@,
    )
}

/// The stages a change to `path` invalidates: configuration, sources and
/// styles invalidate every stage, prose only ingestion, anything else
/// ingestion and IR lowering.
pub open spec fn invalidated_stages_spec(path: Seq<char>) -> Seq<Seq<char>> {
    if is_config_path(path) {
        pipeline_stages()
    } else if is_js_ts_spec(path) || (match extension_of(path) {
        None => false,
        Some(e) => one_of(e, style_extensions()),
    }) {
        pipeline_stages()
    } else if (match extension_of(path) {
        None => false,
        Some(e) => one_of(e, prose_extensions()),
    }) {
        seq!["ingest"@]
    } else {
        seq!["ingest"@, "ir_lower"@]
    }
}

/// The pipeline stages a change to `path` invalidates.
pub fn invalidated_stages_for_path(path: &str) -> (v: Vec<String>)
    ensures
        string_views(v@) == invalidated_stages_spec(path@),
{
    let lower = crate::text::str_ascii_lower(path);
    let name = match path_file_name(path) {
        None => String::new(),
        Some(n) => n,
    };
    let locks = vec![
        "package-lock.json",
        "pnpm-lock.yaml",
        "yarn.lock",
        "bun.lockb",
        "bun.lock",
        "npm-shrinkwrap.json",
    ];
    let config = name == String::from_str("package.json") || name == String::from_str(
        "tsconfig.json",
    ) || name == String::from_str("tsconfig.base.json") || one_of_exec(
        &name,
        &locks,
        Ghost(lockfile_names()),
    ) || str_ends_with(lower.as_str(), ".config.ts") || str_ends_with(lower.as_str(), ".config.js")
        || str_ends_with(lower.as_str(), ".config.mjs");
    if config {
        return watch_pipeline_stages();
    }
    let ext = path_extension(path);
    let style = match &ext {
        None => false,
        Some(e) => {
            let options = vec!["css", "scss", "sass", "less"];
            one_of_exec(e, &options, Ghost(style_extensions()))
        },
    };
    if is_js_ts_source_file(path) || style {
        return watch_pipeline_stages();
    }
    let prose = match &ext {
        None => false,
        Some(e) => {
            let options = vec!["md", "mdx", "txt"];
            one_of_exec(e, &options, Ghost(prose_extensions()))
        },
    };
    if prose {
        let v = vec![String::from_str("ingest")];
        proof {
            assert(string_views(v@) =~= seq!["ingest"@]);
        }
        v
    } else {
        let v = vec![String::from_str("ingest"), String::from_str("ir_lower")];
        proof {
            assert(string_views(v@) =~= seq!["ingest"@, "ir_lower"@]);
        }
        v
    }
}

// ── Snapshot diffs ───────────────────────────────────────────────────────

/// Content fingerprint of one snapshot file.
#[derive(Debug, Clone, PartialEq, Eq)]
pub struct SnapshotFileFingerprint {
    /// Path relative to the snapshot root.
    pub path: String,
    /// Lowercase hex SHA-256 of the content.
    pub sha256: String,
    /// Size in bytes.
    pub size_bytes: u64,
}

/// One changed file between two snapshots.
#[derive(Debug, Clone, PartialEq, Eq)]
pub struct WatchFileChange {
    /// Path relative to the snapshot root.
    pub path: String,
    /// `added`, `modified` or `removed`.
    pub change_kind: String,
    /// Checksum before the change.
    pub previous_sha256: Option<String>,
    /// Checksum after the change.
    pub current_sha256: Option<String>,
    /// Stages the change invalidates.
    pub invalidated_stages: Vec<String>,
}

/// How many files changed, and how.
#[derive(Debug, Clone, PartialEq, Eq)]
pub struct WatchChangeCounts {
    /// Files only in the current snapshot.
    pub added: usize,
    /// Files in both with different content.
    pub modified: usize,
    /// Files only in the previous snapshot.
    pub removed: usize,
    /// Files in both with the same content.
    pub unchanged: usize,
}

/// Build a change record for `path`.
pub fn watch_file_change(
    path: &str,
    change_kind: &str,
    previous_sha256: Option<String>,
    current_sha256: Option<String>,
) -> (c: WatchFileChange)
    ensures
        c.path@ == path@,
        c.change_kind@ == change_kind@,
        c.previous_sha256 == previous_sha256,
        c.current_sha256 == current_sha256,
        string_views(c.invalidated_stages@) == invalidated_stages_spec(path@),
{
    WatchFileChange {
        path: String::from_str(path),
        change_kind: String::from_str(change_kind),
        previous_sha256,
        current_sha256,
        invalidated_stages: invalidated_stages_for_path(path),
    }
}

/// The paths of a fingerprint list.
pub open spec fn fp_paths(s: Seq<SnapshotFileFingerprint>) -> Seq<Seq<char>> {
    s.map_values(|f: SnapshotFileFingerprint| f.path@)
}

/// A snapshot listing: strictly ascending paths, one entry per path (the
/// order of a map keyed by path).
pub open spec fn is_listing(s: Seq<SnapshotFileFingerprint>) -> bool {
    strictly_sorted(fp_paths(s))
}

/// The position of the first entry for `path` in a listing, or -1.
pub open spec fn index_for(s: Seq<SnapshotFileFingerprint>, path: Seq<char>) -> int
    decreases s.len(),
{
    if s.len() == 0 {
        -1
    } else {
        let p = index_for(s.drop_last(), path);
        if p >= 0 {
            p
        } else if s.last().path@ == path {
            s.len() - 1
        } else {
            -1
        }
    }
}

/// The entry for `path` in a listing, if any.
pub open spec fn entry_for(s: Seq<SnapshotFileFingerprint>, path: Seq<char>) -> Option<
    SnapshotFileFingerprint,
> {
    if index_for(s, path) >= 0 {
        Some(s[index_for(s, path)])
    } else {
        None
    }
}

proof fn lemma_index_range(s: Seq<SnapshotFileFingerprint>, path: Seq<char>)
    ensures
        -1 <= index_for(s, path) < s.len(),
        index_for(s, path) >= 0 ==> s[index_for(s, path)].path@ == path,
        index_for(s, path) == -1 ==> forall|k: int| 0 <= k < s.len() ==> (#[trigger] s[k]).path@ != path,
    decreases s.len(),
{
    if s.len() > 0 {
        lemma_index_range(s.drop_last(), path);
        if index_for(s, path) == -1 {
            assert forall|k: int| 0 <= k < s.len() implies (#[trigger] s[k]).path@ != path by {
                if k < s.len() - 1 {
                    assert(s.drop_last()[k] == s[k]);
                }
            }
        }
        if index_for(s.drop_last(), path) >= 0 {
            assert(s.drop_last()[index_for(s.drop_last(), path)] == s[index_for(s.drop_last(), path)]);
        }
    }
}

/// What a diff reports for a path.
pub open spec fn change_kind_for(
    prev: Seq<SnapshotFileFingerprint>,
    cur: Seq<SnapshotFileFingerprint>,
    path: Seq<char>,
) -> Option<Seq<char>> {
    match (entry_for(prev, path), entry_for(cur, path)) {
        (None, Some(_)) => Some("added"@),
        (Some(p), Some(c)) => if p.sha256@ != c.sha256@ {
            Some("modified"@)
        } else {
            None
        },
        (Some(_), None) => Some("removed"@),
        (None, None) => None,
    }
}

/// The change paths of a diff.
pub open spec fn change_paths(s: Seq<WatchFileChange>) -> Seq<Seq<char>> {
    s.map_values(|c: WatchFileChange| c.path@)
}

/// The optional view of an optional string.
pub open spec fn opt_view(o: Option<String>) -> Option<Seq<char>> {
    match o {
        None => None,
        Some(s) => Some(s@),
    }
}

/// The checksum of the entry for `path`, if any.
pub open spec fn sha_for(s: Seq<SnapshotFileFingerprint>, path: Seq<char>) -> Option<Seq<char>> {
    match entry_for(s, path) {
        None => None,
        Some(e) => Some(e.sha256@),
    }
}

/// Whether a change record reports what the diff says of its path.
pub open spec fn change_matches(
    prev: Seq<SnapshotFileFingerprint>,
    cur: Seq<SnapshotFileFingerprint>,
    c: WatchFileChange,
) -> bool {
    &&& change_kind_for(prev, cur, c.path@) == Some(c.change_kind@)
    &&& opt_view(c.previous_sha256) == sha_for(prev, c.path@)
    &&& opt_view(c.current_sha256) == sha_for(cur, c.path@)
    &&& string_views(c.invalidated_stages@) == invalidated_stages_spec(c.path@)
}

/// Entries of `cur` among the first `n` whose path is absent from `other`.
pub open spec fn absent_upto(
    cur: Seq<SnapshotFileFingerprint>,
    other: Seq<SnapshotFileFingerprint>,
    n: int,
) -> nat
    decreases n,
{
    if n <= 0 {
        0
    } else {
        absent_upto(cur, other, n - 1) + if entry_for(other, cur[n - 1].path@) is None {
            1nat
        } else {
            0nat
        }
    }
}

/// Entries of `cur` among the first `n` present in `prev` with the same
/// (`same`) or a different checksum.
pub open spec fn shared_upto(
    prev: Seq<SnapshotFileFingerprint>,
    cur: Seq<SnapshotFileFingerprint>,
    same: bool,
    n: int,
) -> nat
    decreases n,
{
    if n <= 0 {
        0
    } else {
        shared_upto(prev, cur, same, n - 1) + match entry_for(prev, cur[n - 1].path@) {
            Some(p) => if (p.sha256@ == cur[n - 1].sha256@) == same {
                1nat
            } else {
                0nat
            },
            None => 0nat,
        }
    }
}

proof fn lemma_entry_unique(s: Seq<SnapshotFileFingerprint>, i: int)
    requires
        is_listing(s),
        0 <= i < s.len(),
    ensures
        index_for(s, s[i].path@) == i,
        entry_for(s, s[i].path@) == Some(s[i]),
    decreases s.len(),
{
    let x = s[i].path@;
    lemma_index_range(s, x);
    let k = index_for(s, x);
    if k != i {
        assert(k >= 0);
        assert(fp_paths(s)[k] == x);
        assert(fp_paths(s)[i] == x);
        if k < i {
            assert(seq_lt(fp_paths(s)[k], fp_paths(s)[i]));
        } else {
            assert(seq_lt(fp_paths(s)[i], fp_paths(s)[k]));
        }
        crate::text::lemma_seq_lt_irreflexive(x);
    }
}

fn find_entry(s: &Vec<SnapshotFileFingerprint>, path: &String) -> (r: Option<usize>)
    requires
        is_listing(s@),
    ensures
        match r {
            None => entry_for(s@, path@) is None,
            Some(i) => i < s@.len() && s@[i as int].path@ == path@ && entry_for(s@, path@) == Some(
                s@[i as int],
            ),
        },
{
    let mut i: usize = 0;
    while i < s.len()
        invariant
            is_listing(s@),
            i <= s@.len(),
            forall|k: int| 0 <= k < i ==> (#[trigger] s@[k]).path@ != path@,
        decreases s@.len() - i,
    {
        if s[i].path == *path {
            proof {
                lemma_entry_unique(s@, i as int);
            }
            return Some(i);
        }
        i = i + 1;
    }
    proof {
        lemma_index_range(s@, path@);
    }
    None
}

/// Insert a change keeping paths strictly ascending.
fn insert_change(v: &mut Vec<WatchFileChange>, c: WatchFileChange)
    requires
        strictly_sorted(change_paths(old(v)@)),
        !change_paths(old(v)@).contains(c.path@),
    ensures
        strictly_sorted(change_paths(final(v)@)),
        forall|x: WatchFileChange| #[trigger] final(v)@.contains(x) <==> (old(v)@.contains(x) || x
            == c),
        forall|p: Seq<char>| #[trigger] change_paths(final(v)@).contains(p) <==> (change_paths(
            old(v)@,
        ).contains(p) || p == c.path@),
{
    let ghost ov = v@;
    let ghost op = change_paths(v@);
    let mut p: usize = 0;
    while p < v.len() && crate::text::str_lt(v[p].path.as_str(), c.path.as_str())
        invariant
            p <= v@.len(),
            v@ == ov,
            forall|i: int| 0 <= i < p ==> seq_lt(#[trigger] v@[i].path@, c.path@),
        decreases v@.len() - p,
    {
        p = p + 1;
    }
    proof {
        if p < v@.len() {
            crate::text::lemma_seq_lt_total(v@[p as int].path@, c.path@);
            assert(op[p as int] == v@[p as int].path@);
        }
    }
    let ghost cp = c.path@;
    v.insert(p, c);
    proof {
        let np = change_paths(v@);
        assert(np =~= op.insert(p as int, cp));
        assert(v@ =~= ov.insert(p as int, c));
        assert forall|i: int, j: int| 0 <= i < j < np.len() implies seq_lt(
            #[trigger] np[i],
            #[trigger] np[j],
        ) by {
            if j < p {
                assert(np[i] == op[i] && np[j] == op[j]);
            } else if j == p {
                assert(np[i] == ov[i].path@);
            } else if i == p {
                assert(np[j] == op[j - 1]);
                if j - 1 > p {
                    assert(seq_lt(op[p as int], op[j - 1]));
                    crate::text::lemma_seq_lt_trans(cp, op[p as int], op[j - 1]);
                }
            } else if i < p {
                assert(np[i] == op[i]);
                assert(np[j] == op[j - 1]);
            } else {
                assert(np[i] == op[i - 1]);
                assert(np[j] == op[j - 1]);
            }
        }
        assert forall|x: WatchFileChange| #[trigger] v@.contains(x) <==> (ov.contains(x) || x
            == c) by {
            if v@.contains(x) {
                let k = choose|k: int| 0 <= k < v@.len() && v@[k] == x;
                if k < p {
                    assert(ov[k] == x);
                } else if k > p {
                    assert(ov[k - 1] == x);
                }
            }
            if ov.contains(x) {
                let k = choose|k: int| 0 <= k < ov.len() && ov[k] == x;
                if k < p {
                    assert(v@[k] == x);
                } else {
                    assert(v@[k + 1] == x);
                }
            }
            if x == c {
                assert(v@[p as int] == x);
            }
        }
        assert forall|q: Seq<char>| #[trigger] np.contains(q) <==> (op.contains(q) || q == cp) by {
            if np.contains(q) {
                let k = choose|k: int| 0 <= k < np.len() && np[k] == q;
                if k < p {
                    assert(op[k] == q);
                } else if k > p {
                    assert(op[k - 1] == q);
                }
            }
            if op.contains(q) {
                let k = choose|k: int| 0 <= k < op.len() && op[k] == q;
                if k < p {
                    assert(np[k] == q);
                } else {
                    assert(np[k + 1] == q);
                }
            }
            if q == cp {
                assert(np[p as int] == q);
            }
        }
    }
}

/// Diff two snapshot listings: every added, modified or removed file once,
/// in path order, with the counts of each kind and of unchanged files.
pub fn diff_snapshot_fingerprints(
    previous: &Vec<SnapshotFileFingerprint>,
    current: &Vec<SnapshotFileFingerprint>,
) -> (out: (Vec<WatchFileChange>, WatchChangeCounts))
    requires
        is_listing(previous@),
        is_listing(current@),
    ensures
        strictly_sorted(change_paths(out.0@)),
        forall|k: int| 0 <= k < out.0@.len() ==> change_matches(previous@, current@, #[trigger] out.0@[k]),
        forall|p: Seq<char>| #[trigger] change_kind_for(previous@, current@, p) is Some
            ==> change_paths(out.0@).contains(p),
        out.1.added == absent_upto(current@, previous@, current@.len() as int),
        out.1.removed == absent_upto(previous@, current@, previous@.len() as int),
        out.1.modified == shared_upto(previous@, current@, false, current@.len() as int),
        out.1.unchanged == shared_upto(previous@, current@, true, current@.len() as int),
{
    let mut changes: Vec<WatchFileChange> = Vec::new();
    let mut added: usize = 0;
    let mut modified: usize = 0;
    let mut unchanged: usize = 0;
    let mut j: usize = 0;
    while j < current.len()
        invariant
            is_listing(previous@),
            is_listing(current@),
            j <= current@.len(),
            strictly_sorted(change_paths(changes@)),
            forall|k: int| 0 <= k < changes@.len() ==> change_matches(previous@, current@, #[trigger] changes@[k]),
            forall|p: Seq<char>| #[trigger] change_paths(changes@).contains(p) ==> exists|m: int|
                0 <= m < j && current@[m].path@ == p,
            forall|m: int| 0 <= m < j && #[trigger] change_kind_for(previous@, current@, current@[m].path@) is Some
                ==> change_paths(changes@).contains(current@[m].path@),
            added == absent_upto(current@, previous@, j as int),
            modified == shared_upto(previous@, current@, false, j as int),
            unchanged == shared_upto(previous@, current@, true, j as int),
            added + modified + unchanged == j,
        decreases current@.len() - j,
    {
        let cur = &current[j];
        proof {
            lemma_entry_unique(current@, j as int);
            assert forall|p: Seq<char>| #[trigger] change_paths(changes@).contains(p) implies p != cur.path@ by {
                let m = choose|m: int| 0 <= m < j && current@[m].path@ == p;
                assert(seq_lt(fp_paths(current@)[m], fp_paths(current@)[j as int]));
                if p == cur.path@ {
                    crate::text::lemma_seq_lt_irreflexive(p);
                }
            }
        }
        let ghost before = changes@;
        match find_entry(previous, &cur.path) {
            None => {
                added = added + 1;
                let change = watch_file_change(
                    cur.path.as_str(),
                    "added",
                    None,
                    Some(cur.sha256.clone()),
                );
                insert_change(&mut changes, change);
            },
            Some(i) => {
                if previous[i].sha256 != cur.sha256 {
                    modified = modified + 1;
                    let change = watch_file_change(
                        cur.path.as_str(),
                        "modified",
                        Some(previous[i].sha256.clone()),
                        Some(cur.sha256.clone()),
                    );
                    insert_change(&mut changes, change);
                } else {
                    unchanged = unchanged + 1;
                }
            },
        }
        proof {
            assert forall|k: int| 0 <= k < changes@.len() implies change_matches(previous@, current@, #[trigger] changes@[k]) by {
                assert(changes@.contains(changes@[k]));
                if before.contains(changes@[k]) {
                    let q = choose|q: int| 0 <= q < before.len() && before[q] == changes@[k];
                }
            }
            assert forall|p: Seq<char>| #[trigger] change_paths(changes@).contains(p) implies exists|m: int|
                0 <= m < j + 1 && current@[m].path@ == p by {
                if change_paths(before).contains(p) {
                    let m = choose|m: int| 0 <= m < j && current@[m].path@ == p;
                    assert(0 <= m < j + 1 && current@[m].path@ == p);
                } else {
                    assert(current@[j as int].path@ == p);
                }
            }
            assert forall|m: int| 0 <= m < j + 1 && #[trigger] change_kind_for(previous@, current@, current@[m].path@) is Some
                implies change_paths(changes@).contains(current@[m].path@) by {
                if m < j {
                    assert(change_paths(before).contains(current@[m].path@));
                }
            }
        }
        j = j + 1;
    }
    let ghost after_current = changes@;
    let mut removed: usize = 0;
    let mut i: usize = 0;
    while i < previous.len()
        invariant
            is_listing(previous@),
            is_listing(current@),
            i <= previous@.len(),
            strictly_sorted(change_paths(changes@)),
            forall|k: int| 0 <= k < changes@.len() ==> change_matches(previous@, current@, #[trigger] changes@[k]),
            forall|p: Seq<char>| #[trigger] change_paths(changes@).contains(p) ==> (exists|m: int|
                0 <= m < current@.len() && current@[m].path@ == p) || (exists|m: int|
                0 <= m < i && previous@[m].path@ == p),
            forall|m: int| 0 <= m < current@.len() && #[trigger] change_kind_for(previous@, current@, current@[m].path@) is Some
                ==> change_paths(changes@).contains(current@[m].path@),
            forall|m: int| 0 <= m < i && #[trigger] change_kind_for(previous@, current@, previous@[m].path@) is Some
                ==> change_paths(changes@).contains(previous@[m].path@),
            removed == absent_upto(previous@, current@, i as int),
            removed <= i,
        decreases previous@.len() - i,
    {
        let prev = &previous[i];
        proof {
            lemma_entry_unique(previous@, i as int);
        }
        let ghost before = changes@;
        match find_entry(current, &prev.path) {
            None => {
                proof {
                    lemma_index_range(current@, prev.path@);
                    assert forall|p: Seq<char>| #[trigger] change_paths(changes@).contains(p) implies p != prev.path@ by {
                        if exists|m: int| 0 <= m < current@.len() && current@[m].path@ == p {
                            let m = choose|m: int| 0 <= m < current@.len() && current@[m].path@ == p;
                            if p == prev.path@ {
                                assert(exists|q: int| 0 <= q < current@.len() && current@[q].path@ == prev.path@);
                            }
                        } else {
                            let m = choose|m: int| 0 <= m < i && previous@[m].path@ == p;
                            assert(seq_lt(fp_paths(previous@)[m], fp_paths(previous@)[i as int]));
                            if p == prev.path@ {
                                crate::text::lemma_seq_lt_irreflexive(p);
                            }
                        }
                    }
                }
                removed = removed + 1;
                let change = watch_file_change(
                    prev.path.as_str(),
                    "removed",
                    Some(prev.sha256.clone()),
                    None,
                );
                insert_change(&mut changes, change);
            },
            Some(_) => {},
        }
        proof {
            assert forall|k: int| 0 <= k < changes@.len() implies change_matches(previous@, current@, #[trigger] changes@[k]) by {
                assert(changes@.contains(changes@[k]));
                if before.contains(changes@[k]) {
                    let q = choose|q: int| 0 <= q < before.len() && before[q] == changes@[k];
                }
            }
            assert forall|p: Seq<char>| #[trigger] change_paths(changes@).contains(p) implies (exists|m: int|
                0 <= m < current@.len() && current@[m].path@ == p) || (exists|m: int|
                0 <= m < i + 1 && previous@[m].path@ == p) by {
                if change_paths(before).contains(p) {
                    if !(exists|m: int| 0 <= m < current@.len() && current@[m].path@ == p) {
                        let m = choose|m: int| 0 <= m < i && previous@[m].path@ == p;
                        assert(0 <= m < i + 1 && previous@[m].path@ == p);
                    }
                } else {
                    assert(previous@[i as int].path@ == p);
                }
            }
            assert forall|m: int| 0 <= m < current@.len() && #[trigger] change_kind_for(previous@, current@, current@[m].path@) is Some
                implies change_paths(changes@).contains(current@[m].path@) by {
                assert(change_paths(before).contains(current@[m].path@));
            }
            assert forall|m: int| 0 <= m < i + 1 && #[trigger] change_kind_for(previous@, current@, previous@[m].path@) is Some
                implies change_paths(changes@).contains(previous@[m].path@) by {
                if m < i {
                    assert(change_paths(before).contains(previous@[m].path@));
                }
            }
        }
        i = i + 1;
    }
    proof {
        assert forall|p: Seq<char>| #[trigger] change_kind_for(previous@, current@, p) is Some
            implies change_paths(changes@).contains(p) by {
            lemma_index_range(current@, p);
            lemma_index_range(previous@, p);
            if entry_for(current@, p) is Some {
                let m = index_for(current@, p);
                assert(change_kind_for(previous@, current@, current@[m].path@) is Some);
            } else {
                let m = index_for(previous@, p);
                assert(change_kind_for(previous@, current@, previous@[m].path@) is Some);
            }
        }
    }
    (changes, WatchChangeCounts { added, modified, removed, unchanged })
}

} // verus!
