//! Checking a protection request and building the body that is sent.
use vstd::prelude::*;
use vstd::string::*;

use crate::error::{opt_view, Error, ErrorView};
use crate::json::{lemma_view_parts, member_views, views, JsonValue, JsonView};
use crate::presets::{preset_options, presets, Preset};
use crate::strmap::{insert_all, lemma_insert_map, seq_insert, StrMap};
use crate::text::{all_ascii, ascii_lower, lowercase, to_lowercase, trim, trimmed};

verus! {

/// The library's version, sent as the suffix of the User-Agent.
pub const VERSION: &'static str = "0.1.0";

/// The request timeout, in milliseconds, used when a request sets none
/// (180 seconds).
pub const DEFAULT_TIMEOUT_MS: u64 = 180000;

/// The production endpoint of the service.
pub const DEFAULT_ENDPOINT: &'static str = "https://javascriptobfuscator.com/HttpApi.ashx";

/// The preset used when a request names none.
pub const DEFAULT_PRESET: &'static str = "balanced";

/// The audit-log project name used when a request names none.
pub const DEFAULT_PROJECT_NAME: &'static str = "rust-session";

/// The environment variable read first for the API key.
pub const API_KEY_VAR: &'static str = "JSO_API_KEY";

/// The environment variable read second for the API key.
pub const API_KEY_VAR_LONG: &'static str = "JAVASCRIPT_OBFUSCATOR_API_KEY";

/// The environment variable read first for the API password.
pub const API_PASSWORD_VAR: &'static str = "JSO_API_PASSWORD";

/// The environment variable read second for the API password.
pub const API_PASSWORD_VAR_LONG: &'static str = "JAVASCRIPT_OBFUSCATOR_API_PASSWORD";

/// Options for a single protection call.
pub struct ProtectRequest {
    /// Source text keyed by file name. At least one file is required.
    pub files: StrMap<String>,
    /// One of "standard", "balanced", "maximum", in any letter case;
    /// "balanced" when absent.
    pub preset: Option<String>,
    /// Option overrides; they win over the preset's values.
    pub options: StrMap<JsonValue>,
    /// Release label, sent as `ReleaseLabel` when it is not empty.
    pub label: Option<String>,
    /// Audit-log project name; "rust-session" when absent.
    pub project_name: Option<String>,
    /// API key; the environment is consulted when it is absent or blank.
    pub api_key: Option<String>,
    /// API password; the environment is consulted when it is absent or blank.
    pub api_password: Option<String>,
    /// Endpoint override; [`DEFAULT_ENDPOINT`] when absent.
    pub endpoint: Option<String>,
    /// Request timeout in milliseconds; [`DEFAULT_TIMEOUT_MS`] when absent.
    pub timeout: Option<u64>,
}

impl Default for ProtectRequest {
    fn default() -> (r: Self)
        ensures
            r.files@.len() == 0,
            r.options@.len() == 0,
            r.preset is None,
            r.label is None,
            r.project_name is None,
            r.api_key is None,
            r.api_password is None,
            r.endpoint is None,
            r.timeout is None,
    {
        ProtectRequest {
            files: StrMap::new(),
            preset: None,
            options: StrMap::new(),
            label: None,
            project_name: None,
            api_key: None,
            api_password: None,
            endpoint: None,
            timeout: None,
        }
    }
}

/// The values of the credential environment variables, each list in lookup
/// order (`None` for a variable that is not set).
pub struct EnvCredentials {
    pub api_key: Vec<Option<String>>,
    pub api_password: Vec<Option<String>>,
}

/// A checked request: where to send it, the JSON body to send, and how long
/// the call may take.
pub struct PreparedRequest {
    pub endpoint: String,
    pub body: JsonValue,
    /// The timeout of the call, in milliseconds.
    pub timeout_ms: u64,
}

/// The characters of each optional value.
pub open spec fn env_views(vals: Seq<Option<String>>) -> Seq<Option<Seq<char>>> {
    vals.map_values(|o: Option<String>| opt_view(o))
}

/// File entries, the source texts taken by their characters.
pub open spec fn file_views(files: Seq<(Seq<char>, String)>) -> Seq<(Seq<char>, Seq<char>)> {
    files.map_values(|e: (Seq<char>, String)| (e.0, e.1@))
}

/// Map entries, the JSON values taken by their views.
pub open spec fn entry_views(s: Seq<(Seq<char>, JsonValue)>) -> Seq<(Seq<char>, JsonView)> {
    s.map_values(|e: (Seq<char>, JsonValue)| (e.0, e.1@))
}

/// The first candidate that is not blank, trimmed; empty when all are blank
/// or absent.
pub open spec fn first_nonblank(vals: Seq<Option<Seq<char>>>) -> Seq<char>
    decreases vals.len(),
{
    if vals.len() == 0 {
        Seq::empty()
    } else if vals[0] is Some && trimmed(vals[0]->0).len() > 0 {
        trimmed(vals[0]->0)
    } else {
        first_nonblank(vals.drop_first())
    }
}

/// A credential: the request's own value when it is not blank, else the first
/// environment value that is not blank, trimmed.
pub open spec fn resolved_credential(arg: Option<Seq<char>>, env: Seq<Option<Seq<char>>>) -> Seq<char> {
    first_nonblank(seq![arg] + env)
}

/// The name under which the request's preset is looked up: its lower-case
/// form ("balanced" when the request names none).
pub open spec fn preset_key(preset: Option<Seq<char>>) -> Seq<char> {
    match preset {
        Some(p) => if all_ascii(p) {
            p.map_values(|c: char| ascii_lower(c))
        } else {
            lowercase(p)
        },
        None => "balanced"@,
    }
}

/// The JSON object that carries one file.
pub open spec fn file_item(name: Seq<char>, code: Seq<char>) -> JsonView {
    JsonView::Object(seq![("FileName"@, JsonView::Str(name)), ("FileCode"@, JsonView::Str(code))])
}

/// The `Items` array for the files.
pub open spec fn file_items(files: Seq<(Seq<char>, Seq<char>)>) -> Seq<JsonView> {
    files.map_values(|f: (Seq<char>, Seq<char>)| file_item(f.0, f.1))
}

/// Preset options as JSON members.
pub open spec fn flag_members(opts: Seq<(Seq<char>, bool)>) -> Seq<(Seq<char>, JsonView)> {
    opts.map_values(|o: (Seq<char>, bool)| (o.0, JsonView::Bool(o.1)))
}

/// Whether a release label is sent.
pub open spec fn label_sent(label: Option<Seq<char>>) -> bool {
    label is Some && label->0.len() > 0
}

/// The members of the body, before the preset's options and the overrides:
/// the credentials, the project name, the label when it is sent, the files.
pub open spec fn base_members(
    key: Seq<char>,
    pwd: Seq<char>,
    name: Seq<char>,
    label: Option<Seq<char>>,
    files: Seq<(Seq<char>, Seq<char>)>,
) -> Seq<(Seq<char>, JsonView)> {
    let m0 = seq_insert(
        seq_insert(
            seq_insert(Seq::empty(), "APIKey"@, JsonView::Str(key)),
            "APIPwd"@,
            JsonView::Str(pwd),
        ),
        "Name"@,
        JsonView::Str(name),
    );
    let m1 = if label_sent(label) {
        seq_insert(m0, "ReleaseLabel"@, JsonView::Str(label->0))
    } else {
        m0
    };
    seq_insert(m1, "Items"@, JsonView::Array(file_items(files)))
}

/// The members of the body: the base members, then the preset's options,
/// then the overrides, each inserted in turn.
pub open spec fn payload_members(
    key: Seq<char>,
    pwd: Seq<char>,
    name: Seq<char>,
    label: Option<Seq<char>>,
    files: Seq<(Seq<char>, Seq<char>)>,
    preset: Seq<(Seq<char>, bool)>,
    options: Seq<(Seq<char>, JsonView)>,
) -> Seq<(Seq<char>, JsonView)> {
    insert_all(insert_all(base_members(key, pwd, name, label, files), flag_members(preset)), options)
}

/// The API key a request resolves to.
pub open spec fn request_key(req: ProtectRequest, env: EnvCredentials) -> Seq<char> {
    resolved_credential(opt_view(req.api_key), env_views(env.api_key@))
}

/// The API password a request resolves to.
pub open spec fn request_password(req: ProtectRequest, env: EnvCredentials) -> Seq<char> {
    resolved_credential(opt_view(req.api_password), env_views(env.api_password@))
}

/// The project name a request sends.
pub open spec fn request_project(req: ProtectRequest) -> Seq<char> {
    match req.project_name {
        Some(n) => n@,
        None => "rust-session"@,
    }
}

/// The endpoint a request goes to.
pub open spec fn request_endpoint(req: ProtectRequest) -> Seq<char> {
    match req.endpoint {
        Some(e) => e@,
        None => "https://javascriptobfuscator.com/HttpApi.ashx"@,
    }
}

/// The timeout a request's call gets, in milliseconds.
pub open spec fn request_timeout(req: ProtectRequest) -> u64 {
    match req.timeout {
        Some(t) => t,
        None => 180000,
    }
}

/// What checking a request gives: the endpoint, body and timeout, or the
/// error.
pub open spec fn prepare_outcome(req: ProtectRequest, env: EnvCredentials) -> Result<
    (Seq<char>, JsonView, u64),
    ErrorView,
> {
    let key = request_key(req, env);
    let pwd = request_password(req, env);
    if key.len() == 0 || pwd.len() == 0 {
        Err(ErrorView::MissingCredentials)
    } else if req.files@.len() == 0 {
        Err(ErrorView::EmptyFiles)
    } else {
        match preset_options(preset_key(opt_view(req.preset))) {
            None => Err(
                ErrorView::UnknownPreset(
                    match req.preset {
                        Some(p) => p@,
                        None => Seq::empty(),
                    },
                ),
            ),
            Some(opts) => Ok(
                (
                    request_endpoint(req),
                    JsonView::Object(
                        payload_members(
                            key,
                            pwd,
                            request_project(req),
                            opt_view(req.label),
                            file_views(req.files@),
                            opts,
                            entry_views(req.options@),
                        ),
                    ),
                    request_timeout(req),
                ),
            ),
        }
    }
}

/// A prepared request or its error, as views.
pub open spec fn prepared_view(r: Result<PreparedRequest, Error>) -> Result<
    (Seq<char>, JsonView, u64),
    ErrorView,
> {
    match r {
        Ok(p) => Ok((p.endpoint@, p.body@, p.timeout_ms)),
        Err(e) => Err(e@),
    }
}

fn opt_str(o: &Option<String>) -> (r: Option<&str>)
    ensures
        match r {
            Some(s) => opt_view(*o) == Some(s@),
            None => o is None,
        },
{
    match o {
        Some(s) => Some(s.as_str()),
        None => None,
    }
}

/// Picks a credential: `arg` when it is not blank, else the first of
/// `env_values` that is not blank; trimmed either way, empty when none is.
fn resolve_cred(arg: Option<&str>, env_values: &Vec<Option<String>>) -> (r: String)
    ensures
        r@ == resolved_credential(
            match arg {
                Some(a) => Some(a@),
                None => None,
            },
            env_views(env_values@),
        ),
{
    let ghost argv = match arg {
        Some(a) => Some(a@),
        None => None,
    };
    let ghost ev = env_views(env_values@);
    assert((seq![argv] + ev).drop_first() =~= ev);
    if let Some(v) = arg {
        let t = trim(v);
        if !t.as_str().is_empty() {
            return t;
        }
    }
    let mut i: usize = 0;
    assert(ev.skip(0) =~= ev);
    while i < env_values.len()
        invariant
            i <= env_values@.len(),
            ev == env_views(env_values@),
            argv == match arg {
                Some(a) => Some(a@),
                None => None,
            },
            resolved_credential(argv, ev) == first_nonblank(ev.skip(i as int)),
        decreases env_values@.len() - i,
    {
        assert(ev.skip(i as int).drop_first() =~= ev.skip(i + 1));
        assert(ev.skip(i as int)[0] == opt_view(env_values@[i as int]));
        if let Some(v) = &env_values[i] {
            let t = trim(v.as_str());
            assert(ev.skip(i as int)[0] == Some(v@));
            if !t.as_str().is_empty() {
                return t;
            }
        }
        i = i + 1;
    }
    String::new()
}

fn file_item_value(name: &String, code: &String) -> (r: JsonValue)
    ensures
        r@ == file_item(name@, code@),
{
    let members = vec![
        (String::from_str("FileName"), JsonValue::Str(name.clone())),
        (String::from_str("FileCode"), JsonValue::Str(code.clone())),
    ];
    let r = JsonValue::Object(members);
    proof {
        lemma_view_parts(r);
        assert(member_views(members@) =~= seq![
            ("FileName"@, JsonView::Str(name@)),
            ("FileCode"@, JsonView::Str(code@)),
        ]);
    }
    r
}

fn file_item_values(files: &StrMap<String>) -> (r: Vec<JsonValue>)
    ensures
        views(r@) == file_items(file_views(files@)),
{
    let entries = files.entries();
    let ghost fv = file_views(files@);
    let mut out: Vec<JsonValue> = Vec::new();
    let mut i: usize = 0;
    while i < entries.len()
        invariant
            i <= entries@.len(),
            fv == file_views(files@),
            entries@.map_values(|e: (String, String)| (e.0@, e.1)) == files@,
            out@.len() == i,
            views(out@) == file_items(fv).take(i as int),
        decreases entries@.len() - i,
    {
        let item = file_item_value(&entries[i].0, &entries[i].1);
        proof {
            assert(fv[i as int] == (entries@[i as int].0@, entries@[i as int].1@));
        }
        out.push(item);
        assert(views(out@) =~= file_items(fv).take(i + 1));
        i = i + 1;
    }
    assert(file_items(fv).take(entries@.len() as int) =~= file_items(fv));
    out
}

proof fn lemma_insert_views(s: Seq<(Seq<char>, JsonValue)>, k: Seq<char>, v: JsonValue)
    ensures
        entry_views(seq_insert(s, k, v)) == seq_insert(entry_views(s), k, v@),
{
    let f = |x: JsonValue| x@;
    lemma_insert_map(s, f, k, v);
    assert(entry_views(seq_insert(s, k, v)) =~= seq_insert(s, k, v).map_values(
        |e: (Seq<char>, JsonValue)| (e.0, f(e.1)),
    ));
    assert(entry_views(s) =~= s.map_values(|e: (Seq<char>, JsonValue)| (e.0, f(e.1))));
}

fn insert_str(m: &mut StrMap<JsonValue>, key: &str, value: String)
    ensures
        entry_views(final(m)@) == seq_insert(entry_views(old(m)@), key@, JsonView::Str(value@)),
{
    proof {
        lemma_insert_views(old(m)@, key@, JsonValue::Str(value));
    }
    m.insert(String::from_str(key), JsonValue::Str(value));
}

fn insert_flags(m: &mut StrMap<JsonValue>, preset: &Preset)
    ensures
        entry_views(final(m)@) == insert_all(entry_views(old(m)@), flag_members(preset@.1)),
{
    let opts = preset.options();
    let ghost base = entry_views(m@);
    let ghost fm = flag_members(preset@.1);
    let mut i: usize = 0;
    assert(fm.take(0) =~= Seq::<(Seq<char>, JsonView)>::empty());
    while i < opts.len()
        invariant
            i <= opts@.len(),
            opts@.map_values(|o: (&'static str, bool)| (o.0@, o.1)) == preset@.1,
            fm == flag_members(preset@.1),
            entry_views(m@) == insert_all(base, fm.take(i as int)),
        decreases opts@.len() - i,
    {
        let (name, flag) = opts[i];
        proof {
            lemma_insert_views(m@, name@, JsonValue::Bool(flag));
            assert(fm.take(i + 1).drop_last() =~= fm.take(i as int));
            assert(fm.take(i + 1).last() == (name@, JsonView::Bool(flag)));
        }
        m.insert(String::from_str(name), JsonValue::Bool(flag));
        i = i + 1;
    }
    assert(fm.take(opts@.len() as int) =~= fm);
}

fn insert_options(m: &mut StrMap<JsonValue>, options: &StrMap<JsonValue>)
    ensures
        entry_views(final(m)@) == insert_all(entry_views(old(m)@), entry_views(options@)),
{
    let entries = options.entries();
    let ghost base = entry_views(m@);
    let ghost ov = entry_views(options@);
    let mut i: usize = 0;
    assert(ov.take(0) =~= Seq::<(Seq<char>, JsonView)>::empty());
    while i < entries.len()
        invariant
            i <= entries@.len(),
            entries@.map_values(|e: (String, JsonValue)| (e.0@, e.1)) == options@,
            ov == entry_views(options@),
            entry_views(m@) == insert_all(base, ov.take(i as int)),
        decreases entries@.len() - i,
    {
        let value = entries[i].1.deep_clone();
        let key = entries[i].0.clone();
        proof {
            lemma_insert_views(m@, key@, value);
            assert(ov.take(i + 1).drop_last() =~= ov.take(i as int));
            assert(ov.take(i + 1).last() == (key@, value@));
        }
        m.insert(key, value);
        i = i + 1;
    }
    assert(ov.take(entries@.len() as int) =~= ov);
}

/// Checks a request and builds the body to send.
///
/// The credentials are resolved first (the request's own values, then the
/// environment values); then at least one file is required; then the preset
/// is looked up by its lower-case name. The body holds the credentials, the
/// project name, the release label when it is not empty, the files, the
/// preset's options and, last, the option overrides, each inserted in turn
/// so that a later member replaces an earlier one with the same key. The
/// call's timeout is the request's, else [`DEFAULT_TIMEOUT_MS`].
pub fn prepare_request(req: &ProtectRequest, env: &EnvCredentials) -> (r: Result<PreparedRequest, Error>)
    ensures
        prepared_view(r) == prepare_outcome(*req, *env),
{
    let key = resolve_cred(opt_str(&req.api_key), &env.api_key);
    let pwd = resolve_cred(opt_str(&req.api_password), &env.api_password);
    if key.as_str().is_empty() || pwd.as_str().is_empty() {
        return Err(Error::MissingCredentials);
    }
    if req.files.is_empty() {
        return Err(Error::EmptyFiles);
    }
    let table = presets();
    let name = match &req.preset {
        Some(p) => to_lowercase(p.as_str()),
        None => {
            let n = to_lowercase(DEFAULT_PRESET);
            proof {
                reveal_strlit("balanced");
                assert(n@ =~= "balanced"@);
            }
            n
        },
    };
    let preset = match table.get(name.as_str()) {
        Some(p) => p,
        None => {
            let given = match &req.preset {
                Some(p) => p.clone(),
                None => String::new(),
            };
            return Err(Error::UnknownPreset(given));
        },
    };
    let endpoint = match &req.endpoint {
        Some(e) => e.clone(),
        None => String::from_str(DEFAULT_ENDPOINT),
    };
    let project = match &req.project_name {
        Some(n) => n.clone(),
        None => String::from_str(DEFAULT_PROJECT_NAME),
    };
    let mut m: StrMap<JsonValue> = StrMap::new();
    assert(entry_views(m@) =~= Seq::<(Seq<char>, JsonView)>::empty());
    insert_str(&mut m, "APIKey", key);
    insert_str(&mut m, "APIPwd", pwd);
    insert_str(&mut m, "Name", project);
    if let Some(label) = &req.label {
        if !label.as_str().is_empty() {
            insert_str(&mut m, "ReleaseLabel", label.clone());
        }
    }
    let items = JsonValue::Array(file_item_values(&req.files));
    proof {
        lemma_view_parts(items);
        lemma_insert_views(m@, "Items"@, items);
    }
    m.insert(String::from_str("Items"), items);
    insert_flags(&mut m, preset);
    insert_options(&mut m, &req.options);
    let members = m.into_entries();
    let body = JsonValue::Object(members);
    proof {
        lemma_view_parts(body);
        assert(member_views(members@) =~= entry_views(members@.map_values(
            |e: (String, JsonValue)| (e.0@, e.1),
        )));
    }
    let timeout_ms = match req.timeout {
        Some(t) => t,
        None => DEFAULT_TIMEOUT_MS,
    };
    Ok(PreparedRequest { endpoint, body, timeout_ms })
}

} // verus!
