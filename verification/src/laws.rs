//! Properties of the request and answer logic that hold for every input.
use vstd::prelude::*;

use crate::json::JsonView;
use crate::presets::{balanced_options, maximum_options, preset_options, preset_table, standard_options};
use crate::request::{
    base_members, entry_views, file_item, first_nonblank, file_items, file_views, flag_members, label_sent, prepare_outcome,
    preset_key, request_key, request_password, request_project, resolved_credential, EnvCredentials,
    ProtectRequest,
};
use crate::response::{outcome_result, HttpOutcome, ProtectResultView, answer_outcome, answer_type, collect_files, member_str, refusal_message};
use crate::strmap::{
    entry_lookup, has_key, insert_all, key_position, lemma_key_position, lemma_key_position_map,
    lemma_lookup_insert, lemma_lookup_insert_all, seq_insert,
};
use crate::text::{all_ascii, ascii_lower, trimmed};
use crate::error::{opt_view, ErrorView};

verus! {

/// The body of a request that checks out.
pub open spec fn sent_body(req: ProtectRequest, env: EnvCredentials) -> JsonView {
    prepare_outcome(req, env)->Ok_0.1
}

/// The options of the preset a request uses.
pub open spec fn used_preset(req: ProtectRequest) -> Seq<(Seq<char>, bool)> {
    preset_options(preset_key(opt_view(req.preset)))->0
}

proof fn lemma_has_key_views(s: Seq<(Seq<char>, crate::json::JsonValue)>, k: Seq<char>)
    ensures
        has_key(entry_views(s), k) == has_key(s, k),
        entry_lookup(entry_views(s), k) == match entry_lookup(s, k) {
            Some(v) => Some(v@),
            None => None,
        },
{
    let f = |x: crate::json::JsonValue| x@;
    lemma_key_position_map(s, f, k);
    assert(entry_views(s) =~= s.map_values(|e: (Seq<char>, crate::json::JsonValue)| (e.0, f(e.1))));
    lemma_key_position(s, k);
    lemma_key_position(entry_views(s), k);
}

proof fn lemma_has_key_flags(opts: Seq<(Seq<char>, bool)>, k: Seq<char>)
    ensures
        has_key(flag_members(opts), k) == has_key(opts, k),
        entry_lookup(flag_members(opts), k) == match entry_lookup(opts, k) {
            Some(b) => Some(JsonView::Bool(b)),
            None => None,
        },
{
    let f = |b: bool| JsonView::Bool(b);
    lemma_key_position_map(opts, f, k);
    assert(flag_members(opts) =~= opts.map_values(|e: (Seq<char>, bool)| (e.0, f(e.1))));
    lemma_key_position(opts, k);
    lemma_key_position(flag_members(opts), k);
}

/// The body members that the preset and the overrides leave alone: a key that
/// neither sets reads as in the base members.
proof fn lemma_base_key(req: ProtectRequest, env: EnvCredentials, k: Seq<char>)
    requires
        prepare_outcome(req, env) is Ok,
        !has_key(req.options@, k),
        !has_key(used_preset(req), k),
    ensures
        sent_body(req, env).get(k) == entry_lookup(
            base_members(
                request_key(req, env),
                request_password(req, env),
                request_project(req),
                opt_view(req.label),
                file_views(req.files@),
            ),
            k,
        ),
{
    let base = base_members(
        request_key(req, env),
        request_password(req, env),
        request_project(req),
        opt_view(req.label),
        file_views(req.files@),
    );
    let opts = used_preset(req);
    lemma_has_key_views(req.options@, k);
    lemma_has_key_flags(opts, k);
    lemma_lookup_insert_all(insert_all(base, flag_members(opts)), entry_views(req.options@), k);
    lemma_lookup_insert_all(base, flag_members(opts), k);
}

/// No preset sets any of the body's fixed members.
proof fn lemma_presets_leave_fixed_keys(req: ProtectRequest, k: Seq<char>)
    requires
        preset_options(preset_key(opt_view(req.preset))) is Some,
        k == "APIKey"@ || k == "APIPwd"@ || k == "Name"@ || k == "ReleaseLabel"@ || k == "Items"@,
    ensures
        !has_key(used_preset(req), k),
{
    reveal_strlit("standard");
    reveal_strlit("balanced");
    reveal_strlit("maximum");
    reveal_strlit("APIKey");
    reveal_strlit("APIPwd");
    reveal_strlit("Name");
    reveal_strlit("ReleaseLabel");
    reveal_strlit("Items");
    reveal_strlit("Compress");
    reveal_strlit("EncodeStrings");
    reveal_strlit("EncryptStrings");
    reveal_strlit("MoveStringsIntoArray");
    reveal_strlit("NameMangling");
    reveal_strlit("DeepObfuscate");
    reveal_strlit("FlatTransform");
    reveal_strlit("CodeTransposition");
    reveal_strlit("ProtectMembers");
    reveal_strlit("RenameGlobals");
    reveal_strlit("MoveMembers");
    reveal_strlit("DeadCodeInsertion");
    let t = preset_table();
    let name = preset_key(opt_view(req.preset));
    lemma_key_position(t, name);
    let i = key_position(t, name)->0;
    let opts = t[i as int].1;
    assert(opts == standard_options() || opts == balanced_options() || opts == maximum_options());
    if has_key(opts, k) {
        let j = choose|j: int| 0 <= j < opts.len() && #[trigger] opts[j].0 == k;
        assert(opts[j].0.len() != k.len() || opts[j].0[0] != k[0] || opts[j].0[1] != k[1] || opts[j].0[4] != k[4]);
    }
}

/// A key that is not one of the fixed members and that no override names is
/// sent exactly when the used preset sets it, with the preset's value.
pub(crate) proof fn lemma_preset_body_key(req: ProtectRequest, env: EnvCredentials, k: Seq<char>)
    requires
        prepare_outcome(req, env) is Ok,
        !has_key(req.options@, k),
        k != "APIKey"@,
        k != "APIPwd"@,
        k != "Name"@,
        k != "ReleaseLabel"@,
        k != "Items"@,
    ensures
        sent_body(req, env).get(k) == match entry_lookup(used_preset(req), k) {
            Some(b) => Some(JsonView::Bool(b)),
            None => None::<JsonView>,
        },
{
    let opts = used_preset(req);
    lemma_key_position(opts, k);
    lemma_has_key_flags(opts, k);
    if has_key(opts, k) {
        law_preset_values_sent(req, env, k);
    } else {
        lemma_base_key(req, env, k);
        lemma_base_key_value(
            request_key(req, env),
            request_password(req, env),
            request_project(req),
            opt_view(req.label),
            file_views(req.files@),
            k,
        );
    }
}

/// Explicit options win over the preset: every override is sent with its own
/// value.
pub proof fn law_overrides_win(req: ProtectRequest, env: EnvCredentials, k: Seq<char>)
    requires
        prepare_outcome(req, env) is Ok,
        has_key(req.options@, k),
    ensures
        sent_body(req, env).get(k) == entry_lookup(entry_views(req.options@), k),
{
    let base = base_members(
        request_key(req, env),
        request_password(req, env),
        request_project(req),
        opt_view(req.label),
        file_views(req.files@),
    );
    lemma_has_key_views(req.options@, k);
    lemma_lookup_insert_all(insert_all(base, flag_members(used_preset(req))), entry_views(req.options@), k);
}

/// Every option of the used preset that no override names is sent with the
/// preset's value.
pub proof fn law_preset_values_sent(req: ProtectRequest, env: EnvCredentials, k: Seq<char>)
    requires
        prepare_outcome(req, env) is Ok,
        !has_key(req.options@, k),
        has_key(used_preset(req), k),
    ensures
        sent_body(req, env).get(k) == entry_lookup(flag_members(used_preset(req)), k),
{
    let base = base_members(
        request_key(req, env),
        request_password(req, env),
        request_project(req),
        opt_view(req.label),
        file_views(req.files@),
    );
    let opts = used_preset(req);
    lemma_has_key_views(req.options@, k);
    lemma_has_key_flags(opts, k);
    lemma_lookup_insert_all(insert_all(base, flag_members(opts)), entry_views(req.options@), k);
    lemma_lookup_insert_all(base, flag_members(opts), k);
}

/// A request that names no preset uses "balanced".
pub proof fn law_default_preset(req: ProtectRequest)
    requires
        req.preset is None,
    ensures
        preset_options(preset_key(opt_view(req.preset))) == Some(balanced_options()),
{
    reveal_strlit("maximum");
    reveal_strlit("balanced");
    let t = preset_table();
    assert(t.len() == 3);
    assert(t[2].0 == "maximum"@);
    assert(t[1].0 == "balanced"@);
    assert("maximum"@.len() == 7);
    assert(t.last().0 != "balanced"@);
    assert(t.drop_last().last() == t[1]);
    assert(key_position(t.drop_last(), "balanced"@) == Some(1nat));
    assert(key_position(t, "balanced"@) == Some(1nat));
}

/// Preset names match whatever the ASCII letter case.
pub proof fn law_preset_case(p: Seq<char>, q: Seq<char>)
    requires
        all_ascii(p),
        all_ascii(q),
        p.map_values(|c: char| ascii_lower(c)) == q.map_values(|c: char| ascii_lower(c)),
    ensures
        preset_key(Some(p)) == preset_key(Some(q)),
{
}

/// The request's own credential, when it is not blank, wins over the
/// environment; otherwise the first environment value that is not blank is
/// used. Either way the credential is trimmed.
pub proof fn law_credential_order(arg: Option<Seq<char>>, env: Seq<Option<Seq<char>>>)
    ensures
        arg is Some && trimmed(arg->0).len() > 0 ==> resolved_credential(arg, env) == trimmed(arg->0),
        !(arg is Some && trimmed(arg->0).len() > 0) ==> resolved_credential(arg, env)
            == resolved_credential(None, env),
{
    assert((seq![arg] + env).drop_first() =~= env);
    assert((seq![None] + env).drop_first() =~= env);
}

/// The fixed keys of the body differ from one another.
proof fn lemma_fixed_keys_distinct()
    ensures
        "APIKey"@ != "APIPwd"@,
        "APIKey"@ != "Name"@,
        "APIKey"@ != "ReleaseLabel"@,
        "APIKey"@ != "Items"@,
        "APIPwd"@ != "Name"@,
        "APIPwd"@ != "ReleaseLabel"@,
        "APIPwd"@ != "Items"@,
        "Name"@ != "ReleaseLabel"@,
        "Name"@ != "Items"@,
        "ReleaseLabel"@ != "Items"@,
{
    reveal_strlit("APIKey");
    reveal_strlit("APIPwd");
    reveal_strlit("Name");
    reveal_strlit("ReleaseLabel");
    reveal_strlit("Items");
    assert("APIKey"@[3] != "APIPwd"@[3]);
    assert("APIKey"@.len() == 6);
    assert("APIPwd"@.len() == 6);
    assert("Name"@.len() == 4);
    assert("ReleaseLabel"@.len() == 12);
    assert("Items"@.len() == 5);
}

/// What the base members hold under `k`: each insertion, latest first.
spec fn base_value(
    key: Seq<char>,
    pwd: Seq<char>,
    name: Seq<char>,
    label: Option<Seq<char>>,
    files: Seq<(Seq<char>, Seq<char>)>,
    k: Seq<char>,
) -> Option<JsonView> {
    if k == "Items"@ {
        Some(JsonView::Array(file_items(files)))
    } else if label_sent(label) && k == "ReleaseLabel"@ {
        Some(JsonView::Str(label->0))
    } else if k == "Name"@ {
        Some(JsonView::Str(name))
    } else if k == "APIPwd"@ {
        Some(JsonView::Str(pwd))
    } else if k == "APIKey"@ {
        Some(JsonView::Str(key))
    } else {
        None
    }
}

proof fn lemma_base_key_value(
    key: Seq<char>,
    pwd: Seq<char>,
    name: Seq<char>,
    label: Option<Seq<char>>,
    files: Seq<(Seq<char>, Seq<char>)>,
    k: Seq<char>,
)
    ensures
        entry_lookup(base_members(key, pwd, name, label, files), k) == base_value(
            key,
            pwd,
            name,
            label,
            files,
            k,
        ),
{
    let s0 = Seq::<(Seq<char>, JsonView)>::empty();
    let s1 = seq_insert(s0, "APIKey"@, JsonView::Str(key));
    let s2 = seq_insert(s1, "APIPwd"@, JsonView::Str(pwd));
    let s3 = seq_insert(s2, "Name"@, JsonView::Str(name));
    let s4 = if label_sent(label) {
        seq_insert(s3, "ReleaseLabel"@, JsonView::Str(label->0))
    } else {
        s3
    };
    let items = JsonView::Array(file_items(files));
    lemma_lookup_insert(s4, "Items"@, items, k);
    if label_sent(label) {
        lemma_lookup_insert(s3, "ReleaseLabel"@, JsonView::Str(label->0), k);
    }
    lemma_lookup_insert(s2, "Name"@, JsonView::Str(name), k);
    lemma_lookup_insert(s1, "APIPwd"@, JsonView::Str(pwd), k);
    lemma_lookup_insert(s0, "APIKey"@, JsonView::Str(key), k);
    lemma_key_position(s0, k);
}

/// What the base members hold under each fixed key.
proof fn lemma_base_lookup(
    key: Seq<char>,
    pwd: Seq<char>,
    name: Seq<char>,
    label: Option<Seq<char>>,
    files: Seq<(Seq<char>, Seq<char>)>,
)
    ensures
        entry_lookup(base_members(key, pwd, name, label, files), "APIKey"@) == Some(JsonView::Str(key)),
        entry_lookup(base_members(key, pwd, name, label, files), "APIPwd"@) == Some(JsonView::Str(pwd)),
        entry_lookup(base_members(key, pwd, name, label, files), "Name"@) == Some(JsonView::Str(name)),
        entry_lookup(base_members(key, pwd, name, label, files), "Items"@) == Some(
            JsonView::Array(file_items(files)),
        ),
        entry_lookup(base_members(key, pwd, name, label, files), "ReleaseLabel"@) == if label_sent(
            label,
        ) {
            Some(JsonView::Str(label->0))
        } else {
            None::<JsonView>
        },
{
    lemma_fixed_keys_distinct();
    lemma_base_key_value(key, pwd, name, label, files, "APIKey"@);
    lemma_base_key_value(key, pwd, name, label, files, "APIPwd"@);
    lemma_base_key_value(key, pwd, name, label, files, "Name"@);
    lemma_base_key_value(key, pwd, name, label, files, "ReleaseLabel"@);
    lemma_base_key_value(key, pwd, name, label, files, "Items"@);
}

/// The resolved credentials, the project name and the files are sent under
/// their fixed keys, unless an override names the key.
pub proof fn law_fixed_members(req: ProtectRequest, env: EnvCredentials)
    requires
        prepare_outcome(req, env) is Ok,
    ensures
        !has_key(req.options@, "APIKey"@) ==> sent_body(req, env).get("APIKey"@) == Some(
            JsonView::Str(request_key(req, env)),
        ),
        !has_key(req.options@, "APIPwd"@) ==> sent_body(req, env).get("APIPwd"@) == Some(
            JsonView::Str(request_password(req, env)),
        ),
        !has_key(req.options@, "Name"@) ==> sent_body(req, env).get("Name"@) == Some(
            JsonView::Str(request_project(req)),
        ),
        !has_key(req.options@, "Items"@) ==> sent_body(req, env).get("Items"@) == Some(
            JsonView::Array(file_items(file_views(req.files@))),
        ),
{
    lemma_base_lookup(
        request_key(req, env),
        request_password(req, env),
        request_project(req),
        opt_view(req.label),
        file_views(req.files@),
    );
    if !has_key(req.options@, "APIKey"@) {
        lemma_presets_leave_fixed_keys(req, "APIKey"@);
        lemma_base_key(req, env, "APIKey"@);
    }
    if !has_key(req.options@, "APIPwd"@) {
        lemma_presets_leave_fixed_keys(req, "APIPwd"@);
        lemma_base_key(req, env, "APIPwd"@);
    }
    if !has_key(req.options@, "Name"@) {
        lemma_presets_leave_fixed_keys(req, "Name"@);
        lemma_base_key(req, env, "Name"@);
    }
    if !has_key(req.options@, "Items"@) {
        lemma_presets_leave_fixed_keys(req, "Items"@);
        lemma_base_key(req, env, "Items"@);
    }
}

/// The release label is sent exactly when the request has a non-empty one,
/// unless an override names `ReleaseLabel`.
pub proof fn law_release_label(req: ProtectRequest, env: EnvCredentials)
    requires
        prepare_outcome(req, env) is Ok,
        !has_key(req.options@, "ReleaseLabel"@),
    ensures
        sent_body(req, env).get("ReleaseLabel"@) == match req.label {
            Some(l) => if l@.len() > 0 {
                Some(JsonView::Str(l@))
            } else {
                None::<JsonView>
            },
            None => None::<JsonView>,
        },
{
    lemma_base_lookup(
        request_key(req, env),
        request_password(req, env),
        request_project(req),
        opt_view(req.label),
        file_views(req.files@),
    );
    lemma_presets_leave_fixed_keys(req, "ReleaseLabel"@);
    lemma_base_key(req, env, "ReleaseLabel"@);
}

/// The credentials never reach an error: two requests that differ only in
/// their credentials (and the environment), both of which resolve to
/// non-empty credentials, fail with the same error.
pub proof fn law_errors_ignore_credentials(
    r1: ProtectRequest,
    e1: EnvCredentials,
    r2: ProtectRequest,
    e2: EnvCredentials,
)
    requires
        r1.files@ == r2.files@,
        opt_view(r1.preset) == opt_view(r2.preset),
        request_key(r1, e1).len() > 0,
        request_password(r1, e1).len() > 0,
        request_key(r2, e2).len() > 0,
        request_password(r2, e2).len() > 0,
    ensures
        prepare_outcome(r1, e1) is Err <==> prepare_outcome(r2, e2) is Err,
        prepare_outcome(r1, e1) is Err ==> prepare_outcome(r1, e1) == prepare_outcome(r2, e2),
{
    assert(r1.preset is None <==> r2.preset is None);
}

/// A request that checks out is sent with its own timeout, or with the
/// 180-second default when it sets none.
pub proof fn law_timeout(req: ProtectRequest, env: EnvCredentials)
    requires
        prepare_outcome(req, env) is Ok,
    ensures
        prepare_outcome(req, env)->Ok_0.2 == match req.timeout {
            Some(t) => t,
            None => 180000u64,
        },
{
}

/// Every protected file returned has a non-empty name, and no name occurs
/// twice.
pub proof fn law_file_names(items: Seq<JsonView>)
    ensures
        forall|i: int| 0 <= i < collect_files(items).len() ==> (#[trigger] collect_files(items)[i]).0.len() > 0,
        crate::strmap::keys_distinct(collect_files(items)),
    decreases items.len(),
{
    if items.len() > 0 {
        let prev = collect_files(items.drop_last());
        law_file_names(items.drop_last());
        let name = crate::response::or_empty(member_str(items.last(), "FileName"@));
        let code = crate::response::or_empty(member_str(items.last(), "FileCode"@));
        if name.len() > 0 {
            lemma_key_position(prev, name);
            crate::strmap::lemma_insert_distinct(prev, name, code);
        }
    }
}

/// A successful answer always carries at least one protected file and keeps
/// the whole answer. An answer whose `Type` is not the string "Succeed" is
/// refused: its message is `Message` when that is a string, else
/// `ErrorCode` when that is a string, else "API request failed"; its kind is
/// the `Type` text (empty when `Type` is not a string); its code is the
/// `ErrorCode` text.
pub proof fn law_answer(parsed: JsonView)
    ensures
        answer_outcome(parsed) is Ok ==> answer_outcome(parsed)->Ok_0.files.len() > 0
            && answer_outcome(parsed)->Ok_0.raw == parsed,
        answer_outcome(parsed) is Ok ==> member_str(parsed, "Type"@) == Some("Succeed"@),
        member_str(parsed, "Type"@) != Some("Succeed"@) ==> {
            &&& answer_outcome(parsed) is Err
            &&& answer_outcome(parsed)->Err_0 matches ErrorView::Api { message, kind, code }
            &&& kind == Some(
                match member_str(parsed, "Type"@) {
                    Some(t) => t,
                    None => Seq::<char>::empty(),
                },
            )
            &&& code == member_str(parsed, "ErrorCode"@)
            &&& member_str(parsed, "Message"@) matches Some(m) ==> message == m
            &&& member_str(parsed, "Message"@) is None ==> (member_str(parsed, "ErrorCode"@) matches Some(c)
                ==> message == c)
            &&& member_str(parsed, "Message"@) is None && member_str(parsed, "ErrorCode"@) is None
                ==> message == "API request failed"@
        },
{
    reveal_strlit("Succeed");
    assert("Succeed"@.len() == 7);
}

/// On success the report and its build id and fingerprint come from the
/// answer's `Report` member; without one the report is null and both are
/// absent.
pub proof fn law_answer_report(parsed: JsonView)
    requires
        answer_outcome(parsed) is Ok,
    ensures
        match parsed.get("Report"@) {
            Some(r) => {
                &&& answer_outcome(parsed)->Ok_0.report == r
                &&& answer_outcome(parsed)->Ok_0.build_id == member_str(r, "BuildId"@)
                &&& answer_outcome(parsed)->Ok_0.polymorphism_fingerprint == member_str(
                    r,
                    "PolymorphismFingerprint"@,
                )
            },
            None => {
                &&& answer_outcome(parsed)->Ok_0.report == JsonView::Null
                &&& answer_outcome(parsed)->Ok_0.build_id is None
                &&& answer_outcome(parsed)->Ok_0.polymorphism_fingerprint is None
            },
        },
{
}

/// The name an answer item gives its file (empty when it gives none).
pub open spec fn item_name(item: JsonView) -> Seq<char> {
    match member_str(item, "FileName"@) {
        Some(n) => n,
        None => Seq::empty(),
    }
}

/// The code an answer item gives its file (empty when it gives none).
pub open spec fn item_code(item: JsonView) -> Seq<char> {
    match member_str(item, "FileCode"@) {
        Some(c) => c,
        None => Seq::empty(),
    }
}

/// The files read from answer items: a non-empty name is present exactly
/// when some item carries it, with the code of the last item that does.
pub proof fn law_answer_files(items: Seq<JsonView>, n: Seq<char>)
    requires
        n.len() > 0,
    ensures
        (forall|i: int| 0 <= i < items.len() ==> item_name(#[trigger] items[i]) != n) ==> entry_lookup(
            collect_files(items),
            n,
        ) is None,
        forall|i: int|
            0 <= i < items.len() && item_name(#[trigger] items[i]) == n && (forall|j: int|
                i < j < items.len() ==> item_name(items[j]) != n) ==> entry_lookup(collect_files(items), n)
                == Some(item_code(items[i])),
    decreases items.len(),
{
    if items.len() > 0 {
        let d = items.drop_last();
        law_answer_files(d, n);
        let name = crate::response::or_empty(member_str(items.last(), "FileName"@));
        let code = crate::response::or_empty(member_str(items.last(), "FileCode"@));
        assert(name == item_name(items.last()));
        assert(code == item_code(items.last()));
        if name.len() > 0 {
            lemma_lookup_insert(collect_files(d), name, code, n);
        }
        assert forall|i: int|
            0 <= i < items.len() && item_name(#[trigger] items[i]) == n && (forall|j: int|
                i < j < items.len() ==> item_name(items[j]) != n) implies entry_lookup(collect_files(items), n)
            == Some(item_code(items[i])) by {
            if i < items.len() - 1 {
                assert(item_name(items[items.len() - 1]) != n);
                assert(d[i] == items[i]);
                assert forall|j: int| i < j < d.len() implies item_name(d[j]) != n by {
                    assert(d[j] == items[j]);
                }
            }
        }
        if forall|i: int| 0 <= i < items.len() ==> item_name(#[trigger] items[i]) != n {
            assert(item_name(items[items.len() - 1]) != n);
            assert forall|i: int| 0 <= i < d.len() implies item_name(#[trigger] d[i]) != n by {
                assert(d[i] == items[i]);
            }
        }
    }
}

proof fn lemma_file_item_members(name: Seq<char>, code: Seq<char>)
    ensures
        file_item(name, code).get("FileName"@) == Some(JsonView::Str(name)),
        file_item(name, code).get("FileCode"@) == Some(JsonView::Str(code)),
{
    reveal_strlit("FileName");
    reveal_strlit("FileCode");
    assert("FileName"@[4] != "FileCode"@[4]);
    let m = seq![("FileName"@, JsonView::Str(name)), ("FileCode"@, JsonView::Str(code))];
    assert(m.drop_last() =~= seq![("FileName"@, JsonView::Str(name))]);
    assert(key_position(m.drop_last(), "FileName"@) == Some(0nat));
}

/// The files are sent as `Items`, one object per file in the request's
/// order, each with the file's `FileName` and `FileCode`, unless an override
/// names `Items`.
pub proof fn law_items(req: ProtectRequest, env: EnvCredentials)
    requires
        prepare_outcome(req, env) is Ok,
        !has_key(req.options@, "Items"@),
    ensures
        sent_body(req, env).get("Items"@) matches Some(JsonView::Array(a)) && a.len() == req.files@.len()
            && forall|i: int|
            0 <= i < a.len() ==> (#[trigger] a[i]).get("FileName"@) == Some(JsonView::Str(req.files@[i].0))
                && a[i].get("FileCode"@) == Some(JsonView::Str(req.files@[i].1@)),
{
    law_fixed_members(req, env);
    let a = file_items(file_views(req.files@));
    assert forall|i: int| 0 <= i < a.len() implies (#[trigger] a[i]).get("FileName"@) == Some(
        JsonView::Str(req.files@[i].0),
    ) && a[i].get("FileCode"@) == Some(JsonView::Str(req.files@[i].1@)) by {
        lemma_file_item_members(req.files@[i].0, req.files@[i].1@);
    }
}

/// What the transport reports becomes the error it describes: an error
/// status keeps its code and the first 200 characters of its body, and
/// transport and decoding failures keep their descriptions.
pub proof fn law_transport_errors(outcome: HttpOutcome)
    ensures
        outcome matches HttpOutcome::Status { code, body } ==> (outcome_result(outcome) matches Err(
            ErrorView::Http { status, snippet },
        ) && status == code && snippet.len() == (if body@.len() <= 200 {
            body@.len() as int
        } else {
            200
        }) && snippet == body@.subrange(0, snippet.len() as int)),
        outcome matches HttpOutcome::Transport(m) ==> outcome_result(outcome) == Err::<
            ProtectResultView,
            ErrorView,
        >(ErrorView::Transport(m@)),
        outcome matches HttpOutcome::Malformed(m) ==> outcome_result(outcome) == Err::<
            ProtectResultView,
            ErrorView,
        >(ErrorView::MalformedResponse(m@)),
{
    if let HttpOutcome::Status { code, body } = outcome {
        assert(body@.subrange(0, body@.len() as int) =~= body@);
    }
}

/// The project name is sent as `Name`: the request's own when it has one,
/// else "rust-session", unless an override names `Name`.
pub proof fn law_project_name(req: ProtectRequest, env: EnvCredentials)
    requires
        prepare_outcome(req, env) is Ok,
        !has_key(req.options@, "Name"@),
    ensures
        sent_body(req, env).get("Name"@) == Some(
            JsonView::Str(
                match req.project_name {
                    Some(n) => n@,
                    None => "rust-session"@,
                },
            ),
        ),
{
    law_fixed_members(req, env);
}

/// A request that checks out goes to its own endpoint, else to the
/// production endpoint.
pub proof fn law_endpoint(req: ProtectRequest, env: EnvCredentials)
    requires
        prepare_outcome(req, env) is Ok,
    ensures
        prepare_outcome(req, env)->Ok_0.0 == match req.endpoint {
            Some(e) => e@,
            None => "https://javascriptobfuscator.com/HttpApi.ashx"@,
        },
{
}

/// The checks come in order: missing credentials first, then missing files;
/// a request that passes both either succeeds or names an unknown preset.
pub proof fn law_error_order(req: ProtectRequest, env: EnvCredentials)
    ensures
        request_key(req, env).len() == 0 || request_password(req, env).len() == 0 ==> prepare_outcome(
            req,
            env,
        ) == Err::<(Seq<char>, JsonView, u64), ErrorView>(ErrorView::MissingCredentials),
        request_key(req, env).len() > 0 && request_password(req, env).len() > 0 && req.files@.len() == 0
            ==> prepare_outcome(req, env) == Err::<(Seq<char>, JsonView, u64), ErrorView>(
            ErrorView::EmptyFiles,
        ),
        request_key(req, env).len() > 0 && request_password(req, env).len() > 0 && req.files@.len() > 0
            ==> (prepare_outcome(req, env) is Ok || prepare_outcome(req, env) matches Err(
            ErrorView::UnknownPreset(_),
        )),
{
}

/// With no usable request value, a credential is the first environment value
/// that is not blank, trimmed; when every value is blank or absent it is
/// empty.
pub proof fn law_credential_from_environment(
    arg: Option<Seq<char>>,
    env: Seq<Option<Seq<char>>>,
    i: int,
)
    requires
        !(arg is Some && trimmed(arg->0).len() > 0),
    ensures
        0 <= i < env.len() && env[i] is Some && trimmed(env[i]->0).len() > 0 && (forall|j: int|
            0 <= j < i ==> #[trigger] env[j] is None || trimmed(env[j]->0).len() == 0) ==> resolved_credential(
            arg,
            env,
        ) == trimmed(env[i]->0),
        (forall|j: int| 0 <= j < env.len() ==> #[trigger] env[j] is None || trimmed(env[j]->0).len() == 0)
            ==> resolved_credential(arg, env).len() == 0,
{
    let vals = seq![arg] + env;
    assert(vals[0] == arg);
    assert(vals.drop_first() =~= env);
    lemma_first_nonblank(env, i);
}

proof fn lemma_first_nonblank(env: Seq<Option<Seq<char>>>, i: int)
    ensures
        0 <= i < env.len() && env[i] is Some && trimmed(env[i]->0).len() > 0 && (forall|j: int|
            0 <= j < i ==> #[trigger] env[j] is None || trimmed(env[j]->0).len() == 0) ==> first_nonblank(env)
            == trimmed(env[i]->0),
        (forall|j: int| 0 <= j < env.len() ==> #[trigger] env[j] is None || trimmed(env[j]->0).len() == 0)
            ==> first_nonblank(env).len() == 0,
    decreases env.len(),
{
    if env.len() > 0 {
        let d = env.drop_first();
        lemma_first_nonblank(d, i - 1);
        if 0 <= i < env.len() && env[i] is Some && trimmed(env[i]->0).len() > 0 && (forall|j: int|
            0 <= j < i ==> #[trigger] env[j] is None || trimmed(env[j]->0).len() == 0) {
            if i > 0 {
                assert(env[0] is None || trimmed(env[0]->0).len() == 0);
                assert(d[i - 1] == env[i]);
                assert forall|j: int| 0 <= j < i - 1 implies #[trigger] d[j] is None || trimmed(d[j]->0).len()
                    == 0 by {
                    assert(d[j] == env[j + 1]);
                }
            }
        }
        if forall|j: int| 0 <= j < env.len() ==> #[trigger] env[j] is None || trimmed(env[j]->0).len() == 0 {
            assert(env[0] is None || trimmed(env[0]->0).len() == 0);
            assert forall|j: int| 0 <= j < d.len() implies #[trigger] d[j] is None || trimmed(d[j]->0).len()
                == 0 by {
                assert(d[j] == env[j + 1]);
            }
        }
    }
}


} // verus!
