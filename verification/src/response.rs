//! Reading the service's answer.
use vstd::prelude::*;
use vstd::string::*;

use crate::error::{opt_view, Error, ErrorView};
use crate::json::{views, JsonValue, JsonView};
use crate::strmap::{seq_insert, StrMap};
use crate::text::{prefix_chars, take_chars};

verus! {

/// How many characters of an error answer's body an [`Error::Http`] keeps.
pub const SNIPPET_CHARS: usize = 200;

/// The outcome of a successful protection call.
pub struct ProtectResult {
    /// Protected source keyed by input file name.
    pub files: StrMap<String>,
    /// Stable identifier for this protection run.
    pub build_id: Option<String>,
    /// Short fingerprint over the protected output.
    pub polymorphism_fingerprint: Option<String>,
    /// The answer's `Report` member (`Null` when it has none).
    pub report: JsonValue,
    /// The complete decoded answer.
    pub raw: JsonValue,
}

/// The mathematical model of a [`ProtectResult`].
pub struct ProtectResultView {
    pub files: Seq<(Seq<char>, Seq<char>)>,
    pub build_id: Option<Seq<char>>,
    pub polymorphism_fingerprint: Option<Seq<char>>,
    pub report: JsonView,
    pub raw: JsonView,
}

impl ProtectResult {
    pub open spec fn view(&self) -> ProtectResultView {
        ProtectResultView {
            files: self.files@.map_values(|e: (Seq<char>, String)| (e.0, e.1@)),
            build_id: opt_view(self.build_id),
            polymorphism_fingerprint: opt_view(self.polymorphism_fingerprint),
            report: self.report@,
            raw: self.raw@,
        }
    }
}

/// What the transport reports of one call.
pub enum HttpOutcome {
    /// A success status with this decoded JSON body.
    Body(JsonValue),
    /// An error status, with the body text (empty when it could not be read).
    Status { code: u16, body: String },
    /// The call did not complete; the transport's description.
    Transport(String),
    /// A success status whose body is not JSON; the decoder's description.
    Malformed(String),
}

/// The text of the member `key` of `v`, when that member is a string.
pub open spec fn member_str(v: JsonView, key: Seq<char>) -> Option<Seq<char>> {
    match v.get(key) {
        Some(x) => x.as_str(),
        None => None,
    }
}

/// `o`'s text, or the empty text.
pub open spec fn or_empty(o: Option<Seq<char>>) -> Seq<char> {
    match o {
        Some(s) => s,
        None => Seq::empty(),
    }
}

/// The answer's `Type`, empty when it has none.
pub open spec fn answer_type(parsed: JsonView) -> Seq<char> {
    or_empty(member_str(parsed, "Type"@))
}

/// The message of a refusal: `Message`, else `ErrorCode`, else a fixed text.
pub open spec fn refusal_message(parsed: JsonView) -> Seq<char> {
    match member_str(parsed, "Message"@) {
        Some(m) => m,
        None => match member_str(parsed, "ErrorCode"@) {
            Some(c) => c,
            None => "API request failed"@,
        },
    }
}

/// The elements of the answer's `Items` array (none when it is missing or not
/// an array).
pub open spec fn answer_items(parsed: JsonView) -> Seq<JsonView> {
    match parsed.get("Items"@) {
        Some(a) => match a.as_array() {
            Some(s) => s,
            None => Seq::empty(),
        },
        None => Seq::empty(),
    }
}

/// The protected files of `items`: each item with a non-empty `FileName`
/// contributes its name and its `FileCode` (empty when missing), a later item
/// replacing an earlier one of the same name.
pub open spec fn collect_files(items: Seq<JsonView>) -> Seq<(Seq<char>, Seq<char>)>
    decreases items.len(),
{
    if items.len() == 0 {
        Seq::empty()
    } else {
        let prev = collect_files(items.drop_last());
        let name = or_empty(member_str(items.last(), "FileName"@));
        let code = or_empty(member_str(items.last(), "FileCode"@));
        if name.len() > 0 {
            seq_insert(prev, name, code)
        } else {
            prev
        }
    }
}

/// The text of a refusal that carries no protected file.
pub open spec fn no_files_message() -> Seq<char> {
    "API response did not include any protected files"@
}

/// What an answer with a success status means.
pub open spec fn answer_outcome(parsed: JsonView) -> Result<ProtectResultView, ErrorView> {
    let t = answer_type(parsed);
    if t != "Succeed"@ {
        Err(
            ErrorView::Api {
                message: refusal_message(parsed),
                kind: Some(t),
                code: member_str(parsed, "ErrorCode"@),
            },
        )
    } else {
        let files = collect_files(answer_items(parsed));
        if files.len() == 0 {
            Err(ErrorView::Api { message: no_files_message(), kind: None, code: None })
        } else {
            Ok(
                match parsed.get("Report"@) {
                    Some(report) => ProtectResultView {
                        files,
                        build_id: member_str(report, "BuildId"@),
                        polymorphism_fingerprint: member_str(report, "PolymorphismFingerprint"@),
                        report,
                        raw: parsed,
                    },
                    None => ProtectResultView {
                        files,
                        build_id: None,
                        polymorphism_fingerprint: None,
                        report: JsonView::Null,
                        raw: parsed,
                    },
                },
            )
        }
    }
}

/// A result or its error, as views.
pub open spec fn result_view(r: Result<ProtectResult, Error>) -> Result<ProtectResultView, ErrorView> {
    match r {
        Ok(p) => Ok(p@),
        Err(e) => Err(e@),
    }
}

fn member_string(v: &JsonValue, key: &str) -> (r: Option<String>)
    ensures
        opt_view(r) == member_str(v@, key@),
{
    match v.get(key) {
        Some(x) => match x.as_str() {
            Some(s) => Some(String::from_str(s)),
            None => None,
        },
        None => None,
    }
}

fn string_or_empty(o: Option<String>) -> (r: String)
    ensures
        r@ == or_empty(opt_view(o)),
{
    match o {
        Some(s) => s,
        None => String::new(),
    }
}

fn collect_file_map(items: &Vec<JsonValue>) -> (r: StrMap<String>)
    ensures
        r@.map_values(|e: (Seq<char>, String)| (e.0, e.1@)) == collect_files(views(items@)),
{
    let mut files: StrMap<String> = StrMap::new();
    let ghost iv = views(items@);
    let mut i: usize = 0;
    assert(files@.map_values(|e: (Seq<char>, String)| (e.0, e.1@)) =~= collect_files(iv.take(0)));
    while i < items.len()
        invariant
            i <= items@.len(),
            iv == views(items@),
            files@.map_values(|e: (Seq<char>, String)| (e.0, e.1@)) == collect_files(iv.take(i as int)),
        decreases items@.len() - i,
    {
        let name = string_or_empty(member_string(&items[i], "FileName"));
        let code = string_or_empty(member_string(&items[i], "FileCode"));
        proof {
            assert(iv.take(i + 1).drop_last() =~= iv.take(i as int));
            assert(iv.take(i + 1).last() == items@[i as int]@);
        }
        if !name.as_str().is_empty() {
            let ghost before = files@;
            files.insert(name, code);
            proof {
                crate::strmap::lemma_insert_map(before, |s: String| s@, name@, code);
                assert(files@.map_values(|e: (Seq<char>, String)| (e.0, e.1@)) =~= seq_insert(
                    before,
                    name@,
                    code,
                ).map_values(|e: (Seq<char>, String)| (e.0, (|s: String| s@)(e.1))));
                assert(before.map_values(|e: (Seq<char>, String)| (e.0, e.1@)) =~= before.map_values(
                    |e: (Seq<char>, String)| (e.0, (|s: String| s@)(e.1)),
                ));
            }
        }
        i = i + 1;
    }
    assert(iv.take(items@.len() as int) =~= iv);
    files
}

/// Reads an answer that came with a success status.
///
/// An answer whose `Type` is not "Succeed" is a refusal, reported with its
/// `Message` (else its `ErrorCode`, else a fixed text), its `Type` and its
/// `ErrorCode`. Otherwise the protected files are taken from `Items`; an
/// answer without any is refused too. The `Report` member, when present,
/// supplies the build id, the fingerprint and the report.
pub fn interpret_answer(parsed: JsonValue) -> (r: Result<ProtectResult, Error>)
    ensures
        result_view(r) == answer_outcome(parsed@),
{
    let kind = string_or_empty(member_string(&parsed, "Type"));
    if !(kind == String::from_str("Succeed")) {
        let message = match member_string(&parsed, "Message") {
            Some(m) => m,
            None => match member_string(&parsed, "ErrorCode") {
                Some(c) => c,
                None => String::from_str("API request failed"),
            },
        };
        let code = member_string(&parsed, "ErrorCode");
        return Err(Error::Api { message, kind: Some(kind), code });
    }
    let files = match parsed.get("Items") {
        Some(a) => match a.as_array() {
            Some(items) => collect_file_map(items),
            None => {
                let f: StrMap<String> = StrMap::new();
                assert(views(Seq::<JsonValue>::empty()) =~= Seq::<JsonView>::empty());
                f
            },
        },
        None => StrMap::new(),
    };
    proof {
        assert(collect_files(Seq::<JsonView>::empty()) == Seq::<(Seq<char>, Seq<char>)>::empty());
    }
    if files.is_empty() {
        return Err(
            Error::Api {
                message: String::from_str("API response did not include any protected files"),
                kind: None,
                code: None,
            },
        );
    }
    let (build_id, polymorphism_fingerprint, report) = match parsed.get("Report") {
        Some(rep) => (
            member_string(rep, "BuildId"),
            member_string(rep, "PolymorphismFingerprint"),
            rep.deep_clone(),
        ),
        None => (None, None, JsonValue::Null),
    };
    Ok(ProtectResult { files, build_id, polymorphism_fingerprint, report, raw: parsed })
}

/// What a transport outcome means.
pub open spec fn outcome_result(outcome: HttpOutcome) -> Result<ProtectResultView, ErrorView> {
    match outcome {
        HttpOutcome::Body(v) => answer_outcome(v@),
        HttpOutcome::Status { code, body } => Err(
            ErrorView::Http { status: code, snippet: take_chars(body@, 200) },
        ),
        HttpOutcome::Transport(m) => Err(ErrorView::Transport(m@)),
        HttpOutcome::Malformed(m) => Err(ErrorView::MalformedResponse(m@)),
    }
}

/// Turns what the transport reports of a call into the call's result: an
/// error status keeps the first 200 characters of its body, a transport or
/// decoding failure its description, and a JSON body is read by
/// [`interpret_answer`].
pub fn finish_request(outcome: HttpOutcome) -> (r: Result<ProtectResult, Error>)
    ensures
        result_view(r) == outcome_result(outcome),
{
    match outcome {
        HttpOutcome::Body(v) => interpret_answer(v),
        HttpOutcome::Status { code, body } => Err(
            Error::Http { status: code, snippet: prefix_chars(body.as_str(), SNIPPET_CHARS) },
        ),
        HttpOutcome::Transport(m) => Err(Error::Transport(m)),
        HttpOutcome::Malformed(m) => Err(Error::MalformedResponse(m)),
    }
}

} // verus!
