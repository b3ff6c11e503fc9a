//! One-shot dispatch: the decisions between fetching a signature, making a call, and
//! reporting the outcome. The caller performs each outside step and hands its result back.
use vstd::prelude::*;
use vstd::string::*;

use crate::help::{help_lines, render_help};
use crate::json::{json_valid, reformat_pretty};
use crate::normalize::{
    clone_all, missing_names, normalize, object_accepted, opt_view, ordered_values, tokens_of, unknown_keys,
    NormalizationError, Suggestion,
};
use crate::payload::{keys_of, pairs_of, InputPayload};
use crate::signature::{fetch_error_text, FetchError, MethodSignature};
use crate::suggest::{suggestion, views_of};
use crate::text::{concat_text, join, joined};

verus! {

/// Exit code of a command whose input was malformed or did not match the signature.
pub const ERROR_CODE_PARAM: i32 = 3;

/// Exit code of a command whose metadata fetch or call failed.
pub const ERROR_CODE_SERVER_ERROR: i32 = 12;

/// How a command ended.
#[derive(PartialEq, Eq, Structural, Clone, Copy, Debug)]
pub enum ExitStatus {
    Success,
    ParamError,
    ServerError,
}

pub open spec fn exit_code(s: ExitStatus) -> i32 {
    match s {
        ExitStatus::Success => 0,
        ExitStatus::ParamError => ERROR_CODE_PARAM,
        ExitStatus::ServerError => ERROR_CODE_SERVER_ERROR,
    }
}

impl ExitStatus {
    /// The process exit code for this status.
    pub fn code(self) -> (r: i32)
        ensures
            r == exit_code(self),
    {
        match self {
            ExitStatus::Success => 0,
            ExitStatus::ParamError => ERROR_CODE_PARAM,
            ExitStatus::ServerError => ERROR_CODE_SERVER_ERROR,
        }
    }
}

/// The end of a command: lines for standard output, lines for standard error, whether help
/// for the method is to follow, and the exit status.
pub struct Finish {
    pub output: Vec<String>,
    pub report: Vec<String>,
    pub show_help: bool,
    pub status: ExitStatus,
}

/// What the driver does next.
pub enum Step {
    /// Fetch the method's signature and continue with `after_signature`.
    FetchSignature,
    /// Call the method with these arguments and continue with `after_call`.
    Call(Vec<String>),
    /// Stop here.
    Done(Finish),
}

pub open spec fn parse_error_line(detail: Seq<char>) -> Seq<char> {
    ">>>> Error parsing JSON arguments: "@ + detail
}

pub open spec fn missing_line(method: Seq<char>, name: Seq<char>) -> Seq<char> {
    ">>>> Missing field '"@ + name + "' in provided JSON object for method "@ + method
}

pub open spec fn hint_line(token: Seq<char>, best: Seq<char>) -> Seq<char> {
    "     '"@ + token + "' is not expected. Did you mean '"@ + best + "' ?"@
}

/// One hint line for each unknown key that has a suggestion among `names`, in order.
pub open spec fn hint_lines(unknown: Seq<Seq<char>>, names: Seq<Seq<char>>) -> Seq<Seq<char>>
    decreases unknown.len(),
{
    if unknown.len() == 0 {
        Seq::empty()
    } else {
        let rest = hint_lines(unknown.drop_last(), names);
        match suggestion(unknown.last(), names) {
            Some(b) => rest.push(hint_line(unknown.last(), b)),
            None => rest,
        }
    }
}

/// The report for a named-form input that lacks the names `missing` and has the keys
/// `unknown` that `names` does not hold.
pub open spec fn mismatch_lines(
    method: Seq<char>,
    missing: Seq<Seq<char>>,
    unknown: Seq<Seq<char>>,
    names: Seq<Seq<char>>,
) -> Seq<Seq<char>> {
    missing.map_values(|m: Seq<char>| missing_line(method, m)) + if unknown.len() > 0 {
        seq!["Unknown fields present: "@ + joined(unknown, ", "@)] + hint_lines(unknown, names)
    } else {
        Seq::empty()
    }
}

pub open spec fn call_error_line(detail: Seq<char>) -> Seq<char> {
    ">>>> Error calling RPC method: "@ + detail
}

/// The line printed for a successful call's result, given its indented form where the
/// result parsed as JSON and pretty printing was asked for: that form, else the result as
/// it came.
pub open spec fn result_line(result: Seq<char>, pretty: bool, reformatted: Option<Seq<char>>) -> Seq<
    char,
> {
    match reformatted {
        Some(p) if pretty => p,
        _ => result,
    }
}

fn one_line(s: String) -> (r: Vec<String>)
    ensures
        views_of(r@) == seq![s@],
        r@.len() == 1,
        r@[0]@ == s@,
{
    let mut v: Vec<String> = Vec::new();
    v.push(s);
    assert(views_of(v@) =~= seq![s@]);
    v
}

/// The first step for a parsed input: positional input is called as it is, named input
/// needs the signature, and invalid input is reported with help.
pub fn start_dispatch(payload: &InputPayload) -> (r: Step)
    ensures
        payload matches InputPayload::Array(items) ==> r matches Step::Call(args) && args@ == items@,
        payload is Object ==> r is FetchSignature,
        payload matches InputPayload::Invalid(detail) ==> r matches Step::Done(f) && {
            &&& f.output@.len() == 0
            &&& views_of(f.report@) == seq![parse_error_line(detail@)]
            &&& f.show_help
            &&& f.status == ExitStatus::ParamError
        },
{
    match payload {
        InputPayload::Array(items) => Step::Call(clone_all(items)),
        InputPayload::Object(_) => Step::FetchSignature,
        InputPayload::Invalid(detail) => Step::Done(
            Finish {
                output: Vec::new(),
                report: one_line(concat_text(">>>> Error parsing JSON arguments: ", detail.as_str())),
                show_help: true,
                status: ExitStatus::ParamError,
            },
        ),
    }
}

fn mismatch_report(
    method: &str,
    missing: &Vec<String>,
    unknown: &Vec<Suggestion>,
    names: Ghost<Seq<Seq<char>>>,
) -> (r: Vec<String>)
    requires
        forall|i: int|
            0 <= i < unknown@.len() ==> opt_view(#[trigger] unknown@[i].best_match) == suggestion(
                unknown@[i].token@,
                names@,
            ),
    ensures
        views_of(r@) == mismatch_lines(method@, views_of(missing@), tokens_of(unknown@), names@),
{
    let mut lines: Vec<String> = Vec::new();
    let mut i: usize = 0;
    while i < missing.len()
        invariant
            i <= missing@.len(),
            views_of(lines@) == views_of(missing@).subrange(0, i as int).map_values(
                |m: Seq<char>| missing_line(method@, m),
            ),
        decreases missing.len() - i,
    {
        let mut s = String::from_str(">>>> Missing field '");
        s.append(missing[i].as_str());
        s.append("' in provided JSON object for method ");
        s.append(method);
        let ghost before = lines@;
        lines.push(s);
        assert(views_of(lines@) =~= views_of(before).push(s@));
        assert(views_of(missing@).subrange(0, i + 1).map_values(
            |m: Seq<char>| missing_line(method@, m),
        ) =~= views_of(missing@).subrange(0, i as int).map_values(
            |m: Seq<char>| missing_line(method@, m),
        ).push(missing_line(method@, missing@[i as int]@)));
        i = i + 1;
    }
    assert(views_of(missing@).subrange(0, missing@.len() as int) =~= views_of(missing@));
    let ghost head = views_of(lines@);
    if unknown.len() > 0 {
        let mut tokens: Vec<String> = Vec::new();
        let mut j: usize = 0;
        while j < unknown.len()
            invariant
                j <= unknown@.len(),
                tokens@.len() == j,
                forall|k: int| 0 <= k < j ==> #[trigger] tokens@[k]@ == unknown@[k].token@,
            decreases unknown.len() - j,
        {
            tokens.push(unknown[j].token.clone());
            j = j + 1;
        }
        assert(views_of(tokens@) =~= tokens_of(unknown@));
        let listed = join(&tokens, ", ");
        lines.push(concat_text("Unknown fields present: ", listed.as_str()));
        let ghost mid = views_of(lines@);
        assert(mid =~= head + seq!["Unknown fields present: "@ + joined(tokens_of(unknown@), ", "@)]);
        let mut j: usize = 0;
        while j < unknown.len()
            invariant
                j <= unknown@.len(),
                views_of(lines@) == mid + hint_lines(tokens_of(unknown@).subrange(0, j as int), names@),
                forall|i: int|
                    0 <= i < unknown@.len() ==> opt_view(#[trigger] unknown@[i].best_match)
                        == suggestion(unknown@[i].token@, names@),
            decreases unknown.len() - j,
        {
            let ghost prefix = tokens_of(unknown@).subrange(0, j + 1);
            assert(prefix.drop_last() =~= tokens_of(unknown@).subrange(0, j as int));
            assert(opt_view(unknown@[j as int].best_match) == suggestion(unknown@[j as int].token@, names@));
            let u = &unknown[j];
            match &u.best_match {
                Some(best) => {
                    let mut s = String::from_str("     '");
                    s.append(u.token.as_str());
                    s.append("' is not expected. Did you mean '");
                    s.append(best.as_str());
                    s.append("' ?");
                    let ghost before = lines@;
                    lines.push(s);
                    assert(views_of(lines@) =~= views_of(before).push(s@));
                },
                None => {},
            }
            j = j + 1;
        }
        assert(tokens_of(unknown@).subrange(0, unknown@.len() as int) =~= tokens_of(unknown@));
    }
    assert(views_of(lines@) =~= mismatch_lines(method@, views_of(missing@), tokens_of(unknown@), names@));
    lines
}

/// The step after the signature of `method` was fetched for a named-form input: a fetch
/// failure ends the command with a server error; otherwise the input is normalized and
/// either called or reported with help.
pub fn after_signature(
    method: &str,
    payload: &InputPayload,
    fetched: Result<MethodSignature, FetchError>,
) -> (r: Step)
    ensures
        !(r is FetchSignature),
        fetched matches Err(e) ==> r matches Step::Done(f) && {
            &&& f.output@.len() == 0
            &&& views_of(f.report@) == seq![fetch_error_text(e)]
            &&& !f.show_help
            &&& f.status == ExitStatus::ServerError
        },
        fetched matches Ok(sig) ==> match payload {
            InputPayload::Array(items) => r matches Step::Call(args) && args@ == items@,
            InputPayload::Object(entries) => {
                let pairs = pairs_of(entries@);
                let names = sig.names();
                let keys = keys_of(pairs);
                &&& r is Call <==> object_accepted(pairs, names)
                &&& r matches Step::Call(args) ==> views_of(args@) == ordered_values(pairs, names)
                &&& r matches Step::Done(f) ==> {
                    &&& f.output@.len() == 0
                    &&& views_of(f.report@) == mismatch_lines(
                        method@,
                        missing_names(keys, names),
                        unknown_keys(keys, names),
                        names,
                    )
                    &&& f.show_help
                    &&& f.status == ExitStatus::ParamError
                }
            },
            InputPayload::Invalid(_) => r matches Step::Done(f) && f.output@.len() == 0 && f.show_help
                && f.status == ExitStatus::ParamError,
        },
{
    match fetched {
        Err(e) => Step::Done(
            Finish {
                output: Vec::new(),
                report: one_line(e.message()),
                show_help: false,
                status: ExitStatus::ServerError,
            },
        ),
        Ok(sig) => match normalize(payload, &sig) {
            Ok(args) => Step::Call(args),
            Err(NormalizationError::FieldMismatch { missing, unknown }) => Step::Done(
                Finish {
                    output: Vec::new(),
                    report: mismatch_report(method, &missing, &unknown, Ghost(sig.names())),
                    show_help: true,
                    status: ExitStatus::ParamError,
                },
            ),
            Err(NormalizationError::NotArrayOrObject) => Step::Done(
                Finish {
                    output: Vec::new(),
                    report: one_line(
                        concat_text(
                            ">>>> Error parsing JSON arguments: ",
                            "expected a JSON array or object",
                        ),
                    ),
                    show_help: true,
                    status: ExitStatus::ParamError,
                },
            ),
        },
    }
}

/// The line for a successful call's result, given its indented form (where the result
/// parsed as JSON and pretty printing was asked for).
pub fn compose_result(result: &str, pretty: bool, reformatted: Option<String>) -> (r: String)
    ensures
        r@ == result_line(
            result@,
            pretty,
            match reformatted {
                Some(p) => Some(p@),
                None => None,
            },
        ),
{
    match reformatted {
        Some(p) if pretty => p,
        _ => String::from_str(result),
    }
}

/// The line for a successful call's result: indented JSON where pretty printing was asked
/// for and the result parses as JSON; otherwise the result verbatim.
pub fn render_result(result: &str, pretty: bool) -> (r: String)
    ensures
        !pretty || !json_valid(result@) ==> r@ == result@,
{
    if pretty {
        let reformatted = reformat_pretty(result);
        compose_result(result, pretty, reformatted)
    } else {
        compose_result(result, pretty, None)
    }
}

/// The end of a command after the call was made: the result is printed on success; a
/// failed call is reported with help and a server error.
pub fn after_call(result: Result<String, String>, pretty: bool) -> (r: Finish)
    ensures
        result matches Ok(text) ==> {
            &&& r.output@.len() == 1
            &&& !pretty || !json_valid(text@) ==> r.output@[0]@ == text@
            &&& r.report@.len() == 0
            &&& !r.show_help
            &&& r.status == ExitStatus::Success
        },
        result matches Err(e) ==> {
            &&& r.output@.len() == 0
            &&& views_of(r.report@) == seq![call_error_line(e@)]
            &&& r.show_help
            &&& r.status == ExitStatus::ServerError
        },
{
    match result {
        Ok(text) => {
            let line = render_result(text.as_str(), pretty);
            let output = one_line(line);
            Finish { output, report: Vec::new(), show_help: false, status: ExitStatus::Success }
        },
        Err(e) => Finish {
            output: Vec::new(),
            report: one_line(concat_text(">>>> Error calling RPC method: ", e.as_str())),
            show_help: true,
            status: ExitStatus::ServerError,
        },
    }
}

/// What is shown for a method's help after its signature was fetched: the help text, or
/// the fetch error on standard error.
pub fn help_outcome(fetched: &Result<MethodSignature, FetchError>) -> (r: Finish)
    ensures
        fetched matches Ok(sig) ==> views_of(r.output@) == help_lines(*sig) && r.report@.len() == 0,
        fetched matches Err(e) ==> r.output@.len() == 0 && views_of(r.report@) == seq![
            fetch_error_text(*e),
        ],
        !r.show_help,
        r.status == ExitStatus::Success,
{
    match fetched {
        Ok(sig) => Finish {
            output: render_help(sig),
            report: Vec::new(),
            show_help: false,
            status: ExitStatus::Success,
        },
        Err(e) => Finish {
            output: Vec::new(),
            report: one_line(e.message()),
            show_help: false,
            status: ExitStatus::Success,
        },
    }
}

} // verus!
