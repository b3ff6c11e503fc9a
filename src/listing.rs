//! Listing the service's methods and showing one method's signature.
use vstd::prelude::*;
use vstd::string::*;

use crate::dispatch::{ExitStatus, Finish};
use crate::help::{help_lines, render_help};
use crate::signature::MethodSignature;
use crate::suggest::views_of;
use crate::text::{debug_quoted, debug_text, join, joined};

verus! {

/// Whether `a` comes before `b` in lexicographic order of code points, the order in
/// which `String`s compare.
pub open spec fn text_lt(a: Seq<char>, b: Seq<char>) -> bool
    decreases a.len(),
{
    if a.len() == 0 {
        b.len() > 0
    } else if b.len() == 0 {
        false
    } else if a[0] != b[0] {
        (a[0] as u32) < (b[0] as u32)
    } else {
        text_lt(a.drop_first(), b.drop_first())
    }
}

/// Whether `s` holds the texts of `of`, each as often, in ascending order.
pub open spec fn is_sorted_permutation(s: Seq<Seq<char>>, of: Seq<Seq<char>>) -> bool {
    &&& s.to_multiset() == of.to_multiset()
    &&& forall|i: int, j: int| 0 <= i < j < s.len() ==> !text_lt(#[trigger] s[j], #[trigger] s[i])
}

/// Relies on `slice::sort` over `String`, whose order is lexicographic by code point: the
/// same texts, in ascending order.
#[verifier::external_body]
fn sorted(v: Vec<String>) -> (r: Vec<String>)
    ensures
        is_sorted_permutation(views_of(r@), views_of(v@)),
{
    let mut v = v;
    v.sort();
    v
}

/// The lines that list `methods` (already sorted): one per method when pretty, else all
/// on one line as a quoted list.
pub open spec fn method_list_lines(methods: Seq<Seq<char>>, pretty: bool) -> Seq<Seq<char>> {
    if pretty {
        seq!["Available RPC methods:"@] + methods.map_values(|m: Seq<char>| "  "@ + m)
    } else {
        seq![
            "Available RPC methods: "@ + "["@ + joined(
                methods.map_values(|m: Seq<char>| debug_text(m)),
                ", "@,
            ) + "]"@,
        ]
    }
}

/// The end of a command that could not get the method list: the failure reported with a
/// server error.
pub fn methods_error(detail: &str) -> (r: Finish)
    ensures
        r.output@.len() == 0,
        views_of(r.report@) == seq![">>>> Error getting API methods: "@ + detail@],
        !r.show_help,
        r.status == ExitStatus::ServerError,
{
    let mut m = String::from_str(">>>> Error getting API methods: ");
    m.append(detail);
    let mut report: Vec<String> = Vec::new();
    report.push(m);
    assert(views_of(report@) =~= seq![">>>> Error getting API methods: "@ + detail@]);
    Finish { output: Vec::new(), report, show_help: false, status: ExitStatus::ServerError }
}

/// The line shown for one method when listing every method's metadata: its description on
/// standard output (`Ok`), or the failure to get it on standard error (`Err`); either way
/// the listing goes on with the next method.
pub fn info_line(method: &str, reply: &Result<String, String>) -> (r: Result<String, String>)
    ensures
        reply matches Ok(d) ==> r matches Ok(x) && x@ == "Method: "@ + method@ + ", Info: "@ + d@,
        reply matches Err(e) ==> r matches Err(x) && x@ == ">>>> Error getting API info: "@ + e@,
{
    match reply {
        Ok(d) => {
            let mut x = String::from_str("Method: ");
            x.append(method);
            x.append(", Info: ");
            x.append(d.as_str());
            Ok(x)
        },
        Err(e) => {
            let mut x = String::from_str(">>>> Error getting API info: ");
            x.append(e.as_str());
            Err(x)
        },
    }
}

/// The outcome of listing the methods: the list sorted and printed, or the failure to get it
/// reported with a server error.
pub fn list_methods_outcome(methods: Result<Vec<String>, String>, pretty: bool) -> (r: Finish)
    ensures
        methods matches Err(e) ==> {
            &&& r.output@.len() == 0
            &&& views_of(r.report@) == seq![">>>> Error getting API methods: "@ + e@]
            &&& r.status == ExitStatus::ServerError
        },
        methods matches Ok(list) ==> {
            &&& exists|s: Seq<Seq<char>>|
                is_sorted_permutation(s, views_of(list@)) && views_of(r.output@) == method_list_lines(
                    s,
                    pretty,
                )
            &&& r.report@.len() == 0
            &&& r.status == ExitStatus::Success
        },
        !r.show_help,
{
    match methods {
        Err(e) => methods_error(e.as_str()),
        Ok(list) => {
            let s = sorted(list);
            let ghost sv = views_of(s@);
            let mut output: Vec<String> = Vec::new();
            if pretty {
                output.push(String::from_str("Available RPC methods:"));
                let mut i: usize = 0;
                while i < s.len()
                    invariant
                        sv == views_of(s@),
                        i <= s@.len(),
                        views_of(output@) == seq!["Available RPC methods:"@] + sv.subrange(
                            0,
                            i as int,
                        ).map_values(|m: Seq<char>| "  "@ + m),
                    decreases s.len() - i,
                {
                    let mut line = String::from_str("  ");
                    line.append(s[i].as_str());
                    let ghost before = output@;
                    output.push(line);
                    assert(views_of(output@) =~= views_of(before).push(line@));
                    assert(sv.subrange(0, i + 1).map_values(|m: Seq<char>| "  "@ + m) =~= sv.subrange(
                        0,
                        i as int,
                    ).map_values(|m: Seq<char>| "  "@ + m).push("  "@ + sv[i as int]));
                    i = i + 1;
                }
                assert(sv.subrange(0, sv.len() as int) =~= sv);
            } else {
                let mut quoted: Vec<String> = Vec::new();
                let mut i: usize = 0;
                while i < s.len()
                    invariant
                        sv == views_of(s@),
                        i <= s@.len(),
                        quoted@.len() == i,
                        forall|k: int| 0 <= k < i ==> #[trigger] quoted@[k]@ == debug_text(sv[k]),
                    decreases s.len() - i,
                {
                    quoted.push(debug_quoted(s[i].as_str()));
                    i = i + 1;
                }
                assert(views_of(quoted@) =~= sv.map_values(|m: Seq<char>| debug_text(m)));
                let inner = join(&quoted, ", ");
                let mut line = String::from_str("Available RPC methods: ");
                line.append("[");
                line.append(inner.as_str());
                line.append("]");
                output.push(line);
            }
            assert(views_of(output@) =~= method_list_lines(sv, pretty));
            Finish { output, report: Vec::new(), show_help: false, status: ExitStatus::Success }
        },
    }
}

/// The outcome of asking for one method's signature: its help text, a note that the service
/// has none, or the failure reported with a server error.
pub fn method_info_outcome(method: &str, reply: Result<Option<MethodSignature>, String>) -> (r: Finish)
    ensures
        reply matches Ok(Some(sig)) ==> views_of(r.output@) == help_lines(sig) && r.report@.len()
            == 0 && r.status == ExitStatus::Success,
        reply matches Ok(None) ==> views_of(r.output@) == seq![
            "No information available for method: "@ + method@,
        ] && r.report@.len() == 0 && r.status == ExitStatus::ServerError,
        reply matches Err(e) ==> r.output@.len() == 0 && views_of(r.report@) == seq![
            ">>>> Error getting API info: "@ + e@,
        ] && r.status == ExitStatus::ServerError,
        !r.show_help,
{
    match reply {
        Ok(Some(sig)) => Finish {
            output: render_help(&sig),
            report: Vec::new(),
            show_help: false,
            status: ExitStatus::Success,
        },
        Ok(None) => {
            let mut m = String::from_str("No information available for method: ");
            m.append(method);
            let mut output: Vec<String> = Vec::new();
            output.push(m);
            assert(views_of(output@) =~= seq!["No information available for method: "@ + method@]);
            Finish { output, report: Vec::new(), show_help: false, status: ExitStatus::ServerError }
        },
        Err(e) => {
            let mut m = String::from_str(">>>> Error getting API info: ");
            m.append(e.as_str());
            let mut report: Vec<String> = Vec::new();
            report.push(m);
            assert(views_of(report@) =~= seq![">>>> Error getting API info: "@ + e@]);
            Finish { output: Vec::new(), report, show_help: false, status: ExitStatus::ServerError }
        },
    }
}

} // verus!
