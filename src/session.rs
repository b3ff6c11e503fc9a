//! The interactive session: a two-state machine that reads one line per step and decides
//! what the loop around it does next.
use vstd::prelude::*;
use vstd::string::*;

use crate::normalize::names_contain;
use crate::suggest::{chars_of, views_of};
use crate::text::{debug_quoted, debug_text, same_text};

verus! {

/// Whether `c` is whitespace: it has the Unicode White_Space property.
pub open spec fn is_space(c: char) -> bool {
    let x = c as u32;
    (0x9 <= x <= 0xD) || x == 0x20 || x == 0x85 || x == 0xA0 || x == 0x1680 || (0x2000 <= x
        <= 0x200A) || x == 0x2028 || x == 0x2029 || x == 0x202F || x == 0x205F || x == 0x3000
}

/// `s` without its leading whitespace.
pub open spec fn trim_start(s: Seq<char>) -> Seq<char>
    decreases s.len(),
{
    if s.len() > 0 && is_space(s[0]) {
        trim_start(s.drop_first())
    } else {
        s
    }
}

/// `s` without its trailing whitespace.
pub open spec fn trim_end(s: Seq<char>) -> Seq<char>
    decreases s.len(),
{
    if s.len() > 0 && is_space(s.last()) {
        trim_end(s.drop_last())
    } else {
        s
    }
}

/// The line with leading and trailing whitespace removed.
pub open spec fn trim_of(s: Seq<char>) -> Seq<char> {
    trim_end(trim_start(s))
}

/// The words of `s` from position `i` on, where `cur` is the word read so far: maximal runs
/// of characters that are not whitespace.
pub open spec fn words_from(s: Seq<char>, i: int, cur: Seq<char>) -> Seq<Seq<char>>
    decreases s.len() - i,
{
    let done = if cur.len() > 0 {
        seq![cur]
    } else {
        Seq::empty()
    };
    if i < 0 || i >= s.len() {
        done
    } else if is_space(s[i]) {
        done + words_from(s, i + 1, Seq::empty())
    } else {
        words_from(s, i + 1, cur.push(s[i]))
    }
}

/// The whitespace-separated words of a line, in order.
pub open spec fn words_of(s: Seq<char>) -> Seq<Seq<char>> {
    words_from(s, 0, Seq::empty())
}

/// Whether `c` is whitespace.
pub fn space_char(c: char) -> (r: bool)
    ensures
        r == is_space(c),
{
    let x = c as u32;
    (0x9 <= x && x <= 0xD) || x == 0x20 || x == 0x85 || x == 0xA0 || x == 0x1680 || (0x2000 <= x
        && x <= 0x200A) || x == 0x2028 || x == 0x2029 || x == 0x202F || x == 0x205F || x == 0x3000
}

/// The line with leading and trailing whitespace removed.
pub fn trimmed(s: &str) -> (r: String)
    ensures
        r@ == trim_of(s@),
{
    let cs = chars_of(s);
    let n = cs.len();
    let mut i: usize = 0;
    assert(s@.subrange(0, n as int) =~= s@);
    while i < n && space_char(cs[i])
        invariant
            cs@ == s@,
            n == cs@.len(),
            i <= n,
            trim_start(s@) == trim_start(s@.subrange(i as int, n as int)),
        decreases n - i,
    {
        assert(s@.subrange(i as int, n as int).drop_first() =~= s@.subrange(i + 1, n as int));
        i = i + 1;
    }
    assert(trim_start(s@.subrange(i as int, n as int)) == s@.subrange(i as int, n as int));
    let mut j: usize = n;
    while j > i && space_char(cs[j - 1])
        invariant
            cs@ == s@,
            n == cs@.len(),
            i <= j <= n,
            trim_of(s@) == trim_end(s@.subrange(i as int, j as int)),
        decreases j - i,
    {
        assert(s@.subrange(i as int, j as int).drop_last() =~= s@.subrange(i as int, j - 1));
        j = j - 1;
    }
    assert(trim_end(s@.subrange(i as int, j as int)) == s@.subrange(i as int, j as int));
    String::from_str(s.substring_char(i, j))
}

/// The whitespace-separated words of a line, in order.
pub fn words(s: &str) -> (r: Vec<String>)
    ensures
        views_of(r@) == words_of(s@),
{
    let cs = chars_of(s);
    let n = cs.len();
    let mut r: Vec<String> = Vec::new();
    let mut start: usize = 0;
    let mut i: usize = 0;
    assert(s@.subrange(0, 0) =~= Seq::<char>::empty());
    assert(views_of(r@) =~= Seq::<Seq<char>>::empty());
    assert(words_of(s@) =~= views_of(r@) + words_from(s@, 0, s@.subrange(0, 0)));
    while i < n
        invariant
            cs@ == s@,
            n == cs@.len(),
            start <= i <= n,
            words_of(s@) == views_of(r@) + words_from(s@, i as int, s@.subrange(start as int, i as int)),
        decreases n - i,
    {
        let ghost before = r@;
        let ghost cur = s@.subrange(start as int, i as int);
        if space_char(cs[i]) {
            if start < i {
                r.push(String::from_str(s.substring_char(start, i)));
                assert(views_of(r@) =~= views_of(before) + seq![cur]);
            } else {
                assert(cur.len() == 0);
                assert(views_of(r@) =~= views_of(before) + Seq::<Seq<char>>::empty());
            }
            assert(s@.subrange((i + 1) as int, (i + 1) as int) =~= Seq::<char>::empty());
            start = i + 1;
        } else {
            assert(cur.push(s@[i as int]) =~= s@.subrange(start as int, i + 1));
        }
        i = i + 1;
    }
    if start < i {
        let ghost before = r@;
        r.push(String::from_str(s.substring_char(start, i)));
        assert(views_of(r@) =~= views_of(before) + seq![s@.subrange(start as int, i as int)]);
    } else {
        assert(views_of(r@) =~= views_of(r@) + Seq::<Seq<char>>::empty());
    }
    r
}

/// Where the session stands.
#[derive(PartialEq, Eq, Structural, Clone, Copy, Debug)]
pub enum SessionState {
    Prompting,
    Terminated,
}

/// What the loop does after a line was read.
pub enum SessionAction {
    /// End the loop, printing nothing more.
    Stop,
    /// Prompt again without doing anything.
    Reprompt,
    /// Check `command` against the live method list, then call it with `args`.
    Check { command: String, args: Vec<String> },
}

/// Whether `r` is the step from `state` on a line that trims to `line` and has the words
/// `tokens`.
pub open spec fn is_step(
    state: SessionState,
    line: Seq<char>,
    tokens: Seq<Seq<char>>,
    r: (SessionState, SessionAction),
) -> bool {
    if state == SessionState::Terminated || line == "exit"@ {
        r.0 == SessionState::Terminated && r.1 is Stop
    } else if tokens.len() == 0 {
        r.0 == SessionState::Prompting && r.1 is Reprompt
    } else {
        &&& r.0 == SessionState::Prompting
        &&& r.1 matches SessionAction::Check { command, args } && command@ == tokens[0] && views_of(
            args@,
        ) == tokens.drop_first()
    }
}

/// The step from `state` on a line already trimmed to `line`, with words `tokens`: the exit
/// keyword ends the session, an empty line prompts again, and otherwise the first word is
/// the command and the rest are its arguments, one string each.
pub fn interpret_line(state: SessionState, line: &str, tokens: &Vec<String>) -> (r: (
    SessionState,
    SessionAction,
))
    ensures
        is_step(state, line@, views_of(tokens@), r),
{
    if state == SessionState::Terminated || same_text(line, "exit") {
        return (SessionState::Terminated, SessionAction::Stop);
    }
    if tokens.len() == 0 {
        return (SessionState::Prompting, SessionAction::Reprompt);
    }
    let command = tokens[0].clone();
    let mut args: Vec<String> = Vec::new();
    let mut i: usize = 1;
    while i < tokens.len()
        invariant
            1 <= i <= tokens@.len(),
            views_of(args@) == views_of(tokens@).subrange(1, i as int),
        decreases tokens.len() - i,
    {
        let ghost before = args@;
        args.push(tokens[i].clone());
        assert(views_of(args@) =~= views_of(before).push(tokens@[i as int]@));
        assert(views_of(tokens@).subrange(1, i + 1) =~= views_of(tokens@).subrange(1, i as int).push(
            tokens@[i as int]@,
        ));
        i = i + 1;
    }
    assert(views_of(tokens@).subrange(1, tokens@.len() as int) =~= views_of(tokens@).drop_first());
    (SessionState::Prompting, SessionAction::Check { command, args })
}

/// The step from `state` on one line of input, as read.
pub fn session_step(state: SessionState, input: &str) -> (r: (SessionState, SessionAction))
    ensures
        is_step(state, trim_of(input@), words_of(trim_of(input@)), r),
        state == SessionState::Prompting && trim_of(input@) == "exit"@ ==> r.0
            == SessionState::Terminated && r.1 is Stop,
{
    let line = trimmed(input);
    let tokens = words(line.as_str());
    interpret_line(state, line.as_str(), &tokens)
}

/// Once terminated, a session stays terminated and stops on any line.
pub proof fn lemma_terminated_absorbs(line: Seq<char>, tokens: Seq<Seq<char>>, r: (SessionState, SessionAction))
    requires
        is_step(SessionState::Terminated, line, tokens, r),
    ensures
        r.0 == SessionState::Terminated,
        r.1 is Stop,
{
}

/// Whether a command may be called: the live method list must have been had and must hold
/// it; otherwise the line to report.
pub fn check_command(command: &String, methods: &Result<Vec<String>, String>) -> (r: Result<(), String>)
    ensures
        methods matches Err(e) ==> r matches Err(m) && m@ == ">>>> Error getting API methods: "@
            + e@,
        methods matches Ok(list) ==> (r is Ok <==> views_of(list@).contains(command@)),
        methods is Ok && r is Err ==> (r matches Err(m) && m@ == ">>>> Invalid command"@),
{
    match methods {
        Err(e) => {
            let mut m = String::from_str(">>>> Error getting API methods: ");
            m.append(e.as_str());
            Err(m)
        },
        Ok(list) => {
            if names_contain(list, command) {
                return Ok(());
            }
            Err(String::from_str(">>>> Invalid command"))
        },
    }
}

/// The line printed after an interactive call: the quoted result on standard output
/// (`Ok`), or the error on standard error (`Err`).
pub fn call_line(result: &Result<String, String>) -> (r: Result<String, String>)
    ensures
        result matches Ok(t) ==> r matches Ok(l) && l@ == "Result: "@ + debug_text(t@),
        result matches Err(e) ==> r matches Err(l) && l@ == ">>>> Error calling RPC method: "@ + e@,
{
    match result {
        Ok(t) => {
            let mut l = String::from_str("Result: ");
            let q = debug_quoted(t.as_str());
            l.append(q.as_str());
            Ok(l)
        },
        Err(e) => {
            let mut l = String::from_str(">>>> Error calling RPC method: ");
            l.append(e.as_str());
            Err(l)
        },
    }
}

} // verus!
