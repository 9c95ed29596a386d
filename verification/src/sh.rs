//! External commands as data: what to run, how it is displayed, and how a
//! captured outcome maps to a structured error.
//!
//! Nothing here runs a process.  The caller executes an [`Invocation`] and
//! hands the captured output back; [`exec_outcome`] decides success and
//! builds the exact error record for a failure.

use vstd::prelude::*;
use crate::error::Command;
use crate::strings::{dec_int, i64_to_string, spec_trim, trim_end_rec, trim_str};

verus! {

/// One external command: the program, its arguments, and the directory to
/// run it in.
#[derive(Clone, Debug)]
pub struct Invocation {
    pub program: String,
    pub args: Vec<String>,
    pub cwd: Option<String>,
}

/// The view of an invocation.
#[verifier::ext_equal]
pub struct InvocationView {
    pub program: Seq<char>,
    pub args: Seq<Seq<char>>,
    pub cwd: Option<Seq<char>>,
}

impl View for Invocation {
    type V = InvocationView;

    open spec fn view(&self) -> InvocationView {
        InvocationView {
            program: self.program@,
            args: self.args.deep_view(),
            cwd: self.cwd.deep_view(),
        }
    }
}

impl Invocation {
    pub fn new(program: String, args: Vec<String>, cwd: Option<String>) -> (r: Invocation)
        ensures
            r@.program == program@,
            r@.args == args.deep_view(),
            r@.cwd == cwd.deep_view(),
    {
        Invocation { program, args, cwd }
    }
}

/// A command run through the user's shell: `<shell> -c <script>`.
pub fn shell_invocation(shell: &str, script: &str, cwd: Option<String>) -> (r: Invocation)
    ensures
        r@.program == shell@,
        r@.args =~~= seq!["-c"@, script@],
        r@.cwd == cwd.deep_view(),
{
    let mut args: Vec<String> = Vec::new();
    args.push(String::from_str("-c"));
    args.push(String::from_str(script));
    Invocation { program: String::from_str(shell), args, cwd }
}

/// The displayed form of an invocation: the working directory in brackets
/// when there is one, then the program and each argument, space-separated,
/// without trailing blanks.
pub open spec fn spec_invocation_display(v: InvocationView) -> Seq<char> {
    let cwd_part = match v.cwd {
        Some(c) => "["@ + c + "] "@,
        None => Seq::<char>::empty(),
    };
    let blob = v.args.map_values(|a: Seq<char>| a + " "@).flatten_alt();
    trim_end_rec(cwd_part + v.program + " "@ + blob)
}

/// Renders an invocation for logs and error messages.
pub fn invocation_display(inv: &Invocation) -> (r: String)
    ensures
        r@ == spec_invocation_display(inv@),
{
    let mut raw: String = match &inv.cwd {
        Some(c) => {
            let mut s = String::from_str("[");
            s.append(c.as_str());
            s.append("] ");
            proof {
                assert(s@ =~= "["@ + c@ + "] "@);
            }
            s
        },
        None => String::new(),
    };
    raw.append(inv.program.as_str());
    raw.append(" ");
    let n = inv.args.len();
    let ghost avs = inv.args.deep_view();
    let ghost base = raw@;
    let mut i: usize = 0;
    while i < n
        invariant
            i <= n,
            n == inv.args.len(),
            avs == inv.args.deep_view(),
            raw@ == base + avs.take(i as int).map_values(|a: Seq<char>| a + " "@).flatten_alt(),
        decreases n - i,
    {
        proof {
            let mapped = avs.take(i + 1).map_values(|a: Seq<char>| a + " "@);
            assert(mapped.drop_last() =~~= avs.take(i as int).map_values(
                |a: Seq<char>| a + " "@,
            ));
            assert(mapped.last() == avs[i as int] + " "@);
        }
        raw.append(inv.args[i].as_str());
        raw.append(" ");
        i += 1;
    }
    proof {
        assert(avs.take(n as int) =~= avs);
    }
    let r = trim_end_str(raw.as_str());
    proof {
        assert(base + avs.map_values(|a: Seq<char>| a + " "@).flatten_alt() =~= (match inv@.cwd {
            Some(c) => "["@ + c + "] "@,
            None => Seq::<char>::empty(),
        }) + inv@.program + " "@ + avs.map_values(|a: Seq<char>| a + " "@).flatten_alt());
    }
    r
}

/// Removes trailing blank characters.
pub fn trim_end_str(s: &str) -> (r: String)
    ensures
        r@ == trim_end_rec(s@),
{
    let n = s.unicode_len();
    proof {
        assert(s@.subrange(0, n as int) =~= s@);
    }
    let mut b: usize = n;
    while b > 0 && crate::strings::blank_char(s.get_char(b - 1))
        invariant
            b <= n,
            n == s@.len(),
            trim_end_rec(s@) == trim_end_rec(s@.subrange(0, b as int)),
        decreases b,
    {
        proof {
            assert(s@.subrange(0, b as int).drop_last() =~= s@.subrange(0, b as int - 1));
        }
        b -= 1;
    }
    proof {
        assert(trim_end_rec(s@.subrange(0, b as int)) =~= s@.subrange(0, b as int));
    }
    String::from_str(s.substring_char(0, b))
}

// ---------------------------------------------------------------------------
// Outcome mapping
// ---------------------------------------------------------------------------

/// How an external process ended: with an exit code, or killed by a signal.
#[derive(Clone, Copy, Debug)]
pub enum ProcessStatus {
    Exited(i32),
    Signaled(i32),
}

/// The captured outcome of one external process.
#[derive(Debug)]
pub struct CapturedOutput {
    pub status: ProcessStatus,
    pub stdout: String,
    pub stderr: String,
}

/// The error message for a failed process: the displayed command with its
/// exit code, or the program with the signal that interrupted it.
pub open spec fn spec_failure_msg(
    display: Seq<char>,
    program: Seq<char>,
    status: ProcessStatus,
) -> Seq<char> {
    match status {
        ProcessStatus::Exited(code) => display + " failed with exit status "@ + dec_int(
            code as int,
        ) + "."@,
        ProcessStatus::Signaled(sig) => program + " interrupted by signal "@ + dec_int(sig as int)
            + "."@,
    }
}

/// Maps a captured process outcome to a result: exit status zero is
/// success; any other exit, or death by signal, is a [`Command`] error
/// carrying the message and the trimmed captured output.
pub fn exec_outcome(display: &str, program: &str, out: &CapturedOutput) -> (r: Result<(), Command>)
    ensures
        match r {
            Ok(()) => out.status is Exited && out.status->Exited_0 == 0,
            Err(e) => {
                &&& !(out.status is Exited && out.status->Exited_0 == 0)
                &&& e@.msg == spec_failure_msg(display@, program@, out.status)
                &&& e@.stdout == spec_trim(out.stdout@)
                &&& e@.stderr == spec_trim(out.stderr@)
            },
        },
{
    if let ProcessStatus::Exited(code) = out.status {
        if code == 0 {
            return Ok(());
        }
    }
    let msg: String = match out.status {
        ProcessStatus::Exited(code) => {
            let mut m = String::from_str(display);
            m.append(" failed with exit status ");
            let c = i64_to_string(code as i64);
            m.append(c.as_str());
            m.append(".");
            m
        },
        ProcessStatus::Signaled(sig) => {
            let mut m = String::from_str(program);
            m.append(" interrupted by signal ");
            let c = i64_to_string(sig as i64);
            m.append(c.as_str());
            m.append(".");
            m
        },
    };
    Err(
        Command {
            msg,
            stdout: trim_str(out.stdout.as_str()),
            stderr: trim_str(out.stderr.as_str()),
        },
    )
}

} // verus!
