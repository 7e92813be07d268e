use vstd::prelude::*;
use vstd::string::StringExecFns;

verus! {

/// How the external conversion tool's process ended, as the operating
/// system reports it: an exit code, or termination without one (a signal).
#[derive(Clone, Copy, Debug, PartialEq, Eq, Structural)]
pub enum ToolStatus {
    Exited(i32),
    Terminated,
}

/// The ways a run can fail. None is recovered from: each aborts the run.
#[derive(Clone, Copy, Debug, PartialEq, Eq, Structural)]
pub enum ConversionError {
    /// The configuration document could not be created or written.
    SetupFailure,
    /// The external tool could not be located or spawned.
    SpawnFailure,
    /// The external tool ran and reported failure.
    ExternalToolFailure(ToolStatus),
}

/// The tool status for what the operating system hands back: an exit code
/// where the process exited, and no code where a signal ended it.
pub fn tool_status_of(code: Option<i32>) -> (s: ToolStatus)
    ensures
        s == (match code {
            Option::Some(c) => ToolStatus::Exited(c),
            Option::None => ToolStatus::Terminated,
        }),
{
    match code {
        Option::Some(c) => ToolStatus::Exited(c),
        Option::None => ToolStatus::Terminated,
    }
}

/// A tool status means success exactly when the tool exited 0.
pub open spec fn interpret_spec(s: ToolStatus) -> Result<(), ConversionError> {
    if s == ToolStatus::Exited(0i32) {
        Ok(())
    } else {
        Err(ConversionError::ExternalToolFailure(s))
    }
}

pub fn interpret_tool_status(s: ToolStatus) -> (r: Result<(), ConversionError>)
    ensures
        r == interpret_spec(s),
{
    match s {
        ToolStatus::Exited(c) => {
            if c == 0 {
                Ok(())
            } else {
                Err(ConversionError::ExternalToolFailure(s))
            }
        },
        ToolStatus::Terminated => Err(ConversionError::ExternalToolFailure(s)),
    }
}

/// The process exit code for a finished run: 0 for success, 1 for any
/// failure. The tool's own failure code is not forwarded, only coerced.
pub open spec fn exit_code_spec(r: Result<(), ConversionError>) -> i32 {
    if r is Ok {
        0
    } else {
        1
    }
}

pub fn exit_code(r: &Result<(), ConversionError>) -> (c: i32)
    ensures
        c == exit_code_spec(*r),
{
    match r {
        Ok(_) => 0,
        Err(_) => 1,
    }
}

/// A run whose tool exited 0 exits 0; one whose tool reported any other
/// status exits 1, whatever that status was.
pub proof fn lemma_exit_code_tracks_tool_status(s: ToolStatus)
    ensures
        s == ToolStatus::Exited(0i32) ==> exit_code_spec(interpret_spec(s)) == 0,
        s != ToolStatus::Exited(0i32) ==> exit_code_spec(interpret_spec(s)) == 1,
{
}

/// Every failing run exits 1 — in particular one whose tool could not be
/// found or spawned, and one whose configuration could not be written.
pub proof fn lemma_failure_exits_nonzero(e: ConversionError)
    ensures
        exit_code_spec(Err::<(), ConversionError>(e)) == 1,
{
}

/// The decimal digit character for `d`.
pub open spec fn dec_digit(d: nat) -> char
    recommends
        d < 10,
{
    if d == 0 {
        '0'
    } else if d == 1 {
        '1'
    } else if d == 2 {
        '2'
    } else if d == 3 {
        '3'
    } else if d == 4 {
        '4'
    } else if d == 5 {
        '5'
    } else if d == 6 {
        '6'
    } else if d == 7 {
        '7'
    } else if d == 8 {
        '8'
    } else {
        '9'
    }
}

/// The decimal digits of `n`, most significant first, without leading
/// zeros (a single `'0'` for zero itself).
pub open spec fn dec_nat(n: nat) -> Seq<char>
    decreases n,
{
    if n < 10 {
        seq![dec_digit(n)]
    } else {
        dec_nat(n / 10) + seq![dec_digit(n % 10)]
    }
}

/// The decimal rendering of `n`, with a leading `'-'` when negative.
pub open spec fn dec_int(n: int) -> Seq<char> {
    if n < 0 {
        seq!['-'] + dec_nat((-n) as nat)
    } else {
        dec_nat(n as nat)
    }
}

fn dec_digit_str(d: u32) -> (r: &'static str)
    requires
        d < 10,
    ensures
        r@ == seq![dec_digit(d as nat)],
{
    let r = match d {
        0 => "0",
        1 => "1",
        2 => "2",
        3 => "3",
        4 => "4",
        5 => "5",
        6 => "6",
        7 => "7",
        8 => "8",
        _ => "9",
    };
    proof {
        reveal_strlit("0");
        reveal_strlit("1");
        reveal_strlit("2");
        reveal_strlit("3");
        reveal_strlit("4");
        reveal_strlit("5");
        reveal_strlit("6");
        reveal_strlit("7");
        reveal_strlit("8");
        reveal_strlit("9");
        assert(r@ =~= seq![dec_digit(d as nat)]);
    }
    r
}

fn dec_u32(n: u32) -> (r: String)
    ensures
        r@ == dec_nat(n as nat),
    decreases n,
{
    if n < 10 {
        String::from_str(dec_digit_str(n))
    } else {
        let mut s = dec_u32(n / 10);
        s.append(dec_digit_str(n % 10));
        proof {
            assert(s@ =~= dec_nat(n as nat));
        }
        s
    }
}

fn dec_i32(n: i32) -> (r: String)
    ensures
        r@ == dec_int(n as int),
{
    if n < 0 {
        let mag64: i64 = -(n as i64);
        proof {
            assert(0 <= mag64 <= u32::MAX);
        }
        let mag: u32 = mag64 as u32;
        let mut s = String::from_str("-");
        let digits = dec_u32(mag);
        s.append(digits.as_str());
        proof {
            reveal_strlit("-");
            assert(s@ =~= dec_int(n as int));
        }
        s
    } else {
        dec_u32(n as u32)
    }
}

/// The diagnostic written to the error stream for a failing run: setup and
/// spawn failures name the failing step; a tool failure reports the
/// observed status.
pub open spec fn diagnostic_spec(e: ConversionError) -> Seq<char> {
    match e {
        ConversionError::SetupFailure => "failed to create the conversion configuration file"@,
        ConversionError::SpawnFailure => "failed to execute the conversion command"@,
        ConversionError::ExternalToolFailure(s) => match s {
            ToolStatus::Exited(c) => "command failed with status: "@ + dec_int(c as int),
            ToolStatus::Terminated => "command terminated by a signal"@,
        },
    }
}

pub fn diagnostic(e: &ConversionError) -> (r: String)
    ensures
        r@ == diagnostic_spec(*e),
{
    match e {
        ConversionError::SetupFailure => String::from_str(
            "failed to create the conversion configuration file",
        ),
        ConversionError::SpawnFailure => String::from_str("failed to execute the conversion command"),
        ConversionError::ExternalToolFailure(s) => match s {
            ToolStatus::Exited(c) => {
                let mut m = String::from_str("command failed with status: ");
                let digits = dec_i32(*c);
                m.append(digits.as_str());
                m
            },
            ToolStatus::Terminated => String::from_str("command terminated by a signal"),
        },
    }
}

} // verus!
