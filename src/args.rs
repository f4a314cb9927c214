//! The command line: `--minute=`, `--second=`, `--theme=` and help.

use vstd::prelude::*;
use crate::text::{
    after_prefix, has_prefix, is_integer, is_integer_text, parse_unsigned, parse_unsigned_decimal, same_text, strip_prefix,
};

verus! {

pub const MS_PER_MINUTE: u64 = 60_000;

pub const MS_PER_SECOND: u64 = 1_000;

/// The number of themes; `--theme=` counts them from one.
pub const THEME_COUNT: usize = 10;

/// Why a command line was refused.
#[derive(Clone, Copy, Debug, PartialEq, Eq, Structural)]
pub enum ArgError {
    /// A value after `--minute=` or `--second=` is not an unsigned decimal
    /// that fits a `u64`, or one after `--theme=` is not an integer.
    InvalidNumber,
    /// The durations add up to more milliseconds than a `u64` holds.
    Overflow,
    /// The durations add up to zero (or none was given).
    NoDuration,
}

/// What the command line asks for.
#[derive(Clone, Copy, Debug, PartialEq, Eq, Structural)]
pub enum Command {
    /// Print the usage text and do nothing else.
    Help,
    /// Count down `total_time` milliseconds in theme `theme` (0-based).
    Run { total_time: u64, theme: usize },
}

pub open spec fn minute_flag() -> Seq<char> {
    seq!['-', '-', 'm', 'i', 'n', 'u', 't', 'e', '=']
}

pub open spec fn second_flag() -> Seq<char> {
    seq!['-', '-', 's', 'e', 'c', 'o', 'n', 'd', '=']
}

pub open spec fn theme_flag() -> Seq<char> {
    seq!['-', '-', 't', 'h', 'e', 'm', 'e', '=']
}

pub open spec fn short_help_flag() -> Seq<char> {
    seq!['-', 'h']
}

pub open spec fn long_help_flag() -> Seq<char> {
    seq!['-', '-', 'h', 'e', 'l', 'p']
}

/// `acc` plus `unit` times the number written in `text`.
pub open spec fn add_scaled(acc: nat, text: Seq<char>, unit: nat) -> Result<nat, ArgError> {
    match parse_unsigned(text, u64::MAX as nat) {
        None => Err(ArgError::InvalidNumber),
        Some(v) => if acc + v * unit > u64::MAX {
            Err(ArgError::Overflow)
        } else {
            Ok(acc + v * unit)
        },
    }
}

/// The running total after one more argument: minutes and seconds add to
/// it, anything else leaves it.
pub open spec fn add_argument(acc: nat, a: Seq<char>) -> Result<nat, ArgError> {
    if has_prefix(a, minute_flag()) {
        add_scaled(acc, after_prefix(a, minute_flag()), MS_PER_MINUTE as nat)
    } else if has_prefix(a, second_flag()) {
        add_scaled(acc, after_prefix(a, second_flag()), MS_PER_SECOND as nat)
    } else {
        Ok(acc)
    }
}

/// The total duration over the arguments before index `n`, the program
/// name (index 0) left out; the first error met, left to right, wins.
pub open spec fn duration_through(args: Seq<String>, n: int) -> Result<nat, ArgError>
    decreases n,
{
    if n <= 1 {
        Ok(0)
    } else {
        match duration_through(args, n - 1) {
            Err(e) => Err(e),
            Ok(acc) => add_argument(acc, args[n - 1]@),
        }
    }
}

pub open spec fn total_duration(args: Seq<String>) -> Result<nat, ArgError> {
    duration_through(args, args.len() as int)
}

/// The theme chosen by the arguments from index `i` on: the first
/// `--theme=` whose value is 1 to 10 gives that value less one; one whose
/// value is not an integer is an error; one whose value is any other
/// integer (zero, negative or however large) is passed over; with none,
/// theme 0.
pub open spec fn theme_from(args: Seq<String>, i: int) -> Result<nat, ArgError>
    decreases args.len() - i,
{
    if i < 0 || i >= args.len() {
        Ok(0)
    } else if has_prefix(args[i]@, theme_flag()) {
        let value = after_prefix(args[i]@, theme_flag());
        if !is_integer_text(value) {
            Err(ArgError::InvalidNumber)
        } else {
            match parse_unsigned(value, THEME_COUNT as nat) {
                Some(v) => if v >= 1 {
                    Ok((v - 1) as nat)
                } else {
                    theme_from(args, i + 1)
                },
                None => theme_from(args, i + 1),
            }
        }
    } else {
        theme_from(args, i + 1)
    }
}

pub open spec fn asks_for_help(args: Seq<String>) -> bool {
    exists|i: int|
        0 <= i < args.len() && (#[trigger] args[i]@ == short_help_flag() || args[i]@
            == long_help_flag())
}

/// What a command line asks for: help if any argument is `-h` or `--help`;
/// otherwise a countdown of the total duration, which must be above zero,
/// in the chosen theme.
pub open spec fn command_of(args: Seq<String>) -> Result<Command, ArgError> {
    if asks_for_help(args) {
        Ok(Command::Help)
    } else {
        match total_duration(args) {
            Err(e) => Err(e),
            Ok(total) => if total == 0 {
                Err(ArgError::NoDuration)
            } else {
                match theme_from(args, 0) {
                    Err(e) => Err(e),
                    Ok(theme) => Ok(Command::Run { total_time: total as u64, theme: theme as usize }),
                }
            },
        }
    }
}

fn add_scaled_exec(acc: u64, text: &str, unit: u64) -> (r: Result<u64, ArgError>)
    ensures
        match r {
            Ok(v) => add_scaled(acc as nat, text@, unit as nat) == Ok::<nat, ArgError>(v as nat),
            Err(e) => add_scaled(acc as nat, text@, unit as nat) == Err::<nat, ArgError>(e),
        },
{
    match parse_unsigned_decimal(text, u64::MAX) {
        None => Err(ArgError::InvalidNumber),
        Some(v) => match v.checked_mul(unit) {
            None => {
                assert(acc + v * unit > u64::MAX) by (nonlinear_arith)
                    requires
                        v * unit > u64::MAX,
                ;
                Err(ArgError::Overflow)
            },
            Some(scaled) => match acc.checked_add(scaled) {
                None => Err(ArgError::Overflow),
                Some(sum) => Ok(sum),
            },
        },
    }
}

/// The countdown length in milliseconds: each `--minute=<n>` adds
/// `n * 60000` and each `--second=<n>` adds `n * 1000`. The first argument,
/// the program's name, is not read.
pub fn parse_arguments(args: &[String]) -> (r: Result<u64, ArgError>)
    ensures
        match r {
            Ok(v) => total_duration(args@) == Ok::<nat, ArgError>(v as nat),
            Err(e) => total_duration(args@) == Err::<nat, ArgError>(e),
        },
{
    if args.len() == 0 {
        return Ok(0);
    }
    let mut total: u64 = 0;
    let mut i: usize = 1;
    while i < args.len()
        invariant
            1 <= i <= args@.len(),
            duration_through(args@, i as int) == Ok::<nat, ArgError>(total as nat),
        decreases args@.len() - i,
    {
        let a = args[i].as_str();
        let step = if let Some(value) = strip_prefix(a, "--minute=") {
            add_scaled_exec(total, value, MS_PER_MINUTE)
        } else if let Some(value) = strip_prefix(a, "--second=") {
            add_scaled_exec(total, value, MS_PER_SECOND)
        } else {
            Ok(total)
        };
        proof {
            reveal_strlit("--minute=");
            reveal_strlit("--second=");
            assert("--minute="@ =~= minute_flag());
            assert("--second="@ =~= second_flag());
        }
        match step {
            Ok(v) => {
                total = v;
            },
            Err(e) => {
                proof { lemma_duration_error_stays(args@, i as int + 1); }
                return Err(e);
            },
        }
        i = i + 1;
    }
    Ok(total)
}

proof fn lemma_duration_error_stays(args: Seq<String>, n: int)
    requires
        1 <= n <= args.len(),
        duration_through(args, n) is Err,
    ensures
        duration_through(args, args.len() as int) == duration_through(args, n),
    decreases args.len() - n,
{
    if n < args.len() {
        lemma_duration_error_stays(args, n + 1);
    }
}

/// The 0-based theme index: the first `--theme=<n>` with `n` from 1 to 10
/// gives `n - 1`, passing over any other integer; a value that is not an
/// integer is an error; with none, 0. Every argument is read, the first one
/// included.
pub fn get_theme_from_args(args: &[String]) -> (r: Result<usize, ArgError>)
    ensures
        match r {
            Ok(v) => theme_from(args@, 0) == Ok::<nat, ArgError>(v as nat),
            Err(e) => theme_from(args@, 0) == Err::<nat, ArgError>(e),
        },
{
    let mut i: usize = 0;
    while i < args.len()
        invariant
            i <= args@.len(),
            theme_from(args@, 0) == theme_from(args@, i as int),
        decreases args@.len() - i,
    {
        proof {
            reveal_strlit("--theme=");
            assert("--theme="@ =~= theme_flag());
        }
        if let Some(value) = strip_prefix(args[i].as_str(), "--theme=") {
            if !is_integer(value) {
                return Err(ArgError::InvalidNumber);
            }
            if let Some(v) = parse_unsigned_decimal(value, THEME_COUNT as u64) {
                if v >= 1 {
                    return Ok((v - 1) as usize);
                }
            }
        }
        i = i + 1;
    }
    Ok(0)
}

/// Whether any argument, the first one included, is `-h` or `--help`.
pub fn wants_help(args: &[String]) -> (r: bool)
    ensures
        r == asks_for_help(args@),
{
    proof {
        reveal_strlit("-h");
        reveal_strlit("--help");
        assert("-h"@ =~= short_help_flag());
        assert("--help"@ =~= long_help_flag());
    }
    let mut i: usize = 0;
    while i < args.len()
        invariant
            i <= args@.len(),
            "-h"@ == short_help_flag(),
            "--help"@ == long_help_flag(),
            forall|j: int|
                0 <= j < i ==> !(#[trigger] args@[j]@ == short_help_flag() || args@[j]@
                    == long_help_flag()),
        decreases args@.len() - i,
    {
        let a = args[i].as_str();
        if same_text(a, "-h") || same_text(a, "--help") {
            assert(args@[i as int]@ == short_help_flag() || args@[i as int]@ == long_help_flag());
            return true;
        }
        i = i + 1;
    }
    false
}

/// Reads a whole command line: help wins over everything else; otherwise
/// the duration is read first and must be above zero, then the theme.
pub fn parse_command(args: &[String]) -> (r: Result<Command, ArgError>)
    ensures
        r == command_of(args@),
{
    if wants_help(args) {
        return Ok(Command::Help);
    }
    let total_time = match parse_arguments(args) {
        Ok(t) => t,
        Err(e) => {
            return Err(e);
        },
    };
    if total_time == 0 {
        return Err(ArgError::NoDuration);
    }
    match get_theme_from_args(args) {
        Ok(theme) => Ok(Command::Run { total_time, theme }),
        Err(e) => Err(e),
    }
}

} // verus!
