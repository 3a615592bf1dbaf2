//! The command line's logic: from the arguments to the transaction that
//! is to be sent, and from what came of it to the line that is printed and
//! the code that the process ends with.

use crate::color::Color;
use crate::command::{
    apply_colors, apply_result, is_application, ApplyError, CommandError, EcFailure, Transaction,
};
use crate::driver::{is_resolution, EcHandle, SelectionError, Transport};
use crate::parse::{is_first_failure, is_parse_of, parse_colors, ParseError};
use framework_lib::chromium_ec::CrosEc;
use crate::text::{decimal_text, push_decimal};
use vstd::prelude::*;
use vstd::string::StringExecFns;

verus! {

/// Why the command line did not do what it was asked.
#[derive(Debug, Clone, PartialEq, Eq)]
pub enum CliError {
    /// No colour was given.
    NoColors,
    /// An argument is no colour.
    Parse(ParseError),
    /// The colours were not applied.
    Apply(ApplyError),
}

/// The line printed after `count` colours were written from zone `start`
/// on.
pub open spec fn summary_text(count: nat, start: u8) -> Seq<char> {
    "Updated "@ + decimal_text(count) + (if count == 1 {
        " key"@
    } else {
        " keys"@
    }) + " starting at "@ + decimal_text(start as nat)
}

/// What is said where no colour was given.
pub open spec fn no_colors_text() -> Seq<char> {
    "error: at least one COLOR argument is required"@
}

/// The log filter that belongs to a number of `-v` flags.
pub open spec fn log_filter_text(verbosity: u8) -> Option<Seq<char>> {
    if verbosity == 0 {
        None
    } else if verbosity == 1 {
        Some("info"@)
    } else if verbosity == 2 {
        Some("debug"@)
    } else {
        Some("trace"@)
    }
}

impl CliError {
    /// The code that the process ends with: 2 for bad arguments, 3 where
    /// no handle could be had, 4 for a device error, 5 for any other
    /// failure of the command.
    pub open spec fn code(self) -> u8 {
        match self {
            CliError::NoColors => 2,
            CliError::Parse(_) => 2,
            CliError::Apply(ApplyError::Selection(_)) => 3,
            CliError::Apply(ApplyError::Command(CommandError::Device { .. })) => 4,
            CliError::Apply(ApplyError::Command(CommandError::Other { .. })) => 5,
        }
    }

    /// The line for the error stream.
    pub open spec fn text(self) -> Seq<char> {
        match self {
            CliError::NoColors => no_colors_text(),
            CliError::Parse(e) => e.text(),
            CliError::Apply(e) => e.text(),
        }
    }

    /// The code that the process ends with.
    pub fn exit_code(&self) -> (code: u8)
        ensures
            code == self.code(),
            code != 0,
    {
        match self {
            CliError::NoColors => 2,
            CliError::Parse(_) => 2,
            CliError::Apply(ApplyError::Selection(_)) => 3,
            CliError::Apply(ApplyError::Command(CommandError::Device { .. })) => 4,
            CliError::Apply(ApplyError::Command(CommandError::Other { .. })) => 5,
        }
    }

    /// The line for the error stream.
    pub fn message(&self) -> (text: String)
        ensures
            text@ == self.text(),
    {
        match self {
            CliError::NoColors => String::from_str(
                "error: at least one COLOR argument is required",
            ),
            CliError::Parse(e) => e.message(),
            CliError::Apply(e) => e.message(),
        }
    }
}

/// The line printed after `count` colours were written from zone `start`
/// on.
pub fn summary(count: usize, start: u8) -> (line: String)
    ensures
        line@ == summary_text(count as nat, start),
{
    let mut line = String::from_str("Updated ");
    push_decimal(&mut line, count as u64);
    if count == 1 {
        line.append(" key");
    } else {
        line.append(" keys");
    }
    line.append(" starting at ");
    push_decimal(&mut line, start as u64);
    assert(line@ =~= summary_text(count as nat, start));
    line
}

/// What the command line comes to once `count` colours were handed over:
/// the summary where they were applied, the error where they were not.
pub fn cli_result(count: usize, start: u8, applied: Result<(), ApplyError>) -> (result: Result<
    String,
    CliError,
>)
    ensures
        match applied {
            Ok(()) => result matches Ok(line) && line@ == summary_text(count as nat, start),
            Err(e) => result == Err::<String, CliError>(CliError::Apply(e)),
        },
{
    match applied {
        Ok(()) => Ok(summary(count, start)),
        Err(e) => Err(CliError::Apply(e)),
    }
}

/// Whether `colors` are the colours that the texts of `inputs` write, one
/// for each and in their order.
pub open spec fn is_colors_of(inputs: Seq<String>, colors: Seq<Color>) -> bool {
    &&& colors.len() == inputs.len()
    &&& forall|i: int|
        0 <= i < inputs.len() ==> is_parse_of(
            #[trigger] inputs[i]@,
            Ok::<Color, ParseError>(colors[i]),
        )
}

/// Whether `result` is what applying `colors` from zone `start` on comes
/// to, for some way in which the preference can resolve.
pub open spec fn is_apply_of(
    start: u8,
    colors: Seq<Color>,
    driver: Option<Transport>,
    probed: Option<CrosEc>,
    result: Result<Transaction, ApplyError>,
) -> bool {
    exists|found: Result<EcHandle, SelectionError>| #[trigger]
        is_resolution(driver, probed, found) && is_application(found, start, colors, result)
}

/// Runs the command line up to the sending: reads a colour from each
/// argument and prepares their write to the zones from `start` on.
///
/// Without arguments, or with one that is no colour, nothing is to be
/// sent: the error is `NoColors`, or that of the first argument that is no
/// colour. Else the result is what `apply_colors` makes of the colours:
/// the transaction to send, or the error that keeps them from being sent.
/// The caller sends the transaction once and hands it, with what came
/// back, to `report`.
pub fn run(start: u8, inputs: &Vec<String>, driver: Option<Transport>, probed: Option<CrosEc>) -> (result:
    Result<Transaction, CliError>)
    ensures
        result matches Err(CliError::NoColors) <==> inputs@.len() == 0,
        result matches Err(CliError::Parse(_)) <==> exists|k: int| is_first_failure(inputs@, k),
        result matches Err(CliError::Parse(e)) ==> exists|k: int|
            is_first_failure(inputs@, k) && is_parse_of(
                #[trigger] inputs[k]@,
                Err::<Color, ParseError>(e),
            ),
        result matches Ok(transaction) ==> (is_colors_of(inputs@, transaction.zones())
            && is_apply_of(
            start,
            transaction.zones(),
            driver,
            probed,
            Ok::<Transaction, ApplyError>(transaction),
        )),
        result matches Err(CliError::Apply(e)) ==> exists|colors: Seq<Color>|
            is_colors_of(inputs@, colors) && #[trigger] is_apply_of(
                start,
                colors,
                driver,
                probed,
                Err::<Transaction, ApplyError>(e),
            ),
{
    if inputs.len() == 0 {
        assert(!exists|k: int| is_first_failure(inputs@, k));
        return Err(CliError::NoColors);
    }
    match parse_colors(inputs) {
        Err(e) => Err(CliError::Parse(e)),
        Ok(colors) => {
            assert forall|k: int| !is_first_failure(inputs@, k) by {
                if 0 <= k < inputs@.len() {
                    assert(is_parse_of(inputs[k]@, Ok::<Color, ParseError>(colors[k])));
                }
            }
            let ghost parsed = colors@;
            assert(is_colors_of(inputs@, parsed));
            let applied = apply_colors(start, colors, driver, probed);
            assert(is_apply_of(start, parsed, driver, probed, applied));
            match applied {
                Ok(transaction) => {
                    proof {
                        let found = choose|found: Result<EcHandle, SelectionError>| #[trigger]
                            is_resolution(driver, probed, found) && is_application(
                                found,
                                start,
                                parsed,
                                applied,
                            );
                        assert(transaction.zones() == parsed);
                    }
                    Ok(transaction)
                },
                Err(e) => Err(CliError::Apply(e)),
            }
        },
    }
}

/// What the command line comes to once the transaction was sent: the
/// summary of what was written where the controller's library reported
/// success, the command's error where it reported a failure.
pub fn report(transaction: &Transaction, outcome: Result<(), EcFailure>) -> (result: Result<
    String,
    CliError,
>)
    ensures
        outcome is Ok ==> (result matches Ok(line) && line@ == summary_text(
            transaction.zones().len(),
            transaction.first_zone(),
        )),
        outcome matches Err(failure) ==> (result matches Err(
            CliError::Apply(ApplyError::Command(e)),
        ) && e.is_device() == failure.is_device() && e.detail_text() == failure.text()),
{
    cli_result(transaction.colors().len(), transaction.start_key(), apply_result(outcome))
}

/// The log filter that belongs to a number of `-v` flags: none without the
/// flag, then `info`, `debug`, and `trace` from the third on.
pub fn log_filter(verbosity: u8) -> (filter: Option<&'static str>)
    ensures
        match filter {
            Some(name) => log_filter_text(verbosity) == Some(name@),
            None => log_filter_text(verbosity) is None,
        },
{
    if verbosity == 0 {
        None
    } else if verbosity == 1 {
        Some("info")
    } else if verbosity == 2 {
        Some("debug")
    } else {
        Some("trace")
    }
}

} // verus!
