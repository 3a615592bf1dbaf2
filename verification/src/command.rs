//! The "set colour range" command and what can go wrong with it.
//!
//! The command is prepared here and sent by the caller: `submit` and
//! `apply_colors` give the one transaction that is to be sent, or the
//! reason why none is, and `command_result` and `apply_result` take what
//! the controller's library reported of it.

use crate::color::Color;
use crate::driver::{is_resolution, resolve, EcHandle, SelectionError, Transport};
use crate::text::{decimal_text, push_decimal};
use framework_lib::chromium_ec::CrosEc;
use vstd::prelude::*;
use vstd::string::StringExecFns;

verus! {

/// How many zones one transaction with the embedded controller carries. A
/// longer range is sent as several transactions, each starting where the
/// one before it ended.
pub const ZONES_PER_TRANSACTION: usize = 64;

/// How the embedded controller's library reported a failed command.
#[derive(Debug, Clone, PartialEq, Eq)]
pub enum EcFailure {
    /// The controller answered with a status other than success, named here.
    Response { status: String },
    /// The controller answered with a status code that has no name.
    UnknownResponseCode { code: u32 },
    /// The controller could not be reached.
    DeviceError { detail: String },
}

/// Why a colour range was not written.
#[derive(Debug, Clone, PartialEq, Eq)]
pub enum CommandError {
    /// The transport or the device failed.
    Device { detail: String },
    /// The command failed in any other way.
    Other { detail: String },
}

/// Why colours were not applied: no handle, or a failed command.
#[derive(Debug, Clone, PartialEq, Eq)]
pub enum ApplyError {
    Selection(SelectionError),
    Command(CommandError),
}

/// Whether every transaction of a range of `count` zones from `start` on
/// begins at a zone that an 8-bit index can name.
pub open spec fn range_is_addressable(start: u8, count: nat) -> bool {
    count == 0 || start + ZONES_PER_TRANSACTION * ((count - 1) / (ZONES_PER_TRANSACTION as int))
        <= 255
}

/// What is said of a range that is not addressable.
pub open spec fn unaddressable_text() -> Seq<char> {
    "zone range runs past the last addressable zone"@
}

impl EcFailure {
    /// Whether the failure lies with the transport or the device.
    /// Whether the error lies with the transport or the device.
    pub open spec fn is_device(self) -> bool {
        self is DeviceError
    }

    /// The failure in words: a device error's own detail, else the failure
    /// as the controller's library names it.
    pub open spec fn text(self) -> Seq<char> {
        match self {
            EcFailure::Response { status } => "Response("@ + status@ + ")"@,
            EcFailure::UnknownResponseCode { code } => "UnknownResponseCode("@ + decimal_text(
                code as nat,
            ) + ")"@,
            EcFailure::DeviceError { detail } => detail@,
        }
    }
}

impl CommandError {
    pub open spec fn is_device(self) -> bool {
        self is Device
    }

    /// What the error says of its cause.
    pub open spec fn detail_text(self) -> Seq<char> {
        match self {
            CommandError::Device { detail } => detail@,
            CommandError::Other { detail } => detail@,
        }
    }

    /// The error's message.
    pub open spec fn text(self) -> Seq<char> {
        match self {
            CommandError::Device { detail } => "ec device error: "@ + detail@,
            CommandError::Other { detail } => "ec command failed: "@ + detail@,
        }
    }

    /// The error's message.
    pub fn message(&self) -> (text: String)
        ensures
            text@ == self.text(),
    {
        match self {
            CommandError::Device { detail } => {
                let mut text = String::from_str("ec device error: ");
                text.append(detail.as_str());
                text
            },
            CommandError::Other { detail } => {
                let mut text = String::from_str("ec command failed: ");
                text.append(detail.as_str());
                text
            },
        }
    }
}

impl ApplyError {
    /// The error's message.
    pub open spec fn text(self) -> Seq<char> {
        match self {
            ApplyError::Selection(e) => e.text(),
            ApplyError::Command(e) => e.text(),
        }
    }

    /// The error's message.
    pub fn message(&self) -> (text: String)
        ensures
            text@ == self.text(),
    {
        match self {
            ApplyError::Selection(e) => e.message(),
            ApplyError::Command(e) => e.message(),
        }
    }
}

/// Sorts a failure of the controller's library into the command's errors:
/// a device error stays one, with its detail; anything else is `Other`,
/// described as the library names it.
pub fn command_error(failure: EcFailure) -> (error: CommandError)
    ensures
        error.is_device() == failure.is_device(),
        error.detail_text() == failure.text(),
{
    match failure {
        EcFailure::DeviceError { detail } => CommandError::Device { detail },
        EcFailure::Response { status } => {
            let mut detail = String::from_str("Response(");
            detail.append(status.as_str());
            detail.append(")");
            CommandError::Other { detail }
        },
        EcFailure::UnknownResponseCode { code } => {
            let mut detail = String::from_str("UnknownResponseCode(");
            push_decimal(&mut detail, code as u64);
            detail.append(")");
            CommandError::Other { detail }
        },
    }
}

/// What a command comes to, given what the controller's library reported.
pub fn command_result(outcome: Result<(), EcFailure>) -> (result: Result<(), CommandError>)
    ensures
        outcome is Ok <==> result is Ok,
        outcome matches Err(failure) ==> {
            &&& result->Err_0.is_device() == failure.is_device()
            &&& result->Err_0.detail_text() == failure.text()
        },
{
    match outcome {
        Ok(()) => Ok(()),
        Err(failure) => Err(command_error(failure)),
    }
}

/// Whether a range of `count` zones from `start` on can be sent.
pub fn is_addressable(start: u8, count: usize) -> (fits: bool)
    ensures
        fits == range_is_addressable(start, count as nat),
{
    count == 0 || (count - 1) / ZONES_PER_TRANSACTION <= (255 - start as usize)
        / ZONES_PER_TRANSACTION
}

/// One write of colours that is ready to be sent: the handle to send it
/// through, the first zone, and one colour for each zone from there on.
/// Its range is addressable.
pub struct Transaction {
    handle: EcHandle,
    start_key: u8,
    colors: Vec<Color>,
}

impl Transaction {
    /// The range is addressable.
    #[verifier::type_invariant]
    spec fn is_sendable(&self) -> bool {
        range_is_addressable(self.start_key, self.colors@.len())
    }

    /// The handle to send through.
    pub closed spec fn handle_of(&self) -> EcHandle {
        self.handle
    }

    /// The first zone to write.
    pub closed spec fn first_zone(&self) -> u8 {
        self.start_key
    }

    /// The colours to write: `zones()[i]` goes to zone `first_zone() + i`.
    pub closed spec fn zones(&self) -> Seq<Color> {
        self.colors@
    }

    /// The handle to send through.
    pub fn handle(&self) -> (handle: &EcHandle)
        ensures
            *handle == self.handle_of(),
    {
        &self.handle
    }

    /// The first zone to write.
    pub fn start_key(&self) -> (start_key: u8)
        ensures
            start_key == self.first_zone(),
            range_is_addressable(self.first_zone(), self.zones().len()),
    {
        proof {
            use_type_invariant(self);
        }
        self.start_key
    }

    /// The colours to write, the first for the first zone.
    pub fn colors(&self) -> (colors: &Vec<Color>)
        ensures
            colors@ == self.zones(),
            range_is_addressable(self.first_zone(), self.zones().len()),
    {
        proof {
            use_type_invariant(self);
        }
        &self.colors
    }
}

/// Whether `transaction` sends exactly `colors` to the zones from `start`
/// on, through `handle`.
pub open spec fn is_transaction_of(
    transaction: Transaction,
    handle: EcHandle,
    start: u8,
    colors: Seq<Color>,
) -> bool {
    &&& transaction.handle_of() == handle
    &&& transaction.first_zone() == start
    &&& transaction.zones() == colors
}

/// Whether `result` is what submitting `colors` for the zones from `start`
/// on comes to: the transaction that sends exactly them where the range is
/// addressable, and the refusal as `Other` where it is not.
pub open spec fn is_submission(
    handle: EcHandle,
    start: u8,
    colors: Seq<Color>,
    result: Result<Transaction, CommandError>,
) -> bool {
    if range_is_addressable(start, colors.len()) {
        result matches Ok(transaction) && is_transaction_of(transaction, handle, start, colors)
    } else {
        result matches Err(CommandError::Other { detail }) && detail@ == unaddressable_text()
    }
}

/// Whether `result` is what applying `colors` comes to once the handle was
/// resolved as `found`: the selection's error where no handle was found,
/// else what submitting through the handle comes to.
pub open spec fn is_application(
    found: Result<EcHandle, SelectionError>,
    start: u8,
    colors: Seq<Color>,
    result: Result<Transaction, ApplyError>,
) -> bool {
    match found {
        Err(e) => result matches Err(ApplyError::Selection(same)) && same == e,
        Ok(handle) => if range_is_addressable(start, colors.len()) {
            result matches Ok(transaction) && is_transaction_of(transaction, handle, start, colors)
        } else {
            result matches Err(ApplyError::Command(CommandError::Other { detail })) && detail@
                == unaddressable_text()
        },
    }
}

/// Prepares the write of `colors` to the zones from `start` on: `colors[i]`
/// to zone `start + i`, as one transaction through `handle`.
///
/// A range with a part that would begin past zone 255 is refused as
/// `Other`, and nothing is to be sent. Whether the zones from `start` on
/// exist is for the controller to say: the caller sends the transaction
/// once and hands what came back to `command_result`.
pub fn submit(handle: EcHandle, start: u8, colors: Vec<Color>) -> (result: Result<
    Transaction,
    CommandError,
>)
    ensures
        is_submission(handle, start, colors@, result),
{
    if !is_addressable(start, colors.len()) {
        return Err(
            CommandError::Other {
                detail: String::from_str("zone range runs past the last addressable zone"),
            },
        );
    }
    Ok(Transaction { handle, start_key: start, colors })
}

/// What applying `colors` comes to once the handle was resolved as
/// `found`: the selection's error, or what `submit` makes of the handle.
pub fn apply_selected(found: Result<EcHandle, SelectionError>, start_key: u8, colors: Vec<Color>) -> (result:
    Result<Transaction, ApplyError>)
    ensures
        is_application(found, start_key, colors@, result),
{
    match found {
        Err(e) => Err(ApplyError::Selection(e)),
        Ok(handle) => match submit(handle, start_key, colors) {
            Ok(transaction) => Ok(transaction),
            Err(e) => Err(ApplyError::Command(e)),
        },
    }
}

/// Prepares the write of `colors` to the zones from `start_key` on,
/// through the given transport or, without one, through the handle that the
/// platform's own probing found, handed in as `probed`.
///
/// The handle is resolved anew for every call. Where no handle can be had,
/// nothing is to be sent and the error is that of the selection. The
/// caller sends the transaction once and hands what came back to
/// `apply_result`.
pub fn apply_colors(
    start_key: u8,
    colors: Vec<Color>,
    driver: Option<Transport>,
    probed: Option<CrosEc>,
) -> (result: Result<Transaction, ApplyError>)
    ensures
        exists|found: Result<EcHandle, SelectionError>| #[trigger]
            is_resolution(driver, probed, found) && is_application(
                found,
                start_key,
                colors@,
                result,
            ),
{
    let found = resolve(driver, probed);
    let result = apply_selected(found, start_key, colors);
    assert(is_resolution(driver, probed, found));
    result
}

/// What applying colours comes to, given what the controller's library
/// reported of the transaction: success, or the command's error.
pub fn apply_result(outcome: Result<(), EcFailure>) -> (result: Result<(), ApplyError>)
    ensures
        outcome is Ok <==> result is Ok,
        outcome matches Err(failure) ==> (result matches Err(ApplyError::Command(e)) && e.is_device()
            == failure.is_device() && e.detail_text() == failure.text()),
{
    match command_result(outcome) {
        Ok(()) => Ok(()),
        Err(e) => Err(ApplyError::Command(e)),
    }
}

} // verus!
