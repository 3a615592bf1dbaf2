//! Choosing the transport that reaches the embedded controller.

use framework_lib::chromium_ec::{CrosEc, CrosEcDriverType};
use vstd::prelude::*;
use vstd::string::StringExecFns;

verus! {

/// A channel to the embedded controller.
#[derive(Clone, Copy, Debug, PartialEq, Eq, Structural)]
pub enum Transport {
    /// Direct port I/O.
    Portio,
    /// The operating system's `cros_ec` device.
    CrosEc,
    /// The Windows HID channel.
    Windows,
}

/// What the operator asked for: a named transport, or whatever the platform
/// finds by itself.
#[derive(Clone, Copy, Debug, PartialEq, Eq, Structural)]
pub enum DriverChoice {
    Auto,
    Portio,
    CrosEc,
    Windows,
}

impl DriverChoice {
    /// The transport that this choice names, if it names one.
    pub open spec fn transport(self) -> Option<Transport> {
        match self {
            DriverChoice::Auto => None,
            DriverChoice::Portio => Some(Transport::Portio),
            DriverChoice::CrosEc => Some(Transport::CrosEc),
            DriverChoice::Windows => Some(Transport::Windows),
        }
    }

    /// The text shown for this choice.
    pub open spec fn label_text(self) -> Seq<char> {
        match self {
            DriverChoice::Auto => "Auto (recommended)"@,
            DriverChoice::Portio => "Port I/O"@,
            DriverChoice::CrosEc => "Linux cros_ec"@,
            DriverChoice::Windows => "Windows HID"@,
        }
    }

    /// Every choice, in the order in which it is offered.
    pub open spec fn all_choices() -> Seq<DriverChoice> {
        seq![DriverChoice::Auto, DriverChoice::Portio, DriverChoice::CrosEc, DriverChoice::Windows]
    }

    /// The transport that this choice names, if it names one.
    pub fn to_option(self) -> (t: Option<Transport>)
        ensures
            t == self.transport(),
    {
        match self {
            DriverChoice::Auto => None,
            DriverChoice::Portio => Some(Transport::Portio),
            DriverChoice::CrosEc => Some(Transport::CrosEc),
            DriverChoice::Windows => Some(Transport::Windows),
        }
    }

    /// The text shown for this choice.
    pub fn label(self) -> (text: &'static str)
        ensures
            text@ == self.label_text(),
    {
        match self {
            DriverChoice::Auto => "Auto (recommended)",
            DriverChoice::Portio => "Port I/O",
            DriverChoice::CrosEc => "Linux cros_ec",
            DriverChoice::Windows => "Windows HID",
        }
    }

    /// Every choice, in the order in which it is offered.
    pub fn all() -> (choices: &'static [DriverChoice])
        ensures
            choices@ == Self::all_choices(),
    {
        &[DriverChoice::Auto, DriverChoice::Portio, DriverChoice::CrosEc, DriverChoice::Windows]
    }
}

impl Transport {
    /// The transport's name.
    pub open spec fn name_text(self) -> Seq<char> {
        match self {
            Transport::Portio => "Portio"@,
            Transport::CrosEc => "CrosEc"@,
            Transport::Windows => "Windows"@,
        }
    }

    /// The transport's name.
    pub fn name(self) -> (text: &'static str)
        ensures
            text@ == self.name_text(),
    {
        match self {
            Transport::Portio => "Portio",
            Transport::CrosEc => "CrosEc",
            Transport::Windows => "Windows",
        }
    }
}

/// Why no handle on the embedded controller could be had.
#[derive(Clone, Copy, Debug, PartialEq, Eq, Structural)]
pub enum SelectionError {
    /// The transport that was asked for does not exist on this platform.
    Unsupported { requested: Transport },
    /// No transport was asked for, and the platform has none.
    NoneAvailable,
}

impl SelectionError {
    /// The error owed to a preference that found no handle.
    pub open spec fn of(preference: Option<Transport>) -> SelectionError {
        match preference {
            Some(requested) => SelectionError::Unsupported { requested },
            None => SelectionError::NoneAvailable,
        }
    }

    /// The error's message.
    pub open spec fn text(self) -> Seq<char> {
        match self {
            SelectionError::Unsupported { requested } => "driver "@ + requested.name_text()
                + " is not available on this platform"@,
            SelectionError::NoneAvailable => "no EC driver is available on this platform"@,
        }
    }

    /// The error's message.
    pub fn message(&self) -> (text: String)
        ensures
            text@ == self.text(),
    {
        match self {
            SelectionError::Unsupported { requested } => {
                let mut text = String::from_str("driver ");
                text.append(requested.name());
                text.append(" is not available on this platform");
                text
            },
            SelectionError::NoneAvailable => String::from_str(
                "no EC driver is available on this platform",
            ),
        }
    }
}

/// framework_lib's `CrosEc`, the handle through which commands reach the
/// embedded controller. Nothing is known of what it holds.
#[verifier::external_type_specification]
#[verifier::external_body]
pub struct ExCrosEc(CrosEc);

/// A handle on the embedded controller, bound to one transport, together
/// with the transport that was asked for by name when it was resolved.
pub struct EcHandle {
    pub(crate) ec: CrosEc,
    pub(crate) requested: Option<Transport>,
}

impl EcHandle {
    /// The transport that the handle was resolved for by name, which is
    /// the one it is bound to; `None` where the choice was the platform's.
    pub closed spec fn requested_transport(&self) -> Option<Transport> {
        self.requested
    }

    /// The controller library's own handle, which commands are sent
    /// through.
    pub closed spec fn controller_of(&self) -> CrosEc {
        self.ec
    }

    /// The transport that the handle was resolved for by name, if it was
    /// resolved for one.
    pub fn requested(&self) -> (transport: Option<Transport>)
        ensures
            transport == self.requested_transport(),
    {
        self.requested
    }

    /// The controller library's own handle, which commands are sent
    /// through.
    pub fn controller(&self) -> (ec: &CrosEc)
        ensures
            *ec == self.controller_of(),
    {
        &self.ec
    }
}

/// `CrosEc::with` of framework_lib: a handle bound to the given transport,
/// or `None` where the platform does not offer that transport. The call
/// looks at what the platform offers and touches no device.
#[verifier::external_body]
fn ec_with(transport: Transport) -> Option<CrosEc> {
    CrosEc::with(
        match transport {
            Transport::Portio => CrosEcDriverType::Portio,
            Transport::CrosEc => CrosEcDriverType::CrosEc,
            Transport::Windows => CrosEcDriverType::Windows,
        },
    )
}

/// What a preference comes to, given the handle that was found for it, if
/// one was: the handle, or the error owed to the preference.
pub fn selection(preference: Option<Transport>, found: Option<EcHandle>) -> (result: Result<
    EcHandle,
    SelectionError,
>)
    ensures
        match found {
            Some(handle) => result == Ok::<EcHandle, SelectionError>(handle),
            None => result == Err::<EcHandle, SelectionError>(SelectionError::of(preference)),
        },
{
    match found {
        Some(handle) => Ok(handle),
        None => match preference {
            Some(requested) => Err(SelectionError::Unsupported { requested }),
            None => Err(SelectionError::NoneAvailable),
        },
    }
}

/// Whether `result` is what resolving `preference` can come to, where
/// `probed` is what the platform's own probing found.
///
/// Without a preference the probing decides: its handle is the result,
/// and `NoneAvailable` says that it found none. With a named transport the
/// result is a handle for that transport or `Unsupported` with its name;
/// which of the two is for the platform to say, and `probed` is not
/// looked at.
pub open spec fn is_resolution(
    preference: Option<Transport>,
    probed: Option<CrosEc>,
    result: Result<EcHandle, SelectionError>,
) -> bool {
    match preference {
        Some(requested) => match result {
            Ok(handle) => handle.requested_transport() == preference,
            Err(e) => e == SelectionError::Unsupported { requested },
        },
        None => match probed {
            Some(ec) => result matches Ok(handle) && handle.requested_transport() is None
                && handle.controller_of() == ec,
            None => result == Err::<EcHandle, SelectionError>(SelectionError::NoneAvailable),
        },
    }
}

/// Resolves a preference to a handle.
///
/// A named transport is taken if the platform offers it, and refused as
/// `Unsupported` if not. Without a preference the handle is the one that
/// the platform's own probing found, handed in as `probed`, and
/// `NoneAvailable` says that it found none. No device is touched.
pub fn resolve(preference: Option<Transport>, probed: Option<CrosEc>) -> (result: Result<
    EcHandle,
    SelectionError,
>)
    ensures
        is_resolution(preference, probed, result),
{
    let found = match preference {
        Some(requested) => ec_with(requested),
        None => probed,
    };
    match found {
        Some(ec) => selection(preference, Some(EcHandle { ec, requested: preference })),
        None => selection(preference, None),
    }
}

} // verus!
