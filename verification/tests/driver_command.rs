use framework_lib::chromium_ec::commands::EC_RGBKBD_MAX_KEY_COUNT;
use framework_lib::chromium_ec::{CrosEc, CrosEcDriverType};
use fwd_rgb::command::{
    apply_result, apply_selected, command_error, command_result, is_addressable, EcFailure,
    Transaction, ZONES_PER_TRANSACTION,
};
use fwd_rgb::driver::selection;
use fwd_rgb::palette::blackout;
use fwd_rgb::{
    apply_colors, resolve, submit, ApplyError, Color, CommandError, DriverChoice, EcHandle,
    SelectionError, Transport,
};

const REFUSAL: &str = "zone range runs past the last addressable zone";

/// A handle of the controller's library on any transport that this
/// platform offers. Making one touches no device.
fn any_controller() -> Option<CrosEc> {
    [CrosEcDriverType::Portio, CrosEcDriverType::CrosEc, CrosEcDriverType::Windows]
        .into_iter()
        .find_map(CrosEc::with)
}

fn any_handle() -> Option<EcHandle> {
    resolve(None, any_controller()).ok()
}

fn rgb(r: u8, g: u8, b: u8) -> Color {
    Color { r, g, b }
}

#[test]
fn driver_choice_labels() {
    assert_eq!(DriverChoice::Auto.label(), "Auto (recommended)");
    assert_eq!(DriverChoice::Portio.label(), "Port I/O");
    assert_eq!(DriverChoice::CrosEc.label(), "Linux cros_ec");
    assert_eq!(DriverChoice::Windows.label(), "Windows HID");
}

#[test]
fn driver_choice_all_lists_every_choice_once() {
    let all: &[DriverChoice] = DriverChoice::all();
    assert_eq!(
        all,
        &[DriverChoice::Auto, DriverChoice::Portio, DriverChoice::CrosEc, DriverChoice::Windows]
    );
}

#[test]
fn driver_choice_to_option() {
    assert_eq!(DriverChoice::Auto.to_option(), None);
    assert_eq!(DriverChoice::Portio.to_option(), Some(Transport::Portio));
    assert_eq!(DriverChoice::CrosEc.to_option(), Some(Transport::CrosEc));
    assert_eq!(DriverChoice::Windows.to_option(), Some(Transport::Windows));
}

#[test]
fn transport_names_are_those_of_the_controller_library() {
    assert_eq!(Transport::Portio.name(), format!("{:?}", CrosEcDriverType::Portio));
    assert_eq!(Transport::CrosEc.name(), format!("{:?}", CrosEcDriverType::CrosEc));
    assert_eq!(Transport::Windows.name(), format!("{:?}", CrosEcDriverType::Windows));
}

#[test]
fn selection_without_a_handle_is_the_error_of_the_preference() {
    assert!(matches!(
        selection(Some(Transport::CrosEc), None),
        Err(SelectionError::Unsupported { requested: Transport::CrosEc })
    ));
    assert!(matches!(
        selection(Some(Transport::Windows), None),
        Err(SelectionError::Unsupported { requested: Transport::Windows })
    ));
    assert!(matches!(
        selection(Some(Transport::Portio), None),
        Err(SelectionError::Unsupported { requested: Transport::Portio })
    ));
    assert!(matches!(selection(None, None), Err(SelectionError::NoneAvailable)));
}

#[test]
fn selection_with_a_handle_is_the_handle() {
    if let Some(handle) = any_handle() {
        match selection(None, Some(handle)) {
            Ok(same) => assert_eq!(same.requested(), None),
            Err(e) => panic!("a handle was lost: {:?}", e),
        }
    }
    if let Ok(handle) = resolve(Some(Transport::Portio), None) {
        match selection(Some(Transport::Portio), Some(handle)) {
            Ok(same) => assert_eq!(same.requested(), Some(Transport::Portio)),
            Err(e) => panic!("a handle was lost: {:?}", e),
        }
    }
}

#[test]
fn resolve_of_a_named_transport_is_its_handle_or_its_refusal() {
    for transport in [Transport::Portio, Transport::CrosEc, Transport::Windows] {
        match resolve(Some(transport), None) {
            Ok(handle) => assert_eq!(handle.requested(), Some(transport)),
            Err(e) => assert_eq!(e, SelectionError::Unsupported { requested: transport }),
        }
    }
}

#[test]
fn resolve_of_a_named_transport_does_not_look_at_the_probe() {
    for transport in [Transport::Portio, Transport::CrosEc, Transport::Windows] {
        let alone: bool = resolve(Some(transport), None).is_ok();
        let with_probe: bool = resolve(Some(transport), any_controller()).is_ok();
        assert_eq!(alone, with_probe);
        if let Ok(handle) = resolve(Some(transport), any_controller()) {
            assert_eq!(handle.requested(), Some(transport));
        }
    }
}

#[test]
fn resolve_without_a_preference_takes_what_the_probe_found() {
    assert!(matches!(resolve(None, None), Err(SelectionError::NoneAvailable)));
    if let Some(ec) = any_controller() {
        match resolve(None, Some(ec)) {
            Ok(handle) => assert_eq!(handle.requested(), None),
            Err(e) => panic!("the probe's handle was lost: {:?}", e),
        }
    }
}

#[test]
fn selection_error_messages() {
    assert_eq!(
        SelectionError::Unsupported { requested: Transport::CrosEc }.message(),
        "driver CrosEc is not available on this platform"
    );
    assert_eq!(
        SelectionError::Unsupported { requested: Transport::Windows }.message(),
        "driver Windows is not available on this platform"
    );
    assert_eq!(
        SelectionError::NoneAvailable.message(),
        "no EC driver is available on this platform"
    );
}

#[test]
fn command_error_keeps_a_device_error() {
    let failure: EcFailure = EcFailure::DeviceError { detail: "Not a Framework Laptop".to_string() };
    assert_eq!(
        command_error(failure),
        CommandError::Device { detail: "Not a Framework Laptop".to_string() }
    );
}

#[test]
fn command_error_names_any_other_failure() {
    assert_eq!(
        command_error(EcFailure::Response { status: "InvalidParameter".to_string() }),
        CommandError::Other { detail: "Response(InvalidParameter)".to_string() }
    );
    assert_eq!(
        command_error(EcFailure::UnknownResponseCode { code: 77 }),
        CommandError::Other { detail: "UnknownResponseCode(77)".to_string() }
    );
    assert_eq!(
        command_error(EcFailure::UnknownResponseCode { code: 0 }),
        CommandError::Other { detail: "UnknownResponseCode(0)".to_string() }
    );
    assert_eq!(
        command_error(EcFailure::UnknownResponseCode { code: u32::MAX }),
        CommandError::Other { detail: "UnknownResponseCode(4294967295)".to_string() }
    );
}

#[test]
fn command_result_passes_success_on() {
    assert_eq!(command_result(Ok(())), Ok(()));
    assert_eq!(
        command_result(Err(EcFailure::DeviceError { detail: "x".to_string() })),
        Err(CommandError::Device { detail: "x".to_string() })
    );
    assert_eq!(
        command_result(Err(EcFailure::Response { status: "Busy".to_string() })),
        Err(CommandError::Other { detail: "Response(Busy)".to_string() })
    );
}

#[test]
fn command_error_messages() {
    assert_eq!(
        CommandError::Device { detail: "Not a Framework Laptop".to_string() }.message(),
        "ec device error: Not a Framework Laptop"
    );
    assert_eq!(
        CommandError::Other { detail: "Response(Busy)".to_string() }.message(),
        "ec command failed: Response(Busy)"
    );
    assert_eq!(
        ApplyError::Command(CommandError::Device { detail: "gone".to_string() }).message(),
        "ec device error: gone"
    );
    assert_eq!(
        ApplyError::Selection(SelectionError::NoneAvailable).message(),
        "no EC driver is available on this platform"
    );
}

#[test]
fn zones_per_transaction_is_that_of_the_controller_library() {
    assert_eq!(ZONES_PER_TRANSACTION, EC_RGBKBD_MAX_KEY_COUNT);
    assert_eq!(ZONES_PER_TRANSACTION, 64);
}

#[test]
fn is_addressable_asks_each_transaction_to_start_within_eight_bits() {
    assert!(is_addressable(0, 0));
    assert!(is_addressable(255, 0));
    assert!(is_addressable(0, 1));
    assert!(is_addressable(255, 1));
    assert!(is_addressable(255, 64));
    assert!(!is_addressable(255, 65));
    assert!(is_addressable(191, 65));
    assert!(!is_addressable(192, 65));
    assert!(is_addressable(191, 128));
    assert!(!is_addressable(191, 129));
    assert!(is_addressable(63, 256));
    assert!(!is_addressable(64, 256));
    assert!(!is_addressable(0, 257));
    assert!(!is_addressable(0, usize::MAX));
}

#[test]
fn is_addressable_agrees_with_adding_up_the_transactions() {
    for start in 0..=255u8 {
        for count in 0..600usize {
            let mut fits: bool = true;
            let mut first: usize = 0;
            while first < count {
                if start as usize + first > 255 {
                    fits = false;
                }
                first += ZONES_PER_TRANSACTION;
            }
            assert_eq!(is_addressable(start, count), fits, "{} {}", start, count);
        }
    }
}

#[test]
fn submit_prepares_what_was_asked_for() {
    if let Some(handle) = any_handle() {
        let colors: Vec<Color> = vec![rgb(255, 0, 0), rgb(0, 255, 0), rgb(255, 0, 0)];
        match submit(handle, 2, colors.clone()) {
            Ok(transaction) => {
                assert_eq!(transaction.start_key(), 2);
                assert_eq!(transaction.colors(), &colors);
                assert_eq!(transaction.handle().requested(), None);
            }
            Err(e) => panic!("an addressable range was refused: {:?}", e),
        }
    }
}

#[test]
fn submit_takes_a_range_up_to_the_last_zone() {
    for (start, count) in [(0u8, 0usize), (255, 1), (255, 64), (191, 128), (63, 256), (0, 256)] {
        if let Some(handle) = any_handle() {
            match submit(handle, start, blackout(count)) {
                Ok(transaction) => {
                    assert_eq!(transaction.start_key(), start);
                    assert_eq!(transaction.colors().len(), count);
                }
                Err(e) => panic!("an addressable range was refused: {:?}", e),
            }
        }
    }
}

#[test]
fn submit_refuses_a_range_past_the_last_zone() {
    for (start, count) in [(255u8, 65usize), (192, 65), (0, 257), (64, 256), (200, 100)] {
        if let Some(handle) = any_handle() {
            match submit(handle, start, blackout(count)) {
                Ok(_) => panic!("a range past the last zone is to be sent"),
                Err(e) => assert_eq!(e, CommandError::Other { detail: REFUSAL.to_string() }),
            }
        }
    }
}

#[test]
fn apply_selected_passes_a_failed_selection_on() {
    for e in [
        SelectionError::NoneAvailable,
        SelectionError::Unsupported { requested: Transport::CrosEc },
    ] {
        assert!(matches!(
            apply_selected(Err(e), 0, blackout(8)),
            Err(ApplyError::Selection(same)) if same == e
        ));
        assert!(matches!(
            apply_selected(Err(e), 255, blackout(65)),
            Err(ApplyError::Selection(same)) if same == e
        ));
    }
}

#[test]
fn apply_selected_submits_through_the_handle() {
    if let Some(handle) = any_handle() {
        match apply_selected(Ok(handle), 2, blackout(3)) {
            Ok(transaction) => {
                assert_eq!(transaction.start_key(), 2);
                assert_eq!(transaction.colors(), &blackout(3));
            }
            Err(e) => panic!("an addressable range was refused: {:?}", e),
        }
    }
    if let Some(handle) = any_handle() {
        assert!(matches!(
            apply_selected(Ok(handle), 255, blackout(65)),
            Err(ApplyError::Command(CommandError::Other { detail })) if detail == REFUSAL
        ));
    }
}

#[test]
fn apply_colors_without_a_transport_depends_on_the_probe() {
    assert!(matches!(
        apply_colors(0, blackout(8), None, None),
        Err(ApplyError::Selection(SelectionError::NoneAvailable))
    ));
    assert!(matches!(
        apply_colors(255, blackout(65), None, None),
        Err(ApplyError::Selection(SelectionError::NoneAvailable))
    ));
    if let Some(ec) = any_controller() {
        let colors: Vec<Color> = vec![rgb(1, 2, 3), rgb(4, 5, 6)];
        match apply_colors(7, colors.clone(), None, Some(ec)) {
            Ok(transaction) => {
                assert_eq!(transaction.start_key(), 7);
                assert_eq!(transaction.colors(), &colors);
                assert_eq!(transaction.handle().requested(), None);
            }
            Err(e) => panic!("the probe's handle was not used: {:?}", e),
        }
    }
    if let Some(ec) = any_controller() {
        assert!(matches!(
            apply_colors(200, blackout(100), None, Some(ec)),
            Err(ApplyError::Command(CommandError::Other { detail })) if detail == REFUSAL
        ));
    }
}

#[test]
fn apply_colors_with_a_named_transport_is_sent_through_it_or_refused() {
    for transport in [Transport::Portio, Transport::CrosEc, Transport::Windows] {
        let result: Result<Transaction, ApplyError> =
            apply_colors(2, blackout(3), Some(transport), None);
        match result {
            Ok(transaction) => {
                assert_eq!(transaction.handle().requested(), Some(transport));
                assert_eq!(transaction.start_key(), 2);
                assert_eq!(transaction.colors(), &blackout(3));
            }
            Err(e) => assert_eq!(
                e,
                ApplyError::Selection(SelectionError::Unsupported { requested: transport })
            ),
        }
    }
}

#[test]
fn apply_result_keeps_what_was_reported() {
    assert_eq!(apply_result(Ok(())), Ok(()));
    assert_eq!(
        apply_result(Err(EcFailure::DeviceError { detail: "Not a Framework Laptop".to_string() })),
        Err(ApplyError::Command(CommandError::Device {
            detail: "Not a Framework Laptop".to_string()
        }))
    );
    assert_eq!(
        apply_result(Err(EcFailure::Response { status: "InvalidParameter".to_string() })),
        Err(ApplyError::Command(CommandError::Other {
            detail: "Response(InvalidParameter)".to_string()
        }))
    );
    assert_eq!(
        apply_result(Err(EcFailure::UnknownResponseCode { code: 200 })),
        Err(ApplyError::Command(CommandError::Other {
            detail: "UnknownResponseCode(200)".to_string()
        }))
    );
}
