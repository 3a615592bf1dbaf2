use fwd_rgb::palette::{preset_palette, Preset, COLOR_COUNT};
use fwd_rgb::random::RandomSource;
use fwd_rgb::session::{CommitRequest, Event, Session, StatusKind, StatusMessage};
use fwd_rgb::{ApplyError, Color, CommandError, DriverChoice, SelectionError, Transport};

fn rgb(r: u8, g: u8, b: u8) -> Color {
    Color { r, g, b }
}

fn spectrum() -> Vec<Color> {
    preset_palette(Preset::Spectrum, COLOR_COUNT)
}

fn status_of(session: &Session) -> (StatusKind, String) {
    let message: &StatusMessage = session.status().expect("a session always shows a status");
    (message.kind, message.text.clone())
}

fn device_error() -> ApplyError {
    ApplyError::Command(CommandError::Device { detail: "Not a Framework Laptop".to_string() })
}

#[test]
fn new_session_holds_the_spectrum_and_nothing_to_send() {
    let session: Session = Session::new();
    assert_eq!(session.start_key(), 0);
    assert_eq!(session.current_colors(), spectrum());
    assert_eq!(session.current_colors().len(), 8);
    assert_eq!(session.driver(), DriverChoice::Auto);
    assert!(!session.auto_apply());
    assert!(!session.is_dirty());
    assert!(session.lights_enabled());
    assert_eq!(
        status_of(&session),
        (
            StatusKind::Info,
            "Adjust the colors and press Apply to update the fan LEDs.".to_string()
        )
    );
}

#[test]
fn set_color_leaves_an_edit_pending_and_switches_the_lights_on() {
    let mut session: Session = Session::new();
    session.switch_lights();
    assert!(!session.lights_enabled());
    session.set_color(3, rgb(1, 2, 3));
    assert_eq!(session.color(3), rgb(1, 2, 3));
    assert!(session.is_dirty());
    assert!(session.lights_enabled());
    let mut expected: Vec<Color> = spectrum();
    expected[3] = rgb(1, 2, 3);
    assert_eq!(session.current_colors(), expected);
}

#[test]
fn setters_change_one_field() {
    let mut session: Session = Session::new();
    session.set_start_key(200);
    session.set_driver(DriverChoice::CrosEc);
    session.set_auto_apply(true);
    assert_eq!(session.start_key(), 200);
    assert_eq!(session.driver(), DriverChoice::CrosEc);
    assert!(session.auto_apply());
    assert!(!session.is_dirty());
    assert!(session.lights_enabled());
    assert_eq!(session.current_colors(), spectrum());
    session.set_status(StatusKind::Success, "done".to_string());
    assert_eq!(status_of(&session), (StatusKind::Success, "done".to_string()));
}

#[test]
fn presets_load_their_palette() {
    let mut session: Session = Session::new();
    session.apply_preset(Preset::Matrix);
    assert_eq!(session.current_colors(), preset_palette(Preset::Matrix, 8));
    assert!(session.is_dirty());
    session.apply_ember();
    assert_eq!(session.current_colors(), vec![rgb(0xF2, 0x66, 0x2B); 8]);
    session.apply_preset(Preset::Spectrum);
    assert_eq!(session.current_colors(), spectrum());
    assert!(session.is_dirty());
    session.apply_palette(&[0x0000FF, 0x00FF00]);
    assert_eq!(
        session.current_colors(),
        vec![
            rgb(0, 0, 255),
            rgb(0, 255, 0),
            rgb(0, 0, 255),
            rgb(0, 255, 0),
            rgb(0, 0, 255),
            rgb(0, 255, 0),
            rgb(0, 0, 255),
            rgb(0, 255, 0),
        ]
    );
}

#[test]
fn twilight_runs_from_the_first_colour_to_the_last() {
    let mut session: Session = Session::new();
    session.set_color(0, rgb(0, 0, 0));
    session.set_color(7, rgb(255, 255, 255));
    session.apply_twilight();
    let greys: [u8; 8] = [0, 36, 73, 109, 146, 182, 219, 255];
    let expected: Vec<Color> = greys.iter().map(|v| rgb(*v, *v, *v)).collect();
    assert_eq!(session.current_colors(), expected);
    assert!(session.is_dirty());
    assert!(session.lights_enabled());
}

#[test]
fn twilight_of_the_spectrum() {
    let mut session: Session = Session::new();
    session.apply_twilight();
    let colors: Vec<Color> = session.current_colors();
    assert_eq!(colors[0], rgb(255, 0, 0));
    assert_eq!(colors[7], rgb(255, 255, 255));
    assert_eq!(colors[1], rgb(255, 36, 36));
    for i in 1..8usize {
        assert!(colors[i - 1].g <= colors[i].g);
        assert!(colors[i - 1].b <= colors[i].b);
        assert_eq!(colors[i].r, 255);
    }
}

#[test]
fn entropy_is_fixed_by_the_seed() {
    let mut first: Session = Session::new();
    let mut second: Session = Session::new();
    first.apply_entropy(&mut RandomSource::seeded(5));
    second.apply_entropy(&mut RandomSource::seeded(5));
    assert_eq!(first.current_colors(), second.current_colors());
    assert_eq!(first.current_colors().len(), 8);
    assert!(first.is_dirty());
    assert!(first.lights_enabled());
    assert_ne!(first.current_colors(), spectrum());
}

#[test]
fn reset_spectrum_goes_back_to_the_first_palette_without_anything_pending() {
    let mut session: Session = Session::new();
    session.set_start_key(9);
    session.set_color(2, rgb(9, 9, 9));
    session.switch_lights();
    assert!(session.is_dirty());
    assert!(!session.lights_enabled());
    session.reset_spectrum();
    assert_eq!(session.current_colors(), spectrum());
    assert!(!session.is_dirty());
    assert!(session.lights_enabled());
    assert_eq!(session.start_key(), 9);
}

#[test]
fn commit_request_sends_the_palette_while_the_lights_are_on() {
    let mut session: Session = Session::new();
    session.set_start_key(2);
    session.set_driver(DriverChoice::Portio);
    session.set_color(1, rgb(7, 8, 9));
    let request: CommitRequest = session.commit_request();
    assert_eq!(request.start_key, 2);
    assert_eq!(request.colors, session.current_colors());
    assert_eq!(request.driver, Some(Transport::Portio));
}

#[test]
fn commit_request_sends_black_zones_while_the_lights_are_off() {
    let mut session: Session = Session::new();
    session.switch_lights();
    let request: CommitRequest = session.commit_request();
    assert_eq!(request.colors, vec![rgb(0, 0, 0); 8]);
    assert_eq!(request.driver, None);
    session.switch_lights();
    session.apply_preset(Preset::NeonCity);
    session.switch_lights();
    assert_eq!(session.commit_request().colors, vec![rgb(0, 0, 0); 8]);
    assert_eq!(session.current_colors(), preset_palette(Preset::NeonCity, 8));
}

#[test]
fn record_commit_of_a_success_leaves_nothing_pending() {
    let mut session: Session = Session::new();
    session.set_start_key(12);
    session.set_color(0, rgb(1, 1, 1));
    session.record_commit(Ok(()));
    assert!(!session.is_dirty());
    assert_eq!(
        status_of(&session),
        (StatusKind::Success, "Updated 8 colors starting at 12".to_string())
    );
    assert_eq!(session.color(0), rgb(1, 1, 1));
}

#[test]
fn record_commit_of_a_switch_off_says_so() {
    let mut session: Session = Session::new();
    session.set_color(0, rgb(1, 1, 1));
    session.switch_lights();
    session.record_commit(Ok(()));
    assert!(!session.is_dirty());
    assert!(!session.lights_enabled());
    assert_eq!(status_of(&session), (StatusKind::Success, "Fan lighting disabled".to_string()));
}

#[test]
fn record_commit_of_a_failure_keeps_what_was_pending() {
    let mut session: Session = Session::new();
    session.set_color(0, rgb(1, 1, 1));
    session.record_commit(Err(device_error()));
    assert!(session.is_dirty());
    assert_eq!(
        status_of(&session),
        (StatusKind::Error, "ec device error: Not a Framework Laptop".to_string())
    );
    let mut clean: Session = Session::new();
    clean.record_commit(Err(ApplyError::Selection(SelectionError::Unsupported {
        requested: Transport::Windows,
    })));
    assert!(!clean.is_dirty());
    assert_eq!(
        status_of(&clean),
        (StatusKind::Error, "driver Windows is not available on this platform".to_string())
    );
}

fn expect_request(request: Option<CommitRequest>, session: &Session) -> CommitRequest {
    let request: CommitRequest = request.expect("the step ends in a commit");
    assert_eq!(request.start_key, session.start_key());
    assert_eq!(request.driver, session.driver().to_option());
    if session.lights_enabled() {
        assert_eq!(request.colors, session.current_colors());
    } else {
        assert_eq!(request.colors, vec![rgb(0, 0, 0); 8]);
    }
    request
}

#[test]
fn handle_changes_settings_without_sending() {
    let mut session: Session = Session::new();
    let mut source: RandomSource = RandomSource::seeded(1);
    assert!(session.handle(Event::SetStartKey(4), &mut source).is_none());
    assert!(session.handle(Event::SetDriver(DriverChoice::Windows), &mut source).is_none());
    assert_eq!(session.start_key(), 4);
    assert_eq!(session.driver(), DriverChoice::Windows);
    assert!(!session.is_dirty());
    assert!(session.handle(Event::SetAutoApply(true), &mut source).is_none());
    assert!(session.auto_apply());
    assert!(session.handle(Event::SetAutoApply(false), &mut source).is_none());
    assert!(!session.auto_apply());
    assert_eq!(status_of(&session).0, StatusKind::Info);
}

#[test]
fn handle_edits_and_loads_without_sending_unless_asked_to() {
    let mut session: Session = Session::new();
    let mut source: RandomSource = RandomSource::seeded(1);
    assert!(session.handle(Event::Edit { zone: 5, color: rgb(5, 5, 5) }, &mut source).is_none());
    assert_eq!(session.color(5), rgb(5, 5, 5));
    assert!(session.is_dirty());
    assert!(session.handle(Event::LoadPreset(Preset::Void), &mut source).is_none());
    assert_eq!(session.current_colors(), preset_palette(Preset::Void, 8));
    assert!(session.handle(Event::Twilight, &mut source).is_none());
    assert_eq!(session.color(0), rgb(5, 5, 5));
    assert_eq!(session.color(7), rgb(8, 8, 8));
    assert!(session.handle(Event::Entropy, &mut source).is_none());
    assert_eq!(session.current_colors().len(), 8);
    assert!(session.is_dirty());
    assert_eq!(
        status_of(&session),
        (
            StatusKind::Info,
            "Adjust the colors and press Apply to update the fan LEDs.".to_string()
        )
    );
    assert!(session.handle(Event::Reset, &mut source).is_none());
    assert_eq!(session.current_colors(), spectrum());
    assert!(!session.is_dirty());
    assert!(session.lights_enabled());
}

#[test]
fn handle_sends_edits_at_once_where_asked_to() {
    let mut session: Session = Session::new();
    let mut source: RandomSource = RandomSource::seeded(1);
    session.set_auto_apply(true);
    session.set_start_key(3);
    let request: Option<CommitRequest> =
        session.handle(Event::Edit { zone: 1, color: rgb(9, 8, 7) }, &mut source);
    let request: CommitRequest = expect_request(request, &session);
    assert_eq!(request.colors[1], rgb(9, 8, 7));
    assert_eq!(request.start_key, 3);
    let request: Option<CommitRequest> = session.handle(Event::LoadPreset(Preset::Abyss), &mut source);
    assert_eq!(expect_request(request, &session).colors, preset_palette(Preset::Abyss, 8));
    let request: Option<CommitRequest> = session.handle(Event::Twilight, &mut source);
    expect_request(request, &session);
    let request: Option<CommitRequest> = session.handle(Event::Entropy, &mut source);
    expect_request(request, &session);
    assert!(session.handle(Event::Reset, &mut source).is_none());
    assert!(session.handle(Event::SetStartKey(0), &mut source).is_none());
    assert!(session.is_dirty() == false);
}

#[test]
fn handle_of_an_edit_switches_the_lights_on_before_it_sends() {
    let mut session: Session = Session::new();
    let mut source: RandomSource = RandomSource::seeded(1);
    session.set_auto_apply(true);
    session.switch_lights();
    let request: Option<CommitRequest> =
        session.handle(Event::Edit { zone: 0, color: rgb(1, 1, 1) }, &mut source);
    assert!(session.lights_enabled());
    assert_eq!(expect_request(request, &session).colors[0], rgb(1, 1, 1));
}

#[test]
fn handle_of_apply_always_sends_and_changes_nothing() {
    let mut session: Session = Session::new();
    let mut source: RandomSource = RandomSource::seeded(1);
    session.set_color(0, rgb(1, 2, 3));
    let before: Vec<Color> = session.current_colors();
    let request: Option<CommitRequest> = session.handle(Event::Apply, &mut source);
    assert_eq!(expect_request(request, &session).colors, before);
    assert_eq!(session.current_colors(), before);
    assert!(session.is_dirty());
    assert_eq!(status_of(&session).0, StatusKind::Info);
}

#[test]
fn handle_of_a_toggle_always_sends() {
    let mut session: Session = Session::new();
    let mut source: RandomSource = RandomSource::seeded(1);
    session.set_color(0, rgb(1, 2, 3));
    let palette: Vec<Color> = session.current_colors();
    let request: Option<CommitRequest> = session.handle(Event::ToggleLights, &mut source);
    assert!(!session.lights_enabled());
    assert_eq!(expect_request(request, &session).colors, vec![rgb(0, 0, 0); 8]);
    assert_eq!(session.current_colors(), palette);
    let request: Option<CommitRequest> = session.handle(Event::ToggleLights, &mut source);
    assert!(session.lights_enabled());
    assert_eq!(expect_request(request, &session).colors, palette);
}

#[test]
fn a_commit_that_went_through_leaves_nothing_pending() {
    let mut session: Session = Session::new();
    let mut source: RandomSource = RandomSource::seeded(1);
    session.set_color(0, rgb(1, 2, 3));
    let request: Option<CommitRequest> = session.handle(Event::Apply, &mut source);
    expect_request(request, &session);
    session.record_commit(Ok(()));
    assert!(!session.is_dirty());
    assert_eq!(
        status_of(&session),
        (StatusKind::Success, "Updated 8 colors starting at 0".to_string())
    );
}

#[test]
fn a_commit_that_failed_keeps_the_edits_pending() {
    let mut session: Session = Session::new();
    let mut source: RandomSource = RandomSource::seeded(1);
    session.set_driver(DriverChoice::CrosEc);
    session.set_color(0, rgb(1, 2, 3));
    let before: Vec<Color> = session.current_colors();
    let request: Option<CommitRequest> = session.handle(Event::Apply, &mut source);
    assert_eq!(expect_request(request, &session).driver, Some(Transport::CrosEc));
    let error: SelectionError = SelectionError::Unsupported { requested: Transport::CrosEc };
    session.record_commit(Err(ApplyError::Selection(error)));
    assert!(session.is_dirty());
    assert_eq!(session.current_colors(), before);
    assert_eq!(status_of(&session), (StatusKind::Error, error.message()));
}

#[test]
fn toggle_lights_switches_and_gives_the_commit() {
    let mut session: Session = Session::new();
    session.set_color(0, rgb(1, 2, 3));
    let before: Vec<Color> = session.current_colors();
    let request: CommitRequest = session.toggle_lights();
    assert!(!session.lights_enabled());
    assert_eq!(session.current_colors(), before);
    assert_eq!(request.colors, vec![rgb(0, 0, 0); 8]);
    session.record_commit(Ok(()));
    assert!(!session.is_dirty());
    assert_eq!(status_of(&session), (StatusKind::Success, "Fan lighting disabled".to_string()));
}

#[test]
fn finish_preset_sends_only_when_asked_to() {
    let mut session: Session = Session::new();
    session.apply_preset(Preset::Azure);
    assert!(session.finish_preset().is_none());
    session.set_auto_apply(true);
    let request: CommitRequest = expect_request(session.finish_preset(), &session);
    assert_eq!(request.colors, preset_palette(Preset::Azure, 8));
    session.switch_lights();
    assert!(session.finish_preset().is_none());
    assert!(session.is_dirty());
    assert_eq!(status_of(&session).0, StatusKind::Info);
}
