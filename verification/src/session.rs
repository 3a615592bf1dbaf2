//! The interactive session: a palette under edit, and when it is sent.
//!
//! The session decides and the caller sends: a step that commits gives the
//! request to send, and `record_commit` takes what came of it.

use crate::color::{channels_of, Color};
use crate::command::ApplyError;
use crate::driver::{DriverChoice, Transport};
use crate::palette::{
    blackout, cycle, cycle_of, fill_of, gradient, gradient_of, preset_palette, Preset, COLOR_COUNT,
    PRESET_EMBER, PRESET_SPECTRUM,
};
use crate::random::{random_palette, RandomSource};
use crate::text::{decimal_text, push_decimal};
use vstd::prelude::*;
use vstd::string::StringExecFns;

verus! {

/// How a status line is to be read.
#[derive(Clone, Copy, Debug, PartialEq, Eq, Structural)]
pub enum StatusKind {
    Info,
    Success,
    Error,
}

/// The outcome that the session shows.
#[derive(Debug, Clone, PartialEq, Eq)]
pub struct StatusMessage {
    pub kind: StatusKind,
    pub text: String,
}

/// A session as a value: what its fields hold.
pub struct SessionState {
    /// The zone that the palette's first colour goes to.
    pub start_key: u8,
    /// The palette, one colour per zone.
    pub colors: Seq<Color>,
    /// The last outcome, if there is one: its kind and its text.
    pub status: Option<(StatusKind, Seq<char>)>,
    /// The transport to use.
    pub driver: DriverChoice,
    /// Whether an edit is sent at once.
    pub auto_apply: bool,
    /// Whether the palette holds edits that were not sent.
    pub dirty: bool,
    /// Whether the lighting is on.
    pub lights_enabled: bool,
}

/// What a commit asks of the embedded controller.
pub struct CommitRequest {
    pub start_key: u8,
    pub colors: Vec<Color>,
    pub driver: Option<Transport>,
}

/// What the session shows before anything was sent.
pub open spec fn welcome_text() -> Seq<char> {
    "Adjust the colors and press Apply to update the fan LEDs."@
}

/// What the session shows after the lighting was switched off.
pub open spec fn disabled_text() -> Seq<char> {
    "Fan lighting disabled"@
}

/// What the session shows after `count` colours were written from zone
/// `start_key` on.
pub open spec fn updated_text(count: nat, start_key: u8) -> Seq<char> {
    "Updated "@ + decimal_text(count) + " colors starting at "@ + decimal_text(start_key as nat)
}

impl SessionState {
    /// Whether the palette has one colour for each of the session's zones.
    pub open spec fn has_all_zones(self) -> bool {
        self.colors.len() == COLOR_COUNT
    }

    /// The state of a new session: the spectrum palette, lighting on,
    /// nothing to send.
    pub open spec fn initial() -> SessionState {
        SessionState {
            start_key: 0,
            colors: cycle_of(PRESET_SPECTRUM@, COLOR_COUNT as nat),
            status: Some((StatusKind::Info, welcome_text())),
            driver: DriverChoice::Auto,
            auto_apply: false,
            dirty: false,
            lights_enabled: true,
        }
    }

    /// After the colour of one zone was set: the edit is pending, and the
    /// lighting is on.
    pub open spec fn edited(self, zone: int, color: Color) -> SessionState {
        SessionState {
            colors: self.colors.update(zone, color),
            dirty: true,
            lights_enabled: true,
            ..self
        }
    }

    /// After a whole palette was loaded: the change is pending, and the
    /// lighting is on.
    pub open spec fn loaded(self, palette: Seq<Color>) -> SessionState {
        SessionState { colors: palette, dirty: true, lights_enabled: true, ..self }
    }

    /// After the lighting was switched: on if it was off, off if it was on.
    pub open spec fn toggled(self) -> SessionState {
        SessionState { lights_enabled: !self.lights_enabled, ..self }
    }

    /// After a reset: the spectrum palette over the same zones, lighting
    /// on, nothing to send.
    pub open spec fn reset(self) -> SessionState {
        SessionState {
            colors: cycle_of(PRESET_SPECTRUM@, self.colors.len()),
            dirty: false,
            lights_enabled: true,
            ..self
        }
    }

    /// The colours that a commit sends: the palette while the lighting is
    /// on, and as many black zones as the palette has while it is off.
    pub open spec fn payload(self) -> Seq<Color> {
        if self.lights_enabled {
            self.colors
        } else {
            fill_of(Color::black(), self.colors.len())
        }
    }

    /// What is shown after a commit that went through: how many colours
    /// were written and from where, or that the lighting is off.
    pub open spec fn success_status(self) -> (StatusKind, Seq<char>) {
        if self.lights_enabled {
            (StatusKind::Success, updated_text(self.colors.len(), self.start_key))
        } else {
            (StatusKind::Success, disabled_text())
        }
    }

    /// After a commit with the given outcome. One that went through leaves
    /// nothing pending. One that failed shows the error and leaves what
    /// was pending as it was.
    pub open spec fn committed(self, outcome: Result<(), ApplyError>) -> SessionState {
        match outcome {
            Ok(()) => SessionState { dirty: false, status: Some(self.success_status()), ..self },
            Err(e) => SessionState { status: Some((StatusKind::Error, e.text())), ..self },
        }
    }
}

/// While the lighting is off, a commit sends black zones only, one for each
/// zone of the palette, whatever colours the palette holds: two palettes of
/// one length are switched off by the same zones.
pub proof fn lemma_disabled_payload(state: SessionState, other: SessionState)
    requires
        !state.lights_enabled,
        !other.lights_enabled,
        state.colors.len() == other.colors.len(),
    ensures
        state.payload().len() == state.colors.len(),
        forall|i: int| 0 <= i < state.payload().len() ==> state.payload()[i] == Color::black(),
        state.payload() == other.payload(),
{
}

/// A commit changes neither the palette nor whether the lighting is on,
/// and a failed one leaves pending edits pending.
pub proof fn lemma_commit_keeps_palette(pre: SessionState, outcome: Result<(), ApplyError>)
    ensures
        pre.committed(outcome).colors == pre.colors,
        pre.committed(outcome).lights_enabled == pre.lights_enabled,
        pre.committed(outcome).payload() == pre.payload(),
        outcome is Err ==> pre.committed(outcome).dirty == pre.dirty,
        outcome is Ok ==> !pre.committed(outcome).dirty,
{
}

/// Whether `request` asks for what a commit in `state` sends: the state's
/// payload, from its first zone, through its transport.
pub open spec fn is_request_of(state: SessionState, request: CommitRequest) -> bool {
    &&& request.start_key == state.start_key
    &&& request.colors@ == state.payload()
    &&& request.driver == state.driver.transport()
}

/// The session: a palette of `COLOR_COUNT` zones, where it starts, how it
/// is sent, and what came of the last commit.
pub struct Session {
    start_key: u8,
    colors: Vec<Color>,
    status: Option<StatusMessage>,
    driver: DriverChoice,
    auto_apply: bool,
    dirty: bool,
    lights_enabled: bool,
}

impl View for Session {
    type V = SessionState;

    closed spec fn view(&self) -> SessionState {
        SessionState {
            start_key: self.start_key,
            colors: self.colors@,
            status: match self.status {
                Some(message) => Some((message.kind, message.text@)),
                None => None,
            },
            driver: self.driver,
            auto_apply: self.auto_apply,
            dirty: self.dirty,
            lights_enabled: self.lights_enabled,
        }
    }
}

impl Session {
    /// The palette has one colour for each zone.
    #[verifier::type_invariant]
    spec fn is_complete(&self) -> bool {
        self.colors@.len() == COLOR_COUNT
    }

    /// A new session: the spectrum palette, lighting on, nothing to send.
    pub fn new() -> (session: Session)
        ensures
            session@ == SessionState::initial(),
            session@.has_all_zones(),
    {
        Session {
            start_key: 0,
            colors: cycle(&PRESET_SPECTRUM, COLOR_COUNT),
            status: Some(
                StatusMessage {
                    kind: StatusKind::Info,
                    text: String::from_str(
                        "Adjust the colors and press Apply to update the fan LEDs.",
                    ),
                },
            ),
            driver: DriverChoice::Auto,
            auto_apply: false,
            dirty: false,
            lights_enabled: true,
        }
    }
}

/// What an operator can do to a session.
#[derive(Clone, Copy, Debug, PartialEq, Eq, Structural)]
pub enum Event {
    /// Move the palette's first colour to another zone.
    SetStartKey(u8),
    /// Choose another transport.
    SetDriver(DriverChoice),
    /// Have edits sent at once, or not.
    SetAutoApply(bool),
    /// Give one zone another colour.
    Edit { zone: usize, color: Color },
    /// Load a built-in palette.
    LoadPreset(Preset),
    /// Load the gradient between the palette's first and last colour.
    Twilight,
    /// Load a random palette.
    Entropy,
    /// Switch the lighting on or off.
    ToggleLights,
    /// Send the palette.
    Apply,
    /// Go back to the first palette.
    Reset,
}

/// Whether `post` is what `event` makes of `pre`, before anything is
/// sent. A random palette is any palette of the same length.
pub open spec fn is_step(pre: SessionState, event: Event, post: SessionState) -> bool {
    match event {
        Event::SetStartKey(start_key) => post == SessionState { start_key, ..pre },
        Event::SetDriver(driver) => post == SessionState { driver, ..pre },
        Event::SetAutoApply(auto_apply) => post == SessionState { auto_apply, ..pre },
        Event::Edit { zone, color } => post == pre.edited(zone as int, color),
        Event::LoadPreset(preset) => post == pre.loaded(
            cycle_of(preset.table(), pre.colors.len()),
        ),
        Event::Twilight => post == pre.loaded(
            gradient_of(pre.colors.first(), pre.colors.last(), pre.colors.len()),
        ),
        Event::Entropy => post.colors.len() == pre.colors.len() && post == pre.loaded(post.colors),
        Event::ToggleLights => post == pre.toggled(),
        Event::Apply => post == pre,
        Event::Reset => post == pre.reset(),
    }
}

/// Whether `event` ends in a commit: switching the lighting and applying
/// always do, an edit and a loaded palette do where edits are sent at once,
/// and nothing else does.
pub open spec fn commits(pre: SessionState, event: Event) -> bool {
    match event {
        Event::ToggleLights => true,
        Event::Apply => true,
        Event::Edit { .. } => pre.auto_apply,
        Event::LoadPreset(_) => pre.auto_apply,
        Event::Twilight => pre.auto_apply,
        Event::Entropy => pre.auto_apply,
        _ => false,
    }
}

impl Session {
    /// The zone that the palette's first colour goes to.
    pub fn start_key(&self) -> (start_key: u8)
        ensures
            start_key == self@.start_key,
    {
        self.start_key
    }

    /// The transport to use.
    pub fn driver(&self) -> (driver: DriverChoice)
        ensures
            driver == self@.driver,
    {
        self.driver
    }

    /// Whether an edit is sent at once.
    pub fn auto_apply(&self) -> (auto_apply: bool)
        ensures
            auto_apply == self@.auto_apply,
    {
        self.auto_apply
    }

    /// Whether the palette holds edits that were not sent.
    pub fn is_dirty(&self) -> (dirty: bool)
        ensures
            dirty == self@.dirty,
    {
        self.dirty
    }

    /// Whether the lighting is on.
    pub fn lights_enabled(&self) -> (enabled: bool)
        ensures
            enabled == self@.lights_enabled,
    {
        self.lights_enabled
    }

    /// The last outcome, if there is one.
    pub fn status(&self) -> (status: Option<&StatusMessage>)
        ensures
            match status {
                Some(message) => self@.status == Some((message.kind, message.text@)),
                None => self@.status is None,
            },
    {
        self.status.as_ref()
    }

    /// The colour of one zone.
    pub fn color(&self, zone: usize) -> (color: Color)
        requires
            zone < COLOR_COUNT,
        ensures
            self@.has_all_zones(),
            color == self@.colors[zone as int],
    {
        proof {
            use_type_invariant(self);
        }
        self.colors[zone]
    }

    /// The palette, zone by zone.
    pub fn current_colors(&self) -> (colors: Vec<Color>)
        ensures
            self@.has_all_zones(),
            colors@ == self@.colors,
    {
        proof {
            use_type_invariant(self);
        }
        copy_of(&self.colors)
    }

    /// Moves the palette's first colour to another zone.
    pub fn set_start_key(&mut self, start_key: u8)
        ensures
            final(self)@.has_all_zones(),
            final(self)@ == (SessionState { start_key, ..old(self)@ }),
    {
        proof {
            use_type_invariant(&*self);
        }
        self.start_key = start_key;
    }

    /// Chooses another transport.
    pub fn set_driver(&mut self, driver: DriverChoice)
        ensures
            final(self)@.has_all_zones(),
            final(self)@ == (SessionState { driver, ..old(self)@ }),
    {
        proof {
            use_type_invariant(&*self);
        }
        self.driver = driver;
    }

    /// Has edits sent at once, or not.
    pub fn set_auto_apply(&mut self, auto_apply: bool)
        ensures
            final(self)@.has_all_zones(),
            final(self)@ == (SessionState { auto_apply, ..old(self)@ }),
    {
        proof {
            use_type_invariant(&*self);
        }
        self.auto_apply = auto_apply;
    }

    /// Shows an outcome.
    pub fn set_status(&mut self, kind: StatusKind, text: String)
        ensures
            final(self)@.has_all_zones(),
            final(self)@ == (SessionState { status: Some((kind, text@)), ..old(self)@ }),
    {
        proof {
            use_type_invariant(&*self);
        }
        self.status = Some(StatusMessage { kind, text });
    }

    /// Gives one zone another colour. The edit is pending afterwards, and
    /// the lighting is on.
    pub fn set_color(&mut self, zone: usize, color: Color)
        requires
            zone < COLOR_COUNT,
        ensures
            final(self)@.has_all_zones(),
            final(self)@ == old(self)@.edited(zone as int, color),
    {
        proof {
            use_type_invariant(&*self);
        }
        let mut colors = copy_of(&self.colors);
        colors.set(zone, color);
        self.colors = colors;
        self.dirty = true;
        self.lights_enabled = true;
    }

    /// Loads a palette. The change is pending afterwards, and the lighting
    /// is on.
    pub fn load(&mut self, palette: Vec<Color>)
        requires
            palette@.len() == COLOR_COUNT,
        ensures
            final(self)@.has_all_zones(),
            final(self)@ == old(self)@.loaded(palette@),
    {
        proof {
            use_type_invariant(&*self);
        }
        self.colors = palette;
        self.dirty = true;
        self.lights_enabled = true;
    }
}

/// A copy of a palette.
fn copy_of(colors: &Vec<Color>) -> (copy: Vec<Color>)
    ensures
        copy@ == colors@,
{
    let mut copy: Vec<Color> = Vec::new();
    let mut i: usize = 0;
    while i < colors.len()
        invariant
            i <= colors.len(),
            copy@ == colors@.take(i as int),
        decreases colors.len() - i,
    {
        copy.push(colors[i]);
        assert(copy@ =~= colors@.take(i + 1));
        i += 1;
    }
    assert(copy@ =~= colors@);
    copy
}

impl Session {
    /// Loads the palette that repeats the packed colours of `palette`.
    pub fn apply_palette(&mut self, palette: &[u32])
        requires
            palette@.len() > 0,
        ensures
            final(self)@.has_all_zones(),
            final(self)@ == old(self)@.loaded(cycle_of(palette@, COLOR_COUNT as nat)),
    {
        self.load(cycle(palette, COLOR_COUNT));
    }

    /// Loads a built-in palette.
    pub fn apply_preset(&mut self, preset: Preset)
        ensures
            final(self)@.has_all_zones(),
            final(self)@ == old(self)@.loaded(cycle_of(preset.table(), COLOR_COUNT as nat)),
    {
        self.load(preset_palette(preset, COLOR_COUNT));
    }

    /// Goes back to the first palette, the spectrum, with the lighting on
    /// and nothing pending. Nothing is to be sent.
    pub fn reset_spectrum(&mut self)
        ensures
            final(self)@.has_all_zones(),
            final(self)@ == old(self)@.reset(),
    {
        proof {
            use_type_invariant(&*self);
        }
        self.colors = cycle(&PRESET_SPECTRUM, COLOR_COUNT);
        self.dirty = false;
        self.lights_enabled = true;
    }

    /// Loads the ember palette: every zone the one ember colour.
    pub fn apply_ember(&mut self)
        ensures
            final(self)@.has_all_zones(),
            final(self)@ == old(self)@.loaded(
                fill_of(channels_of(PRESET_EMBER as nat), COLOR_COUNT as nat),
            ),
    {
        self.apply_preset(Preset::Ember);
        assert(cycle_of(Preset::Ember.table(), COLOR_COUNT as nat) =~= fill_of(
            channels_of(PRESET_EMBER as nat),
            COLOR_COUNT as nat,
        ));
    }

    /// Loads the gradient from the palette's first colour to its last.
    pub fn apply_twilight(&mut self)
        ensures
            final(self)@.has_all_zones(),
            final(self)@ == old(self)@.loaded(
                gradient_of(
                    old(self)@.colors.first(),
                    old(self)@.colors.last(),
                    COLOR_COUNT as nat,
                ),
            ),
    {
        proof {
            use_type_invariant(&*self);
        }
        let first = self.colors[0];
        let last = self.colors[COLOR_COUNT - 1];
        self.load(gradient(first, last, COLOR_COUNT));
    }

    /// Loads a palette drawn from `source`.
    pub fn apply_entropy(&mut self, source: &mut RandomSource)
        ensures
            final(self)@.has_all_zones(),
            final(self)@ == old(self)@.loaded(final(self)@.colors),
    {
        self.load(random_palette(source, COLOR_COUNT));
    }

    /// What a commit would send now: the palette while the lighting is on,
    /// and one black zone for each of the palette's while it is off; from
    /// the session's first zone, through the session's transport.
    pub fn commit_request(&self) -> (request: CommitRequest)
        ensures
            self@.has_all_zones(),
            is_request_of(self@, request),
            request.colors@.len() == self@.colors.len(),
    {
        proof {
            use_type_invariant(self);
        }
        let colors = if self.lights_enabled {
            copy_of(&self.colors)
        } else {
            blackout(self.colors.len())
        };
        CommitRequest { start_key: self.start_key, colors, driver: self.driver.to_option() }
    }

    /// Takes note of a commit's outcome. One that went through leaves
    /// nothing pending; one that failed is shown, and what was pending
    /// still is.
    pub fn record_commit(&mut self, outcome: Result<(), ApplyError>)
        ensures
            final(self)@.has_all_zones(),
            final(self)@ == old(self)@.committed(outcome),
    {
        proof {
            use_type_invariant(&*self);
        }
        match outcome {
            Ok(()) => {
                let status = if self.lights_enabled {
                    let mut text = String::from_str("Updated ");
                    push_decimal(&mut text, self.colors.len() as u64);
                    text.append(" colors starting at ");
                    push_decimal(&mut text, self.start_key as u64);
                    assert(text@ =~= updated_text(self.colors@.len(), self.start_key));
                    StatusMessage { kind: StatusKind::Success, text }
                } else {
                    StatusMessage {
                        kind: StatusKind::Success,
                        text: String::from_str("Fan lighting disabled"),
                    }
                };
                self.dirty = false;
                self.status = Some(status);
            },
            Err(e) => {
                self.status = Some(StatusMessage { kind: StatusKind::Error, text: e.message() });
            },
        }
    }

    /// The commit that follows a loaded palette, if there is to be one:
    /// where edits are sent at once and the lighting is on.
    pub fn finish_preset(&self) -> (request: Option<CommitRequest>)
        ensures
            self@.has_all_zones(),
            request is Some <==> self@.auto_apply && self@.lights_enabled,
            request matches Some(r) ==> is_request_of(self@, r),
    {
        if self.auto_apply && self.lights_enabled {
            Some(self.commit_request())
        } else {
            proof {
                use_type_invariant(self);
            }
            None
        }
    }

    /// Switches the lighting on if it was off, and off if it was on.
    /// Nothing is to be sent.
    pub fn switch_lights(&mut self)
        ensures
            final(self)@.has_all_zones(),
            final(self)@ == old(self)@.toggled(),
    {
        proof {
            use_type_invariant(&*self);
        }
        self.lights_enabled = !self.lights_enabled;
    }

    /// Switches the lighting on or off, and gives the commit that always
    /// follows.
    pub fn toggle_lights(&mut self) -> (request: CommitRequest)
        ensures
            final(self)@.has_all_zones(),
            final(self)@ == old(self)@.toggled(),
            is_request_of(final(self)@, request),
    {
        self.switch_lights();
        self.commit_request()
    }

    /// Does what `event` asks for, and gives the commit that follows, if
    /// one does. The caller sends it and hands what came of it to
    /// `record_commit`.
    pub fn handle(&mut self, event: Event, source: &mut RandomSource) -> (request: Option<
        CommitRequest,
    >)
        requires
            event matches Event::Edit { zone, .. } ==> zone < COLOR_COUNT,
        ensures
            final(self)@.has_all_zones(),
            is_step(old(self)@, event, final(self)@),
            request is Some <==> commits(old(self)@, event),
            request matches Some(r) ==> is_request_of(final(self)@, r),
    {
        proof {
            use_type_invariant(&*self);
        }
        match event {
            Event::SetStartKey(start_key) => {
                self.set_start_key(start_key);
                None
            },
            Event::SetDriver(driver) => {
                self.set_driver(driver);
                None
            },
            Event::SetAutoApply(auto_apply) => {
                self.set_auto_apply(auto_apply);
                None
            },
            Event::Edit { zone, color } => {
                self.set_color(zone, color);
                self.finish_preset()
            },
            Event::LoadPreset(preset) => {
                self.apply_preset(preset);
                self.finish_preset()
            },
            Event::Twilight => {
                self.apply_twilight();
                self.finish_preset()
            },
            Event::Entropy => {
                self.apply_entropy(source);
                self.finish_preset()
            },
            Event::ToggleLights => Some(self.toggle_lights()),
            Event::Apply => Some(self.commit_request()),
            Event::Reset => {
                self.reset_spectrum();
                None
            },
        }
    }
}

} // verus!
