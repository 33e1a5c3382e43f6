//! The status indicator: cached device state, the colour each pixel shows for
//! it, and the decision of what to send to the strip on each frame.
//!
//! All animation is derived from a frame counter. A state change that should
//! restart a pulse or blink resets the counter, which is how the one-shot
//! "show for N frames then go dark" windows are timed.

use vstd::prelude::*;
use crate::color::{breath_value, Grb, BREATH_FRAMES, BREATH_LEN, breath_table};
use crate::event::{
    BatteryStatus, BatteryStatusEvent, BleState, BleStatus, CentralConnectedEvent,
    ChargingStateEvent, ConnectionStatusChangeEvent, LedIndicatorEvent,
    PeripheralConnectedEvent,
};
use crate::pwm::{frame_words, SEQ_LEN, WRESET};

verus! {

/// Frames in one blink period.
pub const BLINK_PERIOD: u32 = 30;

/// Frames of the "on" portion of a blink period.
pub const BLINK_ON: u32 = 12;

/// Blink cycles before a "link lost" / "searching" blink gives up.
pub const BLINK_MAX_CYCLES: u32 = 10;

/// Frames of the host-connect pulse (central, outer pixel).
pub const CONNECT_SHOW_FRAMES: u32 = 75;

/// Frames of the peer-link-up pulse.
pub const PEER_SHOW_FRAMES: u32 = 90;

/// Frames of the fully-charged green.
pub const FULL_SHOW_FRAMES: u32 = 90;

/// Battery percentage at or under which the low-battery warning shows.
pub const BATTERY_LOW: u8 = 20;

/// Battery percentage at or over which charging counts as full.
pub const BATTERY_FULL: u8 = 95;

/// Which half the indicator runs on. It decides the meaning of the outer
/// pixel and which link-lost signal feeds the peer-loss blink.
#[derive(Clone, Copy, Debug, PartialEq, Eq, Structural)]
pub enum Role {
    Central,
    Peripheral,
}

/// Everything the indicator remembers between frames.
#[derive(Clone, Copy, Debug, PartialEq, Eq)]
pub struct IndicatorState {
    pub role: Role,
    /// Last known battery percentage; `None` until the first reading.
    pub battery: Option<u8>,
    pub charging: bool,
    pub ble_profile: u8,
    pub ble_connected: bool,
    pub ble_advertising: bool,
    pub peer_connected: bool,
    /// Animation clock, in frames since the last restart.
    pub frame: u32,
    /// Whether the LED power rail is on.
    pub rail_on: bool,
    /// The colours last pushed to the strip (inner, outer).
    pub last: Option<(Grb, Grb)>,
}

/// What the hardware has to do to show one frame.
#[derive(Clone, Copy, Debug, PartialEq, Eq)]
pub enum RenderPlan {
    /// The strip already shows these colours: nothing to do.
    Skip,
    /// Clock `words` out to the strip. Before that, when `power_up`, switch
    /// the LED rail on and let it settle; after it, when `power_down`,
    /// switch the rail off.
    Send { power_up: bool, words: [u16; SEQ_LEN], power_down: bool },
}

/// The state of a freshly created indicator: nothing known, nothing shown,
/// rail off.
pub open spec fn initial_state(role: Role) -> IndicatorState {
    IndicatorState {
        role,
        battery: None,
        charging: false,
        ble_profile: 0,
        ble_connected: false,
        ble_advertising: false,
        peer_connected: false,
        frame: 0,
        rail_on: false,
        last: None,
    }
}

/// The rail is on exactly when the last frame pushed had a lit pixel, and off
/// before any frame was pushed.
pub open spec fn rail_consistent(s: IndicatorState) -> bool {
    match s.last {
        Some((inner, outer)) => s.rail_on == (inner.is_lit() || outer.is_lit()),
        None => !s.rail_on,
    }
}

/// Colour of Bluetooth profile `p`: green, red, then blue for every later profile.
pub open spec fn profile_color_of(p: u8) -> Grb {
    if p == 0 {
        Grb::green()
    } else if p == 1 {
        Grb::red()
    } else {
        Grb::blue()
    }
}

/// The "on" window of the slow blink, which stops after `BLINK_MAX_CYCLES` periods.
pub open spec fn blink_on_at(frame: u32) -> bool {
    frame / BLINK_PERIOD < BLINK_MAX_CYCLES && frame % BLINK_PERIOD < BLINK_ON
}

/// The two short flashes of the low-battery double blink, repeating every period.
pub open spec fn double_blink_at(frame: u32) -> bool {
    let phase = frame % BLINK_PERIOD;
    phase < 6 || (12 <= phase && phase < 18)
}

/// A battery reading at or over the full threshold.
pub open spec fn battery_full(battery: Option<u8>) -> bool {
    match battery {
        Some(level) => level >= BATTERY_FULL,
        None => false,
    }
}

/// A battery reading at or under the low threshold.
pub open spec fn battery_low(battery: Option<u8>) -> bool {
    match battery {
        Some(level) => level <= BATTERY_LOW,
        None => false,
    }
}

/// The green breathing colour at a frame.
pub open spec fn breath_color(frame: u32) -> Grb {
    Grb { g: breath_value((frame % BREATH_FRAMES) as int) as u8, r: 0, b: 0 }
}

/// Colour of the inner pixel: charging first (full green for a while, else
/// breathing), then on the central the peer link (blinking when lost, a
/// steady pulse just after it came up), then the low-battery double blink.
pub open spec fn inner_color_of(s: IndicatorState) -> Grb {
    if s.charging {
        if battery_full(s.battery) {
            if s.frame < FULL_SHOW_FRAMES {
                Grb::green()
            } else {
                Grb::off()
            }
        } else {
            breath_color(s.frame)
        }
    } else if s.role == Role::Central && !s.peer_connected {
        if blink_on_at(s.frame) {
            Grb::blue()
        } else {
            Grb::off()
        }
    } else if s.role == Role::Central && s.frame < PEER_SHOW_FRAMES {
        Grb::blue()
    } else if battery_low(s.battery) {
        if double_blink_at(s.frame) {
            Grb::red()
        } else {
            Grb::off()
        }
    } else {
        Grb::off()
    }
}

/// Colour of the outer pixel. On the central: the profile colour for a while
/// after the host connected, a capped blink in it while searching, else dark.
/// On the peripheral: the link to the central, a blue pulse just after it came
/// up and a capped blue blink while it is down.
pub open spec fn outer_color_of(s: IndicatorState) -> Grb {
    match s.role {
        Role::Central => {
            if s.ble_connected {
                if s.frame < CONNECT_SHOW_FRAMES {
                    profile_color_of(s.ble_profile)
                } else {
                    Grb::off()
                }
            } else if s.ble_advertising {
                if blink_on_at(s.frame) {
                    profile_color_of(s.ble_profile)
                } else {
                    Grb::off()
                }
            } else {
                Grb::off()
            }
        },
        Role::Peripheral => {
            if s.peer_connected {
                if s.frame < PEER_SHOW_FRAMES {
                    Grb::blue()
                } else {
                    Grb::off()
                }
            } else if blink_on_at(s.frame) {
                Grb::blue()
            } else {
                Grb::off()
            }
        },
    }
}

/// The charging flag set to `charging`; the animation restarts only when the
/// flag actually changes.
pub open spec fn with_charging(s: IndicatorState, charging: bool) -> IndicatorState {
    if charging != s.charging {
        IndicatorState { charging, frame: 0, ..s }
    } else {
        s
    }
}

/// A battery report: a known level is recorded, and crossing into "full"
/// while charging restarts the animation (the fully-charged window). Reports
/// without a level change nothing.
pub open spec fn after_battery_status(s: IndicatorState, status: BatteryStatus) -> IndicatorState {
    match status {
        BatteryStatus::Available { level: Some(level), .. } => {
            let frame = if s.charging && level >= BATTERY_FULL && !battery_full(s.battery) {
                0
            } else {
                s.frame
            };
            IndicatorState { battery: Some(level), frame, ..s }
        },
        _ => s,
    }
}

/// The central's peer link: recorded, restarting the animation, only on the
/// central and only when it changes.
pub open spec fn after_peripheral_connected(s: IndicatorState, connected: bool) -> IndicatorState {
    if s.role == Role::Central && connected != s.peer_connected {
        IndicatorState { peer_connected: connected, frame: 0, ..s }
    } else {
        s
    }
}

/// The peripheral's link to the central: recorded, restarting the animation,
/// only on the peripheral and only when it changes.
pub open spec fn after_central_connected(s: IndicatorState, connected: bool) -> IndicatorState {
    if s.role == Role::Peripheral && connected != s.peer_connected {
        IndicatorState { peer_connected: connected, frame: 0, ..s }
    } else {
        s
    }
}

/// A host connection status: the profile and link flags are recorded; the
/// animation restarts only on a rising edge (newly connected, newly
/// searching) or a profile change.
pub open spec fn after_connection_status(s: IndicatorState, ble: BleStatus) -> IndicatorState {
    let connected = ble.state == BleState::Connected;
    let advertising = ble.state == BleState::Advertising;
    let restart = (connected && !s.ble_connected) || (advertising && !s.ble_advertising)
        || ble.profile != s.ble_profile;
    IndicatorState {
        ble_profile: ble.profile,
        ble_connected: connected,
        ble_advertising: advertising,
        frame: if restart {
            0
        } else {
            s.frame
        },
        ..s
    }
}

/// A host LED report proves a host connection: on the central, the first one
/// while not yet marked connected marks it and restarts the animation.
pub open spec fn after_led_indicator(s: IndicatorState) -> IndicatorState {
    if s.role == Role::Central && !s.ble_connected {
        IndicatorState { ble_connected: true, frame: 0, ..s }
    } else {
        s
    }
}

/// The strip already shows `inner` and `outer`.
pub open spec fn already_shown(s: IndicatorState, inner: Grb, outer: Grb) -> bool {
    s.last == Some((inner, outer))
}

/// After pushing `inner` and `outer`: they are remembered, and the rail is on
/// exactly when one of them is lit. Nothing changes when they were already shown.
pub open spec fn after_render(s: IndicatorState, inner: Grb, outer: Grb) -> IndicatorState {
    if already_shown(s, inner, outer) {
        s
    } else {
        IndicatorState {
            last: Some((inner, outer)),
            rail_on: inner.is_lit() || outer.is_lit(),
            ..s
        }
    }
}

/// What showing `inner` and `outer` from state `s` asks of the hardware:
/// nothing when they are already shown; else their PWM sequence, powering the
/// rail up first when something is lit and it is off, and down afterwards
/// when nothing is lit.
pub open spec fn plan_for(plan: RenderPlan, s: IndicatorState, inner: Grb, outer: Grb) -> bool {
    let lit = inner.is_lit() || outer.is_lit();
    if already_shown(s, inner, outer) {
        plan == RenderPlan::Skip
    } else {
        match plan {
            RenderPlan::Skip => false,
            RenderPlan::Send { power_up, words, power_down } => {
                &&& words@ == frame_words(inner, outer)
                &&& power_up == (lit && !s.rail_on)
                &&& power_down == !lit
            },
        }
    }
}

/// The frame counter after one tick, wrapping at the top of its range.
pub open spec fn next_frame(frame: u32) -> u32 {
    if frame == u32::MAX {
        0
    } else {
        (frame + 1) as u32
    }
}

/// The state as one poll sees it after reading the USB power line.
pub open spec fn polled_state(s: IndicatorState, usb_present: bool) -> IndicatorState {
    with_charging(s, usb_present)
}

/// One poll: take the USB power line as the charging flag, push the colours
/// of that state, then advance the animation clock.
pub open spec fn after_poll(s: IndicatorState, usb_present: bool) -> IndicatorState {
    let s1 = polled_state(s, usb_present);
    let s2 = after_render(s1, inner_color_of(s1), outer_color_of(s1));
    IndicatorState { frame: next_frame(s2.frame), ..s2 }
}

/// Status indicator for the two pixels of one half.
pub struct Ws2812Indicator {
    state: IndicatorState,
    breath: [u8; BREATH_LEN],
}

impl View for Ws2812Indicator {
    type V = IndicatorState;

    closed spec fn view(&self) -> IndicatorState {
        self.state
    }
}

impl Ws2812Indicator {
    #[verifier::type_invariant]
    spec fn inv(self) -> bool {
        &&& forall|i: int| 0 <= i < BREATH_LEN ==> self.breath[i] as int == breath_value(i)
        &&& rail_consistent(self.state)
    }

    /// A new indicator for `role`, with nothing known and nothing shown.
    pub fn new(role: Role) -> (ind: Self)
        ensures
            ind@ == initial_state(role),
    {
        Ws2812Indicator {
            state: IndicatorState {
                role,
                battery: None,
                charging: false,
                ble_profile: 0,
                ble_connected: false,
                ble_advertising: false,
                peer_connected: false,
                frame: 0,
                rail_on: false,
                last: None,
            },
            breath: breath_table(),
        }
    }

    /// The remembered state.
    pub fn state(&self) -> (s: IndicatorState)
        ensures
            s == self@,
            rail_consistent(s),
    {
        proof {
            use_type_invariant(self);
        }
        self.state
    }

    /// Colour of the active Bluetooth profile (central outer pixel).
    pub fn profile_color(&self) -> (c: Grb)
        ensures
            c == profile_color_of(self@.ble_profile),
    {
        match self.state.ble_profile {
            0 => Grb::green(),
            1 => Grb::red(),
            _ => Grb::blue(),
        }
    }

    /// True for the "on" window of the current blink cycle, while still
    /// within the cycle cap.
    pub fn blink_on(&self) -> (on: bool)
        ensures
            on == blink_on_at(self@.frame),
    {
        let cycle = self.state.frame / BLINK_PERIOD;
        cycle < BLINK_MAX_CYCLES && (self.state.frame % BLINK_PERIOD) < BLINK_ON
    }

    /// True for the brief double-blink window used by the low-battery warning.
    pub fn double_blink_on(&self) -> (on: bool)
        ensures
            on == double_blink_at(self@.frame),
    {
        let phase = self.state.frame % BLINK_PERIOD;
        phase < 6 || (phase >= 12 && phase < 18)
    }

    /// Update the cached charging flag, restarting the animation on a change
    /// so the charge pulse / fully-charged window time from the transition.
    pub fn set_charging(&mut self, charging: bool)
        ensures
            final(self)@ == with_charging(old(self)@, charging),
    {
        proof {
            use_type_invariant(&*self);
        }
        if charging != self.state.charging {
            self.state.charging = charging;
            self.state.frame = 0;
        }
    }

    /// Colour of the inner pixel (battery, charging, peer loss).
    pub fn inner_color(&self) -> (c: Grb)
        ensures
            c == inner_color_of(self@),
    {
        proof {
            use_type_invariant(self);
        }
        if self.state.charging {
            let full = match self.state.battery {
                Some(b) => b >= BATTERY_FULL,
                None => false,
            };
            if full {
                return if self.state.frame < FULL_SHOW_FRAMES {
                    Grb::green()
                } else {
                    Grb::off()
                };
            }
            let level = self.breath[(self.state.frame % BREATH_FRAMES) as usize];
            return Grb { g: level, r: 0, b: 0 };
        }
        if self.state.role == Role::Central {
            if !self.state.peer_connected {
                return if self.blink_on() {
                    Grb::blue()
                } else {
                    Grb::off()
                };
            } else if self.state.frame < PEER_SHOW_FRAMES {
                return Grb::blue();
            }
        }
        let low = match self.state.battery {
            Some(b) => b <= BATTERY_LOW,
            None => false,
        };
        if low {
            return if self.double_blink_on() {
                Grb::red()
            } else {
                Grb::off()
            };
        }
        Grb::off()
    }

    /// Colour of the outer pixel (host profile on the central, peer link on
    /// the peripheral).
    pub fn outer_color(&self) -> (c: Grb)
        ensures
            c == outer_color_of(self@),
    {
        match self.state.role {
            Role::Central => {
                if self.state.ble_connected {
                    if self.state.frame < CONNECT_SHOW_FRAMES {
                        self.profile_color()
                    } else {
                        Grb::off()
                    }
                } else if self.state.ble_advertising {
                    if self.blink_on() {
                        self.profile_color()
                    } else {
                        Grb::off()
                    }
                } else {
                    Grb::off()
                }
            },
            Role::Peripheral => {
                if self.state.peer_connected {
                    if self.state.frame < PEER_SHOW_FRAMES {
                        Grb::blue()
                    } else {
                        Grb::off()
                    }
                } else if self.blink_on() {
                    Grb::blue()
                } else {
                    Grb::off()
                }
            },
        }
    }

    /// Decide how to show both pixels. Nothing is sent when the colours are
    /// unchanged since the last frame (the strip latches the last colour).
    /// Otherwise the frame's PWM sequence is sent, with the LED rail powered
    /// only while something is lit.
    pub fn render(&mut self, inner: Grb, outer: Grb) -> (plan: RenderPlan)
        ensures
            final(self)@ == after_render(old(self)@, inner, outer),
            plan_for(plan, old(self)@, inner, outer),
    {
        proof {
            use_type_invariant(&*self);
        }
        let unchanged = match self.state.last {
            Some((i, o)) => i == inner && o == outer,
            None => false,
        };
        if unchanged {
            return RenderPlan::Skip;
        }
        let off = Grb::off();
        let any_on = inner != off || outer != off;

        let power_up = any_on && !self.state.rail_on;
        let mut buf = [WRESET; SEQ_LEN];
        Self::encode(&mut buf, inner, outer);
        self.state = IndicatorState { last: Some((inner, outer)), rail_on: any_on, ..self.state };
        RenderPlan::Send { power_up, words: buf, power_down: !any_on }
    }

    /// Local battery status: tracks the level only. Crossing into "full"
    /// while charging starts the fully-charged window.
    pub fn on_battery_status_event(&mut self, event: BatteryStatusEvent)
        ensures
            final(self)@ == after_battery_status(old(self)@, event.0),
    {
        proof {
            use_type_invariant(&*self);
        }
        if let BatteryStatus::Available { level: Some(level), .. } = event.0 {
            let was_full = match self.state.battery {
                Some(b) => b >= BATTERY_FULL,
                None => false,
            };
            self.state.battery = Some(level);
            if self.state.charging && level >= BATTERY_FULL && !was_full {
                self.state.frame = 0;
            }
        }
    }

    /// Charging-line edge.
    pub fn on_charging_state_event(&mut self, event: ChargingStateEvent)
        ensures
            final(self)@ == with_charging(old(self)@, event.charging),
    {
        self.set_charging(event.charging);
    }

    /// Central view of the peripheral link.
    pub fn on_peripheral_connected_event(&mut self, event: PeripheralConnectedEvent)
        ensures
            final(self)@ == after_peripheral_connected(old(self)@, event.connected),
    {
        proof {
            use_type_invariant(&*self);
        }
        if self.state.role == Role::Central && event.connected != self.state.peer_connected {
            self.state.peer_connected = event.connected;
            self.state.frame = 0;
        }
    }

    /// Peripheral view of the central link.
    pub fn on_central_connected_event(&mut self, event: CentralConnectedEvent)
        ensures
            final(self)@ == after_central_connected(old(self)@, event.connected),
    {
        proof {
            use_type_invariant(&*self);
        }
        if self.state.role == Role::Peripheral && event.connected != self.state.peer_connected {
            self.state.peer_connected = event.connected;
            self.state.frame = 0;
        }
    }

    /// Host connection status: restarts the pulse / blink only on a rising
    /// edge (start of connection or of searching) or a profile change, so a
    /// late "connected" after an LED report does not pulse twice.
    pub fn on_connection_status_change_event(&mut self, event: ConnectionStatusChangeEvent)
        ensures
            final(self)@ == after_connection_status(old(self)@, event.0.ble),
    {
        proof {
            use_type_invariant(&*self);
        }
        let ble = event.0.ble;
        let connected = ble.state == BleState::Connected;
        let advertising = ble.state == BleState::Advertising;
        let newly_connected = connected && !self.state.ble_connected;
        let newly_advertising = advertising && !self.state.ble_advertising;
        if newly_connected || newly_advertising || ble.profile != self.state.ble_profile {
            self.state.frame = 0;
        }
        self.state.ble_profile = ble.profile;
        self.state.ble_connected = connected;
        self.state.ble_advertising = advertising;
    }

    /// A host LED report can only arrive over an established host connection,
    /// so the first one marks the central connected.
    pub fn on_led_indicator_event(&mut self, _event: LedIndicatorEvent)
        ensures
            final(self)@ == after_led_indicator(old(self)@),
    {
        proof {
            use_type_invariant(&*self);
        }
        if self.state.role == Role::Central && !self.state.ble_connected {
            self.state.ble_connected = true;
            self.state.frame = 0;
        }
    }

    /// One timer tick: take the USB power line as the charging flag, decide
    /// what to show, then advance the animation clock.
    pub fn poll(&mut self, usb_present: bool) -> (plan: RenderPlan)
        ensures
            final(self)@ == after_poll(old(self)@, usb_present),
            plan_for(
                plan,
                polled_state(old(self)@, usb_present),
                inner_color_of(polled_state(old(self)@, usb_present)),
                outer_color_of(polled_state(old(self)@, usb_present)),
            ),
    {
        self.set_charging(usb_present);
        let inner = self.inner_color();
        let outer = self.outer_color();
        let plan = self.render(inner, outer);
        proof {
            use_type_invariant(&*self);
        }
        self.state.frame = self.state.frame.wrapping_add(1);
        plan
    }
}

} // verus!
