//! What each operation of the indicator does, stated from its inputs and
//! results: which fields an event records, when the animation clock restarts,
//! and which colour each pixel shows in each situation.

use vstd::prelude::*;
use crate::color::{breath_value, Grb, BREATH_FRAMES};
use crate::event::{BatteryStatus, BleState, BleStatus};
use crate::indicator::{
    after_battery_status, after_central_connected, after_connection_status, after_led_indicator,
    after_peripheral_connected, after_poll, after_render, blink_on_at, double_blink_at,
    initial_state, inner_color_of, outer_color_of, plan_for, polled_state, with_charging,
    IndicatorState, RenderPlan, Role, BATTERY_FULL, BATTERY_LOW, BLINK_MAX_CYCLES, BLINK_ON,
    BLINK_PERIOD, CONNECT_SHOW_FRAMES, FULL_SHOW_FRAMES, PEER_SHOW_FRAMES,
};
use crate::pwm::frame_words;

verus! {

/// The slow blink is on for the first `BLINK_ON` frames of each period, for
/// the first `BLINK_MAX_CYCLES` periods only; the double blink is on for
/// frames 0..6 and 12..18 of every period.
pub proof fn lemma_blink_windows(frame: u32)
    ensures
        blink_on_at(frame) <==> (frame < BLINK_PERIOD * BLINK_MAX_CYCLES && frame % BLINK_PERIOD
            < BLINK_ON),
        double_blink_at(frame) <==> (frame % BLINK_PERIOD < 6 || (12 <= frame % BLINK_PERIOD
            && frame % BLINK_PERIOD < 18)),
{
    assert((frame / 30 < 10) <==> (frame < 300)) by (nonlinear_arith);
}

/// A new indicator knows nothing and shows nothing: no battery level, not
/// charging, no links, clock at zero, rail off, no frame sent.
pub proof fn lemma_fresh_indicator(role: Role)
    ensures
        initial_state(role).role == role,
        initial_state(role).battery is None,
        !initial_state(role).charging,
        initial_state(role).ble_profile == 0,
        !initial_state(role).ble_connected,
        !initial_state(role).ble_advertising,
        !initial_state(role).peer_connected,
        initial_state(role).frame == 0,
        !initial_state(role).rail_on,
        initial_state(role).last is None,
{
}

/// The charging flag is recorded; a change restarts the clock, the same flag
/// again changes nothing.
pub proof fn lemma_charging_flag(s: IndicatorState, charging: bool)
    ensures
        with_charging(s, charging).charging == charging,
        charging != s.charging ==> with_charging(s, charging) == (IndicatorState {
            charging,
            frame: 0,
            ..s
        }),
        charging == s.charging ==> with_charging(s, charging) == s,
{
}

/// A battery reading with a level records the level; it restarts the clock
/// exactly when it is the crossing into "full" while charging. Reports
/// without a level change nothing.
pub proof fn lemma_battery_report(s: IndicatorState, status: BatteryStatus)
    ensures
        status matches BatteryStatus::Available { level: Some(level), .. } ==> {
            let t = after_battery_status(s, status);
            let crossing = s.charging && level >= BATTERY_FULL && !(s.battery matches Some(b)
                && b >= BATTERY_FULL);
            &&& t.battery == Some(level)
            &&& crossing ==> t.frame == 0
            &&& !crossing ==> t.frame == s.frame
            &&& t == (IndicatorState { battery: Some(level), frame: t.frame, ..s })
        },
        !(status matches BatteryStatus::Available { level: Some(_), .. }) ==> after_battery_status(
            s,
            status,
        ) == s,
{
}

/// A host connection status records the profile and whether the link is
/// connected or searching. The clock restarts on a rising edge of either
/// (newly connected, newly searching) and on a profile change, and on nothing
/// else. No other field changes.
pub proof fn lemma_connection_status(s: IndicatorState, ble: BleStatus)
    ensures
        ({
            let t = after_connection_status(s, ble);
            let newly_connected = ble.state == BleState::Connected && !s.ble_connected;
            let newly_searching = ble.state == BleState::Advertising && !s.ble_advertising;
            &&& t.ble_profile == ble.profile
            &&& t.ble_connected == (ble.state == BleState::Connected)
            &&& t.ble_advertising == (ble.state == BleState::Advertising)
            &&& newly_connected ==> t.frame == 0
            &&& newly_searching ==> t.frame == 0
            &&& ble.profile != s.ble_profile ==> t.frame == 0
            &&& (!newly_connected && !newly_searching && ble.profile == s.ble_profile) ==> t.frame
                == s.frame
            &&& t == (IndicatorState {
                ble_profile: t.ble_profile,
                ble_connected: t.ble_connected,
                ble_advertising: t.ble_advertising,
                frame: t.frame,
                ..s
            })
        }),
{
}

/// When the host drops and the central starts searching again, the outer
/// pixel immediately blinks in the profile colour.
pub proof fn lemma_searching_again_blinks(s: IndicatorState, ble: BleStatus)
    requires
        s.role == Role::Central,
        !s.ble_advertising,
        ble.state == BleState::Advertising,
    ensures
        ({
            let c = outer_color_of(after_connection_status(s, ble));
            &&& ble.profile == 0 ==> c == Grb::green()
            &&& ble.profile == 1 ==> c == Grb::red()
            &&& ble.profile >= 2 ==> c == Grb::blue()
        }),
{
}

/// On the central, every change of the peer link is recorded and restarts
/// the clock, so a loss starts the blue peer-loss blink and a link-up starts
/// the blue pulse: either way the inner pixel is blue right after (unless
/// charging). The peripheral ignores this report.
pub proof fn lemma_peer_link_on_central(s: IndicatorState, connected: bool)
    ensures
        s.role == Role::Central && connected != s.peer_connected ==> after_peripheral_connected(
            s,
            connected,
        ) == (IndicatorState { peer_connected: connected, frame: 0, ..s }),
        s.role == Role::Central && connected != s.peer_connected && !s.charging ==> inner_color_of(
            after_peripheral_connected(s, connected),
        ) == Grb::blue(),
        s.role == Role::Peripheral || connected == s.peer_connected ==> after_peripheral_connected(
            s,
            connected,
        ) == s,
{
}

/// On the peripheral, every change of its link to the central is recorded
/// and restarts the clock, so the outer pixel is blue right after (the loss
/// blink or the link-up pulse). The central ignores this report.
pub proof fn lemma_peer_link_on_peripheral(s: IndicatorState, connected: bool)
    ensures
        s.role == Role::Peripheral && connected != s.peer_connected ==> after_central_connected(
            s,
            connected,
        ) == (IndicatorState { peer_connected: connected, frame: 0, ..s }),
        s.role == Role::Peripheral && connected != s.peer_connected ==> outer_color_of(
            after_central_connected(s, connected),
        ) == Grb::blue(),
        s.role == Role::Central || connected == s.peer_connected ==> after_central_connected(
            s,
            connected,
        ) == s,
{
}

/// On the central, the first host LED report marks the host connected and
/// restarts the clock; otherwise (already connected, or on the peripheral) it
/// changes nothing.
pub proof fn lemma_led_report(s: IndicatorState)
    ensures
        s.role == Role::Central && !s.ble_connected ==> after_led_indicator(s) == (IndicatorState {
            ble_connected: true,
            frame: 0,
            ..s
        }),
        s.role == Role::Peripheral || s.ble_connected ==> after_led_indicator(s) == s,
{
}

/// Every blink that signals a missing link gives up after
/// `BLINK_MAX_CYCLES` periods: the central's searching blink (outer), the
/// central's peer-loss blink (inner) and the peripheral's link-loss blink
/// (outer) all stay dark from then on.
pub proof fn lemma_blinks_give_up(s: IndicatorState)
    requires
        s.frame >= BLINK_PERIOD * BLINK_MAX_CYCLES,
    ensures
        s.role == Role::Central && !s.ble_connected ==> outer_color_of(s) == Grb::off(),
        s.role == Role::Peripheral && !s.peer_connected ==> outer_color_of(s) == Grb::off(),
        s.role == Role::Central && !s.charging && !s.peer_connected ==> inner_color_of(s)
            == Grb::off(),
{
    assert(s.frame / 30 >= 10) by (nonlinear_arith)
        requires
            s.frame >= 300,
    ;
}

/// Before the cap, the link blinks are on for the first `BLINK_ON` frames of
/// each period and off for the rest: the central's searching blink in the
/// profile colour, the peer-loss blinks in blue.
pub proof fn lemma_blinks_before_cap(s: IndicatorState)
    requires
        s.frame < BLINK_PERIOD * BLINK_MAX_CYCLES,
    ensures
        ({
            let on = s.frame % BLINK_PERIOD < BLINK_ON;
            let outer = outer_color_of(s);
            &&& s.role == Role::Central && !s.ble_connected && s.ble_advertising && on ==> {
                &&& s.ble_profile == 0 ==> outer == Grb::green()
                &&& s.ble_profile == 1 ==> outer == Grb::red()
                &&& s.ble_profile >= 2 ==> outer == Grb::blue()
            }
            &&& s.role == Role::Central && !s.ble_connected && !on ==> outer == Grb::off()
            &&& s.role == Role::Central && !s.ble_connected && !s.ble_advertising ==> outer
                == Grb::off()
            &&& s.role == Role::Peripheral && !s.peer_connected ==> outer == (if on {
                Grb::blue()
            } else {
                Grb::off()
            })
            &&& s.role == Role::Central && !s.charging && !s.peer_connected ==> inner_color_of(s)
                == (if on {
                Grb::blue()
            } else {
                Grb::off()
            })
        }),
{
    assert(s.frame / 30 < 10) by (nonlinear_arith)
        requires
            s.frame < 300,
    ;
}

/// After the host connects, the central's outer pixel shows the profile
/// colour (0 green, 1 red, later blue) for `CONNECT_SHOW_FRAMES` frames, then
/// goes dark.
pub proof fn lemma_connect_pulse(s: IndicatorState)
    requires
        s.role == Role::Central,
        s.ble_connected,
    ensures
        s.frame < CONNECT_SHOW_FRAMES && s.ble_profile == 0 ==> outer_color_of(s) == Grb::green(),
        s.frame < CONNECT_SHOW_FRAMES && s.ble_profile == 1 ==> outer_color_of(s) == Grb::red(),
        s.frame < CONNECT_SHOW_FRAMES && s.ble_profile >= 2 ==> outer_color_of(s) == Grb::blue(),
        s.frame >= CONNECT_SHOW_FRAMES ==> outer_color_of(s) == Grb::off(),
{
}

/// After the peer link comes up, the pixel that shows it (inner on the
/// central when not charging, outer on the peripheral) is blue for
/// `PEER_SHOW_FRAMES` frames; the peripheral's goes dark after that.
pub proof fn lemma_peer_pulse(s: IndicatorState)
    requires
        s.peer_connected,
    ensures
        s.role == Role::Central && !s.charging && s.frame < PEER_SHOW_FRAMES ==> inner_color_of(s)
            == Grb::blue(),
        s.role == Role::Peripheral && s.frame < PEER_SHOW_FRAMES ==> outer_color_of(s)
            == Grb::blue(),
        s.role == Role::Peripheral && s.frame >= PEER_SHOW_FRAMES ==> outer_color_of(s)
            == Grb::off(),
{
}

/// The low-battery warning shows on both halves once nothing of higher
/// priority is on the inner pixel (not charging; on the central, peer link up
/// and its pulse over): red during frames 0..6 and 12..18 of each period,
/// dark otherwise. Without a low reading the pixel is then dark.
pub proof fn lemma_low_battery_warning(s: IndicatorState)
    requires
        !s.charging,
        s.role == Role::Peripheral || (s.peer_connected && s.frame >= PEER_SHOW_FRAMES),
    ensures
        ({
            let phase = s.frame % BLINK_PERIOD;
            let flash = phase < 6 || (12 <= phase && phase < 18);
            let low = s.battery matches Some(level) && level <= BATTERY_LOW;
            &&& low && flash ==> inner_color_of(s) == Grb::red()
            &&& low && !flash ==> inner_color_of(s) == Grb::off()
            &&& !low ==> inner_color_of(s) == Grb::off()
        }),
{
}

/// While charging, the inner pixel shows the charge on both halves: with a
/// known full level, green for `FULL_SHOW_FRAMES` frames then dark;
/// otherwise the green breathing curve at the current frame.
pub proof fn lemma_charging_display(s: IndicatorState)
    requires
        s.charging,
    ensures
        (s.battery matches Some(level) && level >= BATTERY_FULL) && s.frame < FULL_SHOW_FRAMES
            ==> inner_color_of(s) == Grb::green(),
        (s.battery matches Some(level) && level >= BATTERY_FULL) && s.frame >= FULL_SHOW_FRAMES
            ==> inner_color_of(s) == Grb::off(),
        !(s.battery matches Some(level) && level >= BATTERY_FULL) ==> {
            &&& inner_color_of(s).r == 0
            &&& inner_color_of(s).b == 0
            &&& inner_color_of(s).g as int == breath_value((s.frame % BREATH_FRAMES) as int)
        },
{
    crate::color::lemma_breath_shape();
    assert(0 <= breath_value((s.frame % BREATH_FRAMES) as int) <= 0x20);
}

/// Showing a pair of colours: when the strip already shows them nothing is
/// sent and nothing changes. Otherwise their PWM sequence is sent, the rail
/// is switched on first exactly when something is lit and it was off, and
/// off afterwards exactly when both pixels are dark; the pair is remembered
/// and the rail left on exactly when something is lit.
pub proof fn lemma_render_plan(s: IndicatorState, inner: Grb, outer: Grb, plan: RenderPlan)
    requires
        plan_for(plan, s, inner, outer),
    ensures
        s.last == Some((inner, outer)) ==> plan == RenderPlan::Skip && after_render(
            s,
            inner,
            outer,
        ) == s,
        s.last != Some((inner, outer)) ==> {
            let dark = inner == Grb::off() && outer == Grb::off();
            &&& plan matches RenderPlan::Send { power_up, words, power_down } && words@
                == frame_words(inner, outer) && power_up == (!dark && !s.rail_on) && power_down
                == dark
            &&& after_render(s, inner, outer) == (IndicatorState {
                last: Some((inner, outer)),
                rail_on: !dark,
                ..s
            })
        },
{
}

/// One poll takes the USB power line as the charging flag (restarting the
/// clock on a change), remembers the colours of that state as the frame
/// shown, and then advances the clock by one frame, wrapping at the top.
pub proof fn lemma_poll_step(s: IndicatorState, usb_present: bool)
    ensures
        ({
            let p = polled_state(s, usb_present);
            let t = after_poll(s, usb_present);
            &&& p.charging == usb_present
            &&& p.frame == (if usb_present != s.charging {
                0
            } else {
                s.frame
            })
            &&& t.charging == usb_present
            &&& t.last == Some((inner_color_of(p), outer_color_of(p)))
            &&& p.frame < u32::MAX ==> t.frame == p.frame + 1
            &&& p.frame == u32::MAX ==> t.frame == 0
            &&& t.role == s.role && t.battery == s.battery && t.ble_profile == s.ble_profile
            &&& t.ble_connected == s.ble_connected && t.ble_advertising == s.ble_advertising
            &&& t.peer_connected == s.peer_connected
        }),
{
}

} // verus!
