//! Properties of the indicator that span several events or frames.

use vstd::prelude::*;
use crate::color::{breath_value, Grb, BREATH_FRAMES, BREATH_PEAK};
use crate::event::{BatteryStatus, BleState, BleStatus};
use crate::indicator::{
    after_battery_status, after_central_connected, after_connection_status, after_led_indicator,
    after_peripheral_connected, after_poll, after_render, battery_low, blink_on_at, breath_color,
    initial_state, inner_color_of, polled_state, outer_color_of, plan_for, rail_consistent, with_charging,
    IndicatorState, RenderPlan, Role, BLINK_MAX_CYCLES, BLINK_PERIOD, CONNECT_SHOW_FRAMES,
    PEER_SHOW_FRAMES,
};

verus! {

/// Reporting the same charging flag again changes nothing, so re-reading the
/// power line on every tick never restarts the animation.
pub proof fn lemma_charging_report_idempotent(s: IndicatorState, charging: bool)
    ensures
        with_charging(with_charging(s, charging), charging) == with_charging(s, charging),
{
}

/// Repeating a battery report changes nothing: in particular the
/// fully-charged window starts once, on the crossing into "full".
pub proof fn lemma_battery_report_idempotent(s: IndicatorState, status: BatteryStatus)
    ensures
        after_battery_status(after_battery_status(s, status), status) == after_battery_status(
            s,
            status,
        ),
{
}

/// Only the first host LED report marks the central connected; later ones
/// (a lock key toggled afterwards) change nothing.
pub proof fn lemma_led_report_fires_once(s: IndicatorState)
    ensures
        after_led_indicator(after_led_indicator(s)) == after_led_indicator(s),
{
}

/// Repeating a host connection status changes nothing.
pub proof fn lemma_connection_status_idempotent(s: IndicatorState, ble: BleStatus)
    ensures
        after_connection_status(after_connection_status(s, ble), ble) == after_connection_status(
            s,
            ble,
        ),
{
}

/// A late "connected" status for the same profile, arriving after the link
/// was already marked connected (by an LED report), does not restart the
/// connect pulse: the pulse is shown once.
pub proof fn lemma_late_connected_keeps_pulse(s: IndicatorState)
    requires
        s.ble_connected,
    ensures
        after_connection_status(
            s,
            BleStatus { profile: s.ble_profile, state: BleState::Connected },
        ).frame == s.frame,
{
}

/// Falling edges never restart the animation: the link going idle on the
/// same profile keeps the clock running.
pub proof fn lemma_falling_edge_keeps_clock(s: IndicatorState)
    ensures
        after_connection_status(
            s,
            BleStatus { profile: s.ble_profile, state: BleState::Inactive },
        ).frame == s.frame,
{
}

/// Each half listens only to the link signal meant for it: the peripheral
/// ignores peripheral-link reports, the central ignores central-link reports;
/// and repeating a report changes nothing.
pub proof fn lemma_peer_reports_follow_role(s: IndicatorState, connected: bool)
    ensures
        s.role == Role::Peripheral ==> after_peripheral_connected(s, connected) == s,
        s.role == Role::Central ==> after_central_connected(s, connected) == s,
        after_peripheral_connected(after_peripheral_connected(s, connected), connected)
            == after_peripheral_connected(s, connected),
        after_central_connected(after_central_connected(s, connected), connected)
            == after_central_connected(s, connected),
{
}

/// Showing the same colours twice does no work the second time: the state is
/// unchanged and nothing is sent to the strip.
pub proof fn lemma_render_idempotent(s: IndicatorState, inner: Grb, outer: Grb, plan: RenderPlan)
    ensures
        after_render(after_render(s, inner, outer), inner, outer) == after_render(s, inner, outer),
        plan_for(plan, after_render(s, inner, outer), inner, outer) ==> plan == RenderPlan::Skip,
{
}

/// An idle indicator does no work: when the next poll would show the same
/// colours as this one, it sends nothing.
pub proof fn lemma_steady_colours_send_nothing(s: IndicatorState, usb_present: bool, plan: RenderPlan)
    requires
        ({
            let s1 = polled_state(s, usb_present);
            let s2 = polled_state(after_poll(s, usb_present), usb_present);
            inner_color_of(s2) == inner_color_of(s1) && outer_color_of(s2) == outer_color_of(s1)
        }),
        plan_for(
            plan,
            polled_state(after_poll(s, usb_present), usb_present),
            inner_color_of(polled_state(after_poll(s, usb_present), usb_present)),
            outer_color_of(polled_state(after_poll(s, usb_present), usb_present)),
        ),
    ensures
        plan == RenderPlan::Skip,
{
}

/// The LED rail is powered exactly while the last frame pushed has a lit
/// pixel: true of a new indicator and kept by every event, render and poll.
pub proof fn lemma_rail_follows_last_frame(
    s: IndicatorState,
    role: Role,
    charging: bool,
    status: BatteryStatus,
    connected: bool,
    ble: BleStatus,
    inner: Grb,
    outer: Grb,
)
    requires
        rail_consistent(s),
    ensures
        rail_consistent(initial_state(role)),
        rail_consistent(with_charging(s, charging)),
        rail_consistent(after_battery_status(s, status)),
        rail_consistent(after_peripheral_connected(s, connected)),
        rail_consistent(after_central_connected(s, connected)),
        rail_consistent(after_connection_status(s, ble)),
        rail_consistent(after_led_indicator(s)),
        rail_consistent(after_render(s, inner, outer)),
        rail_consistent(after_poll(s, charging)),
{
}

/// An indicator never changes which half it runs on.
pub proof fn lemma_role_is_fixed(
    s: IndicatorState,
    charging: bool,
    status: BatteryStatus,
    connected: bool,
    ble: BleStatus,
    inner: Grb,
    outer: Grb,
)
    ensures
        with_charging(s, charging).role == s.role,
        after_battery_status(s, status).role == s.role,
        after_peripheral_connected(s, connected).role == s.role,
        after_central_connected(s, connected).role == s.role,
        after_connection_status(s, ble).role == s.role,
        after_led_indicator(s).role == s.role,
        after_render(s, inner, outer).role == s.role,
        after_poll(s, charging).role == s.role,
{
}

/// The slow blink gives up: after `BLINK_MAX_CYCLES` periods it stays dark.
pub proof fn lemma_blink_is_capped(frame: u32)
    requires
        frame >= BLINK_PERIOD * BLINK_MAX_CYCLES,
    ensures
        !blink_on_at(frame),
{
    assert(frame / 30 >= 10) by (nonlinear_arith)
        requires
            frame >= 300,
    ;
}

/// An unknown battery level is never taken for a low one (no red warning) nor
/// for a full one (charging with an unknown level breathes).
pub proof fn lemma_unknown_battery_is_never_judged(s: IndicatorState)
    requires
        s.battery is None,
    ensures
        inner_color_of(s) != Grb::red(),
        s.charging ==> inner_color_of(s) == breath_color(s.frame),
{
}

/// While charging, the inner pixel shows only the charge: neither the half it
/// runs on nor the peer link changes it.
pub proof fn lemma_charging_takes_priority(s: IndicatorState, role: Role, peer_connected: bool)
    requires
        s.charging,
    ensures
        inner_color_of(IndicatorState { role, peer_connected, ..s }) == inner_color_of(s),
{
}

/// The charging breath stays green and never brighter than its peak.
pub proof fn lemma_breath_color_is_dim_green(frame: u32)
    ensures
        breath_color(frame).r == 0,
        breath_color(frame).b == 0,
        breath_color(frame).g <= BREATH_PEAK,
{
    crate::color::lemma_breath_shape();
    let i = (frame % BREATH_FRAMES) as int;
    assert(0 <= i < BREATH_FRAMES);
    assert(0 <= breath_value(i) <= BREATH_PEAK);
}

/// In normal use the strip goes dark: on a central whose host link and peer
/// link are both up, not charging and not low, both pixels are off once the
/// connect and peer pulses are over; likewise on a peripheral whose link is
/// up.
pub proof fn lemma_idle_is_dark(s: IndicatorState)
    requires
        !s.charging,
        !battery_low(s.battery),
        s.peer_connected,
        s.frame >= PEER_SHOW_FRAMES,
        s.role == Role::Central ==> s.ble_connected,
    ensures
        inner_color_of(s) == Grb::off(),
        outer_color_of(s) == Grb::off(),
{
    assert(s.frame >= CONNECT_SHOW_FRAMES);
}

} // verus!
