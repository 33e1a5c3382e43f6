use cornix_rmk_custom::color::{breath_table, Grb};
use cornix_rmk_custom::event::{
    BatteryStatus, BatteryStatusEvent, BleState, BleStatus, CentralConnectedEvent, ChargeState,
    ChargingStateEvent, ConnectionStatus, ConnectionStatusChangeEvent, LedIndicatorEvent,
    PeripheralConnectedEvent,
};
use cornix_rmk_custom::indicator::{IndicatorState, RenderPlan, Role, Ws2812Indicator};
use cornix_rmk_custom::pwm::{SEQ_LEN, W0, W1, WRESET};

fn ticks(ind: &mut Ws2812Indicator, n: u32, usb: bool) {
    for _ in 0..n {
        ind.poll(usb);
    }
}

fn connection(profile: u8, state: BleState) -> ConnectionStatusChangeEvent {
    ConnectionStatusChangeEvent(ConnectionStatus { ble: BleStatus { profile, state } })
}

fn battery(level: u8) -> BatteryStatusEvent {
    BatteryStatusEvent(BatteryStatus::Available {
        charge_state: ChargeState::Discharging,
        level: Some(level),
    })
}

#[test]
fn breath_table_is_a_triangle() {
    let t = breath_table();
    assert_eq!(t[0], 0);
    assert_eq!(t[1], 1);
    assert_eq!(t[15], 16);
    assert_eq!(t[29], 30);
    assert_eq!(t[30], 0x20);
    assert_eq!(t[31], 30);
    assert_eq!(t[45], 16);
    assert_eq!(t[59], 1);
    for i in 1..60 {
        assert_eq!(t[i], t[60 - i]);
    }
}

#[test]
fn colour_constants() {
    assert_eq!(Grb::off(), Grb { g: 0, r: 0, b: 0 });
    assert_eq!(Grb::red(), Grb { g: 0, r: 0x10, b: 0 });
    assert_eq!(Grb::green(), Grb { g: 0x10, r: 0, b: 0 });
    assert_eq!(Grb::blue(), Grb { g: 0, r: 0, b: 0x10 });
    assert!(!Grb::off().is_lit());
    assert!(Grb::blue().is_lit());
}

#[test]
fn encode_sends_grb_msb_first_then_latch() {
    let mut buf = [0u16; SEQ_LEN];
    let inner = Grb { g: 0x10, r: 0x81, b: 0 };
    let outer = Grb { g: 0, r: 0, b: 0xff };
    Ws2812Indicator::encode(&mut buf, inner, outer);
    assert_eq!(W0, 0x8006);
    assert_eq!(W1, 0x800d);
    // inner green 0x10 = 0001_0000
    assert_eq!(&buf[0..8], &[W0, W0, W0, W1, W0, W0, W0, W0]);
    // inner red 0x81 = 1000_0001
    assert_eq!(&buf[8..16], &[W1, W0, W0, W0, W0, W0, W0, W1]);
    assert_eq!(&buf[16..24], &[W0; 8]);
    assert_eq!(&buf[24..40], &[W0; 16]);
    assert_eq!(&buf[40..48], &[W1; 8]);
    assert!(buf[48..].iter().all(|&w| w == WRESET));
    assert_eq!(buf.len(), 88);
}

#[test]
fn encode_different_colours_give_different_words() {
    let mut a = [0u16; SEQ_LEN];
    let mut b = [0u16; SEQ_LEN];
    Ws2812Indicator::encode(&mut a, Grb::red(), Grb::off());
    Ws2812Indicator::encode(&mut b, Grb::green(), Grb::off());
    assert_ne!(a, b);
}

#[test]
fn new_indicator_knows_nothing() {
    let ind = Ws2812Indicator::new(Role::Central);
    assert_eq!(
        ind.state(),
        IndicatorState {
            role: Role::Central,
            battery: None,
            charging: false,
            ble_profile: 0,
            ble_connected: false,
            ble_advertising: false,
            peer_connected: false,
            frame: 0,
            rail_on: false,
            last: None,
        }
    );
}

#[test]
fn central_blinks_blue_while_peer_is_lost() {
    let mut ind = Ws2812Indicator::new(Role::Central);
    assert_eq!(ind.inner_color(), Grb::blue());
    assert_eq!(ind.outer_color(), Grb::off());
    let plan = ind.poll(false);
    match plan {
        RenderPlan::Send { power_up, words, power_down } => {
            assert!(power_up);
            assert!(!power_down);
            let mut expect = [0u16; SEQ_LEN];
            Ws2812Indicator::encode(&mut expect, Grb::blue(), Grb::off());
            assert_eq!(words, expect);
        }
        RenderPlan::Skip => panic!("first frame must be sent"),
    }
    assert!(ind.state().rail_on);
    assert_eq!(ind.state().frame, 1);
    // Same colours on the next frame: nothing to do.
    assert_eq!(ind.poll(false), RenderPlan::Skip);
    ticks(&mut ind, 10, false);
    assert_eq!(ind.state().frame, 12);
    assert!(!ind.blink_on());
    assert_eq!(ind.inner_color(), Grb::off());
    // Going dark sends an all-off frame and cuts the rail.
    match ind.poll(false) {
        RenderPlan::Send { power_up, power_down, .. } => {
            assert!(!power_up);
            assert!(power_down);
        }
        RenderPlan::Skip => panic!("the change to dark must be sent"),
    }
    assert!(!ind.state().rail_on);
}

#[test]
fn blink_gives_up_after_ten_cycles() {
    let mut ind = Ws2812Indicator::new(Role::Peripheral);
    ticks(&mut ind, 270, false);
    assert!(ind.blink_on());
    assert_eq!(ind.outer_color(), Grb::blue());
    ticks(&mut ind, 30, false);
    assert_eq!(ind.state().frame, 300);
    assert!(!ind.blink_on());
    assert_eq!(ind.outer_color(), Grb::off());
}

#[test]
fn double_blink_windows() {
    let mut ind = Ws2812Indicator::new(Role::Peripheral);
    let mut on = Vec::new();
    for _ in 0..30 {
        on.push(ind.double_blink_on());
        ind.poll(false);
    }
    for (phase, lit) in on.iter().enumerate() {
        assert_eq!(*lit, phase < 6 || (12..18).contains(&phase));
    }
}

#[test]
fn profile_colours() {
    let mut ind = Ws2812Indicator::new(Role::Central);
    assert_eq!(ind.profile_color(), Grb::green());
    ind.on_connection_status_change_event(connection(1, BleState::Inactive));
    assert_eq!(ind.profile_color(), Grb::red());
    ind.on_connection_status_change_event(connection(2, BleState::Inactive));
    assert_eq!(ind.profile_color(), Grb::blue());
    ind.on_connection_status_change_event(connection(7, BleState::Inactive));
    assert_eq!(ind.profile_color(), Grb::blue());
}

#[test]
fn central_searching_then_connect_pulse() {
    let mut ind = Ws2812Indicator::new(Role::Central);
    ticks(&mut ind, 5, false);
    ind.on_connection_status_change_event(connection(1, BleState::Advertising));
    assert_eq!(ind.state().frame, 0);
    assert!(ind.state().ble_advertising);
    assert_eq!(ind.outer_color(), Grb::red());
    ticks(&mut ind, 12, false);
    assert_eq!(ind.outer_color(), Grb::off());
    // The first host LED report marks the link connected.
    ind.on_led_indicator_event(LedIndicatorEvent(0));
    assert!(ind.state().ble_connected);
    assert_eq!(ind.state().frame, 0);
    assert_eq!(ind.outer_color(), Grb::red());
    ticks(&mut ind, 40, false);
    // A later LED report or a late "connected" does not restart the pulse.
    ind.on_led_indicator_event(LedIndicatorEvent(2));
    ind.on_connection_status_change_event(connection(1, BleState::Connected));
    assert_eq!(ind.state().frame, 40);
    ticks(&mut ind, 34, false);
    assert_eq!(ind.outer_color(), Grb::red());
    ticks(&mut ind, 1, false);
    assert_eq!(ind.state().frame, 75);
    assert_eq!(ind.outer_color(), Grb::off());
}

#[test]
fn falling_edge_does_not_restart() {
    let mut ind = Ws2812Indicator::new(Role::Central);
    ind.on_connection_status_change_event(connection(0, BleState::Connected));
    ticks(&mut ind, 20, false);
    ind.on_connection_status_change_event(connection(0, BleState::Inactive));
    assert_eq!(ind.state().frame, 20);
    assert!(!ind.state().ble_connected);
    ind.on_connection_status_change_event(connection(2, BleState::Inactive));
    assert_eq!(ind.state().frame, 0);
    assert_eq!(ind.state().ble_profile, 2);
}

#[test]
fn peripheral_ignores_central_side_events() {
    let mut p = Ws2812Indicator::new(Role::Peripheral);
    ticks(&mut p, 3, false);
    p.on_peripheral_connected_event(PeripheralConnectedEvent { id: 0, connected: true });
    assert!(!p.state().peer_connected);
    assert_eq!(p.state().frame, 3);
    p.on_led_indicator_event(LedIndicatorEvent(1));
    assert!(!p.state().ble_connected);
    p.on_central_connected_event(CentralConnectedEvent { connected: true });
    assert!(p.state().peer_connected);
    assert_eq!(p.state().frame, 0);
    assert_eq!(p.outer_color(), Grb::blue());
    assert_eq!(p.inner_color(), Grb::off());
    ticks(&mut p, 90, false);
    assert_eq!(p.outer_color(), Grb::off());

    let mut c = Ws2812Indicator::new(Role::Central);
    ticks(&mut c, 3, false);
    c.on_central_connected_event(CentralConnectedEvent { connected: true });
    assert!(!c.state().peer_connected);
    c.on_peripheral_connected_event(PeripheralConnectedEvent { id: 0, connected: true });
    assert!(c.state().peer_connected);
    assert_eq!(c.state().frame, 0);
    assert_eq!(c.inner_color(), Grb::blue());
    ticks(&mut c, 90, false);
    assert_eq!(c.inner_color(), Grb::off());
}

#[test]
fn low_battery_double_blinks_red() {
    let mut p = Ws2812Indicator::new(Role::Peripheral);
    p.on_battery_status_event(battery(20));
    assert_eq!(p.state().battery, Some(20));
    assert_eq!(p.inner_color(), Grb::red());
    ticks(&mut p, 6, false);
    assert_eq!(p.inner_color(), Grb::off());
    ticks(&mut p, 6, false);
    assert_eq!(p.inner_color(), Grb::red());
    p.on_battery_status_event(battery(21));
    assert_eq!(p.inner_color(), Grb::off());
    // Reports without a level change nothing.
    p.on_battery_status_event(BatteryStatusEvent(BatteryStatus::Unavailable));
    p.on_battery_status_event(BatteryStatusEvent(BatteryStatus::Available {
        charge_state: ChargeState::Charging,
        level: None,
    }));
    assert_eq!(p.state().battery, Some(21));
    assert!(!p.state().charging);
}

#[test]
fn charging_breathes_then_full_shows_green_window() {
    let mut p = Ws2812Indicator::new(Role::Peripheral);
    ticks(&mut p, 10, false);
    p.poll(true);
    // The charging edge restarted the clock before this frame was drawn.
    assert!(p.state().charging);
    assert_eq!(p.state().frame, 1);
    ticks(&mut p, 14, true);
    assert_eq!(p.inner_color(), Grb { g: 16, r: 0, b: 0 });
    ticks(&mut p, 15, true);
    assert_eq!(p.inner_color(), Grb { g: 0x20, r: 0, b: 0 });
    // Re-reading the same power line never restarts.
    assert_eq!(p.state().frame, 30);
    p.on_battery_status_event(battery(95));
    assert_eq!(p.state().frame, 0);
    assert_eq!(p.inner_color(), Grb::green());
    ticks(&mut p, 50, true);
    p.on_battery_status_event(battery(99));
    assert_eq!(p.state().frame, 50);
    ticks(&mut p, 40, true);
    assert_eq!(p.inner_color(), Grb::off());
    p.on_charging_state_event(ChargingStateEvent { charging: false });
    assert!(!p.state().charging);
    assert_eq!(p.state().frame, 0);
}

#[test]
fn unknown_battery_while_charging_breathes() {
    let mut c = Ws2812Indicator::new(Role::Central);
    c.set_charging(true);
    assert_eq!(c.inner_color(), Grb::off());
    ticks(&mut c, 30, true);
    assert_eq!(c.inner_color(), Grb { g: 0x20, r: 0, b: 0 });
}

#[test]
fn render_skips_unchanged_frames() {
    let mut ind = Ws2812Indicator::new(Role::Central);
    assert!(matches!(ind.render(Grb::off(), Grb::off()), RenderPlan::Send { power_up: false, power_down: true, .. }));
    assert!(!ind.state().rail_on);
    assert_eq!(ind.render(Grb::off(), Grb::off()), RenderPlan::Skip);
    assert!(matches!(ind.render(Grb::red(), Grb::off()), RenderPlan::Send { power_up: true, power_down: false, .. }));
    assert!(matches!(ind.render(Grb::red(), Grb::blue()), RenderPlan::Send { power_up: false, power_down: false, .. }));
    assert_eq!(ind.state().last, Some((Grb::red(), Grb::blue())));
    assert!(ind.state().rail_on);
}

#[test]
fn idle_connected_central_is_dark() {
    let mut c = Ws2812Indicator::new(Role::Central);
    c.on_peripheral_connected_event(PeripheralConnectedEvent { id: 0, connected: true });
    c.on_connection_status_change_event(connection(0, BleState::Connected));
    c.on_battery_status_event(battery(80));
    ticks(&mut c, 90, false);
    assert_eq!(c.inner_color(), Grb::off());
    assert_eq!(c.outer_color(), Grb::off());
    // The pulses just ended: one all-off frame blanks the strip and cuts the rail.
    assert!(matches!(c.poll(false), RenderPlan::Send { power_down: true, .. }));
    assert!(!c.state().rail_on);
    assert_eq!(c.poll(false), RenderPlan::Skip);
    assert_eq!(c.poll(false), RenderPlan::Skip);
}
