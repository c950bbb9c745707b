use body_control::actuation::{toggle_day_lights, toggle_left_indicator};
use body_control::channel::handle_rx_drain;
use body_control::dispatch::Dispatch;
use body_control::frame::{FrameId, RawFrame};
use body_control::lights::{Lights, SharedLights};
use body_control::system::{dispatch_next, init};
use body_control::watchdog::WATCHDOG_TIMEOUT_MS;

const LIGHTING_RAWID: u32 = 0x01FE_0200;

#[test]
fn init_arms_the_watchdog_with_everything_off() {
    let core = init(0);
    assert!(!core.watchdog.is_expired(WATCHDOG_TIMEOUT_MS - 1));
    assert!(core.watchdog.is_expired(WATCHDOG_TIMEOUT_MS));
    assert_eq!(
        core.lights.read(),
        Lights { left_indicator: 0, right_indicator: 0, day_light: 0 }
    );
}

#[test]
fn empty_queue_dispatches_nothing() {
    let mut core = init(0);
    assert_eq!(dispatch_next(&mut core), None);
    assert_eq!(
        core.lights.read(),
        Lights { left_indicator: 0, right_indicator: 0, day_light: 0 }
    );
}

#[test]
fn received_lighting_frame_reaches_the_outputs() {
    let mut core = init(0);
    let rx = RawFrame {
        id: FrameId::Extended(LIGHTING_RAWID),
        payload: [2, 0, 1, 0, 0, 0, 0, 0],
        len: 8,
    };
    // Interrupt: the receive handler drains the frame and hands it off.
    assert!(handle_rx_drain(&mut core.rx_queue, Some(rx)));
    // Dispatcher pass: the frame routes to the lighting handler.
    let outcome = dispatch_next(&mut core);
    assert_eq!(
        outcome,
        Some(Dispatch::LightingApplied(Lights {
            left_indicator: 2,
            right_indicator: 0,
            day_light: 1,
        }))
    );
    assert_eq!(dispatch_next(&mut core), None);
    // Actuation passes read the record the dispatcher wrote.
    assert!(toggle_left_indicator(&core.lights, 750));
    assert!(!toggle_left_indicator(&core.lights, 250));
    assert!(toggle_day_lights(&core.lights));
}

#[test]
fn interleaved_accesses_see_whole_records_only() {
    // The dispatcher writes whole records; actuation tasks read between
    // writes in arbitrary interleavings. Every observed record is one
    // that a single write put there, never a mixture of two.
    let written = [
        Lights { left_indicator: 1, right_indicator: 0, day_light: 0 },
        Lights { left_indicator: 0, right_indicator: 9, day_light: 4 },
        Lights { left_indicator: 7, right_indicator: 7, day_light: 7 },
    ];
    let initial = Lights { left_indicator: 0, right_indicator: 0, day_light: 0 };
    let mut shared = SharedLights::new();
    let mut observed: Vec<Lights> = Vec::new();
    observed.push(shared.read());
    for w in written {
        shared.write(w);
        observed.push(shared.read());
        observed.push(shared.read());
    }
    for seen in observed {
        assert!(seen == initial || written.contains(&seen));
    }
}
