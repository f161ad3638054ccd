use epd1in54_v3::BusAction;
use epd1in54_v3::Color;
use epd1in54_v3::Epd1in54;
use epd1in54_v3::RefreshLut;

fn expected_init_actions() -> Vec<BusAction> {
    vec![
        BusAction::Reset { hold_us: 10_000, recovery_us: 10_000 },
        BusAction::CmdWithData { opcode: 0x00, data: vec![0xDF, 0x0E] },
        BusAction::CmdWithData { opcode: 0x4D, data: vec![0x55] },
        BusAction::CmdWithData { opcode: 0xAA, data: vec![0x0F] },
        BusAction::CmdWithData { opcode: 0xE9, data: vec![0x02] },
        BusAction::CmdWithData { opcode: 0xB6, data: vec![0x11] },
        BusAction::CmdWithData { opcode: 0xF3, data: vec![0x0A] },
        BusAction::CmdWithData { opcode: 0x61, data: vec![0xC8, 0x00, 0xC8] },
        BusAction::CmdWithData { opcode: 0x60, data: vec![0x00] },
        BusAction::CmdWithData { opcode: 0x50, data: vec![0x97] },
        BusAction::CmdWithData { opcode: 0xE3, data: vec![0x00] },
        BusAction::Cmd { opcode: 0x04 },
        BusAction::DelayMs { ms: 100 },
        BusAction::WaitUntilIdle { is_busy_low: true },
    ]
}

fn expected_full_window_actions() -> Vec<BusAction> {
    vec![
        BusAction::WaitUntilIdle { is_busy_low: true },
        BusAction::CmdWithData { opcode: 0x44, data: vec![0, 24] },
        BusAction::CmdWithData { opcode: 0x45, data: vec![0, 0, 199, 0] },
        BusAction::WaitUntilIdle { is_busy_low: true },
        BusAction::CmdWithData { opcode: 0x4E, data: vec![0] },
        BusAction::CmdWithData { opcode: 0x4F, data: vec![0, 0] },
    ]
}

fn expected_display_actions() -> Vec<BusAction> {
    vec![
        BusAction::WaitUntilIdle { is_busy_low: true },
        BusAction::Cmd { opcode: 0x12 },
        BusAction::DelayMs { ms: 10 },
        BusAction::WaitUntilIdle { is_busy_low: true },
    ]
}

#[test]
fn construction_emits_the_init_sequence() {
    let mut epd = Epd1in54::new();
    assert_eq!(epd.take_actions(), expected_init_actions());
    assert_eq!(*epd.background_color(), Color::White);
}

#[test]
fn dimensions_are_fixed() {
    let epd = Epd1in54::new();
    assert_eq!(epd.width(), 200);
    assert_eq!(epd.height(), 200);
}

#[test]
fn window_encoding_shifts_x_and_splits_y() {
    let mut epd = Epd1in54::new();
    epd.take_actions();
    epd.set_ram_area(8, 300, 16, 400);
    let actions = epd.take_actions();
    assert_eq!(
        actions,
        vec![
            BusAction::WaitUntilIdle { is_busy_low: true },
            // 8 >> 3 == 1, 16 >> 3 == 2
            BusAction::CmdWithData { opcode: 0x44, data: vec![1, 2] },
            // 300 == 0x12C -> (0x2C, 0x01); 400 == 0x190 -> (0x90, 0x01)
            BusAction::CmdWithData { opcode: 0x45, data: vec![0x2C, 0x01, 0x90, 0x01] },
        ]
    );
}

#[test]
fn counter_encoding_shifts_x_and_splits_y() {
    let mut epd = Epd1in54::new();
    epd.take_actions();
    epd.set_ram_counter(13, 300);
    let actions = epd.take_actions();
    assert_eq!(
        actions,
        vec![
            BusAction::WaitUntilIdle { is_busy_low: true },
            // 13 >> 3 == 1
            BusAction::CmdWithData { opcode: 0x4E, data: vec![1] },
            BusAction::CmdWithData { opcode: 0x4F, data: vec![0x2C, 0x01] },
        ]
    );
}

#[test]
fn set_background_color_is_pure_and_idempotent() {
    let mut epd = Epd1in54::new();
    epd.take_actions();
    epd.set_background_color(Color::Black);
    let after_once = epd.take_actions();
    epd.set_background_color(Color::Black);
    epd.set_background_color(Color::Black);
    let after_twice = epd.take_actions();
    assert_eq!(after_once, Vec::<BusAction>::new());
    assert_eq!(after_twice, Vec::<BusAction>::new());
    assert_eq!(*epd.background_color(), Color::Black);
}

#[test]
fn full_frame_update_floods_then_streams_the_buffer() {
    let mut epd = Epd1in54::new();
    epd.take_actions();
    let buffer = vec![0xA5u8; 5000];
    epd.update_frame(&buffer);
    let actions = epd.take_actions();

    let mut expected = expected_full_window_actions();
    expected.push(BusAction::WaitUntilIdle { is_busy_low: true });
    expected.push(BusAction::Cmd { opcode: 0x10 });
    expected.push(BusAction::DataRepeated { value: 0xFF, count: 5000 });
    expected.push(BusAction::CmdWithData { opcode: 0x13, data: buffer.clone() });
    assert_eq!(actions, expected);
}

#[test]
fn full_frame_update_floods_with_black_background() {
    let mut epd = Epd1in54::new();
    epd.set_background_color(Color::Black);
    epd.take_actions();
    let buffer = vec![0x00u8; 5000];
    epd.update_frame(&buffer);
    let actions = epd.take_actions();
    assert_eq!(actions[8], BusAction::DataRepeated { value: 0x00, count: 5000 });
}

#[test]
fn partial_update_uses_region_window_and_flood() {
    let mut epd = Epd1in54::new();
    epd.take_actions();
    let buffer: Vec<u8> = (0..32u32).map(|i| i as u8).collect();
    epd.update_partial_frame(&buffer, 8, 0, 16, 16);
    let actions = epd.take_actions();
    assert_eq!(
        actions,
        vec![
            BusAction::WaitUntilIdle { is_busy_low: true },
            BusAction::WaitUntilIdle { is_busy_low: true },
            // 8 >> 3 == 1, (8 + 16) >> 3 == 3
            BusAction::CmdWithData { opcode: 0x44, data: vec![1, 3] },
            BusAction::CmdWithData { opcode: 0x45, data: vec![0, 0, 16, 0] },
            BusAction::WaitUntilIdle { is_busy_low: true },
            BusAction::CmdWithData { opcode: 0x4E, data: vec![1] },
            BusAction::CmdWithData { opcode: 0x4F, data: vec![0, 0] },
            BusAction::Cmd { opcode: 0x10 },
            // 16 / 8 * 16 == 32 flood bytes of the white background
            BusAction::DataRepeated { value: 0xFF, count: 32 },
            BusAction::CmdWithData { opcode: 0x13, data: buffer.clone() },
        ]
    );
}

#[test]
fn display_frame_brackets_refresh_with_busy_waits() {
    let mut epd = Epd1in54::new();
    epd.take_actions();
    epd.display_frame();
    assert_eq!(epd.take_actions(), expected_display_actions());
}

#[test]
fn init_update_display_issues_one_bracketed_refresh() {
    let mut epd = Epd1in54::new();
    let buffer = vec![0xFFu8; 5000];
    epd.update_frame(&buffer);
    epd.display_frame();
    let actions = epd.take_actions();

    let refresh_positions: Vec<usize> = actions
        .iter()
        .enumerate()
        .filter(|(_, a)| matches!(a, BusAction::Cmd { opcode: 0x12 }))
        .map(|(i, _)| i)
        .collect();
    assert_eq!(refresh_positions.len(), 1);
    let at = refresh_positions[0];
    assert_eq!(actions[at - 1], BusAction::WaitUntilIdle { is_busy_low: true });
    assert_eq!(actions[at + 2], BusAction::WaitUntilIdle { is_busy_low: true });
    assert_eq!(actions[at + 1], BusAction::DelayMs { ms: 10 });
    assert_eq!(at + 2, actions.len() - 1);
}

#[test]
fn update_and_display_frame_is_the_composition() {
    let mut epd = Epd1in54::new();
    epd.take_actions();
    let buffer = vec![0x3Cu8; 5000];
    epd.update_and_display_frame(&buffer);
    let composed = epd.take_actions();

    let mut epd2 = Epd1in54::new();
    epd2.take_actions();
    epd2.update_frame(&buffer);
    epd2.display_frame();
    assert_eq!(composed, epd2.take_actions());
}

#[test]
fn clear_frame_floods_sentinel_then_background_then_refreshes() {
    let mut epd = Epd1in54::new();
    epd.take_actions();
    epd.clear_frame();
    let actions = epd.take_actions();

    let mut expected = vec![BusAction::WaitUntilIdle { is_busy_low: true }];
    expected.extend(expected_full_window_actions());
    expected.push(BusAction::Cmd { opcode: 0x10 });
    expected.push(BusAction::DataRepeated { value: 0x00, count: 5000 });
    expected.push(BusAction::Cmd { opcode: 0x13 });
    expected.push(BusAction::DataRepeated { value: 0xFF, count: 5000 });
    expected.extend(expected_display_actions());
    assert_eq!(actions, expected);
}

#[test]
fn sleep_powers_off_waits_discharges_and_deep_sleeps() {
    let mut epd = Epd1in54::new();
    epd.take_actions();
    epd.sleep();
    assert_eq!(
        epd.take_actions(),
        vec![
            BusAction::Cmd { opcode: 0x02 },
            BusAction::WaitUntilIdle { is_busy_low: true },
            BusAction::DelayMs { ms: 1000 },
            BusAction::CmdWithData { opcode: 0x07, data: vec![0xA5] },
        ]
    );
}

#[test]
fn wake_after_sleep_replays_the_exact_init_sequence() {
    let mut epd = Epd1in54::new();
    epd.take_actions();
    epd.sleep();
    epd.take_actions();
    epd.wake_up();
    let woken = epd.take_actions();

    let mut fresh = Epd1in54::new();
    assert_eq!(woken, fresh.take_actions());
    assert_eq!(woken, expected_init_actions());
}

#[test]
fn set_lut_is_a_no_op() {
    let mut epd = Epd1in54::new();
    epd.take_actions();
    epd.set_lut(Some(RefreshLut::Quick));
    epd.set_lut(None);
    assert_eq!(epd.take_actions(), Vec::<BusAction>::new());
    assert_eq!(*epd.background_color(), Color::White);
}

#[test]
fn take_actions_leaves_an_empty_transcript() {
    let mut epd = Epd1in54::new();
    let first = epd.take_actions();
    assert_eq!(first.len(), 14);
    assert_eq!(epd.take_actions(), Vec::<BusAction>::new());
}
