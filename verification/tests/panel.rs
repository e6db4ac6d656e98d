use embedded_graphics::geometry::{Point, Size};
use embedded_graphics::primitives::Rectangle;
use vrm_panel::cache::{Channel, Device};
use vrm_panel::navigation::Mode;
use vrm_panel::panel::{
    commit_plan, first_asserted, host_command, nudge, refresh_plan, step_sizes, visible_chars,
    Button, Draw, Panel,
};
use vrm_panel::protocol::{Transfer, TPSC536C7};

fn cell(x: i32, y: i32) -> Rectangle {
    Rectangle::new(Point::new(x, y), Size::new(45, 16))
}

fn page(address: u8, bits: u8) -> Transfer {
    Transfer::Write { address, payload: vec![0x00, bits] }
}

fn read(address: u8, command: u8) -> Transfer {
    Transfer::WriteRead { address, command, length: 2 }
}

fn refresh_of(address: u8, bits: u8) -> Vec<Transfer> {
    vec![
        page(address, bits),
        read(address, 0x8B),
        page(address, bits),
        read(address, 0x8D),
        page(address, bits),
        read(address, 0x8C),
        page(address, bits),
        read(address, 0x21),
        page(address, bits),
        read(address, 0x46),
    ]
}

fn sample() -> Device {
    Device {
        core: Channel {
            voltage: 1498,
            voltage_setpoint: 1500,
            current: 12_500,
            current_limit: 40_000,
            temperature: 35_000,
        },
        mem: Channel {
            voltage: 1349,
            voltage_setpoint: 1350,
            current: 3_000,
            current_limit: 20_000,
            temperature: 31_000,
        },
    }
}

fn panel_with(dev: Device) -> Panel {
    let mut panel = Panel::new();
    panel.set_device(dev);
    panel
}

#[test]
fn button_priority() {
    assert_eq!(first_asserted(false, false, false, false, false), None);
    assert_eq!(first_asserted(true, true, true, true, true), Some(Button::Up));
    assert_eq!(first_asserted(false, true, true, true, true), Some(Button::Down));
    assert_eq!(first_asserted(false, false, true, true, true), Some(Button::Right));
    assert_eq!(first_asserted(false, false, false, true, true), Some(Button::Left));
    assert_eq!(first_asserted(false, false, false, false, true), Some(Button::Enter));
}

#[test]
fn edit_steps_by_row() {
    assert_eq!(step_sizes(0), (5, 100));
    assert_eq!(step_sizes(1), (1000, 10_000));
    assert_eq!(step_sizes(2), (0, 0));
    assert_eq!(step_sizes(-1), (0, 0));
}

#[test]
fn nudge_stops_at_the_ends() {
    assert_eq!(nudge(1500, 5), 1505);
    assert_eq!(nudge(1500, -100), 1400);
    assert_eq!(nudge(i64::MAX - 3, 5), i64::MAX);
    assert_eq!(nudge(i64::MIN + 3, -5), i64::MIN);
    assert_eq!(nudge(i64::MAX, i64::MIN), -1);
}

#[test]
fn cell_shows_five_characters() {
    assert_eq!(visible_chars(0), 0);
    assert_eq!(visible_chars(3), 3);
    assert_eq!(visible_chars(5), 5);
    assert_eq!(visible_chars(6), 5);
    assert_eq!(visible_chars(usize::MAX), 5);
}

#[test]
fn starts_browsing_with_an_empty_cache() {
    let panel = Panel::new();
    assert_eq!(panel.navigation().get_position(), (0, 0));
    assert_eq!(*panel.navigation().get_mode(), Mode::Navigation);
    assert_eq!(*panel.device(), Device::default());
    assert_eq!(panel.scratch(), 0);
}

#[test]
fn browsing_moves_the_cursor() {
    let ctl = TPSC536C7::new(0x5F);
    let mut panel = panel_with(sample());
    assert!(panel.press(Some(Button::Right), &ctl).is_empty());
    assert_eq!(panel.navigation().get_position(), (1, 0));
    assert!(panel.press(Some(Button::Right), &ctl).is_empty());
    assert_eq!(panel.navigation().get_position(), (1, 0));
    assert!(panel.press(Some(Button::Down), &ctl).is_empty());
    assert!(panel.press(Some(Button::Down), &ctl).is_empty());
    assert!(panel.press(Some(Button::Down), &ctl).is_empty());
    assert_eq!(panel.navigation().get_position(), (1, 2));
    assert!(panel.press(Some(Button::Left), &ctl).is_empty());
    assert!(panel.press(Some(Button::Left), &ctl).is_empty());
    assert_eq!(panel.navigation().get_position(), (0, 2));
    assert!(panel.press(Some(Button::Up), &ctl).is_empty());
    assert_eq!(panel.navigation().get_position(), (0, 1));
    assert_eq!(*panel.device(), sample());
    assert_eq!(*panel.navigation().get_mode(), Mode::Navigation);
}

#[test]
fn no_button_changes_nothing() {
    let ctl = TPSC536C7::new(0x5F);
    let mut panel = panel_with(sample());
    let before = panel;
    assert!(panel.press(None, &ctl).is_empty());
    assert_eq!(panel, before);
    panel.press(Some(Button::Enter), &ctl);
    panel.press(Some(Button::Up), &ctl);
    let editing = panel;
    assert!(panel.press(None, &ctl).is_empty());
    assert_eq!(panel, editing);
}

#[test]
fn enter_on_the_temperature_row_does_nothing() {
    let ctl = TPSC536C7::new(0x5F);
    for column in 0..2 {
        let mut panel = panel_with(sample());
        if column == 1 {
            panel.press(Some(Button::Right), &ctl);
        }
        panel.press(Some(Button::Down), &ctl);
        panel.press(Some(Button::Down), &ctl);
        let before = panel;
        assert!(panel.press(Some(Button::Enter), &ctl).is_empty());
        assert_eq!(panel, before);
        assert_eq!(*panel.navigation().get_mode(), Mode::Navigation);
        assert_eq!(panel.navigation().get_position(), (column, 2));
    }
}

#[test]
fn enter_opens_an_edit_from_the_cached_setting() {
    let ctl = TPSC536C7::new(0x5F);
    let expected = [[1500, 40_000], [1350, 20_000]];
    for column in 0..2usize {
        for row in 0..2usize {
            let mut panel = panel_with(sample());
            if column == 1 {
                panel.press(Some(Button::Right), &ctl);
            }
            if row == 1 {
                panel.press(Some(Button::Down), &ctl);
            }
            assert!(panel.press(Some(Button::Enter), &ctl).is_empty());
            assert_eq!(*panel.navigation().get_mode(), Mode::Update);
            assert_eq!(panel.scratch(), expected[column][row]);
            assert_eq!(*panel.device(), sample());
        }
    }
}

#[test]
fn enter_again_commits_only_the_edited_cell() {
    let ctl = TPSC536C7::new(0x5F);
    let mut panel = panel_with(sample());
    panel.press(Some(Button::Right), &ctl);
    panel.press(Some(Button::Down), &ctl);
    panel.press(Some(Button::Enter), &ctl);
    panel.press(Some(Button::Up), &ctl);
    panel.press(Some(Button::Left), &ctl);
    assert_eq!(panel.scratch(), 11_000);
    assert_eq!(panel.navigation().get_position(), (1, 1));
    let writes = panel.press(Some(Button::Enter), &ctl);
    assert_eq!(*panel.navigation().get_mode(), Mode::Navigation);
    let mut expected = sample();
    expected.mem.current_limit = 11_000;
    assert_eq!(*panel.device(), expected);
    assert_eq!(
        writes,
        vec![
            page(0x5F, 0x01),
            Transfer::Write { address: 0x5F, payload: vec![0x46, 0xC0, 0xD2] },
        ]
    );
}

#[test]
fn editing_steps_in_both_directions() {
    let ctl = TPSC536C7::new(0x5F);
    let mut panel = panel_with(sample());
    panel.press(Some(Button::Enter), &ctl);
    panel.press(Some(Button::Down), &ctl);
    assert_eq!(panel.scratch(), 1495);
    panel.press(Some(Button::Left), &ctl);
    assert_eq!(panel.scratch(), 1395);
    panel.press(Some(Button::Right), &ctl);
    panel.press(Some(Button::Up), &ctl);
    assert_eq!(panel.scratch(), 1500);
    assert_eq!(panel.navigation().get_position(), (0, 0));
    assert_eq!(*panel.device(), sample());
}

#[test]
fn core_voltage_edit_from_start_to_commit() {
    let ctl = TPSC536C7::new(0x5F);
    let mut dev = Device::default();
    dev.core.voltage_setpoint = 1500;
    let mut panel = panel_with(dev);
    assert_eq!(panel.navigation().get_position(), (0, 0));
    assert_eq!(*panel.navigation().get_mode(), Mode::Navigation);

    assert!(panel.press(Some(Button::Enter), &ctl).is_empty());
    assert_eq!(*panel.navigation().get_mode(), Mode::Update);
    assert_eq!(panel.scratch(), 1500);

    assert!(panel.press(Some(Button::Up), &ctl).is_empty());
    assert_eq!(panel.scratch(), 1505);

    assert!(panel.press(Some(Button::Right), &ctl).is_empty());
    assert_eq!(panel.scratch(), 1605);

    let writes = panel.press(Some(Button::Enter), &ctl);
    assert_eq!(*panel.navigation().get_mode(), Mode::Navigation);
    assert_eq!(panel.device().core.voltage_setpoint, 1605);
    assert_eq!(
        writes,
        vec![
            page(0x5F, 0x00),
            Transfer::Write { address: 0x5F, payload: vec![0x21, 0x36, 0x03] },
        ]
    );
}

#[test]
fn failed_write_neither_holds_the_cursor_nor_the_next_refresh() {
    let ctl = TPSC536C7::new(0x5F);
    let mut dev = Device::default();
    dev.core.voltage_setpoint = 1500;
    let mut panel = panel_with(dev);
    panel.tick(&ctl, false, false, false, false, true);
    let commit = panel.tick(&ctl, false, false, false, false, true);
    assert_eq!(commit.transfers.len(), 22);
    // The bus reports an error for the write: nothing of that is handed back.
    assert_eq!(*panel.navigation().get_mode(), Mode::Navigation);
    assert_eq!(panel.device().core.voltage_setpoint, 1500);
    let next = panel.tick(&ctl, false, false, false, false, false);
    let mut expected = refresh_of(0x5F, 0x00);
    expected.extend(refresh_of(0x5F, 0x01));
    assert_eq!(next.transfers, expected);
}

#[test]
fn refresh_selects_the_page_before_every_read() {
    let ctl = TPSC536C7::new(0x5F);
    assert_eq!(refresh_plan(&ctl, 0), refresh_of(0x5F, 0x00));
    assert_eq!(refresh_plan(&ctl, 1), refresh_of(0x5F, 0x01));
    assert!(refresh_plan(&ctl, 2).is_empty());
    assert!(refresh_plan(&ctl, -1).is_empty());
}

#[test]
fn every_access_to_the_memory_channel_follows_its_page_select() {
    let ctl = TPSC536C7::new(0x5F);
    let select = page(0x5F, 0x01);
    let mut plans = vec![refresh_plan(&ctl, 1)];
    plans.push(commit_plan(&ctl, (1, 0), 1350));
    plans.push(commit_plan(&ctl, (1, 1), 20_000));
    plans.push(host_command(&ctl, &[0x01, 0x21, 0x00, 0x03]));
    for plan in plans {
        assert!(!plan.is_empty());
        for (i, transfer) in plan.iter().enumerate() {
            if *transfer != select {
                assert!(i > 0 && plan[i - 1] == select);
            }
        }
    }
}

#[test]
fn commit_plan_by_cell() {
    let ctl = TPSC536C7::new(0x5F);
    assert_eq!(
        commit_plan(&ctl, (0, 1), 25_500),
        vec![
            page(0x5F, 0x00),
            Transfer::Write { address: 0x5F, payload: vec![0x46, 0x30, 0xDB] },
        ]
    );
    assert_eq!(
        commit_plan(&ctl, (1, 0), 1500),
        vec![
            page(0x5F, 0x01),
            Transfer::Write { address: 0x5F, payload: vec![0x21, 0x00, 0x03] },
        ]
    );
    assert_eq!(commit_plan(&ctl, (1, 2), 1500), vec![page(0x5F, 0x01)]);
    assert_eq!(commit_plan(&ctl, (2, 2), 1500), vec![]);
}

#[test]
fn tick_draws_then_refreshes_then_writes() {
    let ctl = TPSC536C7::new(0x5F);
    let mut panel = panel_with(sample());
    let idle = panel.tick(&ctl, false, false, false, false, false);
    let mut refresh = refresh_of(0x5F, 0x00);
    refresh.extend(refresh_of(0x5F, 0x01));
    assert_eq!(idle.transfers, refresh);
    assert_eq!(idle.draws.len(), 7);
    assert_eq!(idle.draws[6], Draw::Outline { area: cell(27, 16) });

    let held = panel.tick(&ctl, false, true, true, false, true);
    assert_eq!(panel.navigation().get_position(), (0, 1));
    assert_eq!(held.transfers, refresh);
    assert_eq!(held.draws[6], Draw::Outline { area: cell(27, 32) });

    let editing = panel.tick(&ctl, false, false, false, false, true);
    assert_eq!(editing.transfers, refresh);
    assert_eq!(
        editing.draws[6],
        Draw::Value { area: cell(27, 32), value: 40_000, inverted: true }
    );

    panel.tick(&ctl, true, false, false, false, false);
    let commit = panel.tick(&ctl, false, false, false, false, true);
    let mut expected = refresh.clone();
    expected.push(page(0x5F, 0x00));
    expected.push(Transfer::Write { address: 0x5F, payload: vec![0x46, 0x90, 0xE2] });
    assert_eq!(commit.transfers, expected);
    assert_eq!(panel.device().core.current_limit, 41_000);
    assert_eq!(commit.draws[6], Draw::Outline { area: cell(27, 32) });
}

#[test]
fn render_shows_the_measured_values() {
    let panel = panel_with(sample());
    assert_eq!(
        panel.render(),
        vec![
            Draw::Value { area: cell(27, 16), value: 1498, inverted: false },
            Draw::Value { area: cell(27, 32), value: 12_500, inverted: false },
            Draw::Value { area: cell(27, 48), value: 35_000, inverted: false },
            Draw::Value { area: cell(81, 16), value: 1349, inverted: false },
            Draw::Value { area: cell(81, 32), value: 3_000, inverted: false },
            Draw::Value { area: cell(81, 48), value: 31_000, inverted: false },
            Draw::Outline { area: cell(27, 16) },
        ]
    );
}

#[test]
fn absorb_takes_the_replies_into_the_cache() {
    let mut panel = panel_with(sample());
    panel.absorb(1, &[[0x36, 0x03], [0x19, 0x00], [0x20, 0xD3], [0x00, 0x03], [0x30, 0xDB]]);
    assert_eq!(panel.device().core, sample().core);
    assert_eq!(
        panel.device().mem,
        Channel {
            voltage: 1605,
            temperature: 25_000,
            current: 12_500,
            voltage_setpoint: 1500,
            current_limit: 25_500,
        }
    );
    panel.absorb(7, &[[0xFF, 0xFF]; 5]);
    assert_eq!(panel.device().core, sample().core);
}

#[test]
fn host_frame_selects_the_channel_and_forwards_the_rest() {
    let ctl = TPSC536C7::new(0x5F);
    assert_eq!(
        host_command(&ctl, &[0x00, 0x21, 0x36, 0x03]),
        vec![
            page(0x5F, 0x00),
            Transfer::Write { address: 0x5F, payload: vec![0x21, 0x36, 0x03] },
        ]
    );
    assert_eq!(
        host_command(&ctl, &[0x01, 0x03]),
        vec![page(0x5F, 0x01), Transfer::Write { address: 0x5F, payload: vec![0x03] }]
    );
    assert_eq!(
        host_command(&ctl, &[0xFD, 0x02, 0x00]),
        vec![page(0x5F, 0x01), Transfer::Write { address: 0x5F, payload: vec![0x02, 0x00] }]
    );
}

#[test]
fn host_frame_read_only_selects_the_channel() {
    let ctl = TPSC536C7::new(0x5F);
    assert_eq!(host_command(&ctl, &[0x02, 0x8B]), vec![page(0x5F, 0x00)]);
    assert_eq!(host_command(&ctl, &[0x03, 0x8B]), vec![page(0x5F, 0x01)]);
}

#[test]
fn host_frame_edge_cases() {
    let ctl = TPSC536C7::new(0x5F);
    assert_eq!(host_command(&ctl, &[]), vec![]);
    assert_eq!(
        host_command(&ctl, &[0x00]),
        vec![page(0x5F, 0x00), Transfer::Write { address: 0x5F, payload: vec![] }]
    );
}

#[test]
fn startup_enables_the_memory_channel_then_the_core_channel() {
    let ctl = TPSC536C7::new(0x5F);
    assert_eq!(
        vrm_panel::panel::startup_plan(&ctl),
        vec![
            page(0x5F, 0x01),
            Transfer::Write { address: 0x5F, payload: vec![0x02, 0x00] },
            Transfer::Write { address: 0x5F, payload: vec![0x24, 0x00, 0x03] },
            page(0x5F, 0x00),
            Transfer::Write { address: 0x5F, payload: vec![0x02, 0x00] },
            Transfer::Write { address: 0x5F, payload: vec![0x24, 0x00, 0x03] },
        ]
    );
}

#[test]
fn measured_value_sits_in_its_cell() {
    assert_eq!(
        vrm_panel::panel::measured((1, 1), 3_000),
        Draw::Value { area: cell(81, 32), value: 3_000, inverted: false }
    );
}
