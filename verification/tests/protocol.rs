use vrm_panel::protocol::{Command, Format, Page, Parameter, Reading, Transfer, TPSC536C7};

#[test]
fn register_map() {
    assert_eq!(Command::Page.to_address(), 0x00);
    assert_eq!(Command::Operation.to_address(), 0x01);
    assert_eq!(Command::OnOffConfig.to_address(), 0x02);
    assert_eq!(Command::ClearFaults.to_address(), 0x03);
    assert_eq!(Command::VOUTCommand.to_address(), 0x21);
    assert_eq!(Command::VOUTMax.to_address(), 0x24);
    assert_eq!(Command::VOUTDroop.to_address(), 0x28);
    assert_eq!(Command::VOUTMin.to_address(), 0x2B);
    assert_eq!(Command::FrequencySwitch.to_address(), 0x33);
    assert_eq!(Command::IoutOCFaultLimit.to_address(), 0x46);
    assert_eq!(Command::StatusByte.to_address(), 0x78);
    assert_eq!(Command::ReadVout.to_address(), 0x8B);
    assert_eq!(Command::ReadIout.to_address(), 0x8C);
    assert_eq!(Command::ReadTemperature1.to_address(), 0x8D);
    assert_eq!(Command::StatusAll.to_address(), 0xDB);
    assert_eq!(Command::StatusExtended.to_address(), 0xDD);
}

#[test]
fn no_two_commands_share_a_register() {
    let all = [
        Command::Page,
        Command::Operation,
        Command::OnOffConfig,
        Command::ClearFaults,
        Command::VOUTCommand,
        Command::VOUTMax,
        Command::VOUTDroop,
        Command::VOUTMin,
        Command::FrequencySwitch,
        Command::IoutOCFaultLimit,
        Command::StatusByte,
        Command::ReadIout,
        Command::ReadVout,
        Command::ReadTemperature1,
        Command::StatusAll,
        Command::StatusExtended,
    ];
    for (i, a) in all.iter().enumerate() {
        for (j, b) in all.iter().enumerate() {
            assert_eq!(i == j, a.to_address() == b.to_address());
        }
    }
}

#[test]
fn page_bits() {
    assert_eq!(Page::ChannelA.to_bits(), 0x00);
    assert_eq!(Page::ChannelB.to_bits(), 0x01);
    assert_eq!(Page::Both.to_bits(), 0xFF);
}

#[test]
fn page_of_channel_selector() {
    assert_eq!(Page::of_channel(0), Some(Page::ChannelA));
    assert_eq!(Page::of_channel(1), Some(Page::ChannelB));
    assert_eq!(Page::of_channel(2), None);
    assert_eq!(Page::of_channel(-1), None);
}

#[test]
fn controller_keeps_its_address() {
    assert_eq!(TPSC536C7::new(0x5F).address(), 0x5F);
}

#[test]
fn page_selects() {
    let dev = TPSC536C7::new(0x5F);
    assert_eq!(dev.ch_a(), Transfer::Write { address: 0x5F, payload: vec![0x00, 0x00] });
    assert_eq!(dev.ch_b(), Transfer::Write { address: 0x5F, payload: vec![0x00, 0x01] });
    assert_eq!(dev.ch_ab(), Transfer::Write { address: 0x5F, payload: vec![0x00, 0xFF] });
    assert_eq!(dev.page(Page::ChannelB), dev.ch_b());
}

#[test]
fn fixed_payload_writes() {
    let dev = TPSC536C7::new(0x5F);
    assert_eq!(
        dev.on_off_config(0x1B),
        Transfer::Write { address: 0x5F, payload: vec![0x02, 0x1B] }
    );
    assert_eq!(dev.clear_faults(), Transfer::Write { address: 0x5F, payload: vec![0x03] });
    assert_eq!(
        dev.command(&[0x21, 0x36, 0x03]),
        Transfer::Write { address: 0x5F, payload: vec![0x21, 0x36, 0x03] }
    );
    assert_eq!(dev.command(&[]), Transfer::Write { address: 0x5F, payload: vec![] });
}

#[test]
fn fixed_length_reads() {
    let dev = TPSC536C7::new(0x40);
    assert_eq!(
        dev.status_byte(),
        Transfer::WriteRead { address: 0x40, command: 0x78, length: 1 }
    );
    assert_eq!(dev.read_page(), Transfer::WriteRead { address: 0x40, command: 0x00, length: 1 });
    assert_eq!(
        dev.read_status_extended(),
        Transfer::WriteRead { address: 0x40, command: 0xDD, length: 7 }
    );
    assert_eq!(
        dev.read_status_all(),
        Transfer::WriteRead { address: 0x40, command: 0xDB, length: 18 }
    );
    assert_eq!(dev.read(0x99, 4), Transfer::WriteRead { address: 0x40, command: 0x99, length: 4 });
}

#[test]
fn settings_and_their_formats() {
    let dev = TPSC536C7::new(0x5F);
    assert_eq!(
        dev.vout_command(),
        Parameter { address: 0x5F, register: 0x21, format: Format::Linear16 }
    );
    assert_eq!(
        dev.vout_max(),
        Parameter { address: 0x5F, register: 0x24, format: Format::Linear16 }
    );
    assert_eq!(
        dev.vout_min(),
        Parameter { address: 0x5F, register: 0x2B, format: Format::Linear16 }
    );
    assert_eq!(
        dev.iout_oc_fault_limit(),
        Parameter { address: 0x5F, register: 0x46, format: Format::Linear11 }
    );
}

#[test]
fn measurements_and_their_formats() {
    let dev = TPSC536C7::new(0x5F);
    assert_eq!(
        dev.read_vout(),
        Reading { address: 0x5F, register: 0x8B, format: Format::Linear16 }
    );
    assert_eq!(
        dev.read_iout(),
        Reading { address: 0x5F, register: 0x8C, format: Format::Linear11 }
    );
    assert_eq!(
        dev.read_temperature_1(),
        Reading { address: 0x5F, register: 0x8D, format: Format::Linear11 }
    );
}

#[test]
fn setting_write_sends_register_then_word_low_byte_first() {
    let dev = TPSC536C7::new(0x5F);
    assert_eq!(
        dev.vout_command().write(1605),
        Transfer::Write { address: 0x5F, payload: vec![0x21, 0x36, 0x03] }
    );
    assert_eq!(
        dev.vout_max().write(1500),
        Transfer::Write { address: 0x5F, payload: vec![0x24, 0x00, 0x03] }
    );
    assert_eq!(
        dev.iout_oc_fault_limit().write(25_500),
        Transfer::Write { address: 0x5F, payload: vec![0x46, 0x30, 0xDB] }
    );
}

#[test]
fn setting_write_saturates() {
    let dev = TPSC536C7::new(0x5F);
    assert_eq!(
        dev.vout_command().write(1_000_000),
        Transfer::Write { address: 0x5F, payload: vec![0x21, 0xFF, 0xFF] }
    );
    assert_eq!(
        dev.vout_command().write(-5),
        Transfer::Write { address: 0x5F, payload: vec![0x21, 0x00, 0x00] }
    );
    assert_eq!(
        dev.iout_oc_fault_limit().write(i64::MAX),
        Transfer::Write { address: 0x5F, payload: vec![0x46, 0xFF, 0x7B] }
    );
}

#[test]
fn setting_read_asks_for_two_bytes() {
    let dev = TPSC536C7::new(0x5F);
    assert_eq!(
        dev.vout_command().read(),
        Transfer::WriteRead { address: 0x5F, command: 0x21, length: 2 }
    );
    assert_eq!(
        dev.read_vout().read(),
        Transfer::WriteRead { address: 0x5F, command: 0x8B, length: 2 }
    );
    assert_eq!(
        dev.read_temperature_1().read(),
        Transfer::WriteRead { address: 0x5F, command: 0x8D, length: 2 }
    );
}

#[test]
fn replies_decode_by_format() {
    let dev = TPSC536C7::new(0x5F);
    assert_eq!(dev.read_vout().value([0x36, 0x03]), 1605);
    assert_eq!(dev.vout_command().value([0x00, 0x03]), 1500);
    assert_eq!(dev.read_iout().value([0x20, 0xD3]), 12_500);
    assert_eq!(dev.read_temperature_1().value([0x19, 0x00]), 25_000);
    assert_eq!(dev.iout_oc_fault_limit().value([0x30, 0xDB]), 25_500);
}

#[test]
fn failed_read_decodes_as_zero() {
    let dev = TPSC536C7::new(0x5F);
    assert_eq!(dev.read_vout().value([0, 0]), 0);
    assert_eq!(dev.read_iout().value([0, 0]), 0);
    assert_eq!(Format::Linear16.decode([0, 0]), 0);
    assert_eq!(Format::Linear11.decode([0, 0]), 0);
}

#[test]
fn formats_differ_on_the_same_word() {
    assert_eq!(Format::Linear16.decode([0x20, 0xD3]), 105_563);
    assert_eq!(Format::Linear11.decode([0x20, 0xD3]), 12_500);
    assert_eq!(Format::Linear16.encode(1000), 512);
    assert_eq!(Format::Linear11.encode(1000), 0xBA00);
}
