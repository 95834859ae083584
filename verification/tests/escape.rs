use prettyterm::escape::csi::{csi_decodable, Cursor};
use prettyterm::escape::osc::{osc_fields_decodable, TextSize};
use prettyterm::escape::sgr::{sgr_params_readable, Blink, ColorSpec, Intensity, SrgbaTuple, Sgr, Underline};
use prettyterm::escape::{Action, Actor, ControlCode, CsiParam, DeviceControlMode, Esc, EscCode, CSI, OSC};
use prettyterm::escape::parser::{actions_of, dispatch_decodable, Dispatch, Parser};

fn num(n: i64) -> CsiParam {
    CsiParam::Integer(n)
}

fn semi() -> CsiParam {
    CsiParam::P(b';')
}

#[test]
fn esc_select_character_set() {
    assert_eq!(Esc::parse(Some(b'('), b'B'), Esc::Code(EscCode::SelectCharacterSet(b'B')));
    assert_eq!(Esc::parse(None, b'7'), Esc::Unspecified { intermediate: None, control: b'7' });
    assert_eq!(Esc::parse(Some(b')'), b'0'), Esc::Unspecified { intermediate: Some(b')'), control: b'0' });
}

#[test]
fn sgr_plain_codes() {
    assert_eq!(Sgr::parse(&[], false), vec![Sgr::Reset]);
    assert_eq!(Sgr::parse(&[num(0)], false), vec![Sgr::Reset]);
    assert_eq!(Sgr::parse(&[num(1)], false), vec![Sgr::Intensity(Intensity::Bold)]);
    assert_eq!(Sgr::parse(&[num(2)], false), vec![Sgr::Intensity(Intensity::Half)]);
    assert_eq!(Sgr::parse(&[num(3)], false), vec![Sgr::Italic(true)]);
    assert_eq!(Sgr::parse(&[num(4)], false), vec![Sgr::Underline(Underline::Single)]);
    assert_eq!(Sgr::parse(&[num(5)], false), vec![Sgr::Blink(Blink::Slow)]);
    assert_eq!(Sgr::parse(&[num(6)], false), vec![Sgr::Blink(Blink::Rapid)]);
    assert_eq!(Sgr::parse(&[num(7)], false), vec![Sgr::Inverse(true)]);
    assert_eq!(Sgr::parse(&[num(8)], false), vec![Sgr::Invisible(true)]);
    assert_eq!(Sgr::parse(&[num(9)], false), vec![Sgr::StrikeThrough(true)]);
    assert_eq!(Sgr::parse(&[num(99)], false), vec![]);
}

#[test]
fn sgr_palette_colours() {
    assert_eq!(Sgr::parse(&[num(31)], false), vec![Sgr::Foreground(ColorSpec::PaletteIndex(1))]);
    assert_eq!(Sgr::parse(&[num(37)], false), vec![Sgr::Foreground(ColorSpec::PaletteIndex(7))]);
    // background codes keep the foreground offset
    assert_eq!(Sgr::parse(&[num(41)], false), vec![Sgr::Background(ColorSpec::PaletteIndex(11))]);
}

#[test]
fn sgr_several_codes_in_order() {
    assert_eq!(
        Sgr::parse(&[num(1), semi(), num(4), semi(), num(32)], false),
        vec![Sgr::Intensity(Intensity::Bold), Sgr::Underline(Underline::Single), Sgr::Foreground(ColorSpec::PaletteIndex(2))]
    );
}

#[test]
fn sgr_extended_colours() {
    assert_eq!(
        Sgr::parse(&[num(38), semi(), num(5), semi(), num(196)], false),
        vec![Sgr::Foreground(ColorSpec::PaletteIndex(196))]
    );
    assert_eq!(
        Sgr::parse(&[num(48), semi(), num(2), semi(), num(10), semi(), num(20), semi(), num(30), semi(), num(1)], false),
        vec![Sgr::Background(ColorSpec::TrueColor(SrgbaTuple { r: 10, g: 20, b: 30 })), Sgr::Intensity(Intensity::Bold)]
    );
    assert_eq!(Sgr::parse(&[num(38), semi(), num(9)], false), vec![Sgr::Foreground(ColorSpec::Default)]);
}

#[test]
fn sgr_truncated_colour_is_not_readable() {
    assert!(!sgr_params_readable(&[num(38)]));
    assert!(!sgr_params_readable(&[num(38), semi(), num(5)]));
    assert!(!sgr_params_readable(&[num(48), semi(), num(2), semi(), num(1), semi(), num(2)]));
    assert!(sgr_params_readable(&[num(38), semi(), num(5), semi(), num(1)]));
    assert!(!csi_decodable(&[num(38)], b'm'));
    assert!(csi_decodable(&[num(38)], b'A'));
}

#[test]
fn csi_sgr() {
    assert_eq!(CSI::parse(&[num(1)], false, b'm'), vec![CSI::Sgr(Sgr::Intensity(Intensity::Bold))]);
    assert_eq!(CSI::parse(&[], false, b'm'), vec![CSI::Sgr(Sgr::Reset)]);
}

#[test]
fn csi_cursor_moves() {
    assert_eq!(CSI::parse(&[num(3)], false, b'A'), vec![CSI::Cursor(Cursor::Up(3))]);
    assert_eq!(CSI::parse(&[num(2)], false, b'B'), vec![CSI::Cursor(Cursor::Down(2))]);
    assert_eq!(CSI::parse(&[], false, b'C'), vec![CSI::Cursor(Cursor::Right(1))]);
    assert_eq!(CSI::parse(&[num(4)], false, b'D'), vec![CSI::Cursor(Cursor::Left(4))]);
    assert_eq!(CSI::parse(&[num(1)], false, b'E'), vec![CSI::Cursor(Cursor::NextLine(1))]);
    assert_eq!(CSI::parse(&[num(1)], false, b'F'), vec![CSI::Cursor(Cursor::PrecedingLine(1))]);
    assert_eq!(CSI::parse(&[num(7)], false, b'G'), vec![CSI::Cursor(Cursor::HorizontalPosition(7))]);
    assert_eq!(
        CSI::parse(&[num(2), semi(), num(5)], false, b'H'),
        vec![CSI::Cursor(Cursor::Position { line: 2, col: 5 })]
    );
    assert_eq!(CSI::parse(&[], false, b'H'), vec![CSI::Cursor(Cursor::Position { line: 1, col: 1 })]);
}

#[test]
fn csi_other_sequences_are_kept_raw() {
    let r = CSI::parse(&[num(2)], true, b'J');
    assert_eq!(r.len(), 1);
    match &r[0] {
        CSI::Unspecified(u) => {
            assert_eq!(u.control, 'J');
            assert_eq!(u.params, vec![num(2)]);
            assert!(u.parameters_truncated);
        }
        other => panic!("unexpected {other:?}"),
    }
}

#[test]
fn osc_text_size() {
    let r = OSC::parse(&[b"66", b"s=2:w=3:v=1", b"hi"]);
    assert_eq!(
        r,
        OSC::TextSize(
            "hi".to_string(),
            TextSize { scale: 2, width: 3, numerator: 0, denominator: 0, vertical_align: 1, horizontal_align: 0 }
        )
    );
}

#[test]
fn osc_text_size_bad_values_count_as_zero() {
    let r = OSC::parse(&[b"66", b"s=x:n=7:q=4", b"t"]);
    assert_eq!(
        r,
        OSC::TextSize(
            "t".to_string(),
            TextSize { scale: 0, width: 0, numerator: 7, denominator: 0, vertical_align: 0, horizontal_align: 0 }
        )
    );
}

#[test]
fn osc_text_that_is_not_utf8_is_empty() {
    let bad: &[u8] = &[0xff, 0xfe];
    let r = OSC::parse(&[b"66", b"s=1", bad]);
    assert_eq!(
        r,
        OSC::TextSize(
            String::new(),
            TextSize { scale: 1, width: 0, numerator: 0, denominator: 0, vertical_align: 0, horizontal_align: 0 }
        )
    );
}

#[test]
fn osc_other_commands_are_unknown() {
    assert_eq!(OSC::parse(&[b"0", b"title"]), OSC::Unknown);
    assert_eq!(OSC::parse(&[b"x"]), OSC::Unknown);
    assert_eq!(OSC::parse(&[]), OSC::Unknown);
}

#[test]
fn osc_decodable_fields() {
    assert!(osc_fields_decodable(&[b"0", b"title"]));
    assert!(osc_fields_decodable(&[b"66", b"s=1", b"x"]));
    assert!(!osc_fields_decodable(&[b"66", b"s=1"]));
    assert!(!osc_fields_decodable(&[b"66", b"", b"x"]));
    assert!(!osc_fields_decodable(&[b"66", b"s", b"x"]));
}

#[test]
fn colours_as_css() {
    assert_eq!(SrgbaTuple { r: 255, g: 0, b: 16 }.to_string(), "#ff010");
    assert_eq!(ColorSpec::PaletteIndex(3).to_hex("d".to_string()), "var(--palette-3)");
    assert_eq!(ColorSpec::PaletteIndex(200).to_hex("d".to_string()), "var(--palette-200)");
    assert_eq!(ColorSpec::Default.to_hex("d".to_string()), "d");
    assert_eq!(ColorSpec::TrueColor(SrgbaTuple { r: 1, g: 2, b: 171 }).to_hex("d".to_string()), "#12ab");
}

#[test]
fn csi_param_as_integer() {
    assert_eq!(num(5).as_integer(), Some(5));
    assert_eq!(semi().as_integer(), None);
}

#[test]
fn actor_collects_actions() {
    let mut a = Actor::new();
    a.print('x');
    a.execute_c0_or_c1(10);
    a.execute_c0_or_c1(13);
    a.execute_c0_or_c1(8);
    a.execute_c0_or_c1(7);
    a.execute_c0_or_c1(9);
    a.execute_c0_or_c1(0);
    a.esc_dispatch(&[], b"(", false, b'B');
    a.csi_dispatch(&[num(1), semi(), num(31)], false, b'm');
    a.osc_dispatch(&[b"66", b"s=3", b"big"]);
    a.apc_dispatch(vec![1, 2, 3]);
    a.dcs_put(5);
    a.dcs_unhook();
    assert_eq!(
        a.actions,
        vec![
            Action::Print('x'),
            Action::Control(ControlCode::LineFeed),
            Action::Control(ControlCode::CarriageReturn),
            Action::Control(ControlCode::Backspace),
            Action::Control(ControlCode::Bell),
            Action::Control(ControlCode::HorizontalTab),
            Action::Esc(Esc::Code(EscCode::SelectCharacterSet(b'B'))),
            Action::CSI(CSI::Sgr(Sgr::Intensity(Intensity::Bold))),
            Action::CSI(CSI::Sgr(Sgr::Foreground(ColorSpec::PaletteIndex(1)))),
            Action::OSC(Box::new(OSC::TextSize(
                "big".to_string(),
                TextSize { scale: 3, width: 0, numerator: 0, denominator: 0, vertical_align: 0, horizontal_align: 0 }
            ))),
            Action::DeviceControl(DeviceControlMode::Data(5)),
            Action::DeviceControl(DeviceControlMode::Exit),
        ]
    );
}

#[test]
fn actor_device_control_hook() {
    let mut a = Actor::new();
    a.dcs_hook(b'q', &[1, 2], b"$", true);
    assert_eq!(a.actions.len(), 1);
    assert_eq!(
        format!("{:?}", a.actions[0]),
        "DeviceControl(Enter(EnterDeviceControlMode { byte: 113, params: [1, 2], intermediates: [36], ignore_excess_intermediates: true }))"
    );
}

#[test]
fn parser_decodes_bytes_into_actions() {
    let mut p = Parser::new();
    let actions = p.parse_as_vec(b"hi\x1b[2A\r\n\x07\x01").unwrap();
    assert_eq!(
        actions,
        vec![
            Action::Print('h'),
            Action::Print('i'),
            Action::CSI(CSI::Cursor(Cursor::Up(2))),
            Action::Control(ControlCode::CarriageReturn),
            Action::Control(ControlCode::LineFeed),
            Action::Control(ControlCode::Bell),
        ]
    );
}

#[test]
fn parser_keeps_a_sequence_split_over_two_reads() {
    let mut p = Parser::new();
    assert_eq!(p.parse_as_vec(b"a\x1b[").unwrap(), vec![Action::Print('a')]);
    assert_eq!(p.parse_as_vec(b"3B").unwrap(), vec![Action::CSI(CSI::Cursor(Cursor::Down(3)))]);
}

#[test]
fn parser_refuses_an_extended_colour_without_its_parameters() {
    let mut p = Parser::new();
    assert_eq!(p.parse_as_vec(b"\x1b[38;5m"), None);
    let d = p.parse(b"x\x1b[38;5m");
    assert_eq!(d.len(), 2);
    assert!(dispatch_decodable(&d[0]));
    assert!(!dispatch_decodable(&d[1]));
    assert_eq!(actions_of(&d), None);
}

#[test]
fn dispatches_become_actions_in_order() {
    let d = vec![
        Dispatch::Print('q'),
        Dispatch::ExecuteC0orC1(0x0d),
        Dispatch::ExecuteC0orC1(0x05),
        Dispatch::CsiDispatch { params: vec![CsiParam::Integer(4)], parameters_truncated: false, byte: b'C' },
        Dispatch::ApcDispatch(vec![1, 2]),
        Dispatch::DcsPut(7),
        Dispatch::DcsUnhook,
    ];
    assert_eq!(
        actions_of(&d).unwrap(),
        vec![
            Action::Print('q'),
            Action::Control(ControlCode::CarriageReturn),
            Action::CSI(CSI::Cursor(Cursor::Right(4))),
            Action::DeviceControl(DeviceControlMode::Data(7)),
            Action::DeviceControl(DeviceControlMode::Exit),
        ]
    );
}
