//! Escape-sequence actions produced by the terminal output decoder.
//!
//! The byte-level state machine is `vtparse`'s; `Actor` receives its
//! dispatches and turns each one into the actions the terminal consumes.

pub mod csi;
pub mod esc;
pub mod osc;
pub mod params;
pub mod parser;
pub mod sgr;

pub use csi::CSI;
pub use esc::{Esc, EscCode};
pub use osc::OSC;
pub use params::CsiParam;

use vstd::prelude::*;
use crate::escape::csi::{csi_readable, csi_parse_result};
use crate::escape::osc::{osc_decodable, osc_parse_result, byte_strings};
use crate::escape::esc::spec_esc;

verus! {

/// One thing the terminal output asks of the terminal.
#[derive(Debug, PartialEq, Clone)]
pub enum Action {
    Print(char),
    PrintString(String),
    DeviceControl(DeviceControlMode),
    Sixel(Box<Sixel>),
    KittyImage(Box<KittyImage>),
    Esc(Esc),
    Control(ControlCode),
    CSI(CSI),
    OSC(Box<OSC>),
    XtGetTcap(u32),
}

#[derive(Debug, PartialEq, Eq, Clone, Copy)]
pub enum ControlCode {
    LineFeed,
    CarriageReturn,
    Backspace,
    Null,
    Bell,
    HorizontalTab,
    VerticalTab,
}

#[derive(Debug, PartialEq, Eq, Clone, Copy)]
pub struct KittyImage {}

/// A sixel image: the data of its device control string.
#[derive(Debug, PartialEq, Eq, Clone)]
pub struct Sixel {
    pub data: Vec<u8>,
}

#[derive(Debug, PartialEq, Clone)]
pub enum DeviceControlMode {
    TmuxEvents(u32),
    ShortDeviceControl(u32),
    Data(u8),
    Exit,
    Enter(Box<EnterDeviceControlMode>),
}

#[derive(Debug, PartialEq, Clone)]
pub struct EnterDeviceControlMode {
    byte: u8,
    params: Vec<i64>,
    intermediates: Vec<u8>,
    ignore_excess_intermediates: bool,
}

impl EnterDeviceControlMode {
    pub closed spec fn spec_byte(&self) -> u8 {
        self.byte
    }

    pub closed spec fn spec_params(&self) -> Seq<i64> {
        self.params@
    }

    pub closed spec fn spec_intermediates(&self) -> Seq<u8> {
        self.intermediates@
    }

    pub closed spec fn spec_ignore_excess_intermediates(&self) -> bool {
        self.ignore_excess_intermediates
    }
}

/// The control code that a C0 or C1 byte stands for, if it is one the
/// terminal acts on (BEL, BS, HT, LF, CR).
pub open spec fn spec_control(b: u8) -> Option<ControlCode> {
    if b == 7 {
        Some(ControlCode::Bell)
    } else if b == 8 {
        Some(ControlCode::Backspace)
    } else if b == 9 {
        Some(ControlCode::HorizontalTab)
    } else if b == 10 {
        Some(ControlCode::LineFeed)
    } else if b == 13 {
        Some(ControlCode::CarriageReturn)
    } else {
        None
    }
}

fn copy_slice<T: Copy>(s: &[T]) -> (v: Vec<T>)
    ensures
        v@ == s@,
{
    let mut v: Vec<T> = Vec::new();
    let mut i: usize = 0;
    while i < s.len()
        invariant
            i <= s@.len(),
            v@ == s@.subrange(0, i as int),
        decreases s.len() - i,
    {
        v.push(s[i]);
        i = i + 1;
    }
    assert(v@ =~= s@);
    v
}

/// Receives the dispatches of the byte-level decoder and collects the
/// actions they stand for, in order.
pub struct Actor {
    pub actions: Vec<Action>,
}

impl Actor {
    pub fn new() -> (a: Actor)
        ensures
            a.actions@.len() == 0,
    {
        Actor { actions: Vec::new() }
    }

    /// A printable character.
    pub fn print(&mut self, b: char)
        ensures
            final(self).actions@ == old(self).actions@.push(Action::Print(b)),
    {
        self.actions.push(Action::Print(b));
    }

    /// A C0 or C1 control byte: BEL, BS, HT, LF and CR become control
    /// actions, the others are dropped.
    pub fn execute_c0_or_c1(&mut self, b: u8)
        ensures
            match spec_control(b) {
                Some(c) => final(self).actions@ == old(self).actions@.push(Action::Control(c)),
                None => final(self).actions@ == old(self).actions@,
            },
    {
        let code = if b == 7 {
            Some(ControlCode::Bell)
        } else if b == 8 {
            Some(ControlCode::Backspace)
        } else if b == 9 {
            Some(ControlCode::HorizontalTab)
        } else if b == 10 {
            Some(ControlCode::LineFeed)
        } else if b == 13 {
            Some(ControlCode::CarriageReturn)
        } else {
            None
        };
        if let Some(c) = code {
            self.actions.push(Action::Control(c));
        }
    }

    /// The start of a device control string.
    pub fn dcs_hook(&mut self, byte: u8, params: &[i64], intermediates: &[u8], ignore_excess_intermediates: bool)
        ensures
            final(self).actions@.len() == old(self).actions@.len() + 1,
            final(self).actions@.drop_last() == old(self).actions@,
            final(self).actions@.last() matches Action::DeviceControl(DeviceControlMode::Enter(e))
                && e.spec_byte() == byte
                && e.spec_params() == params@
                && e.spec_intermediates() == intermediates@
                && e.spec_ignore_excess_intermediates() == ignore_excess_intermediates,
    {
        let enter = EnterDeviceControlMode {
            byte,
            params: copy_slice(params),
            intermediates: copy_slice(intermediates),
            ignore_excess_intermediates,
        };
        self.actions.push(Action::DeviceControl(DeviceControlMode::Enter(Box::new(enter))));
        assert(self.actions@.drop_last() =~= old(self).actions@);
    }

    /// One byte of a device control string.
    pub fn dcs_put(&mut self, data: u8)
        ensures
            final(self).actions@ == old(self).actions@.push(Action::DeviceControl(DeviceControlMode::Data(data))),
    {
        self.actions.push(Action::DeviceControl(DeviceControlMode::Data(data)));
    }

    /// The end of a device control string.
    pub fn dcs_unhook(&mut self)
        ensures
            final(self).actions@ == old(self).actions@.push(Action::DeviceControl(DeviceControlMode::Exit)),
    {
        self.actions.push(Action::DeviceControl(DeviceControlMode::Exit));
    }

    /// An `ESC` sequence, decoded from its first intermediate and final byte.
    pub fn esc_dispatch(&mut self, params: &[i64], intermediates: &[u8], ignore_excess_intermediates: bool, control: u8)
        ensures
            final(self).actions@ == old(self).actions@.push(Action::Esc(spec_esc(
                if intermediates@.len() > 0 { Some(intermediates@[0]) } else { None },
                control,
            ))),
    {
        let first = if intermediates.len() > 0 { Some(intermediates[0]) } else { None };
        let esc = Esc::parse(first, control);
        self.actions.push(Action::Esc(esc));
    }

    /// A control sequence: each decoded `CSI` becomes one action.
    pub fn csi_dispatch(&mut self, params: &[CsiParam], parameters_truncated: bool, byte: u8)
        requires
            csi_readable(params@, byte),
        ensures
            exists|csis: Seq<CSI>| {
                &&& final(self).actions@ == old(self).actions@ + csis.map_values(|c: CSI| Action::CSI(c))
                &&& #[trigger] csi_parse_result(csis, params@, parameters_truncated, byte)
            },
    {
        let mut csis = CSI::parse(params, parameters_truncated, byte);
        let ghost all = csis@;
        let ghost start = self.actions@;
        let ghost mut k: int = 0;
        while csis.len() > 0
            invariant
                0 <= k <= all.len(),
                csis@ == all.skip(k),
                self.actions@ == start + all.take(k).map_values(|c: CSI| Action::CSI(c)),
            decreases csis.len(),
        {
            let c = csis.remove(0);
            self.actions.push(Action::CSI(c));
            assert(all.take(k + 1).map_values(|c: CSI| Action::CSI(c)) =~= all.take(k).map_values(|c: CSI| Action::CSI(c)).push(Action::CSI(c)));
            proof {
                k = k + 1;
            }
            assert(csis@ =~= all.skip(k));
        }
        assert(all.take(k) =~= all);
    }

    /// An operating system command.
    pub fn osc_dispatch(&mut self, osc: &[&[u8]])
        requires
            osc_decodable(byte_strings(osc@)),
        ensures
            final(self).actions@.len() == old(self).actions@.len() + 1,
            final(self).actions@.drop_last() == old(self).actions@,
            final(self).actions@.last() matches Action::OSC(o) && osc_parse_result(*o, byte_strings(osc@)),
    {
        let o = OSC::parse(osc);
        self.actions.push(Action::OSC(Box::new(o)));
        assert(self.actions@.drop_last() =~= old(self).actions@);
    }

    /// An application program command; kitty images are not drawn, so it is dropped.
    pub fn apc_dispatch(&mut self, data: Vec<u8>)
        ensures
            final(self).actions@ == old(self).actions@,
    {
    }
}

/// Exactly five control bytes are acted on: 7 rings the bell, 8 is a
/// backspace, 9 a horizontal tab, 10 a line feed and 13 a carriage return.
pub proof fn law_control_bytes(b: u8)
    ensures
        (spec_control(b) == Some(ControlCode::Bell)) <==> b == 7,
        (spec_control(b) == Some(ControlCode::Backspace)) <==> b == 8,
        (spec_control(b) == Some(ControlCode::HorizontalTab)) <==> b == 9,
        (spec_control(b) == Some(ControlCode::LineFeed)) <==> b == 10,
        (spec_control(b) == Some(ControlCode::CarriageReturn)) <==> b == 13,
        spec_control(b) is None <==> !(b == 7 || b == 8 || b == 9 || b == 10 || b == 13),
{
}

/// `ESC ( c` selects the character set `c`; an escape sequence with any
/// other intermediate byte, or none, is kept undecoded with its bytes.
pub proof fn law_esc_sequences(intermediate: Option<u8>, c: u8)
    ensures
        crate::escape::esc::spec_esc(Some(0x28u8), c) == Esc::Code(EscCode::SelectCharacterSet(c)),
        intermediate != Some(0x28u8) ==> crate::escape::esc::spec_esc(intermediate, c)
            == (Esc::Unspecified { intermediate, control: c }),
{
}

} // verus!
