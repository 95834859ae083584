//! Decoding the bytes a program writes: the byte-level state machine of
//! vtparse finds the printable characters and the control, escape, device
//! control, operating system and application sequences among them, and the
//! library's `Actor` turns each of those into terminal actions.

use vstd::prelude::*;
use crate::escape::{spec_control, Action, Actor, DeviceControlMode, CsiParam, CSI};
use crate::escape::csi::{csi_decodable, csi_parse_result, csi_readable};
use crate::escape::esc::spec_esc;
use crate::escape::osc::{byte_strings, osc_decodable, osc_fields_decodable, osc_parse_result};
use crate::escape::sgr::spec_sgr_parse;
use vtparse::{CollectingVTActor, VTAction, VTParser};
use vtparse::CsiParam as VtParam;

verus! {

#[verifier::external_type_specification]
#[verifier::external_body]
pub struct ExVTParser(vtparse::VTParser);

#[verifier::external_type_specification]
#[verifier::external_body]
pub struct ExVTAction(vtparse::VTAction);

#[verifier::external_type_specification]
#[verifier::external_body]
pub struct ExVtParam(VtParam);

/// vtparse's `VTParser::new`: a parser in its ground state.
pub assume_specification[ vtparse::VTParser::new ]() -> (p: vtparse::VTParser);

/// One dispatch of the byte-level decoder: what it found in the bytes.
#[derive(Debug, Clone)]
pub enum Dispatch {
    Print(char),
    ExecuteC0orC1(u8),
    DcsHook { params: Vec<i64>, intermediates: Vec<u8>, ignored_excess_intermediates: bool, byte: u8 },
    DcsPut(u8),
    DcsUnhook,
    EscDispatch { params: Vec<i64>, intermediates: Vec<u8>, ignored_excess_intermediates: bool, byte: u8 },
    CsiDispatch { params: Vec<CsiParam>, parameters_truncated: bool, byte: u8 },
    OscDispatch(Vec<Vec<u8>>),
    ApcDispatch(Vec<u8>),
}

/// vtparse's `CsiParam` as the library's.
#[verifier::external_body]
fn csi_params_of(params: Vec<VtParam>) -> (v: Vec<CsiParam>) {
    params.into_iter().map(|p| match p {
        VtParam::Integer(i) => CsiParam::Integer(i),
        VtParam::P(b) => CsiParam::P(b),
    }).collect()
}

/// vtparse's `VTAction` as the library's `Dispatch`, variant for variant.
#[verifier::external_body]
fn dispatch_of(a: vtparse::VTAction) -> (d: Dispatch) {
    match a {
        VTAction::Print(c) => Dispatch::Print(c),
        VTAction::ExecuteC0orC1(b) => Dispatch::ExecuteC0orC1(b),
        VTAction::DcsHook { params, intermediates, ignored_excess_intermediates, byte } => Dispatch::DcsHook { params, intermediates, ignored_excess_intermediates, byte },
        VTAction::DcsPut(b) => Dispatch::DcsPut(b),
        VTAction::DcsUnhook => Dispatch::DcsUnhook,
        VTAction::EscDispatch { params, intermediates, ignored_excess_intermediates, byte } => Dispatch::EscDispatch { params, intermediates, ignored_excess_intermediates, byte },
        VTAction::CsiDispatch { params, parameters_truncated, byte } => Dispatch::CsiDispatch { params: csi_params_of(params), parameters_truncated, byte },
        VTAction::OscDispatch(fields) => Dispatch::OscDispatch(fields),
        VTAction::ApcDispatch(data) => Dispatch::ApcDispatch(data),
    }
}

/// vtparse's `VTParser::parse`, collecting its dispatches with
/// `CollectingVTActor`. What comes out depends on the bytes and on the state
/// the parser was left in by earlier bytes (a sequence may span two calls),
/// and that state machine is not stated here: nothing is promised of the
/// dispatches.
#[verifier::external_body]
pub fn decode(parser: &mut vtparse::VTParser, input: &[u8]) -> (d: Vec<Dispatch>) {
    let mut actor = CollectingVTActor::default();
    parser.parse(input, &mut actor);
    actor.into_vec().into_iter().map(dispatch_of).collect()
}

/// The fields of an operating system command, as byte strings.
pub open spec fn field_views(fields: Seq<Vec<u8>>) -> Seq<Seq<u8>> {
    fields.map_values(|f: Vec<u8>| f@)
}

/// The first intermediate byte of an escape sequence, if it has one.
pub open spec fn first_intermediate(intermediates: Seq<u8>) -> Option<u8> {
    if intermediates.len() > 0 { Some(intermediates[0]) } else { None }
}

/// A dispatch the actor can decode: an SGR sequence has the parameters its
/// extended colours need, and a text-size command is well formed.
pub open spec fn dispatch_ok(d: Dispatch) -> bool {
    match d {
        Dispatch::CsiDispatch { params, byte, .. } => csi_readable(params@, byte),
        Dispatch::OscDispatch(fields) => osc_decodable(field_views(fields@)),
        _ => true,
    }
}

pub open spec fn dispatches_ok(ds: Seq<Dispatch>) -> bool {
    forall|i: int| 0 <= i < ds.len() ==> #[trigger] dispatch_ok(ds[i])
}

/// How many actions a dispatch becomes.
pub open spec fn dispatch_len(d: Dispatch) -> nat {
    match d {
        Dispatch::ExecuteC0orC1(b) => if spec_control(b) is Some { 1 } else { 0 },
        Dispatch::CsiDispatch { params, byte, .. } => if byte == 0x6d { spec_sgr_parse(params@).len() } else { 1 },
        Dispatch::ApcDispatch(_) => 0,
        _ => 1,
    }
}

/// The actions one dispatch becomes: a character is printed, BEL, BS, HT,
/// LF and CR are control actions (other control bytes are dropped), a
/// device control string is passed on, an escape sequence is decoded from
/// its first intermediate and final byte, a control sequence becomes the
/// sequences `CSI::parse` gives, an operating system command the one
/// `OSC::parse` gives, and an application command is dropped.
pub open spec fn dispatch_result(out: Seq<Action>, d: Dispatch) -> bool {
    match d {
        Dispatch::Print(c) => out == seq![Action::Print(c)],
        Dispatch::ExecuteC0orC1(b) => out == match spec_control(b) {
            Some(c) => seq![Action::Control(c)],
            None => Seq::<Action>::empty(),
        },
        Dispatch::DcsHook { params, intermediates, ignored_excess_intermediates, byte } => {
            &&& out.len() == 1
            &&& out[0] matches Action::DeviceControl(DeviceControlMode::Enter(e))
                && e.spec_byte() == byte
                && e.spec_params() == params@
                && e.spec_intermediates() == intermediates@
                && e.spec_ignore_excess_intermediates() == ignored_excess_intermediates
        },
        Dispatch::DcsPut(b) => out == seq![Action::DeviceControl(DeviceControlMode::Data(b))],
        Dispatch::DcsUnhook => out == seq![Action::DeviceControl(DeviceControlMode::Exit)],
        Dispatch::EscDispatch { intermediates, byte, .. } =>
            out == seq![Action::Esc(spec_esc(first_intermediate(intermediates@), byte))],
        Dispatch::CsiDispatch { params, parameters_truncated, byte } =>
            exists|csis: Seq<CSI>| {
                &&& out == csis.map_values(|c: CSI| Action::CSI(c))
                &&& #[trigger] csi_parse_result(csis, params@, parameters_truncated, byte)
            },
        Dispatch::OscDispatch(fields) => {
            &&& out.len() == 1
            &&& out[0] matches Action::OSC(o) && osc_parse_result(*o, field_views(fields@))
        },
        Dispatch::ApcDispatch(_) => out.len() == 0,
    }
}

/// How many actions a run of dispatches becomes.
pub open spec fn dispatches_len(ds: Seq<Dispatch>) -> nat
    decreases ds.len(),
{
    if ds.len() == 0 { 0 } else { dispatches_len(ds.drop_last()) + dispatch_len(ds.last()) }
}

/// The actions a run of dispatches becomes: those of each dispatch, one
/// after another, in order.
pub open spec fn actions_result(out: Seq<Action>, ds: Seq<Dispatch>) -> bool
    decreases ds.len(),
{
    if ds.len() == 0 {
        out.len() == 0
    } else {
        let n = dispatches_len(ds.drop_last());
        &&& out.len() == n + dispatch_len(ds.last())
        &&& actions_result(out.take(n as int), ds.drop_last())
        &&& dispatch_result(out.skip(n as int), ds.last())
    }
}

/// The fields of an operating system command, borrowed as slices.
fn field_slices(fields: &Vec<Vec<u8>>) -> (v: Vec<&[u8]>)
    ensures
        byte_strings(v@) == field_views(fields@),
{
    let mut v: Vec<&[u8]> = Vec::new();
    let mut i: usize = 0;
    while i < fields.len()
        invariant
            i <= fields@.len(),
            byte_strings(v@) == field_views(fields@.take(i as int)),
        decreases fields.len() - i,
    {
        let ghost before = v@;
        let s = fields[i].as_slice();
        v.push(s);
        assert(v@ == before.push(s));
        assert(s@ == fields@[i as int]@);
        assert(byte_strings(before.push(s)) =~= byte_strings(before).push(s@));
        assert(fields@.take(i + 1) =~= fields@.take(i as int).push(fields@[i as int]));
        assert(field_views(fields@.take(i as int).push(fields@[i as int]))
            =~= field_views(fields@.take(i as int)).push(fields@[i as int]@));
        i = i + 1;
    }
    assert(fields@.take(i as int) =~= fields@);
    v
}

/// Whether the actor can decode a dispatch.
pub fn dispatch_decodable(d: &Dispatch) -> (b: bool)
    ensures
        b == dispatch_ok(*d),
{
    match d {
        Dispatch::CsiDispatch { params, byte, .. } => csi_decodable(params.as_slice(), *byte),
        Dispatch::OscDispatch(fields) => {
            let slices = field_slices(fields);
            osc_fields_decodable(slices.as_slice())
        },
        _ => true,
    }
}

/// Hands one dispatch to the actor.
fn dispatch(actor: &mut Actor, d: &Dispatch)
    requires
        dispatch_ok(*d),
    ensures
        final(actor).actions@.len() == old(actor).actions@.len() + dispatch_len(*d),
        final(actor).actions@.take(old(actor).actions@.len() as int) == old(actor).actions@,
        dispatch_result(final(actor).actions@.skip(old(actor).actions@.len() as int), *d),
{
    let ghost start = actor.actions@;
    let ghost n = start.len() as int;
    match d {
        Dispatch::Print(c) => {
            actor.print(*c);
            assert(actor.actions@.skip(n) =~= seq![Action::Print(*c)]);
        },
        Dispatch::ExecuteC0orC1(b) => {
            actor.execute_c0_or_c1(*b);
            proof {
                match spec_control(*b) {
                    Some(c) => assert(actor.actions@.skip(n) =~= seq![Action::Control(c)]),
                    None => assert(actor.actions@.skip(n) =~= Seq::<Action>::empty()),
                }
            }
        },
        Dispatch::DcsHook { params, intermediates, ignored_excess_intermediates, byte } => {
            actor.dcs_hook(*byte, params.as_slice(), intermediates.as_slice(), *ignored_excess_intermediates);
            assert(actor.actions@.skip(n)[0] == actor.actions@.last());
        },
        Dispatch::DcsPut(b) => {
            actor.dcs_put(*b);
            assert(actor.actions@.skip(n) =~= seq![Action::DeviceControl(DeviceControlMode::Data(*b))]);
        },
        Dispatch::DcsUnhook => {
            actor.dcs_unhook();
            assert(actor.actions@.skip(n) =~= seq![Action::DeviceControl(DeviceControlMode::Exit)]);
        },
        Dispatch::EscDispatch { params, intermediates, ignored_excess_intermediates, byte } => {
            actor.esc_dispatch(params.as_slice(), intermediates.as_slice(), *ignored_excess_intermediates, *byte);
            assert(actor.actions@.skip(n) =~= seq![Action::Esc(spec_esc(first_intermediate(intermediates@), *byte))]);
        },
        Dispatch::CsiDispatch { params, parameters_truncated, byte } => {
            actor.csi_dispatch(params.as_slice(), *parameters_truncated, *byte);
            let ghost csis = choose|csis: Seq<CSI>| {
                &&& actor.actions@ == start + csis.map_values(|c: CSI| Action::CSI(c))
                &&& #[trigger] csi_parse_result(csis, params@, *parameters_truncated, *byte)
            };
            assert(actor.actions@.skip(n) =~= csis.map_values(|c: CSI| Action::CSI(c)));
        },
        Dispatch::OscDispatch(fields) => {
            let slices = field_slices(fields);
            actor.osc_dispatch(slices.as_slice());
            assert(actor.actions@.skip(n)[0] == actor.actions@.last());
        },
        Dispatch::ApcDispatch(data) => {
            actor.apc_dispatch(data.clone());
        },
    }
    assert(actor.actions@.take(n) =~= start);
}

/// The actions a run of dispatches stands for, in order; `None` when one of
/// them cannot be decoded (an SGR sequence missing the parameters of an
/// extended colour, or a malformed text-size command).
pub fn actions_of(d: &Vec<Dispatch>) -> (r: Option<Vec<Action>>)
    ensures
        r is Some <==> dispatches_ok(d@),
        r matches Some(a) ==> actions_result(a@, d@),
{
    let mut actor = Actor::new();
    let mut i: usize = 0;
    while i < d.len()
        invariant
            i <= d@.len(),
            forall|j: int| 0 <= j < i ==> #[trigger] dispatch_ok(d@[j]),
            actor.actions@.len() == dispatches_len(d@.take(i as int)),
            actions_result(actor.actions@, d@.take(i as int)),
        decreases d.len() - i,
    {
        if !dispatch_decodable(&d[i]) {
            return None;
        }
        let ghost before = actor.actions@;
        dispatch(&mut actor, &d[i]);
        proof {
            let ds = d@.take(i + 1);
            assert(ds.drop_last() =~= d@.take(i as int));
            assert(ds.last() == d@[i as int]);
            let n = dispatches_len(ds.drop_last());
            assert(actor.actions@.take(n as int) == before);
        }
        i = i + 1;
    }
    assert(d@.take(i as int) =~= d@);
    Some(actor.actions)
}

/// The decoder of a terminal's output: it keeps the byte-level state across
/// calls, so a sequence may arrive in pieces.
pub struct Parser {
    vtparser: VTParser,
}

impl Parser {
    pub fn new() -> (p: Parser) {
        Parser { vtparser: VTParser::new() }
    }

    /// What the byte-level decoder finds in the bytes.
    pub fn parse(&mut self, input: &[u8]) -> (d: Vec<Dispatch>) {
        decode(&mut self.vtparser, input)
    }

    /// The actions the bytes stand for, in order: those of each dispatch the
    /// byte-level decoder finds; `None` when one of them cannot be decoded.
    pub fn parse_as_vec(&mut self, input: &[u8]) -> (r: Option<Vec<Action>>)
        ensures
            r matches Some(a) ==> exists|d: Seq<Dispatch>| dispatches_ok(d) && #[trigger] actions_result(a@, d),
    {
        let d = self.parse(input);
        actions_of(&d)
    }
}

} // verus!
