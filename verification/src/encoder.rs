use vstd::prelude::*;

use crate::color::RGBColor;
use crate::errors::EncodeError;

verus! {

/// Number of bytes in one output report: the report-id byte the HID layer
/// strips off, followed by the fixed 32-byte data frame the firmware's
/// report descriptor dictates.
pub const REPORT_LEN: usize = 33;

/// Report id of the vendor-specific lighting interface.
pub const REPORT_ID: u8 = 0;

/// Command opcode: set a static RGB color.
pub const OPCODE_SET_COLOR: u8 = 1;

/// Command opcode: select a lighting animation mode.
pub const OPCODE_SET_MODE: u8 = 2;

/// How many animation modes the target firmware's mode table defines;
/// mode identifiers are the contiguous range below this count.
pub const MODE_COUNT: u8 = 8;

/// Identifier of one firmware lighting animation mode. Any byte can be
/// carried; only values below [`MODE_COUNT`] are defined.
#[derive(Clone, Copy, Debug, PartialEq, Eq, Structural)]
pub struct ModeId(pub u8);

/// Whether a mode identifier names a defined firmware mode.
pub open spec fn mode_defined(m: ModeId) -> bool {
    m.0 < MODE_COUNT
}

/// One abstract lighting command from the UI, consumed once by the
/// encoder.
#[derive(Clone, Copy, Debug, PartialEq, Eq, Structural)]
pub enum LightingIntent {
    SetColor(RGBColor),
    SetMode(ModeId),
}

/// Whether the encoder accepts the intent: every color does, a mode only
/// when the firmware defines it.
pub open spec fn intent_encodable(i: LightingIntent) -> bool {
    match i {
        LightingIntent::SetColor(_) => true,
        LightingIntent::SetMode(m) => mode_defined(m),
    }
}

/// Byte `i` of the set-color report for `c`: report id, opcode, the three
/// channel bytes carried through unchanged, zero padding to the fixed
/// length.
pub open spec fn color_report_byte(c: RGBColor, i: int) -> u8 {
    if i == 0 {
        REPORT_ID
    } else if i == 1 {
        OPCODE_SET_COLOR
    } else if i == 2 {
        c.red
    } else if i == 3 {
        c.green
    } else if i == 4 {
        c.blue
    } else {
        0u8
    }
}

/// The full set-color report for `c`.
pub open spec fn color_report_bytes(c: RGBColor) -> Seq<u8> {
    Seq::new(REPORT_LEN as nat, |i: int| color_report_byte(c, i))
}

/// Byte `i` of the set-mode report for `m`.
pub open spec fn mode_report_byte(m: ModeId, i: int) -> u8 {
    if i == 0 {
        REPORT_ID
    } else if i == 1 {
        OPCODE_SET_MODE
    } else if i == 2 {
        m.0
    } else {
        0u8
    }
}

/// The full set-mode report for `m`.
pub open spec fn mode_report_bytes(m: ModeId) -> Seq<u8> {
    Seq::new(REPORT_LEN as nat, |i: int| mode_report_byte(m, i))
}

/// The report sequence an encodable intent turns into. Both commands fit
/// one report today; the session layer nevertheless handles a sequence,
/// as multi-report commands would produce one.
pub open spec fn encoded_reports(i: LightingIntent) -> Seq<Seq<u8>> {
    match i {
        LightingIntent::SetColor(c) => seq![color_report_bytes(c)],
        LightingIntent::SetMode(m) => seq![mode_report_bytes(m)],
    }
}

/// One fixed-layout HID output report, ready to hand to the OS write.
#[derive(Debug, PartialEq, Eq)]
pub struct FixedLayoutReport {
    pub bytes: Vec<u8>,
}

impl View for FixedLayoutReport {
    type V = Seq<u8>;

    open spec fn view(&self) -> Seq<u8> {
        self.bytes@
    }
}

/// The view of a report vector: the plain byte sequences it carries.
pub open spec fn reports_view(v: Seq<FixedLayoutReport>) -> Seq<Seq<u8>> {
    v.map_values(|r: FixedLayoutReport| r@)
}

fn color_report(c: &RGBColor) -> (r: FixedLayoutReport)
    ensures
        r@ == color_report_bytes(*c),
{
    let mut bytes: Vec<u8> = Vec::new();
    bytes.push(REPORT_ID);
    bytes.push(OPCODE_SET_COLOR);
    bytes.push(c.red);
    bytes.push(c.green);
    bytes.push(c.blue);
    while bytes.len() < REPORT_LEN
        invariant
            5 <= bytes@.len() <= REPORT_LEN,
            forall|j: int| 0 <= j < bytes@.len() ==> bytes@[j] == color_report_byte(*c, j),
        decreases REPORT_LEN - bytes@.len(),
    {
        bytes.push(0u8);
    }
    proof {
        assert(bytes@ =~= color_report_bytes(*c));
    }
    FixedLayoutReport { bytes }
}

fn mode_report(m: &ModeId) -> (r: FixedLayoutReport)
    ensures
        r@ == mode_report_bytes(*m),
{
    let mut bytes: Vec<u8> = Vec::new();
    bytes.push(REPORT_ID);
    bytes.push(OPCODE_SET_MODE);
    bytes.push(m.0);
    while bytes.len() < REPORT_LEN
        invariant
            3 <= bytes@.len() <= REPORT_LEN,
            forall|j: int| 0 <= j < bytes@.len() ==> bytes@[j] == mode_report_byte(*m, j),
        decreases REPORT_LEN - bytes@.len(),
    {
        bytes.push(0u8);
    }
    proof {
        assert(bytes@ =~= mode_report_bytes(*m));
    }
    FixedLayoutReport { bytes }
}

/// Turn one lighting intent into the report sequence the firmware
/// expects. Pure and total over the intent domain: every color and every
/// defined mode encodes, channel bytes are carried through unchanged, and
/// only an undefined mode identifier is refused.
pub fn encode(intent: &LightingIntent) -> (r: Result<Vec<FixedLayoutReport>, EncodeError>)
    ensures
        intent_encodable(*intent) ==> (r matches Ok(v) && reports_view(v@) == encoded_reports(
            *intent,
        )),
        !intent_encodable(*intent) ==> r == Err::<Vec<FixedLayoutReport>, EncodeError>(
            EncodeError::UnknownMode,
        ),
{
    match intent {
        LightingIntent::SetColor(c) => {
            let mut v: Vec<FixedLayoutReport> = Vec::new();
            v.push(color_report(c));
            proof {
                assert(reports_view(v@) =~= encoded_reports(*intent));
            }
            Ok(v)
        },
        LightingIntent::SetMode(m) => {
            if m.0 < MODE_COUNT {
                let mut v: Vec<FixedLayoutReport> = Vec::new();
                v.push(mode_report(m));
                proof {
                    assert(reports_view(v@) =~= encoded_reports(*intent));
                }
                Ok(v)
            } else {
                Err(EncodeError::UnknownMode)
            }
        },
    }
}

/// What a well-formed set-color report decodes back to: the color carried
/// in its payload, or nothing if length, report id or opcode disagree
/// with the set-color layout.
pub open spec fn decoded_color(bytes: Seq<u8>) -> Option<RGBColor> {
    if bytes.len() == REPORT_LEN && bytes[0] == REPORT_ID && bytes[1] == OPCODE_SET_COLOR {
        Some(RGBColor { red: bytes[2], green: bytes[3], blue: bytes[4] })
    } else {
        None
    }
}

/// Read the color back out of a set-color report; the inverse of the
/// encoder on that command's layout.
pub fn decode_color_report(report: &FixedLayoutReport) -> (r: Option<RGBColor>)
    ensures
        r == decoded_color(report@),
{
    if report.bytes.len() == REPORT_LEN {
        let b0 = report.bytes[0];
        let b1 = report.bytes[1];
        if b0 == REPORT_ID && b1 == OPCODE_SET_COLOR {
            Some(RGBColor { red: report.bytes[2], green: report.bytes[3], blue: report.bytes[4] })
        } else {
            None
        }
    } else {
        None
    }
}

/// Round trip without quantization loss: for every color, decoding the
/// report that `encode(SetColor(c))` produces recovers exactly `c`.
pub proof fn lemma_color_round_trip(c: RGBColor)
    ensures
        encoded_reports(LightingIntent::SetColor(c)).len() == 1,
        decoded_color(encoded_reports(LightingIntent::SetColor(c))[0]) == Some(c),
{
    let bytes = color_report_bytes(c);
    assert(bytes[0] == REPORT_ID);
    assert(bytes[1] == OPCODE_SET_COLOR);
    assert(bytes[2] == c.red);
    assert(bytes[3] == c.green);
    assert(bytes[4] == c.blue);
}

} // verus!
