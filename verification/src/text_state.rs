//! Text rendering modes (PDF text state parameter `Tr`).

use vstd::prelude::*;

verus! {

/// Text rendering modes as listed by the PDF specification.
#[derive(Clone, Copy, Debug, PartialEq, Eq, Structural)]
pub enum RenderingMode {
    Fill,
    Stroke,
    FillStroke,
    Neither,
    FillClip,
    StrokeClip,
    FillStrokeClip,
    NeitherClip,
}

impl RenderingMode {
    /// The number the PDF specification gives to each mode.
    pub open spec fn code(self) -> int {
        match self {
            RenderingMode::Fill => 0,
            RenderingMode::Stroke => 1,
            RenderingMode::FillStroke => 2,
            RenderingMode::Neither => 3,
            RenderingMode::FillClip => 4,
            RenderingMode::StrokeClip => 5,
            RenderingMode::FillStrokeClip => 6,
            RenderingMode::NeitherClip => 7,
        }
    }

    /// Decodes a `Tr` operand; values outside 0..=7 select `Fill`.
    pub fn from_i64(val: i64) -> (r: Self)
        ensures
            0 <= val <= 7 ==> r.code() == val,
            !(0 <= val <= 7) ==> r == RenderingMode::Fill,
    {
        match val {
            0 => RenderingMode::Fill,
            1 => RenderingMode::Stroke,
            2 => RenderingMode::FillStroke,
            3 => RenderingMode::Neither,
            4 => RenderingMode::FillClip,
            5 => RenderingMode::StrokeClip,
            6 => RenderingMode::FillStrokeClip,
            7 => RenderingMode::NeitherClip,
            _ => RenderingMode::Fill,
        }
    }

    /// Whether glyphs are filled in this mode.
    pub fn is_fill(&self) -> (r: bool)
        ensures
            r == (self.code() == 0 || self.code() == 2 || self.code() == 4 || self.code() == 6),
    {
        match self {
            RenderingMode::Fill | RenderingMode::FillStroke | RenderingMode::FillClip
            | RenderingMode::FillStrokeClip => true,
            _ => false,
        }
    }

    /// Whether glyphs are stroked in this mode.
    pub fn is_stroke(&self) -> (r: bool)
        ensures
            r == (self.code() == 1 || self.code() == 2 || self.code() == 5 || self.code() == 6),
    {
        match self {
            RenderingMode::Stroke | RenderingMode::FillStroke | RenderingMode::StrokeClip
            | RenderingMode::FillStrokeClip => true,
            _ => false,
        }
    }

    /// Whether glyph outlines are added to the clipping path in this mode.
    pub fn is_clip(&self) -> (r: bool)
        ensures
            r == (self.code() >= 4),
    {
        match self {
            RenderingMode::FillClip | RenderingMode::StrokeClip | RenderingMode::FillStrokeClip
            | RenderingMode::NeitherClip => true,
            _ => false,
        }
    }
}

/// Every mode is the decoding of its own number, and every number in
/// `0..=7` names exactly one mode.
pub proof fn lemma_rendering_mode_code_roundtrip(m: RenderingMode, n: RenderingMode)
    ensures
        0 <= m.code() <= 7,
        m.code() == n.code() ==> m == n,
{
}

} // verus!
