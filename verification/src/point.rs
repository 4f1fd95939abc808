use vstd::prelude::*;

verus! {

/// Marker types for series points.
///
/// Determines the shape drawn for each data point in a series.
#[derive(Debug, Clone, Copy, PartialEq, Eq, Structural)]
pub enum MarkerType {
    /// A filled circle.
    FilledCircle,
    /// An empty circle (ring).
    EmptyCircle,
    /// A square.
    Square,
    /// A star shape.
    Star,
    /// A triangle.
    Triangle,
}

/// Code that the renderer reads as "this series draws no marker".
pub const NO_MARKER: u32 = 0xffff_ffffu32;

/// The numeric code of a marker type, as the shaders read it.
pub open spec fn marker_code(m: MarkerType) -> u32 {
    match m {
        MarkerType::FilledCircle => 0,
        MarkerType::EmptyCircle => 1,
        MarkerType::Square => 2,
        MarkerType::Star => 3,
        MarkerType::Triangle => 4,
    }
}

/// The marker type that a numeric code stands for; unknown codes fall back to
/// a filled circle.
pub open spec fn marker_of_code(code: u32) -> MarkerType {
    if code == 1 {
        MarkerType::EmptyCircle
    } else if code == 2 {
        MarkerType::Square
    } else if code == 3 {
        MarkerType::Star
    } else if code == 4 {
        MarkerType::Triangle
    } else {
        MarkerType::FilledCircle
    }
}

/// The code of an optional marker: the marker's code, or [`NO_MARKER`].
pub open spec fn optional_marker_code(m: Option<MarkerType>) -> u32 {
    match m {
        Some(t) => marker_code(t),
        None => NO_MARKER,
    }
}

impl MarkerType {
    /// The numeric code of this marker type.
    pub fn to_u32(self) -> (code: u32)
        ensures
            code == marker_code(self),
    {
        match self {
            MarkerType::FilledCircle => 0,
            MarkerType::EmptyCircle => 1,
            MarkerType::Square => 2,
            MarkerType::Star => 3,
            MarkerType::Triangle => 4,
        }
    }
}

/// Decode a marker code; unknown codes give a filled circle.
pub fn marker_type_from_u32(marker: u32) -> (m: MarkerType)
    ensures
        m == marker_of_code(marker),
{
    match marker {
        0 => MarkerType::FilledCircle,
        1 => MarkerType::EmptyCircle,
        2 => MarkerType::Square,
        3 => MarkerType::Star,
        4 => MarkerType::Triangle,
        _ => MarkerType::FilledCircle,
    }
}

/// The code of an optional marker, [`NO_MARKER`] when there is none.
pub fn optional_marker_to_u32(m: Option<MarkerType>) -> (code: u32)
    ensures
        code == optional_marker_code(m),
{
    match m {
        Some(t) => t.to_u32(),
        None => NO_MARKER,
    }
}

/// Decoding the code of a marker type gives that marker type back.
pub proof fn lemma_marker_code_roundtrip(m: MarkerType)
    ensures
        marker_of_code(marker_code(m)) == m,
{
}

/// Every code below five is the code of the marker type it decodes to, and
/// no marker type has the code [`NO_MARKER`].
pub proof fn lemma_marker_codes_exact(code: u32)
    ensures
        code < 5 ==> marker_code(marker_of_code(code)) == code,
        code >= 5 ==> marker_of_code(code) == MarkerType::FilledCircle,
        forall|m: MarkerType| marker_code(m) != NO_MARKER,
{
}

} // verus!
