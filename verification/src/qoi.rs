//! Qualifier-of-interrogation mapping: a closed set of seventeen group
//! selectors, each translated to one reserved single-byte protocol code.

use vstd::prelude::*;

verus! {

/// Reserved qualifier code for a station (global) interrogation.
pub const IEC60870_QOI_STATION: u8 = 20;

/// Selects which group of points a general interrogation command targets:
/// the whole station, or one of the sixteen interrogation groups.
#[derive(Clone, Copy, Debug, PartialEq, Eq, Structural)]
pub enum QualifierOfInterrogation {
    Station,
    Group1,
    Group2,
    Group3,
    Group4,
    Group5,
    Group6,
    Group7,
    Group8,
    Group9,
    Group10,
    Group11,
    Group12,
    Group13,
    Group14,
    Group15,
    Group16,
}

/// The single-byte code the protocol reserves for each qualifier: 20 for a
/// station interrogation, 21 through 36 for groups 1 through 16.
pub open spec fn qoi_code(q: QualifierOfInterrogation) -> u8 {
    match q {
        QualifierOfInterrogation::Station => 20,
        QualifierOfInterrogation::Group1 => 21,
        QualifierOfInterrogation::Group2 => 22,
        QualifierOfInterrogation::Group3 => 23,
        QualifierOfInterrogation::Group4 => 24,
        QualifierOfInterrogation::Group5 => 25,
        QualifierOfInterrogation::Group6 => 26,
        QualifierOfInterrogation::Group7 => 27,
        QualifierOfInterrogation::Group8 => 28,
        QualifierOfInterrogation::Group9 => 29,
        QualifierOfInterrogation::Group10 => 30,
        QualifierOfInterrogation::Group11 => 31,
        QualifierOfInterrogation::Group12 => 32,
        QualifierOfInterrogation::Group13 => 33,
        QualifierOfInterrogation::Group14 => 34,
        QualifierOfInterrogation::Group15 => 35,
        QualifierOfInterrogation::Group16 => 36,
    }
}

impl QualifierOfInterrogation {
    /// Translates the qualifier to the byte the engine expects on the wire.
    pub fn as_u8(&self) -> (r: u8)
        ensures
            r == qoi_code(*self),
    {
        match self {
            QualifierOfInterrogation::Station => 20,
            QualifierOfInterrogation::Group1 => 21,
            QualifierOfInterrogation::Group2 => 22,
            QualifierOfInterrogation::Group3 => 23,
            QualifierOfInterrogation::Group4 => 24,
            QualifierOfInterrogation::Group5 => 25,
            QualifierOfInterrogation::Group6 => 26,
            QualifierOfInterrogation::Group7 => 27,
            QualifierOfInterrogation::Group8 => 28,
            QualifierOfInterrogation::Group9 => 29,
            QualifierOfInterrogation::Group10 => 30,
            QualifierOfInterrogation::Group11 => 31,
            QualifierOfInterrogation::Group12 => 32,
            QualifierOfInterrogation::Group13 => 33,
            QualifierOfInterrogation::Group14 => 34,
            QualifierOfInterrogation::Group15 => 35,
            QualifierOfInterrogation::Group16 => 36,
        }
    }
}

/// Law: the qualifier mapping is injective. Together with `qoi_code` being a
/// total match over the enumeration, every variant has exactly one distinct
/// code.
pub proof fn lemma_qualifier_codes_injective(
    a: QualifierOfInterrogation,
    b: QualifierOfInterrogation,
)
    ensures
        qoi_code(a) == qoi_code(b) ==> a == b,
{
}

/// Law: no qualifier maps to zero; the codes are the reserved range starting
/// at the station code 20.
pub proof fn lemma_qualifier_code_nonzero(q: QualifierOfInterrogation)
    ensures
        qoi_code(q) != 0,
        qoi_code(q) == IEC60870_QOI_STATION ==> q == QualifierOfInterrogation::Station,
        20 <= qoi_code(q) <= 36,
{
}

} // verus!
