//! The layouts of recorded flight data (CSV files) that the controller is
//! replayed against.

use vstd::prelude::*;
use vstd::string::StringSliceAdditionalSpecFns;

verus! {

/// The header name of column 8 in the earlier layout.
pub const PRE_FORMAT_COLUMN_8: &'static str = "acc_altitude_m";

/// The layout of a flight data file.
#[derive(Clone, Copy, Debug, PartialEq, Eq, Structural)]
pub enum DataFormat {
    /// Auto-detect the flight data type from the .csv header.
    Detect,
    /// Pre-Kalman filter implementation flight data.
    Pre,
    /// Post-Kalman filter implementation flight data.
    Post,
}

/// Byte-wise equality of two slices.
fn bytes_eq(a: &[u8], b: &[u8]) -> (r: bool)
    ensures
        r == (a@ == b@),
{
    if a.len() != b.len() {
        return false;
    }
    let mut i: usize = 0;
    while i < a.len()
        invariant
            i <= a.len(),
            a@.len() == b@.len(),
            forall|j: int| 0 <= j < i ==> a@[j] == b@[j],
        decreases a.len() - i,
    {
        if a[i] != b[i] {
            return false;
        }
        i = i + 1;
    }
    assert(a@ =~= b@);
    true
}

impl DataFormat {
    /// The column that holds the pressure in Pa; the layout must be known.
    pub fn pressure_column(self) -> (r: Option<usize>)
        ensures
            r == (match self {
                DataFormat::Pre => Some(15usize),
                DataFormat::Post => Some(16usize),
                DataFormat::Detect => None,
            }),
    {
        match self {
            DataFormat::Pre => Some(15),
            DataFormat::Post => Some(16),
            DataFormat::Detect => None,
        }
    }

    /// Detects the layout from the name of header column 8 (`None` when the
    /// header has no such column): the earlier layout names it
    /// `acc_altitude_m`, every other file is of the later layout.
    pub fn detect(column_8: Option<&str>) -> (r: Option<DataFormat>)
        ensures
            r == (match column_8 {
                None => None,
                Some(c) => if c.spec_bytes() == PRE_FORMAT_COLUMN_8.spec_bytes() {
                    Some(DataFormat::Pre)
                } else {
                    Some(DataFormat::Post)
                },
            }),
    {
        match column_8 {
            None => None,
            Some(c) => if bytes_eq(c.as_bytes(), PRE_FORMAT_COLUMN_8.as_bytes()) {
                Some(DataFormat::Pre)
            } else {
                Some(DataFormat::Post)
            },
        }
    }
}

} // verus!
