//! The salvage reward record and its one-line summary.

use vstd::prelude::*;

verus! {

/// A numeric value as it stood in the document: an integer, or a float kept as
/// its text. Whoever needs the float value parses that text.
#[derive(Debug, PartialEq)]
pub enum Amount {
    Integer(i64),
    Real(String),
}

/// What one asset file says about its salvage reward.
#[derive(Debug, PartialEq)]
pub struct SalvageRewardData {
    pub name: String,
    pub min_initial_value: Amount,
    pub max_initial_value: Amount,
    pub mass_based_value: bool,
}

/// The unit in a summary line: `kg` for mass-based rewards, else `ea`.
pub open spec fn unit_text(mass_based: bool) -> Seq<char> {
    if mass_based {
        "kg"@
    } else {
        "ea"@
    }
}

/// The value part of a summary line: the lower bound alone when both bounds
/// are equal, else `<min> - <max>`.
pub open spec fn range_text(min_text: Seq<char>, max_text: Seq<char>, values_equal: bool) -> Seq<char> {
    if values_equal {
        min_text
    } else {
        min_text + " - "@ + max_text
    }
}

/// The summary line `<name>: <range> / <unit>`.
pub open spec fn line_text(
    name: Seq<char>,
    min_text: Seq<char>,
    max_text: Seq<char>,
    values_equal: bool,
    mass_based: bool,
) -> Seq<char> {
    name + ": "@ + range_text(min_text, max_text, values_equal) + " / "@ + unit_text(mass_based)
}

impl SalvageRewardData {
    /// Renders the record as its summary line. `min_text` and `max_text` are the
    /// rendered bounds and `values_equal` tells whether the two bounds are equal
    /// as numbers.
    pub fn line(&self, min_text: &str, max_text: &str, values_equal: bool) -> (r: String)
        ensures
            r@ == line_text(self.name@, min_text@, max_text@, values_equal, self.mass_based_value),
    {
        let mut out = self.name.clone();
        out.append(": ");
        out.append(min_text);
        if !values_equal {
            out.append(" - ");
            out.append(max_text);
        }
        out.append(" / ");
        if self.mass_based_value {
            out.append("kg");
        } else {
            out.append("ea");
        }
        proof {
            assert(out@ =~= line_text(self.name@, min_text@, max_text@, values_equal, self.mass_based_value));
        }
        out
    }
}

} // verus!
