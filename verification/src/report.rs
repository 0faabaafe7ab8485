//! The per-frame altitude report: one printed line per rigid body, carrying
//! the body's current vertical (Y) translation.

use vstd::prelude::*;
use vstd::string::StringExecFns;

verus! {

/// The fixed prefix of every altitude line.
pub open spec fn altitude_prefix() -> Seq<char> {
    "Ball altitude: "@
}

/// Formats one altitude line: the fixed prefix followed by the rendered
/// vertical coordinate.
pub fn altitude_line(y: &str) -> (line: String)
    ensures
        line@ == altitude_prefix() + y@,
{
    let line = String::from_str("Ball altitude: ");
    line.concat(y)
}

/// Formats the whole per-frame report: one altitude line per rigid body, in
/// the order the bodies were handed in. The report is non-empty exactly when
/// at least one body exists.
pub fn altitude_report(ys: &Vec<String>) -> (lines: Vec<String>)
    ensures
        lines@.len() == ys@.len(),
        forall|i: int| 0 <= i < ys@.len() ==> (#[trigger] lines@[i])@ == altitude_prefix()
            + ys@[i]@,
        ys@.len() > 0 ==> lines@.len() > 0,
{
    let mut lines: Vec<String> = Vec::new();
    let mut k: usize = 0;
    while k < ys.len()
        invariant
            k <= ys@.len(),
            lines@.len() == k,
            forall|i: int| 0 <= i < k ==> (#[trigger] lines@[i])@ == altitude_prefix() + ys@[i]@,
        decreases ys@.len() - k,
    {
        let line = altitude_line(ys[k].as_str());
        lines.push(line);
        k = k + 1;
    }
    lines
}

} // verus!
