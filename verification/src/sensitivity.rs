//! The sensitivity table's grid: each of the three capacities is varied
//! from −25% to +25% in steps of 5%, one row per step.

use vstd::prelude::*;
use vstd::string::*;
use crate::text::{decimal, decimal_string};

verus! {

/// The change of row `i`, in percent.
pub open spec fn sensitivity_percent_spec(i: int) -> int {
    -25 + 5 * i
}

/// The changes of the table's rows, in percent: eleven rows from −25 to
/// +25.
pub fn sensitivity_percents() -> (r: Vec<i32>)
    ensures
        r@.len() == 11,
        forall|i: int| 0 <= i < 11 ==> r@[i] == sensitivity_percent_spec(i),
{
    let mut r: Vec<i32> = Vec::new();
    let mut i: i32 = 0;
    while i < 11
        invariant
            0 <= i <= 11,
            r@.len() == i,
            forall|j: int| 0 <= j < i ==> r@[j] == sensitivity_percent_spec(j),
        decreases 11 - i,
    {
        r.push(-25 + 5 * i);
        i = i + 1;
    }
    r
}

/// How a whole-number change is labelled: one decimal place and a percent
/// sign, as `{:.1}%` prints it.
pub open spec fn percent_label_spec(pct: int) -> Seq<char> {
    (if pct < 0 { "-"@ + decimal((-pct) as nat) } else { decimal(pct as nat) }) + ".0%"@
}

/// The label of a row's change.
pub fn percent_label(pct: i32) -> (r: String)
    ensures
        r@ == percent_label_spec(pct as int),
{
    let wide = pct as i64;
    let mut r = if wide < 0 {
        let mut s = String::from_str("-");
        let digits = decimal_string((-wide) as u64);
        s.append(digits.as_str());
        s
    } else {
        decimal_string(wide as u64)
    };
    r.append(".0%");
    r
}

} // verus!
