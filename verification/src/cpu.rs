//! Names of the per-core CPU widgets.

use crate::text::{decimal, decimal_string};
use vstd::prelude::*;

verus! {

/// Number of CPU cores shown.
pub const NUM_CPU: usize = 8;

/// The name of the widget of one core: "cpu", the core's number, then the
/// kind's suffix (such as "_bar" or "_graph").
pub fn cpu_core_widget_name(core: u64, suffix: &str) -> (name: String)
    ensures
        name@ == "cpu"@ + decimal(core as nat) + suffix@,
{
    let mut name = String::from_str("cpu");
    let number = decimal_string(core);
    name.append(number.as_str());
    name.append(suffix);
    name
}

} // verus!
