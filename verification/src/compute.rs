//! Names given to the GPU objects of a compute routine: its pipeline
//! layout, its pipeline and the compute pass it records.
use vstd::prelude::*;

verus! {

/// Label of a compute routine's pipeline layout: `"{label} pll"`.
pub fn pipeline_layout_label(label: &str) -> (r: String)
    ensures
        r@ == label@ + " pll"@,
{
    String::from_str(label).concat(" pll")
}

/// Label of a compute routine's pipeline: `"{label} pipeline"`.
pub fn pipeline_label(label: &str) -> (r: String)
    ensures
        r@ == label@ + " pipeline"@,
{
    String::from_str(label).concat(" pipeline")
}

/// Label of the compute pass a routine records: `"{label} cpass"`.
pub fn compute_pass_label(label: &str) -> (r: String)
    ensures
        r@ == label@ + " cpass"@,
{
    String::from_str(label).concat(" cpass")
}

} // verus!
