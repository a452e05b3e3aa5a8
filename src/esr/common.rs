//! Descriptions shared by several syndrome layouts.
use vstd::prelude::*;

verus! {

pub open spec fn cv_text(cv: bool) -> Seq<char> {
    if cv {
        "COND is valid"@
    } else {
        "COND is not valid"@
    }
}

/// Describes the condition code valid bit.
pub fn describe_cv(cv: bool) -> (r: &'static str)
    ensures
        r@ == cv_text(cv),
{
    if cv {
        "COND is valid"
    } else {
        "COND is not valid"
    }
}

} // verus!
