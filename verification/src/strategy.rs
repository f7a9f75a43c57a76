//! The user-configured priority-fee policy.
use vstd::prelude::*;
use vstd::string::StringSliceAdditionalSpecFns;

verus! {

/// How the submitter prices a transaction: re-estimate the fee on each
/// re-submission, or keep a static user-set value.
#[derive(Clone, Copy, Debug, PartialEq, Eq, Structural, Default)]
pub enum PriorityFeeStrategy {
    #[default]
    Estimate,
    Static,
}

/// Byte-wise equality of two string slices.
fn str_eq(a: &str, b: &str) -> (r: bool)
    ensures
        r == (a.spec_bytes() == b.spec_bytes()),
{
    let ab = a.as_bytes();
    let bb = b.as_bytes();
    if ab.len() != bb.len() {
        proof {
            assert(a.spec_bytes().len() != b.spec_bytes().len());
        }
        return false;
    }
    let mut i: usize = 0;
    while i < ab.len()
        invariant
            ab@ == a.spec_bytes(),
            bb@ == b.spec_bytes(),
            ab@.len() == bb@.len(),
            0 <= i <= ab@.len(),
            forall|k: int| 0 <= k < i ==> ab@[k] == bb@[k],
        decreases ab@.len() - i,
    {
        if ab[i] != bb[i] {
            proof {
                assert(ab@ != bb@);
            }
            return false;
        }
        i = i + 1;
    }
    proof {
        assert(ab@ =~= bb@);
    }
    true
}

impl PriorityFeeStrategy {
    /// The display label of the strategy.
    pub fn label(&self) -> (r: String)
        ensures
            r@ == match *self {
                PriorityFeeStrategy::Estimate => ("Estimate priority fee")@,
                PriorityFeeStrategy::Static => ("Static priority fee")@,
            },
    {
        match self {
            PriorityFeeStrategy::Estimate => "Estimate priority fee".to_owned(),
            PriorityFeeStrategy::Static => "Static priority fee".to_owned(),
        }
    }

    /// Parse a display label back into a strategy; an unknown label is
    /// rejected.
    pub fn from_str(s: &str) -> (r: Option<PriorityFeeStrategy>)
        ensures
            r == if s.spec_bytes() == ("Estimate priority fee").spec_bytes() {
                Some(PriorityFeeStrategy::Estimate)
            } else if s.spec_bytes() == ("Static priority fee").spec_bytes() {
                Some(PriorityFeeStrategy::Static)
            } else {
                None::<PriorityFeeStrategy>
            },
    {
        if str_eq(s, "Estimate priority fee") {
            Some(PriorityFeeStrategy::Estimate)
        } else if str_eq(s, "Static priority fee") {
            Some(PriorityFeeStrategy::Static)
        } else {
            None
        }
    }
}

} // verus!
