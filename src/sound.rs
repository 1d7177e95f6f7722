use vstd::prelude::*;

verus! {

/// Whether a sound plays once or over and over.
#[allow(non_camel_case_types)]
#[derive(Clone, Copy, Debug, PartialEq, Eq, Structural)]
pub enum LOOPING {
    YES,
    NO,
}

} // verus!
