//! Shapes of values accepted in config files.

use vstd::prelude::*;

verus! {

/// A string or a list of strings.
#[derive(Debug, Clone, PartialEq, Eq)]
pub enum StringOrVecString {
    String(String),
    VecString(Vec<String>),
}

impl StringOrVecString {
    /// The strings held, a single string counting as a list of one.
    pub open spec fn spec_vec(self) -> Seq<String> {
        match self {
            StringOrVecString::String(s) => seq![s],
            StringOrVecString::VecString(v) => v@,
        }
    }

    /// Converts into a list of strings.
    pub fn into_vec(self) -> (r: Vec<String>)
        ensures
            r@ == self.spec_vec(),
    {
        match self {
            StringOrVecString::String(s) => {
                let mut v = Vec::new();
                v.push(s);
                assert(v@ =~= seq![s]);
                v
            },
            StringOrVecString::VecString(v) => v,
        }
    }
}

} // verus!
