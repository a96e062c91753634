//! One request, handled: default the chance, flip the weighted coin, and
//! produce the status and plain-text body that the HTTP shell sends back.

use vstd::prelude::*;

use crate::body::{body_view, body_wf, lemma_body_format, response_body};
use crate::status::{ErrorType, lemma_any_table_members, lemma_table_in_any, spec_fate};

verus! {

/// The chance a handler uses: the query's value, or 50 when it is absent.
pub open spec fn effective_chance(chance: Option<u8>) -> u8 {
    match chance {
        Option::Some(c) => c,
        Option::None => 50,
    }
}

impl ErrorType {
    /// Handle one request for this category. The result is either the
    /// success pair, status 200 with body `200 OK`, or a fault: a status
    /// from this category's table with its well-formed body. A chance of
    /// 100 or more always yields a fault.
    pub fn respond(&self, chance: Option<u8>) -> (r: (u16, String))
        ensures
            r.0 == 200 || self.code_table().contains(r.0),
            r.1@ == body_view(r.0),
            body_wf(r.1@, r.0),
            effective_chance(chance) >= 100 ==> r.0 != 200,
    {
        let c: u8 = match chance {
            Some(c) => c,
            None => 50,
        };
        if self.decide_fate(c) {
            let code = self.get_error();
            proof {
                lemma_table_in_any(*self, code);
                lemma_any_table_members(code);
                lemma_body_format(code);
            }
            (code, response_body(code).to_owned())
        } else {
            proof {
                lemma_body_format(200);
            }
            (200, response_body(200).to_owned())
        }
    }
}

/// With the chance absent the engine decides exactly as with a chance of 50:
/// the default is 50, and every roll is judged the same way.
pub proof fn lemma_default_chance(roll: u8)
    ensures
        effective_chance(Option::None) == effective_chance(Option::Some(50u8)),
        spec_fate(roll, effective_chance(Option::None)) == spec_fate(roll, 50),
{
}

} // verus!
