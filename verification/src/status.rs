//! Error categories and their fixed status-code tables, the weighted-coin
//! fault decision, and the uniform selection of a code from a table.

use vstd::prelude::*;

use crate::entropy::{pick_index, roll_percent};

verus! {

/// The codes the service may return for a client-side error.
pub open spec fn client_error_codes() -> Seq<u16> {
    seq![400u16, 401u16, 403u16, 404u16, 418u16, 429u16]
}

/// The codes the service may return for a server-side error.
pub open spec fn host_error_codes() -> Seq<u16> {
    seq![500u16, 502u16, 503u16, 504u16]
}

/// Which fixed table an error is drawn from.
pub enum ErrorType {
    Client,
    Host,
    Any,
}

impl ErrorType {
    /// The category's fixed table: `Any` is the client codes followed by the
    /// host codes.
    pub open spec fn code_table(self) -> Seq<u16> {
        match self {
            ErrorType::Client => client_error_codes(),
            ErrorType::Host => host_error_codes(),
            ErrorType::Any => client_error_codes() + host_error_codes(),
        }
    }

    /// The candidate codes for this category, in table order.
    pub fn codes(&self) -> (v: Vec<u16>)
        ensures
            v@ == self.code_table(),
    {
        match self {
            ErrorType::Client => {
                let v: Vec<u16> = vec![400, 401, 403, 404, 418, 429];
                proof {
                    assert(v@ =~= client_error_codes());
                }
                v
            },
            ErrorType::Host => {
                let v: Vec<u16> = vec![500, 502, 503, 504];
                proof {
                    assert(v@ =~= host_error_codes());
                }
                v
            },
            ErrorType::Any => {
                let v: Vec<u16> = vec![400, 401, 403, 404, 418, 429, 500, 502, 503, 504];
                proof {
                    assert(v@ =~= client_error_codes() + host_error_codes());
                }
                v
            },
        }
    }

    /// A status code drawn uniformly from this category's table.
    pub fn get_error(&self) -> (code: u16)
        ensures
            self.code_table().contains(code),
    {
        let codes = self.codes();
        let i = pick_index(codes.len());
        codes[i]
    }

    /// Flip the weighted coin: draw a roll in `0..=100` and inject a fault
    /// when the roll is at most `chance`. A chance of 100 or more therefore
    /// always injects one; what a smaller chance decides depends on the draw.
    pub fn decide_fate(&self, chance: u8) -> (fault: bool)
        ensures
            chance >= 100 ==> fault,
    {
        let roll = roll_percent();
        fate_of_roll(roll, chance)
    }
}

/// The pure decision behind `decide_fate`: a fault is injected exactly when
/// the roll does not exceed the chance.
pub fn fate_of_roll(roll: u8, chance: u8) -> (fault: bool)
    ensures
        fault == spec_fate(roll, chance),
{
    roll <= chance
}

/// What the decision engine does with a given roll and chance.
pub open spec fn spec_fate(roll: u8, chance: u8) -> bool {
    roll <= chance
}

/// No table is empty, so a code can always be selected.
pub proof fn lemma_code_table_nonempty(t: ErrorType)
    ensures
        t.code_table().len() >= 1,
{
}

/// A chance of zero injects a fault exactly on a zero roll.
pub proof fn lemma_fate_at_zero_chance(roll: u8)
    ensures
        spec_fate(roll, 0) == (roll == 0),
{
}

/// A chance of 100 injects a fault on every roll the engine can draw.
pub proof fn lemma_fate_at_full_chance(roll: u8)
    requires
        roll <= 100,
    ensures
        spec_fate(roll, 100),
{
}

/// The union table holds exactly the ten fixed error codes.
pub proof fn lemma_any_table_members(code: u16)
    ensures
        ErrorType::Any.code_table().contains(code) <==> (code == 400 || code == 401 || code == 403
            || code == 404 || code == 418 || code == 429 || code == 500 || code == 502
            || code == 503 || code == 504),
{
    let t = ErrorType::Any.code_table();
    assert(t.len() == 10);
    if t.contains(code) {
        let i = choose|i: int| 0 <= i < t.len() && t[i] == code;
        assert(t[i] == code);
    }
    if code == 400 {
        assert(t[0] == 400);
    }
    if code == 401 {
        assert(t[1] == 401);
    }
    if code == 403 {
        assert(t[2] == 403);
    }
    if code == 404 {
        assert(t[3] == 404);
    }
    if code == 418 {
        assert(t[4] == 418);
    }
    if code == 429 {
        assert(t[5] == 429);
    }
    if code == 500 {
        assert(t[6] == 500);
    }
    if code == 502 {
        assert(t[7] == 502);
    }
    if code == 503 {
        assert(t[8] == 503);
    }
    if code == 504 {
        assert(t[9] == 504);
    }
}

/// Each category's table is part of the union table, so every selectable
/// code is one of the ten fixed error codes.
pub proof fn lemma_table_in_any(t: ErrorType, code: u16)
    requires
        t.code_table().contains(code),
    ensures
        ErrorType::Any.code_table().contains(code),
{
    let any = ErrorType::Any.code_table();
    let i = choose|i: int| 0 <= i < t.code_table().len() && t.code_table()[i] == code;
    match t {
        ErrorType::Client => {
            assert(any[i] == code);
        },
        ErrorType::Host => {
            assert(any[i + client_error_codes().len()] == code);
        },
        ErrorType::Any => {
        },
    }
}

} // verus!
