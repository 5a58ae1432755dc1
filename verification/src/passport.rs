//! The passport: the per-recipient record of administered units.
//! Created lazily on first administration; it only ever grows.

use vstd::prelude::*;

verus! {

/// The stored passport of one recipient: the ids of the units
/// administered to them, in administration order, and the running count.
#[derive(Debug)]
pub struct PassportInfo {
    pub user_id: u64,
    pub vac_list: Vec<u64>,
    pub inoculation_count: u32,
}

/// The mathematical value of a passport.
pub struct PassportInfoV {
    pub user_id: u64,
    pub vac_list: Seq<u64>,
    pub inoculation_count: u32,
}

impl View for PassportInfo {
    type V = PassportInfoV;

    open spec fn view(&self) -> PassportInfoV {
        PassportInfoV {
            user_id: self.user_id,
            vac_list: self.vac_list@,
            inoculation_count: self.inoculation_count,
        }
    }
}

impl Clone for PassportInfo {
    fn clone(&self) -> (r: Self)
        ensures
            r@ == self@,
    {
        let r = PassportInfo {
            user_id: self.user_id,
            vac_list: self.vac_list.clone(),
            inoculation_count: self.inoculation_count,
        };
        proof {
            assert(r.vac_list@ =~= self.vac_list@);
            assert(r@ =~= self@);
        }
        r
    }
}

} // verus!
