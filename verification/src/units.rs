//! The unit record: one uniquely identified administrable item and the
//! custody state the two-phase handoff protocols maintain for it.

use vstd::prelude::*;

verus! {

/// Every unit admits at most this many administrations.
pub const MAX_INOCULATIONS: u32 = 8;

/// The stored record of one unit.
///
/// `owner_id` is the identity currently holding custody.  `buyer_id` is
/// the pending recipient of an open handoff, if any, and `buy_confirm`
/// records whether that handoff was confirmed.  `vao_list` is the
/// bounded, duplicate-free list of organizations that signed the unit
/// off, in sign-off order.
#[derive(Debug)]
pub struct VaccineInfo {
    pub vac_id: u64,
    pub manufacture_id: u64,
    pub owner_id: u64,
    pub buyer_id: Option<u64>,
    pub vao_list: Vec<u64>,
    pub buy_confirm: bool,
    pub vac_type_id: u32,
    pub max_inoculations_number: u32,
    pub inoculation_count: u32,
}

/// The mathematical value of a unit record.
pub struct VaccineInfoV {
    pub vac_id: u64,
    pub manufacture_id: u64,
    pub owner_id: u64,
    pub buyer_id: Option<u64>,
    pub vao_list: Seq<u64>,
    pub buy_confirm: bool,
    pub vac_type_id: u32,
    pub max_inoculations_number: u32,
    pub inoculation_count: u32,
}

impl View for VaccineInfo {
    type V = VaccineInfoV;

    open spec fn view(&self) -> VaccineInfoV {
        VaccineInfoV {
            vac_id: self.vac_id,
            manufacture_id: self.manufacture_id,
            owner_id: self.owner_id,
            buyer_id: self.buyer_id,
            vao_list: self.vao_list@,
            buy_confirm: self.buy_confirm,
            vac_type_id: self.vac_type_id,
            max_inoculations_number: self.max_inoculations_number,
            inoculation_count: self.inoculation_count,
        }
    }
}

impl Clone for VaccineInfo {
    fn clone(&self) -> (r: Self)
        ensures
            r@ == self@,
    {
        let r = VaccineInfo {
            vac_id: self.vac_id,
            manufacture_id: self.manufacture_id,
            owner_id: self.owner_id,
            buyer_id: self.buyer_id,
            vao_list: self.vao_list.clone(),
            buy_confirm: self.buy_confirm,
            vac_type_id: self.vac_type_id,
            max_inoculations_number: self.max_inoculations_number,
            inoculation_count: self.inoculation_count,
        };
        proof {
            assert(r.vao_list@ =~= self.vao_list@);
            assert(r@ =~= self@);
        }
        r
    }
}

} // verus!
