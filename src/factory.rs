use vstd::prelude::*;
use crate::types::Address;

verus! {

/// The registry of the campaigns deployed through a factory.
pub struct FactoryContract {
    pub campaigns: Vec<Address>,
}

impl FactoryContract {
    pub fn new() -> (r: FactoryContract)
        ensures
            r.campaigns@ == Seq::<Address>::empty(),
    {
        FactoryContract { campaigns: Vec::new() }
    }

    /// Records the campaign deployed at `deployed`, after the ones before it,
    /// and returns its address.
    pub fn create_campaign(&mut self, deployed: Address) -> (r: Address)
        ensures
            r == deployed,
            final(self).campaigns@ == old(self).campaigns@.push(deployed),
    {
        self.campaigns.push(deployed);
        deployed
    }

    /// The deployed campaigns, oldest first.
    pub fn campaigns(&self) -> (r: &Vec<Address>)
        ensures
            r@ == self.campaigns@,
    {
        &self.campaigns
    }

    /// The number of deployed campaigns, saturated at the largest `u32`.
    pub fn campaign_count(&self) -> (r: u32)
        ensures
            r == if self.campaigns@.len() > u32::MAX {
                u32::MAX as int
            } else {
                self.campaigns@.len() as int
            },
    {
        let n = self.campaigns.len();
        if n > u32::MAX as usize {
            u32::MAX
        } else {
            n as u32
        }
    }
}

} // verus!
