use vstd::prelude::*;

use crate::address::Address;
use crate::uint::U256;

verus! {

/// One accepted contribution: who gave, and how much.
#[derive(Clone, Copy, Debug)]
pub struct Donation {
    pub donor: Address,
    pub amount: U256,
}

/// A funding request and the history of what it received.
#[derive(Debug)]
pub struct Campaign {
    pub owner: Address,
    pub title: String,
    pub description: String,
    pub target: U256,
    pub deadline: U256,
    pub amount_collected: U256,
    pub image: String,
    pub donations: Vec<Donation>,
}

/// The mathematical content of a campaign.
pub struct CampaignModel {
    pub owner: Address,
    pub title: Seq<char>,
    pub description: Seq<char>,
    pub target: nat,
    pub deadline: nat,
    pub amount_collected: nat,
    pub image: Seq<char>,
    pub donators: Seq<Address>,
    pub amounts: Seq<nat>,
}

/// The sum of a sequence of amounts.
pub open spec fn total(s: Seq<nat>) -> nat
    decreases s.len(),
{
    if s.len() == 0 {
        0
    } else {
        total(s.drop_last()) + s.last()
    }
}

pub proof fn lemma_total_push(s: Seq<nat>, x: nat)
    ensures
        total(s.push(x)) == total(s) + x,
{
    assert(s.push(x).drop_last() =~= s);
}

impl View for Campaign {
    type V = CampaignModel;

    open spec fn view(&self) -> CampaignModel {
        CampaignModel {
            owner: self.owner,
            title: self.title@,
            description: self.description@,
            target: self.target.value(),
            deadline: self.deadline.value(),
            amount_collected: self.amount_collected.value(),
            image: self.image@,
            donators: self.donations@.map_values(|d: Donation| d.donor),
            amounts: self.donations@.map_values(|d: Donation| d.amount.value()),
        }
    }
}

impl Campaign {
    /// The amount collected is the sum of the donations received.
    pub open spec fn wf(&self) -> bool {
        self@.amount_collected == total(self@.amounts)
    }

    /// A campaign with no donations yet.
    pub fn new(
        owner: Address,
        title: String,
        description: String,
        target: U256,
        deadline: U256,
        image: String,
    ) -> (r: Campaign)
        ensures
            r.wf(),
            r@.owner == owner,
            r@.title == title@,
            r@.description == description@,
            r@.target == target.value(),
            r@.deadline == deadline.value(),
            r@.image == image@,
            r@.amount_collected == 0,
            r@.donators.len() == 0,
            r@.amounts.len() == 0,
    {
        let r = Campaign {
            owner,
            title,
            description,
            target,
            deadline,
            amount_collected: U256::zero(),
            image,
            donations: Vec::new(),
        };
        assert(r@.amounts =~= Seq::<nat>::empty());
        r
    }

    /// A copy of this campaign that holds the same values.
    pub fn duplicate(&self) -> (r: Campaign)
        ensures
            r@ == self@,
    {
        let mut donations: Vec<Donation> = Vec::new();
        let mut i: usize = 0;
        while i < self.donations.len()
            invariant
                0 <= i <= self.donations@.len(),
                donations@ == self.donations@.subrange(0, i as int),
            decreases self.donations@.len() - i,
        {
            donations.push(self.donations[i]);
            i = i + 1;
            assert(donations@ =~= self.donations@.subrange(0, i as int));
        }
        assert(donations@ =~= self.donations@);
        Campaign {
            owner: self.owner,
            title: self.title.clone(),
            description: self.description.clone(),
            target: self.target,
            deadline: self.deadline,
            amount_collected: self.amount_collected,
            image: self.image.clone(),
            donations,
        }
    }

    /// Records a donation: the donor and amount go at the end of the history,
    /// and the amount is added to what was collected, unless that sum would
    /// not fit in 256 bits, in which case nothing changes and `false` comes back.
    pub fn record_donation(&mut self, donor: Address, amount: U256) -> (r: bool)
        requires
            old(self).wf(),
        ensures
            final(self).wf(),
            r <==> old(self)@.amount_collected + amount.value() < crate::uint::word_bound(),
            r ==> final(self)@ == (CampaignModel {
                amount_collected: old(self)@.amount_collected + amount.value(),
                donators: old(self)@.donators.push(donor),
                amounts: old(self)@.amounts.push(amount.value()),
                ..old(self)@
            }),
            !r ==> *final(self) == *old(self),
    {
        match self.amount_collected.checked_add(&amount) {
            Some(sum) => {
                let ghost before = self.donations@;
                self.amount_collected = sum;
                self.donations.push(Donation { donor, amount });
                proof {
                    let d = Donation { donor, amount };
                    assert(self.donations@ == before.push(d));
                    assert(self@.donators =~= old(self)@.donators.push(donor));
                    assert(self@.amounts =~= old(self)@.amounts.push(amount.value()));
                    lemma_total_push(old(self)@.amounts, amount.value());
                }
                true
            },
            None => false,
        }
    }
}

} // verus!
