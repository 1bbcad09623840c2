use vstd::prelude::*;

use crate::address::Address;
use crate::campaign::{Campaign, CampaignModel, total};
use crate::uint::{U256, word_bound};

verus! {

/// Why a campaign was not created.
#[derive(Clone, Copy, Debug, PartialEq, Eq, Structural)]
pub enum CreateError {
    /// The deadline is not after the current time.
    DeadlineNotInFuture,
}

/// Why a donation was refused. A refused donation changes nothing.
#[derive(Clone, Copy, Debug, PartialEq, Eq, Structural)]
pub enum DonateError {
    /// No campaign with an owner stands under that id.
    CampaignNotFound,
    /// The campaign's deadline is not after the current time.
    DeadlinePassed,
    /// Nothing was attached to the donation.
    ZeroAmount,
    /// The collected amount would no longer fit in 256 bits.
    AmountOverflow,
}

/// The funds transfer that an accepted donation asks the host to make.
#[derive(Clone, Copy, Debug)]
pub struct Payout {
    pub to: Address,
    pub amount: U256,
}

/// The campaign registry: campaigns under the ids `0 .. campaign_count`.
#[derive(Debug)]
pub struct CrowdFunding {
    campaigns: Vec<Campaign>,
}

impl View for CrowdFunding {
    type V = Seq<CampaignModel>;

    closed spec fn view(&self) -> Seq<CampaignModel> {
        self.campaigns@.map_values(|c: Campaign| c@)
    }
}

/// The record that an accepted donation leaves behind.
pub open spec fn after_donation(c: CampaignModel, donor: Address, amount: nat) -> CampaignModel {
    CampaignModel {
        amount_collected: c.amount_collected + amount,
        donators: c.donators.push(donor),
        amounts: c.amounts.push(amount),
        ..c
    }
}

/// The record of a newly created campaign.
pub open spec fn fresh_campaign(
    owner: Address,
    title: Seq<char>,
    description: Seq<char>,
    target: nat,
    deadline: nat,
    image: Seq<char>,
) -> CampaignModel {
    CampaignModel {
        owner,
        title,
        description,
        target,
        deadline,
        amount_collected: 0,
        image,
        donators: Seq::empty(),
        amounts: Seq::empty(),
    }
}

impl CrowdFunding {
    /// Every campaign's collected amount is the sum of its donations.
    pub closed spec fn wf(&self) -> bool {
        forall|i: int| 0 <= i < self.campaigns@.len() ==> (#[trigger] self.campaigns@[i]).wf()
    }

    /// Whether a campaign that can take donations stands under `id`.
    pub open spec fn campaign_exists(&self, id: nat) -> bool {
        id < self@.len() && !self@[id as int].owner.is_zero_spec()
    }

    /// In every campaign the donors and the amounts pair up one for one, and
    /// the amount collected is the sum of the amounts.
    pub proof fn lemma_campaign_records(&self, id: int)
        requires
            self.wf(),
            0 <= id < self@.len(),
        ensures
            self@[id].donators.len() == self@[id].amounts.len(),
            self@[id].amount_collected == total(self@[id].amounts),
    {
        assert(self.campaigns@[id].wf());
    }

    /// An empty registry.
    pub fn new() -> (r: CrowdFunding)
        ensures
            r.wf(),
            r@.len() == 0,
    {
        CrowdFunding { campaigns: Vec::new() }
    }

    /// The number of campaigns, which is also the next id to be given out.
    pub fn campaign_count(&self) -> (r: usize)
        ensures
            r == self@.len(),
    {
        self.campaigns.len()
    }

    /// The position of the campaign with the given id, if there is one.
    fn position(&self, id: &U256) -> (r: Option<usize>)
        ensures
            r.is_some() <==> id.value() < self@.len(),
            r.is_some() ==> r.unwrap() == id.value(),
    {
        let n = self.campaigns.len();
        if id.hi == 0 && id.lo < n as u128 {
            Some(id.lo as usize)
        } else {
            assert(id.hi > 0 ==> id.value() >= crate::uint::half_base()) by (nonlinear_arith)
                requires id.value() == id.hi as nat * crate::uint::half_base() + id.lo as nat;
            None
        }
    }

    /// Creates a campaign whose deadline lies after `now`, and returns its id,
    /// which is the count of campaigns before the call.
    pub fn create_campaign(
        &mut self,
        owner: Address,
        title: String,
        description: String,
        target: U256,
        deadline: U256,
        image: String,
        now: u64,
    ) -> (r: Result<U256, CreateError>)
        requires
            old(self).wf(),
            old(self)@.len() < usize::MAX,
        ensures
            final(self).wf(),
            deadline.value() <= now ==> r == Err::<U256, CreateError>(CreateError::DeadlineNotInFuture)
                && *final(self) == *old(self),
            deadline.value() > now ==> r.is_ok() && r.unwrap().value() == old(self)@.len()
                && final(self)@ == old(self)@.push(
                fresh_campaign(owner, title@, description@, target.value(), deadline.value(), image@),
            ),
    {
        if deadline.le(&U256::from_u64(now)) {
            return Err(CreateError::DeadlineNotInFuture);
        }
        let id = U256::from_u128(self.campaigns.len() as u128);
        let ghost model = fresh_campaign(
            owner,
            title@,
            description@,
            target.value(),
            deadline.value(),
            image@,
        );
        let c = Campaign::new(owner, title, description, target, deadline, image);
        assert(c@.donators =~= Seq::<Address>::empty());
        assert(c@.amounts =~= Seq::<nat>::empty());
        assert(c@ == model);
        self.campaigns.push(c);
        assert(self@ =~= old(self)@.push(model));
        Ok(id)
    }

    /// Takes a donation of `amount` from `donor` to the campaign `campaign_id`
    /// at time `now`. The checks run in order: the campaign exists, its
    /// deadline lies after `now`, the amount is not zero, and the collected
    /// sum still fits. On success the donation is appended to the campaign's
    /// history and the transfer of the whole amount to the owner is returned.
    pub fn donate_to_campaign(
        &mut self,
        campaign_id: U256,
        donor: Address,
        amount: U256,
        now: u64,
    ) -> (r: Result<Payout, DonateError>)
        requires
            old(self).wf(),
        ensures
            final(self).wf(),
            r.is_err() ==> *final(self) == *old(self),
            !old(self).campaign_exists(campaign_id.value()) ==> r == Err::<Payout, DonateError>(
                DonateError::CampaignNotFound,
            ),
            old(self).campaign_exists(campaign_id.value()) ==> {
                let c = old(self)@[campaign_id.value() as int];
                &&& c.deadline <= now ==> r == Err::<Payout, DonateError>(DonateError::DeadlinePassed)
                &&& c.deadline > now && amount.value() == 0 ==> r == Err::<Payout, DonateError>(
                    DonateError::ZeroAmount,
                )
                &&& c.deadline > now && amount.value() > 0 && c.amount_collected + amount.value()
                    >= word_bound() ==> r == Err::<Payout, DonateError>(DonateError::AmountOverflow)
                &&& c.deadline > now && amount.value() > 0 && c.amount_collected + amount.value()
                    < word_bound() ==> {
                    &&& r.is_ok()
                    &&& r.unwrap().to == c.owner
                    &&& r.unwrap().amount == amount
                    &&& final(self)@ == old(self)@.update(
                        campaign_id.value() as int,
                        after_donation(c, donor, amount.value()),
                    )
                }
            },
    {
        let i = match self.position(&campaign_id) {
            Some(i) => i,
            None => return Err(DonateError::CampaignNotFound),
        };
        if self.campaigns[i].owner.is_zero() {
            return Err(DonateError::CampaignNotFound);
        }
        if self.campaigns[i].deadline.le(&U256::from_u64(now)) {
            return Err(DonateError::DeadlinePassed);
        }
        if amount.is_zero() {
            return Err(DonateError::ZeroAmount);
        }
        let mut c = self.campaigns[i].duplicate();
        assert(c.wf());
        if !c.record_donation(donor, amount) {
            return Err(DonateError::AmountOverflow);
        }
        let owner = c.owner;
        let ghost updated = c;
        self.campaigns.set(i, c);
        proof {
            assert(self.campaigns@ == old(self).campaigns@.update(i as int, updated));
            assert(self@ =~= old(self)@.update(
                i as int,
                after_donation(old(self)@[i as int], donor, amount.value()),
            ));
        }
        Ok(Payout { to: owner, amount })
    }

    /// The donors and amounts of a campaign, in the order the donations came;
    /// both empty for an id under which no campaign stands.
    pub fn get_donators(&self, campaign_id: U256) -> (r: (Vec<Address>, Vec<U256>))
        ensures
            campaign_id.value() < self@.len() ==> {
                &&& r.0@ == self@[campaign_id.value() as int].donators
                &&& r.1@.len() == self@[campaign_id.value() as int].amounts.len()
                &&& forall|k: int| 0 <= k < r.1@.len() ==>
                    #[trigger] r.1@[k].value() == self@[campaign_id.value() as int].amounts[k]
            },
            r.0@.len() == r.1@.len(),
            campaign_id.value() >= self@.len() ==> r.0@.len() == 0 && r.1@.len() == 0,
    {
        let mut donators: Vec<Address> = Vec::new();
        let mut amounts: Vec<U256> = Vec::new();
        let i = match self.position(&campaign_id) {
            Some(i) => i,
            None => return (donators, amounts),
        };
        let c = &self.campaigns[i];
        let mut j: usize = 0;
        while j < c.donations.len()
            invariant
                0 <= j <= c.donations@.len(),
                donators@.len() == j,
                amounts@.len() == j,
                forall|k: int| 0 <= k < j ==> #[trigger] donators@[k] == c.donations@[k].donor,
                forall|k: int| 0 <= k < j ==> #[trigger] amounts@[k] == c.donations@[k].amount,
            decreases c.donations@.len() - j,
        {
            let d = c.donations[j];
            donators.push(d.donor);
            amounts.push(d.amount);
            j = j + 1;
        }
        assert(donators@ =~= c@.donators);
        (donators, amounts)
    }

    /// Every campaign, in ascending id order.
    pub fn get_campaigns(&self) -> (r: Vec<Campaign>)
        ensures
            r@.len() == self@.len(),
            forall|i: int| 0 <= i < self@.len() ==> #[trigger] r@[i]@ == self@[i],
    {
        let mut all: Vec<Campaign> = Vec::new();
        let mut i: usize = 0;
        while i < self.campaigns.len()
            invariant
                0 <= i <= self.campaigns@.len(),
                all@.len() == i,
                forall|k: int| 0 <= k < i ==> #[trigger] all@[k]@ == self.campaigns@[k]@,
            decreases self.campaigns@.len() - i,
        {
            all.push(self.campaigns[i].duplicate());
            i = i + 1;
        }
        all
    }
}

} // verus!
