//! Power records: what a document, a commodity and an account have earned.

use vstd::prelude::*;
use vstd::std_specs::ops::AddSpecImpl;

verus! {

/// A quantity of power, in units of `1 / FLOAT_COMPUTE_PRECISION`.
pub type PowerSize = u64;

/// `n` as a power, clamped to the largest value that `PowerSize` holds.
pub open spec fn clamp_power(n: nat) -> PowerSize {
    if n > PowerSize::MAX {
        PowerSize::MAX
    } else {
        n as PowerSize
    }
}

/// Adds two powers; the sum stops at `PowerSize::MAX`.
pub fn power_add(a: PowerSize, b: PowerSize) -> (sum: PowerSize)
    ensures
        sum == clamp_power((a + b) as nat),
{
    a.saturating_add(b)
}

/// Takes `b` from `a`; the difference stops at zero.
pub fn power_sub(a: PowerSize, b: PowerSize) -> (difference: PowerSize)
    ensures
        difference == (if a >= b {
            a - b
        } else {
            0
        }),
{
    a.saturating_sub(b)
}

/// The three powers of a document.
#[derive(Clone, Copy, Debug, Default, PartialEq, Eq, Structural)]
pub struct DocumentPower {
    /// Earned through the comments that the document drew.
    pub attend: PowerSize,
    /// Earned through what the document declares, set when it is created.
    pub content: PowerSize,
    /// Earned through the first expert and platform judgements.
    pub judge: PowerSize,
}

impl View for DocumentPower {
    type V = DocumentPower;

    open spec fn view(&self) -> DocumentPower {
        *self
    }
}

/// Something whose power is the sum of its parts.
pub trait PowerSum {
    /// The sum, clamped to `PowerSize::MAX`.
    spec fn total_of(&self) -> PowerSize;

    fn total(&self) -> (sum: PowerSize)
        ensures
            sum == self.total_of(),
    ;
}

impl PowerSum for DocumentPower {
    open spec fn total_of(&self) -> PowerSize {
        clamp_power((self.attend + self.content + self.judge) as nat)
    }

    fn total(&self) -> (sum: PowerSize) {
        power_add(power_add(self.attend, self.content), self.judge)
    }
}

impl DocumentPower {
    /// A document without power.
    pub fn empty() -> (power: DocumentPower)
        ensures
            power == (DocumentPower { attend: 0, content: 0, judge: 0 }),
    {
        DocumentPower { attend: 0, content: 0, judge: 0 }
    }

    /// What is left of a record when `other` is taken from it, part by
    /// part, each part stopping at zero.
    pub open spec fn less(self, other: DocumentPower) -> DocumentPower {
        DocumentPower {
            attend: if self.attend >= other.attend {
                (self.attend - other.attend) as PowerSize
            } else {
                0
            },
            content: if self.content >= other.content {
                (self.content - other.content) as PowerSize
            } else {
                0
            },
            judge: if self.judge >= other.judge {
                (self.judge - other.judge) as PowerSize
            } else {
                0
            },
        }
    }

    /// Takes `other` from the record, part by part, each part stopping at
    /// zero.
    pub fn without(&self, other: &DocumentPower) -> (rest: DocumentPower)
        ensures
            rest == self.less(*other),
    {
        DocumentPower {
            attend: power_sub(self.attend, other.attend),
            content: power_sub(self.content, other.content),
            judge: power_sub(self.judge, other.judge),
        }
    }

    /// The sum of two records, part by part, each part clamped.
    pub open spec fn plus(self, other: DocumentPower) -> DocumentPower {
        DocumentPower {
            attend: clamp_power((self.attend + other.attend) as nat),
            content: clamp_power((self.content + other.content) as nat),
            judge: clamp_power((self.judge + other.judge) as nat),
        }
    }
}

impl core::ops::Add for DocumentPower {
    type Output = DocumentPower;

    fn add(self, other: DocumentPower) -> (sum: DocumentPower) {
        DocumentPower {
            attend: power_add(self.attend, other.attend),
            content: power_add(self.content, other.content),
            judge: power_add(self.judge, other.judge),
        }
    }
}

impl AddSpecImpl for DocumentPower {
    open spec fn obeys_add_spec() -> bool {
        true
    }

    open spec fn add_req(self, other: DocumentPower) -> bool {
        true
    }

    open spec fn add_spec(self, other: DocumentPower) -> DocumentPower {
        self.plus(other)
    }
}

impl<'a, 'b> core::ops::Add<&'b DocumentPower> for &'a DocumentPower {
    type Output = DocumentPower;

    fn add(self, other: &'b DocumentPower) -> (sum: DocumentPower) {
        DocumentPower {
            attend: power_add(self.attend, other.attend),
            content: power_add(self.content, other.content),
            judge: power_add(self.judge, other.judge),
        }
    }
}

impl<'a, 'b> AddSpecImpl<&'b DocumentPower> for &'a DocumentPower {
    open spec fn obeys_add_spec() -> bool {
        true
    }

    open spec fn add_req(self, other: &'b DocumentPower) -> bool {
        true
    }

    open spec fn add_spec(self, other: &'b DocumentPower) -> DocumentPower {
        self.plus(*other)
    }
}

/// The powers that one commodity gathers: those of its publish, identify
/// and try documents, and two powers of its owner.
#[derive(Clone, Copy, Debug, Default, PartialEq, Eq, Structural)]
pub struct CommodityPowerSet {
    pub publish: DocumentPower,
    pub identify: DocumentPower,
    pub try_power: DocumentPower,
    pub owner_attend: PowerSize,
    pub owner_economic: PowerSize,
}

impl View for CommodityPowerSet {
    type V = CommodityPowerSet;

    open spec fn view(&self) -> CommodityPowerSet {
        *self
    }
}

impl PowerSum for CommodityPowerSet {
    open spec fn total_of(&self) -> PowerSize {
        clamp_power(
            (self.publish.total_of() + self.identify.total_of() + self.try_power.total_of()
                + self.owner_attend + self.owner_economic) as nat,
        )
    }

    fn total(&self) -> (sum: PowerSize) {
        let documents: PowerSize = power_add(
            power_add(self.publish.total(), self.identify.total()),
            self.try_power.total(),
        );
        power_add(power_add(documents, self.owner_attend), self.owner_economic)
    }
}

impl CommodityPowerSet {
    /// A commodity without power.
    pub fn empty() -> (set: CommodityPowerSet)
        ensures
            set == Self::zero(),
            set.total_of() == 0,
    {
        CommodityPowerSet {
            publish: DocumentPower::empty(),
            identify: DocumentPower::empty(),
            try_power: DocumentPower::empty(),
            owner_attend: 0,
            owner_economic: 0,
        }
    }

    /// The set whose five parts are zero.
    pub open spec fn zero() -> CommodityPowerSet {
        CommodityPowerSet {
            publish: DocumentPower { attend: 0, content: 0, judge: 0 },
            identify: DocumentPower { attend: 0, content: 0, judge: 0 },
            try_power: DocumentPower { attend: 0, content: 0, judge: 0 },
            owner_attend: 0,
            owner_economic: 0,
        }
    }
}

/// The power of a commodity: the sum of its five parts.
pub fn compute_commodity_power(power: &CommodityPowerSet) -> (sum: PowerSize)
    ensures
        sum == power.total_of(),
{
    power.total()
}

} // verus!
