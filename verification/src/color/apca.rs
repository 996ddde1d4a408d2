//! APCA contrast levels.
use vstd::prelude::*;

verus! {

/// How well a foreground/background pair reads, from weakest to strongest.
#[derive(Clone, Copy, Debug, PartialEq, Eq, PartialOrd, Ord, Structural)]
pub enum ApcaLevel {
    Bronze,
    Silver,
    Gold,
    Platinum,
    Diamond,
}

impl ApcaLevel {
    /// Platinum and Diamond pass.
    pub fn is_compliant(&self) -> (res: bool)
        ensures
            res == (*self == ApcaLevel::Diamond || *self == ApcaLevel::Platinum),
    {
        match self {
            ApcaLevel::Diamond | ApcaLevel::Platinum => true,
            _ => false,
        }
    }

    pub open spec fn spec_label(self) -> Seq<char> {
        match self {
            ApcaLevel::Diamond => "Diamond"@,
            ApcaLevel::Platinum => "Platinum"@,
            ApcaLevel::Gold => "Gold"@,
            ApcaLevel::Silver => "Silver"@,
            ApcaLevel::Bronze => "Bronze"@,
        }
    }

    pub fn label(&self) -> (res: &'static str)
        ensures
            res@ == self.spec_label(),
    {
        match self {
            ApcaLevel::Diamond => "Diamond",
            ApcaLevel::Platinum => "Platinum",
            ApcaLevel::Gold => "Gold",
            ApcaLevel::Silver => "Silver",
            ApcaLevel::Bronze => "Bronze",
        }
    }
}

} // verus!
