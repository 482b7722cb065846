//! The products of a Hive account.

use vstd::prelude::*;

verus! {

/// The mode of a Hive product: heating and hot water can each be off, run
/// to a schedule, or be set by hand.
#[derive(Debug, Clone, Copy, PartialEq, Eq, Structural)]
pub enum Mode {
    /// The product is turned off.
    Off,
    /// The product is in schedule mode.
    Schedule,
    /// The product is in manual mode.
    Manual,
}

impl Mode {
    /// The word by which the mode is shown.
    pub open spec fn spec_to_string(self) -> Seq<char> {
        match self {
            Mode::Off => "Off"@,
            Mode::Schedule => "Schedule"@,
            Mode::Manual => "Manual"@,
        }
    }

    /// The word by which the mode is shown.
    pub fn to_string(&self) -> (word: String)
        ensures
            word@ == self.spec_to_string(),
    {
        match self {
            Mode::Off => "Off".to_owned(),
            Mode::Schedule => "Schedule".to_owned(),
            Mode::Manual => "Manual".to_owned(),
        }
    }
}

/// The kinds of product that a Hive account can hold.
#[derive(Debug, Clone, Copy, PartialEq, Eq, Structural)]
pub enum ProductKind {
    /// The heating.
    Heating,
    /// The hot water.
    HotWater,
    /// A product which this library does not know.
    Unknown,
}

impl ProductKind {
    /// The name of the kind in the address of a product's node.
    pub open spec fn spec_node_type(self) -> Seq<char> {
        match self {
            ProductKind::Heating => "heating"@,
            ProductKind::HotWater => "hotwater"@,
            ProductKind::Unknown => "unknown"@,
        }
    }

    /// The name of the kind in the address of a product's node.
    pub fn node_type(&self) -> (name: &'static str)
        ensures
            name@ == self.spec_node_type(),
    {
        match self {
            ProductKind::Heating => "heating",
            ProductKind::HotWater => "hotwater",
            ProductKind::Unknown => "unknown",
        }
    }
}

} // verus!
