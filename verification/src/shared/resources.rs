//! Goods that units and cities hold.

use vstd::prelude::*;

verus! {

/// Kinds of goods.
#[derive(Debug, Clone, Copy, PartialEq, Eq, Hash, Structural)]
pub enum ResourceType {
    Wood,
    Stone,
    Iron,
    Clay,
    Wheat,
    Bread,
    Meat,
    Fish,
    Tools,
    Weapons,
    Clothes,
    Gold,
}

} // verus!
