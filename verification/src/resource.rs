use vstd::prelude::*;

use crate::config::RESOURCE_COUNT;

verus! {

/// A good that can be produced, traded and consumed.
#[derive(Debug, Clone, Copy, PartialEq, Eq, Structural, Hash)]
pub enum Resource {
    Grain,
    Timber,
    Stone,
    IronOre,
    Wool,
    Clay,
    Herbs,
    Flour,
    Planks,
    IronIngots,
    Tools,
    Cloth,
}

/// How quickly a good decays while it sits in an inventory.
#[derive(Debug, Clone, Copy, PartialEq, Eq, Structural)]
pub enum SpoilageClass {
    /// Food: grain, flour and herbs.
    Perishable,
    /// Unprocessed materials.
    Raw,
    /// Worked goods.
    Processed,
}

impl Resource {
    /// Position of the good in declaration order; slots of per-good tables.
    pub open spec fn spec_index(self) -> nat {
        match self {
            Resource::Grain => 0,
            Resource::Timber => 1,
            Resource::Stone => 2,
            Resource::IronOre => 3,
            Resource::Wool => 4,
            Resource::Clay => 5,
            Resource::Herbs => 6,
            Resource::Flour => 7,
            Resource::Planks => 8,
            Resource::IronIngots => 9,
            Resource::Tools => 10,
            Resource::Cloth => 11,
        }
    }

    /// The good stored in slot `i`, if there is one.
    pub open spec fn spec_from_index(i: int) -> Option<Resource> {
        if i == 0 {
            Some(Resource::Grain)
        } else if i == 1 {
            Some(Resource::Timber)
        } else if i == 2 {
            Some(Resource::Stone)
        } else if i == 3 {
            Some(Resource::IronOre)
        } else if i == 4 {
            Some(Resource::Wool)
        } else if i == 5 {
            Some(Resource::Clay)
        } else if i == 6 {
            Some(Resource::Herbs)
        } else if i == 7 {
            Some(Resource::Flour)
        } else if i == 8 {
            Some(Resource::Planks)
        } else if i == 9 {
            Some(Resource::IronIngots)
        } else if i == 10 {
            Some(Resource::Tools)
        } else if i == 11 {
            Some(Resource::Cloth)
        } else {
            None
        }
    }

    pub fn index(&self) -> (i: usize)
        ensures
            i == self.spec_index(),
            i < RESOURCE_COUNT,
    {
        match self {
            Resource::Grain => 0,
            Resource::Timber => 1,
            Resource::Stone => 2,
            Resource::IronOre => 3,
            Resource::Wool => 4,
            Resource::Clay => 5,
            Resource::Herbs => 6,
            Resource::Flour => 7,
            Resource::Planks => 8,
            Resource::IronIngots => 9,
            Resource::Tools => 10,
            Resource::Cloth => 11,
        }
    }

    pub fn from_index(i: usize) -> (r: Option<Resource>)
        ensures
            r == Resource::spec_from_index(i as int),
            r is Some <==> i < RESOURCE_COUNT,
            r matches Some(res) ==> res.spec_index() == i,
    {
        if i == 0 {
            Some(Resource::Grain)
        } else if i == 1 {
            Some(Resource::Timber)
        } else if i == 2 {
            Some(Resource::Stone)
        } else if i == 3 {
            Some(Resource::IronOre)
        } else if i == 4 {
            Some(Resource::Wool)
        } else if i == 5 {
            Some(Resource::Clay)
        } else if i == 6 {
            Some(Resource::Herbs)
        } else if i == 7 {
            Some(Resource::Flour)
        } else if i == 8 {
            Some(Resource::Planks)
        } else if i == 9 {
            Some(Resource::IronIngots)
        } else if i == 10 {
            Some(Resource::Tools)
        } else if i == 11 {
            Some(Resource::Cloth)
        } else {
            None
        }
    }

    /// Every good once, in declaration order.
    pub fn all() -> (v: Vec<Resource>)
        ensures
            v@.len() == RESOURCE_COUNT,
            forall|i: int| 0 <= i < v@.len() ==> (#[trigger] v@[i]).spec_index() == i,
    {
        let mut v: Vec<Resource> = Vec::new();
        let mut i: usize = 0;
        while i < RESOURCE_COUNT
            invariant
                i <= RESOURCE_COUNT,
                v@.len() == i,
                forall|j: int| 0 <= j < v@.len() ==> (#[trigger] v@[j]).spec_index() == j,
            decreases RESOURCE_COUNT - i,
        {
            let r = Resource::from_index(i);
            match r {
                Some(res) => v.push(res),
                None => {},
            }
            i = i + 1;
        }
        v
    }

    pub open spec fn spec_short_name(self) -> &'static str {
        match self {
            Resource::Grain => "Grain",
            Resource::Timber => "Timbr",
            Resource::Stone => "Stone",
            Resource::IronOre => "IrOre",
            Resource::Wool => "Wool ",
            Resource::Clay => "Clay ",
            Resource::Herbs => "Herbs",
            Resource::Flour => "Flour",
            Resource::Planks => "Plank",
            Resource::IronIngots => "Ingot",
            Resource::Tools => "Tools",
            Resource::Cloth => "Cloth",
        }
    }

    /// Five-character column label used in the price table.
    pub fn short_name(&self) -> (s: &'static str)
        ensures
            s == self.spec_short_name(),
    {
        match self {
            Resource::Grain => "Grain",
            Resource::Timber => "Timbr",
            Resource::Stone => "Stone",
            Resource::IronOre => "IrOre",
            Resource::Wool => "Wool ",
            Resource::Clay => "Clay ",
            Resource::Herbs => "Herbs",
            Resource::Flour => "Flour",
            Resource::Planks => "Plank",
            Resource::IronIngots => "Ingot",
            Resource::Tools => "Tools",
            Resource::Cloth => "Cloth",
        }
    }
    pub open spec fn spec_name(self) -> &'static str {
        match self {
            Resource::Grain => "Grain",
            Resource::Timber => "Timber",
            Resource::Stone => "Stone",
            Resource::IronOre => "IronOre",
            Resource::Wool => "Wool",
            Resource::Clay => "Clay",
            Resource::Herbs => "Herbs",
            Resource::Flour => "Flour",
            Resource::Planks => "Planks",
            Resource::IronIngots => "IronIngots",
            Resource::Tools => "Tools",
            Resource::Cloth => "Cloth",
        }
    }

    /// Full name of the good, as it is shown to people (the variant's name).
    pub fn name(&self) -> (s: &'static str)
        ensures
            s == self.spec_name(),
    {
        match self {
            Resource::Grain => "Grain",
            Resource::Timber => "Timber",
            Resource::Stone => "Stone",
            Resource::IronOre => "IronOre",
            Resource::Wool => "Wool",
            Resource::Clay => "Clay",
            Resource::Herbs => "Herbs",
            Resource::Flour => "Flour",
            Resource::Planks => "Planks",
            Resource::IronIngots => "IronIngots",
            Resource::Tools => "Tools",
            Resource::Cloth => "Cloth",
        }
    }

    pub open spec fn spec_spoilage_class(self) -> SpoilageClass {
        match self {
            Resource::Grain | Resource::Flour | Resource::Herbs => SpoilageClass::Perishable,
            Resource::Timber
            | Resource::Wool
            | Resource::Clay
            | Resource::IronOre
            | Resource::Stone => SpoilageClass::Raw,
            Resource::Planks
            | Resource::IronIngots
            | Resource::Tools
            | Resource::Cloth => SpoilageClass::Processed,
        }
    }

    /// Which decay class the good belongs to.
    pub fn spoilage_class(&self) -> (c: SpoilageClass)
        ensures
            c == self.spec_spoilage_class(),
    {
        match self {
            Resource::Grain | Resource::Flour | Resource::Herbs => SpoilageClass::Perishable,
            Resource::Timber
            | Resource::Wool
            | Resource::Clay
            | Resource::IronOre
            | Resource::Stone => SpoilageClass::Raw,
            Resource::Planks
            | Resource::IronIngots
            | Resource::Tools
            | Resource::Cloth => SpoilageClass::Processed,
        }
    }

    /// Share of the stock of this good that decays each tick, in percent:
    /// perishables 5, raw materials 2, processed goods 1.
    pub fn spoilage_percent(&self) -> (p: u32)
        ensures
            p == spoilage_percent_of(self.spec_spoilage_class()),
    {
        match self.spoilage_class() {
            SpoilageClass::Perishable => 5,
            SpoilageClass::Raw => 2,
            SpoilageClass::Processed => 1,
        }
    }
}

/// Decay per tick of each class, in percent.
pub open spec fn spoilage_percent_of(c: SpoilageClass) -> nat {
    match c {
        SpoilageClass::Perishable => 5,
        SpoilageClass::Raw => 2,
        SpoilageClass::Processed => 1,
    }
}

/// Slots and goods correspond one to one: each good has a slot below
/// `RESOURCE_COUNT`, and the good in its slot is itself.
pub proof fn law_index_round_trip(r: Resource, i: int)
    ensures
        r.spec_index() < RESOURCE_COUNT,
        Resource::spec_from_index(r.spec_index() as int) == Some(r),
        Resource::spec_from_index(i) matches Some(q) ==> q.spec_index() == i,
        Resource::spec_from_index(i) is Some <==> 0 <= i < RESOURCE_COUNT,
{
}

/// Which goods decay how fast: the perishables are exactly grain, flour and
/// herbs (five percent a tick); the raw goods exactly timber, wool, clay,
/// iron ore and stone (two percent); the processed goods exactly planks,
/// iron ingots, tools and cloth (one percent).
pub proof fn law_spoilage_by_good(r: Resource)
    ensures
        r.spec_spoilage_class() == SpoilageClass::Perishable
            <==> (r == Resource::Grain || r == Resource::Flour || r == Resource::Herbs),
        r.spec_spoilage_class() == SpoilageClass::Raw <==> (r == Resource::Timber || r == Resource::Wool
            || r == Resource::Clay || r == Resource::IronOre || r == Resource::Stone),
        r.spec_spoilage_class() == SpoilageClass::Processed <==> (r == Resource::Planks || r == Resource::IronIngots
            || r == Resource::Tools || r == Resource::Cloth),
        spoilage_percent_of(r.spec_spoilage_class()) == if r == Resource::Grain || r == Resource::Flour
            || r == Resource::Herbs {
            5nat
        } else if r == Resource::Planks || r == Resource::IronIngots || r == Resource::Tools || r == Resource::Cloth {
            1nat
        } else {
            2nat
        },
{
}

} // verus!
