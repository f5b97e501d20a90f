use vstd::prelude::*;

verus! {

/// Number of resource kinds; every ordinal lies below it.
pub const RESOURCE_COUNT: usize = 15;

/// A fungible good or currency tracked in a business's stock.
///
/// The declaration order is the resource order: stock listings come out in it.
#[derive(PartialEq, Eq, Structural, Hash, PartialOrd, Ord, Clone, Copy, Debug)]
pub enum Resource {
    Money,
    Energy,
    Sand,
    Ore,
    Gold,
    Chip,
    Wire,
    Computer,
    Log,
    Plank,
    Furniture,
    RawOil,
    Oil,
    Glass,
    Plastic,
}

/// Position of a resource in the resource order.
pub open spec fn ordinal(r: Resource) -> int {
    match r {
        Resource::Money => 0,
        Resource::Energy => 1,
        Resource::Sand => 2,
        Resource::Ore => 3,
        Resource::Gold => 4,
        Resource::Chip => 5,
        Resource::Wire => 6,
        Resource::Computer => 7,
        Resource::Log => 8,
        Resource::Plank => 9,
        Resource::Furniture => 10,
        Resource::RawOil => 11,
        Resource::Oil => 12,
        Resource::Glass => 13,
        Resource::Plastic => 14,
    }
}

/// The resource at a position of the resource order.
pub open spec fn resource_at(i: int) -> Resource
    recommends
        0 <= i < RESOURCE_COUNT,
{
    if i <= 0 {
        Resource::Money
    } else if i == 1 {
        Resource::Energy
    } else if i == 2 {
        Resource::Sand
    } else if i == 3 {
        Resource::Ore
    } else if i == 4 {
        Resource::Gold
    } else if i == 5 {
        Resource::Chip
    } else if i == 6 {
        Resource::Wire
    } else if i == 7 {
        Resource::Computer
    } else if i == 8 {
        Resource::Log
    } else if i == 9 {
        Resource::Plank
    } else if i == 10 {
        Resource::Furniture
    } else if i == 11 {
        Resource::RawOil
    } else if i == 12 {
        Resource::Oil
    } else if i == 13 {
        Resource::Glass
    } else {
        Resource::Plastic
    }
}

/// `ordinal` and `resource_at` are inverse bijections between the resources
/// and `0..RESOURCE_COUNT`.
pub proof fn lemma_ordinal_bijection()
    ensures
        forall|r: Resource|
            0 <= #[trigger] ordinal(r) < RESOURCE_COUNT && resource_at(ordinal(r)) == r,
        forall|i: int| 0 <= i < RESOURCE_COUNT ==> ordinal(#[trigger] resource_at(i)) == i,
        forall|a: Resource, b: Resource| #[trigger] ordinal(a) == #[trigger] ordinal(b) ==> a == b,
{
    assert forall|r: Resource|
        0 <= #[trigger] ordinal(r) < RESOURCE_COUNT && resource_at(ordinal(r)) == r by {
        match r {
            Resource::Money => {},
            Resource::Energy => {},
            Resource::Sand => {},
            Resource::Ore => {},
            Resource::Gold => {},
            Resource::Chip => {},
            Resource::Wire => {},
            Resource::Computer => {},
            Resource::Log => {},
            Resource::Plank => {},
            Resource::Furniture => {},
            Resource::RawOil => {},
            Resource::Oil => {},
            Resource::Glass => {},
            Resource::Plastic => {},
        }
    }
    assert forall|a: Resource, b: Resource| #[trigger] ordinal(a) == #[trigger] ordinal(b) implies a
        == b by {
        assert(resource_at(ordinal(a)) == a);
        assert(resource_at(ordinal(b)) == b);
    }
}

/// Name of the picture that shows a resource.
pub open spec fn texture_id_of(r: Resource) -> &'static str {
    match r {
        Resource::Money => "money",
        Resource::Energy => "energy",
        Resource::Sand => "sand",
        Resource::Gold => "gold",
        Resource::Ore => "rocks",
        Resource::Chip => "chip",
        Resource::Wire => "wire",
        Resource::Computer => "computer",
        Resource::Log => "logs",
        Resource::Plank => "planks",
        Resource::Furniture => "chair",
        Resource::RawOil => "raw_oil",
        Resource::Oil => "oil",
        Resource::Glass => "glass",
        Resource::Plastic => "plastic",
    }
}

/// Units moved and money paid by one unit of trade in a resource, as
/// `(quantity, price)`.
pub open spec fn trade_terms_of(r: Resource) -> (i32, i32) {
    match r {
        Resource::Money => (1, 1),
        Resource::Energy => (1, 2),
        Resource::Sand => (2, 1),
        Resource::Ore => (1, 4),
        Resource::Gold => (1, 8),
        Resource::Chip => (1, 1),
        Resource::Wire => (1, 4),
        Resource::Computer => (1, 8),
        Resource::Log => (1, 2),
        Resource::Plank => (1, 1),
        Resource::Furniture => (1, 8),
        Resource::RawOil => (1, 1),
        Resource::Oil => (1, 2),
        Resource::Glass => (1, 1),
        Resource::Plastic => (1, 1),
    }
}

impl Resource {
    /// Position of this resource in the resource order.
    pub fn ordinal(&self) -> (i: usize)
        ensures
            i == ordinal(*self),
            i < RESOURCE_COUNT,
    {
        match self {
            Resource::Money => 0,
            Resource::Energy => 1,
            Resource::Sand => 2,
            Resource::Ore => 3,
            Resource::Gold => 4,
            Resource::Chip => 5,
            Resource::Wire => 6,
            Resource::Computer => 7,
            Resource::Log => 8,
            Resource::Plank => 9,
            Resource::Furniture => 10,
            Resource::RawOil => 11,
            Resource::Oil => 12,
            Resource::Glass => 13,
            Resource::Plastic => 14,
        }
    }

    /// The resource at position `i` of the resource order.
    pub fn from_ordinal(i: usize) -> (r: Resource)
        requires
            i < RESOURCE_COUNT,
        ensures
            r == resource_at(i as int),
            ordinal(r) == i,
    {
        proof {
            lemma_ordinal_bijection();
        }
        if i == 0 {
            Resource::Money
        } else if i == 1 {
            Resource::Energy
        } else if i == 2 {
            Resource::Sand
        } else if i == 3 {
            Resource::Ore
        } else if i == 4 {
            Resource::Gold
        } else if i == 5 {
            Resource::Chip
        } else if i == 6 {
            Resource::Wire
        } else if i == 7 {
            Resource::Computer
        } else if i == 8 {
            Resource::Log
        } else if i == 9 {
            Resource::Plank
        } else if i == 10 {
            Resource::Furniture
        } else if i == 11 {
            Resource::RawOil
        } else if i == 12 {
            Resource::Oil
        } else if i == 13 {
            Resource::Glass
        } else {
            Resource::Plastic
        }
    }

    /// Name of the picture that shows this resource.
    pub fn get_texture_id(&self) -> (s: String)
        ensures
            s@ == texture_id_of(*self)@,
    {
        let id: &'static str = match self {
            Resource::Money => "money",
            Resource::Energy => "energy",
            Resource::Sand => "sand",
            Resource::Gold => "gold",
            Resource::Ore => "rocks",
            Resource::Chip => "chip",
            Resource::Wire => "wire",
            Resource::Computer => "computer",
            Resource::Log => "logs",
            Resource::Plank => "planks",
            Resource::Furniture => "chair",
            Resource::RawOil => "raw_oil",
            Resource::Oil => "oil",
            Resource::Glass => "glass",
            Resource::Plastic => "plastic",
        };
        id.to_string()
    }

    /// Units moved and money paid by one unit of trade in this resource.
    pub fn trade_terms(&self) -> (t: (i32, i32))
        ensures
            t == trade_terms_of(*self),
    {
        match self {
            Resource::Money => (1, 1),
            Resource::Energy => (1, 2),
            Resource::Sand => (2, 1),
            Resource::Ore => (1, 4),
            Resource::Gold => (1, 8),
            Resource::Chip => (1, 1),
            Resource::Wire => (1, 4),
            Resource::Computer => (1, 8),
            Resource::Log => (1, 2),
            Resource::Plank => (1, 1),
            Resource::Furniture => (1, 8),
            Resource::RawOil => (1, 1),
            Resource::Oil => (1, 2),
            Resource::Glass => (1, 1),
            Resource::Plastic => (1, 1),
        }
    }
}

} // verus!
