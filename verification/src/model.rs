//! The game vocabulary the interface speaks about: civilizations, setup
//! levels, map directions and locations, and what a city can build.
use vstd::prelude::*;

verus! {

/// The civilizations a player can lead, in the order the selector lists them.
#[derive(Clone, Copy, Debug, PartialEq, Eq, Structural)]
pub enum Civilization {
    American,
    Aztec,
    Babylonian,
    Chinese,
    Egyptian,
    English,
    French,
    German,
    Greek,
    Indian,
    Mongol,
    Roman,
    Russian,
    Zulu,
}

/// How many civilizations the selector offers.
pub const CIVILIZATION_COUNT: usize = 14;

/// The civilization at position `i` of the selector's list.
pub open spec fn civilization_at(i: int) -> Option<Civilization> {
    if i == 0 {
        Some(Civilization::American)
    } else if i == 1 {
        Some(Civilization::Aztec)
    } else if i == 2 {
        Some(Civilization::Babylonian)
    } else if i == 3 {
        Some(Civilization::Chinese)
    } else if i == 4 {
        Some(Civilization::Egyptian)
    } else if i == 5 {
        Some(Civilization::English)
    } else if i == 6 {
        Some(Civilization::French)
    } else if i == 7 {
        Some(Civilization::German)
    } else if i == 8 {
        Some(Civilization::Greek)
    } else if i == 9 {
        Some(Civilization::Indian)
    } else if i == 10 {
        Some(Civilization::Mongol)
    } else if i == 11 {
        Some(Civilization::Roman)
    } else if i == 12 {
        Some(Civilization::Russian)
    } else if i == 13 {
        Some(Civilization::Zulu)
    } else {
        None
    }
}

impl Civilization {
    /// The civilization at position `index` of the selector's list, if any.
    pub fn from_index(index: usize) -> (civ: Option<Civilization>)
        ensures
            civ == civilization_at(index as int),
            civ is Some <==> index < CIVILIZATION_COUNT,
    {
        match index {
            0 => Some(Civilization::American),
            1 => Some(Civilization::Aztec),
            2 => Some(Civilization::Babylonian),
            3 => Some(Civilization::Chinese),
            4 => Some(Civilization::Egyptian),
            5 => Some(Civilization::English),
            6 => Some(Civilization::French),
            7 => Some(Civilization::German),
            8 => Some(Civilization::Greek),
            9 => Some(Civilization::Indian),
            10 => Some(Civilization::Mongol),
            11 => Some(Civilization::Roman),
            12 => Some(Civilization::Russian),
            13 => Some(Civilization::Zulu),
            _ => None,
        }
    }

    /// The names a civilization gives its cities, in order of founding.
    pub fn city_names(self) -> (names: Vec<&'static str>)
        ensures
            names@.map_values(|name: &str| name@) == city_name_list(self),
    {
        let mut names: Vec<&'static str> = Vec::new();
        match self {
            Civilization::American => {
                names.push("Washington");
                names.push("Boston");
            },
            Civilization::English => {
                names.push("London");
                names.push("York");
                names.push("Manchester");
            },
            Civilization::Zulu => {
                names.push("Zimbabwe");
                names.push("Ulundi");
                names.push("Bapedi");
                names.push("Isandhlwana");
            },
            _ => {},
        }
        proof {
            assert(names@.map_values(|name: &str| name@) =~= city_name_list(self));
        }
        names
    }
}

/// The name a civilization goes by on screen.
pub open spec fn civilization_name(civ: Civilization) -> Seq<char> {
    match civ {
        Civilization::American => "American"@,
        Civilization::Aztec => "Aztec"@,
        Civilization::Babylonian => "Babylonian"@,
        Civilization::Chinese => "Chinese"@,
        Civilization::Egyptian => "Egyptian"@,
        Civilization::English => "English"@,
        Civilization::French => "French"@,
        Civilization::German => "German"@,
        Civilization::Greek => "Greek"@,
        Civilization::Indian => "Indian"@,
        Civilization::Mongol => "Mongol"@,
        Civilization::Roman => "Roman"@,
        Civilization::Russian => "Russian"@,
        Civilization::Zulu => "Zulu"@,
    }
}

impl Civilization {
    /// The name the civilization goes by on screen.
    pub fn display_name(self) -> (name: &'static str)
        ensures
            name@ == civilization_name(self),
    {
        match self {
            Civilization::American => "American",
            Civilization::Aztec => "Aztec",
            Civilization::Babylonian => "Babylonian",
            Civilization::Chinese => "Chinese",
            Civilization::Egyptian => "Egyptian",
            Civilization::English => "English",
            Civilization::French => "French",
            Civilization::German => "German",
            Civilization::Greek => "Greek",
            Civilization::Indian => "Indian",
            Civilization::Mongol => "Mongol",
            Civilization::Roman => "Roman",
            Civilization::Russian => "Russian",
            Civilization::Zulu => "Zulu",
        }
    }
}

/// The city names of a civilization, in order of founding.
pub open spec fn city_name_list(civ: Civilization) -> Seq<Seq<char>> {
    match civ {
        Civilization::American => seq!["Washington"@, "Boston"@],
        Civilization::English => seq!["London"@, "York"@, "Manchester"@],
        Civilization::Zulu => seq!["Zimbabwe"@, "Ulundi"@, "Bapedi"@, "Isandhlwana"@],
        _ => Seq::empty(),
    }
}

/// How harsh the world is.
#[derive(Clone, Copy, Debug, PartialEq, Eq, Structural)]
pub enum Difficulty {
    Easy,
    Normal,
    Hard,
}

/// How many difficulty levels the selector offers.
pub const DIFFICULTY_COUNT: usize = 3;

/// The difficulty at position `i` of the selector's list.
pub open spec fn difficulty_at(i: int) -> Option<Difficulty> {
    if i == 0 {
        Some(Difficulty::Easy)
    } else if i == 1 {
        Some(Difficulty::Normal)
    } else if i == 2 {
        Some(Difficulty::Hard)
    } else {
        None
    }
}

/// The name a difficulty level goes by on screen.
pub open spec fn difficulty_name(difficulty: Difficulty) -> Seq<char> {
    match difficulty {
        Difficulty::Easy => "Easy"@,
        Difficulty::Normal => "Normal"@,
        Difficulty::Hard => "Hard"@,
    }
}

impl Difficulty {
    /// The name the level goes by on screen.
    pub fn display_name(self) -> (name: &'static str)
        ensures
            name@ == difficulty_name(self),
    {
        match self {
            Difficulty::Easy => "Easy",
            Difficulty::Normal => "Normal",
            Difficulty::Hard => "Hard",
        }
    }

    /// The difficulty at position `index` of the selector's list, if any.
    pub fn from_index(index: usize) -> (difficulty: Option<Difficulty>)
        ensures
            difficulty == difficulty_at(index as int),
            difficulty is Some <==> index < DIFFICULTY_COUNT,
    {
        match index {
            0 => Some(Difficulty::Easy),
            1 => Some(Difficulty::Normal),
            2 => Some(Difficulty::Hard),
            _ => None,
        }
    }
}

/// The level of competition: how many rival empires share the world.
#[derive(Clone, Copy, Debug, PartialEq, Eq, Structural)]
pub struct Competition {
    pub rivals: u8,
}

/// The fewest rivals a game can have.
pub const COMPETITION_MIN: u8 = 1;

/// The most rivals a game can have.
pub const COMPETITION_MAX: u8 = 7;

/// How many competition levels the selector offers.
pub const COMPETITION_LEVELS: usize = 7;

impl Competition {
    /// The fewest rivals a game can have.
    pub const MIN: u8 = 1;

    /// The most rivals a game can have.
    pub const MAX: u8 = 7;

    /// A competition level with `rivals` rival empires.
    pub fn new(rivals: u8) -> (level: Competition)
        ensures
            level.rival_count() == rivals,
    {
        Competition { rivals }
    }

    /// The number of rival empires.
    pub open spec fn rival_count(self) -> u8 {
        self.rivals
    }

    /// The number of rival empires.
    pub fn rivals(self) -> (count: u8)
        ensures
            count == self.rival_count(),
    {
        self.rivals
    }
}

/// The eight compass directions a unit can step in.
#[derive(Clone, Copy, Debug, PartialEq, Eq, Structural)]
pub enum Direction {
    N,
    NE,
    E,
    SE,
    S,
    SW,
    W,
    NW,
}

impl Direction {
    /// The column step of the direction: east is positive.
    pub open spec fn dx(self) -> int {
        match self {
            Direction::NE | Direction::E | Direction::SE => 1,
            Direction::N | Direction::S => 0,
            Direction::SW | Direction::W | Direction::NW => -1,
        }
    }

    /// The row step of the direction: south is positive.
    pub open spec fn dy(self) -> int {
        match self {
            Direction::SE | Direction::S | Direction::SW => 1,
            Direction::E | Direction::W => 0,
            Direction::N | Direction::NE | Direction::NW => -1,
        }
    }

    /// The direction pointing the other way.
    pub open spec fn reversed(self) -> Direction {
        match self {
            Direction::N => Direction::S,
            Direction::NE => Direction::SW,
            Direction::E => Direction::W,
            Direction::SE => Direction::NW,
            Direction::S => Direction::N,
            Direction::SW => Direction::NE,
            Direction::W => Direction::E,
            Direction::NW => Direction::SE,
        }
    }

    /// The (column, row) step of the direction.
    pub fn delta(self) -> (step: (isize, isize))
        ensures
            step.0 == self.dx(),
            step.1 == self.dy(),
    {
        match self {
            Direction::N => (0, -1),
            Direction::NE => (1, -1),
            Direction::E => (1, 0),
            Direction::SE => (1, 1),
            Direction::S => (0, 1),
            Direction::SW => (-1, 1),
            Direction::W => (-1, 0),
            Direction::NW => (-1, -1),
        }
    }

    /// The direction pointing the other way.
    pub fn opposite(self) -> (back: Direction)
        ensures
            back == self.reversed(),
            back.dx() == -self.dx(),
            back.dy() == -self.dy(),
    {
        match self {
            Direction::N => Direction::S,
            Direction::NE => Direction::SW,
            Direction::E => Direction::W,
            Direction::SE => Direction::NW,
            Direction::S => Direction::N,
            Direction::SW => Direction::NE,
            Direction::W => Direction::E,
            Direction::NW => Direction::SE,
        }
    }
}

/// A world tile.
#[derive(Clone, Copy, Debug, PartialEq, Eq, Structural)]
pub struct Location {
    pub x: u16,
    pub y: u16,
}

impl Location {
    /// The tile at column `x`, row `y`.
    pub fn new(x: u16, y: u16) -> (location: Location)
        ensures
            location.x == x,
            location.y == y,
    {
        Location { x, y }
    }
}

/// The identity of a unit.
#[derive(Clone, Copy, Debug, PartialEq, Eq, Structural)]
pub struct UnitId {
    pub id: u32,
}

impl UnitId {
    /// The unit with number `id`.
    pub fn new(id: u32) -> (unit: UnitId)
        ensures
            unit.id == id,
    {
        UnitId { id }
    }
}

/// The identity of a city.
#[derive(Clone, Copy, Debug, PartialEq, Eq, Structural)]
pub struct CityId {
    pub id: u32,
}

impl CityId {
    /// The city with number `id`.
    pub fn new(id: u32) -> (city: CityId)
        ensures
            city.id == id,
    {
        CityId { id }
    }
}

/// The kinds of unit a city can train.
#[derive(Clone, Copy, Debug, PartialEq, Eq, Structural)]
pub enum UnitClass {
    Militia,
    Phalanx,
    Settler,
}

/// The buildings a city can raise.
#[derive(Clone, Copy, Debug, PartialEq, Eq, Structural)]
pub enum CityImprovement {
    Barracks,
    Marketplace,
}

/// Something a city can produce.
#[derive(Clone, Copy, Debug, PartialEq, Eq, Structural)]
pub enum ProductionTarget {
    Unit(UnitClass),
    Improvement(CityImprovement),
}

/// The shields a unit class costs to train.
pub open spec fn unit_cost(class: UnitClass) -> u32 {
    match class {
        UnitClass::Militia => 10,
        UnitClass::Phalanx => 15,
        UnitClass::Settler => 60,
    }
}

/// The shields an improvement costs to build.
pub open spec fn improvement_cost(improvement: CityImprovement) -> u32 {
    match improvement {
        CityImprovement::Barracks => 40,
        CityImprovement::Marketplace => 80,
    }
}

/// The display name of a unit class.
pub open spec fn unit_name(class: UnitClass) -> Seq<char> {
    match class {
        UnitClass::Militia => "Militia"@,
        UnitClass::Phalanx => "Phalanx"@,
        UnitClass::Settler => "Settler"@,
    }
}

/// The display name of an improvement.
pub open spec fn improvement_name(improvement: CityImprovement) -> Seq<char> {
    match improvement {
        CityImprovement::Barracks => "Barracks"@,
        CityImprovement::Marketplace => "Marketplace"@,
    }
}

/// The shields a production target costs.
pub open spec fn target_cost(target: ProductionTarget) -> u32 {
    match target {
        ProductionTarget::Unit(class) => unit_cost(class),
        ProductionTarget::Improvement(improvement) => improvement_cost(improvement),
    }
}

/// The display name of a production target.
pub open spec fn target_label(target: ProductionTarget) -> Seq<char> {
    match target {
        ProductionTarget::Unit(class) => unit_name(class),
        ProductionTarget::Improvement(improvement) => improvement_name(improvement),
    }
}

impl UnitClass {
    /// The display name of the unit class.
    pub fn name(self) -> (name: &'static str)
        ensures
            name@ == unit_name(self),
    {
        match self {
            UnitClass::Militia => "Militia",
            UnitClass::Phalanx => "Phalanx",
            UnitClass::Settler => "Settler",
        }
    }
}

impl CityImprovement {
    /// The display name of the improvement.
    pub fn name(self) -> (name: &'static str)
        ensures
            name@ == improvement_name(self),
    {
        match self {
            CityImprovement::Barracks => "Barracks",
            CityImprovement::Marketplace => "Marketplace",
        }
    }
}

impl ProductionTarget {
    /// The shields the target costs.
    pub fn resource_cost(self) -> (cost: u32)
        ensures
            cost == target_cost(self),
    {
        match self {
            ProductionTarget::Unit(class) => match class {
                UnitClass::Militia => 10,
                UnitClass::Phalanx => 15,
                UnitClass::Settler => 60,
            },
            ProductionTarget::Improvement(improvement) => match improvement {
                CityImprovement::Barracks => 40,
                CityImprovement::Marketplace => 80,
            },
        }
    }

    /// The display name of the target.
    pub fn label(self) -> (name: &'static str)
        ensures
            name@ == target_label(self),
    {
        match self {
            ProductionTarget::Unit(class) => class.name(),
            ProductionTarget::Improvement(improvement) => improvement.name(),
        }
    }
}

/// The advancements a civilization can discover.
#[derive(Clone, Copy, Debug, PartialEq, Eq, Structural)]
pub enum Advancement {
    Alphabet,
    BronzeWorking,
    Construction,
    Masonry,
    Pottery,
}

/// The name of an advancement.
pub open spec fn advancement_name(advancement: Advancement) -> Seq<char> {
    match advancement {
        Advancement::Alphabet => "Alphabet"@,
        Advancement::BronzeWorking => "BronzeWorking"@,
        Advancement::Construction => "Construction"@,
        Advancement::Masonry => "Masonry"@,
        Advancement::Pottery => "Pottery"@,
    }
}

impl Advancement {
    /// The name of the advancement.
    pub fn name(self) -> (name: &'static str)
        ensures
            name@ == advancement_name(self),
    {
        match self {
            Advancement::Alphabet => "Alphabet",
            Advancement::BronzeWorking => "BronzeWorking",
            Advancement::Construction => "Construction",
            Advancement::Masonry => "Masonry",
            Advancement::Pottery => "Pottery",
        }
    }
}

/// The special resources a tile may carry.
#[derive(Clone, Copy, Debug, PartialEq, Eq, Structural)]
pub enum SpecialResource {
    Coal,
    Fish,
    Game,
    Gems,
    Gold,
    Horses,
    Oasis,
    Oil,
}

} // verus!
