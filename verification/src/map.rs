use vstd::prelude::*;
use itertools::Itertools;
use bevy::platform::collections::HashMap as FixedSeedHashMap;

verus! {

/// # Hex Coordinate
///
/// Helper for our map to store and deal with location and algorithms easier.
#[derive(Debug, Copy, Clone, Hash, PartialEq, Eq, Structural)]
pub struct HexCoord {
    x: usize,
    y: usize,
}

impl HexCoord {
    /// The column of the coordinate.
    pub closed spec fn col(self) -> usize {
        self.x
    }

    /// The row of the coordinate.
    pub closed spec fn row(self) -> usize {
        self.y
    }

    /// # New
    ///
    /// A coordinate at column `x` and row `y`.
    pub fn new(x: usize, y: usize) -> (c: Self)
        ensures
            c.col() == x,
            c.row() == y,
    {
        HexCoord { x, y }
    }

    /// Two coordinates are the same exactly when column and row agree.
    pub proof fn lemma_eq_by_parts(a: Self, b: Self)
        ensures
            (a == b) <==> (a.col() == b.col() && a.row() == b.row()),
    {
    }

    /// Whether two coordinates name the same hex.
    pub fn same_place(&self, other: &HexCoord) -> (r: bool)
        ensures
            r == (*self == *other),
    {
        self.x == other.x && self.y == other.y
    }

    /// # Z
    ///
    /// A helper function, should return the value needed for x + y - z to equal 0.
    ///
    /// We chose to do it this way to make things a bit easier to plug into our 2d array.
    pub fn z(&self) -> (z: usize)
        requires
            self.col() + self.row() <= usize::MAX,
        ensures
            self.col() + self.row() - z == 0,
    {
        self.x + self.y
    }
}

/// `bevy::platform::collections::HashMap`, the hash map with a fixed-seed hasher
/// that the map uses to find cities by location. Declared opaque.
#[verifier::external_type_specification]
#[verifier::external_body]
#[verifier::reject_recursive_types(K)]
#[verifier::reject_recursive_types(V)]
#[verifier::reject_recursive_types(S)]
pub struct ExFixedSeedHashMap<K, V, S>(FixedSeedHashMap<K, V, S>);

/// `bevy::platform::hash::FixedHasher`, the fixed-seed hasher of the city finder.
/// Declared opaque.
#[verifier::external_type_specification]
#[verifier::external_body]
pub struct ExFixedHasher(bevy::platform::hash::FixedHasher);

/// What a city finder holds: the index of a city by the (column, row) of its
/// location. Only its emptiness on creation is stated.
pub uninterp spec fn city_index_entries(
    m: FixedSeedHashMap<HexCoord, usize>,
) -> Map<(usize, usize), usize>;

/// `bevy::platform::collections::HashMap::new`: the map it returns is empty.
#[verifier::external_body]
fn new_city_index() -> (m: FixedSeedHashMap<HexCoord, usize>)
    ensures
        city_index_entries(m).dom() == Set::<(usize, usize)>::empty(),
{
    FixedSeedHashMap::new()
}

/// `Itertools::find_position` over the cities, looking for `city`: the
/// position of the first city equal to it, if any.
#[verifier::external_body]
fn find_city_position(cities: &Vec<HexCoord>, city: HexCoord) -> (r: Option<usize>)
    ensures
        match r {
            Some(i) => is_first_index(cities@, city, i as int),
            None => !cities@.contains(city),
        },
{
    cities.iter().find_position(|x| x.same_place(&city)).map(|(idx, _)| idx)
}

/// `i` is the first position of `c` in `s`.
pub open spec fn is_first_index(s: Seq<HexCoord>, c: HexCoord, i: int) -> bool {
    &&& 0 <= i < s.len()
    &&& s[i] == c
    &&& forall|j: int| 0 <= j < i ==> s[j] != c
}

/// # World Map
///
/// This stores our map in greater detail.
///
/// It deals with the location and organization of the hexes relative to each other:
/// the grid's dimensions, the cities (region centers) and the regions under them.
///
/// The hex grid map is point down, to create nice horizontal rows.
#[derive(Debug)]
pub struct WorldMap {
    /// Number of hex columns of the grid.
    pub width: usize,
    /// Number of hex rows of the grid.
    pub height: usize,
    /// The Locations of Cities (Region Centers) on the map.
    ///
    /// We add cities in order of creation and delete (or move) as needed.
    pub cities: Vec<HexCoord>,
    /// The Regions which are under each City.
    ///
    /// The regions idx should correspond to the city's idx.
    pub regions: Vec<Vec<HexCoord>>,
    /// A helper to quickly find the city at a hex location.
    pub city_idcs: FixedSeedHashMap<HexCoord, usize>,
}

impl WorldMap {
    /// Well formed: one region per city, and no two cities at one location.
    pub open spec fn wf(&self) -> bool {
        &&& self.cities@.len() == self.regions@.len()
        &&& self.cities@.no_duplicates()
    }

    /// # New
    ///
    /// Creates a new, empty map with the given dimensions.
    pub fn new(width: usize, height: usize) -> (m: Self)
        ensures
            m.wf(),
            m.width == width,
            m.height == height,
            m.cities@ == Seq::<HexCoord>::empty(),
            m.regions@ == Seq::<Vec<HexCoord>>::empty(),
            city_index_entries(m.city_idcs).dom() == Set::<(usize, usize)>::empty(),
    {
        WorldMap {
            width,
            height,
            cities: Vec::new(),
            regions: Vec::new(),
            city_idcs: new_city_index(),
        }
    }

    /// # Add City
    ///
    /// Adds a city to our cities and regions safely, with an empty region.
    ///
    /// Returns true if successful, false if a city already exists at that location.
    pub fn add_city(&mut self, city: HexCoord) -> (added: bool)
        ensures
            added == !old(self).cities@.contains(city),
            added ==> final(self).cities@ == old(self).cities@.push(city),
            added ==> final(self).regions@.len() == old(self).regions@.len() + 1,
            added ==> final(self).regions@.last()@ == Seq::<HexCoord>::empty(),
            added ==> forall|i: int|
                0 <= i < old(self).regions@.len() ==> #[trigger] final(self).regions@[i]
                    == old(self).regions@[i],
            !added ==> *final(self) == *old(self),
            final(self).width == old(self).width,
            final(self).height == old(self).height,
            final(self).city_idcs == old(self).city_idcs,
            old(self).wf() ==> final(self).wf(),
    {
        let mut i: usize = 0;
        while i < self.cities.len()
            invariant
                0 <= i <= self.cities@.len(),
                forall|j: int| 0 <= j < i ==> self.cities@[j] != city,
            decreases self.cities@.len() - i,
        {
            if self.cities[i] == city {
                // if coordinate is already taken, return out
                return false;
            }
            i = i + 1;
        }
        self.cities.push(city);
        self.regions.push(Vec::new());
        true
    }

    /// # Find City
    ///
    /// The index of the city at the given location, if there is one.
    pub fn find_city(&mut self, city: HexCoord) -> (r: Option<usize>)
        ensures
            *final(self) == *old(self),
            match r {
                Some(i) => is_first_index(old(self).cities@, city, i as int),
                None => !old(self).cities@.contains(city),
            },
    {
        find_city_position(&self.cities, city)
    }
}

/// A city added to a map is found afterwards at the end of the city list,
/// and its location is then taken: adding it again is refused.
pub proof fn added_city_is_found_last(cities: Seq<HexCoord>, city: HexCoord)
    requires
        !cities.contains(city),
    ensures
        is_first_index(cities.push(city), city, cities.len() as int),
        cities.push(city).contains(city),
{
    assert(cities.push(city)[cities.len() as int] == city);
}

/// In a well formed map the city at a location is the only one there: any
/// index that holds the location is the one `find_city` reports.
pub proof fn city_location_is_unique(cities: Seq<HexCoord>, city: HexCoord, i: int)
    requires
        cities.no_duplicates(),
        0 <= i < cities.len(),
        cities[i] == city,
    ensures
        is_first_index(cities, city, i),
{
}

} // verus!
