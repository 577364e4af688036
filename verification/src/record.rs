//! The records of the table and the matches that a search hands back.

use vstd::prelude::*;

verus! {

/// One record of the table.
///
/// The population is `None` where the column is empty or holds no unsigned
/// number. The two coordinates are kept as they are written, empty or not:
/// a search does not read them, and the library does no arithmetic on them.
#[derive(Debug, Clone, PartialEq, Eq)]
pub struct Row {
    pub country: String,
    pub city: String,
    pub accent_city: String,
    pub region: String,
    pub population: Option<u64>,
    pub latitude: String,
    pub longitude: String,
}

/// What a `Row` is in contracts: its texts as sequences of characters.
pub ghost struct RowView {
    pub country: Seq<char>,
    pub city: Seq<char>,
    pub accent_city: Seq<char>,
    pub region: Seq<char>,
    pub population: Option<u64>,
    pub latitude: Seq<char>,
    pub longitude: Seq<char>,
}

impl View for Row {
    type V = RowView;

    open spec fn view(&self) -> RowView {
        RowView {
            country: self.country@,
            city: self.city@,
            accent_city: self.accent_city@,
            region: self.region@,
            population: self.population,
            latitude: self.latitude@,
            longitude: self.longitude@,
        }
    }
}

/// A city found by a search, with the number of people living there.
#[derive(Debug, Clone, PartialEq, Eq)]
pub struct PopulationCount {
    pub city: String,
    pub country: String,
    pub count: u64,
}

/// What a `PopulationCount` is in contracts.
pub ghost struct CountView {
    pub city: Seq<char>,
    pub country: Seq<char>,
    pub count: u64,
}

impl View for PopulationCount {
    type V = CountView;

    open spec fn view(&self) -> CountView {
        CountView { city: self.city@, country: self.country@, count: self.count }
    }
}

impl RowView {
    /// A row answers a query when its population is known and its city is the
    /// query, character for character.
    pub open spec fn answers(self, query: Seq<char>) -> bool {
        self.population is Some && self.city == query
    }

    /// The match that a row with a known population gives.
    pub open spec fn count(self) -> CountView
        recommends
            self.population is Some,
    {
        CountView { city: self.city, country: self.country, count: self.population->0 }
    }
}

} // verus!
