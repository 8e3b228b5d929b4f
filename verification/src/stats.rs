//! Counting what a blueprint holds.

use crate::data::enums::{DSPItem, DSPRecipe};
use crate::text::{chars_of, decimal, push_all, push_decimal, string_of};
use std::collections::HashMap;
use vstd::prelude::*;

verus! {

/// How often each building, each recipe and each ware of a station occurs.
/// The counts are kept by number: by item number or by recipe number.
pub struct Stats {
    pub buildings: HashMap<u16, usize>,
    pub recipes: HashMap<u16, usize>,
    pub station_wares: HashMap<u16, usize>,
}

/// The counts as a mathematical value.
pub struct StatsView {
    pub buildings: Map<u16, usize>,
    pub recipes: Map<u16, usize>,
    pub station_wares: Map<u16, usize>,
}

impl View for Stats {
    type V = StatsView;

    open spec fn view(&self) -> StatsView {
        StatsView {
            buildings: self.buildings@,
            recipes: self.recipes@,
            station_wares: self.station_wares@,
        }
    }
}

/// How often a number was counted.
pub open spec fn count_of(m: Map<u16, usize>, id: u16) -> usize {
    if m.dom().contains(id) {
        m[id]
    } else {
        0
    }
}

/// The counts after a number was counted once more. A count that the machine
/// cannot raise stays as it is.
pub open spec fn counted(m: Map<u16, usize>, id: u16) -> Map<u16, usize> {
    m.insert(
        id,
        if count_of(m, id) < usize::MAX {
            (count_of(m, id) + 1) as usize
        } else {
            usize::MAX
        },
    )
}

impl StatsView {
    /// The counts after a building was counted.
    pub open spec fn with_building(self, i: DSPItem) -> StatsView {
        StatsView { buildings: counted(self.buildings, i.id()), ..self }
    }

    /// The counts after a recipe was counted.
    pub open spec fn with_recipe(self, r: DSPRecipe) -> StatsView {
        StatsView { recipes: counted(self.recipes, r.id()), ..self }
    }

    /// The counts after a ware of a station was counted.
    pub open spec fn with_station_ware(self, i: DSPItem) -> StatsView {
        StatsView { station_wares: counted(self.station_wares, i.id()), ..self }
    }

    /// The counts of nothing.
    pub open spec fn empty() -> StatsView {
        StatsView { buildings: Map::empty(), recipes: Map::empty(), station_wares: Map::empty() }
    }
}

/// The lines of a table of counts for the items with a number below `n`:
/// for each item that was counted, its name, a colon and its count.
pub open spec fn item_lines(m: Map<u16, usize>, n: nat) -> Seq<char>
    decreases n,
{
    if n == 0 {
        Seq::empty()
    } else {
        let id = (n - 1) as u16;
        item_lines(m, (n - 1) as nat) + match DSPItem::of_id(id) {
            Some(i) => if count_of(m, id) > 0 {
                i.name_spec() + seq![':', ' '] + decimal(count_of(m, id) as nat) + seq!['\n']
            } else {
                Seq::empty()
            },
            None => Seq::empty(),
        }
    }
}

/// The lines of a table of counts for the recipes with a number below `n`.
pub open spec fn recipe_lines(m: Map<u16, usize>, n: nat) -> Seq<char>
    decreases n,
{
    if n == 0 {
        Seq::empty()
    } else {
        let id = (n - 1) as u16;
        recipe_lines(m, (n - 1) as nat) + match DSPRecipe::of_id(id) {
            Some(r) => if count_of(m, id) > 0 {
                r.name_spec() + seq![':', ' '] + decimal(count_of(m, id) as nat) + seq!['\n']
            } else {
                Seq::empty()
            },
            None => Seq::empty(),
        }
    }
}

impl Stats {
    /// Counts of nothing.
    pub fn new() -> (r: Self)
        ensures
            r@ == StatsView::empty(),
    {
        Stats { buildings: HashMap::new(), recipes: HashMap::new(), station_wares: HashMap::new() }
    }

    /// Counts a number once more.
    fn incmap(map: &mut HashMap<u16, usize>, i: u16)
        ensures
            final(map)@ == counted(old(map)@, i),
    {
        broadcast use vstd::std_specs::hash::group_hash_axioms;

        let now: usize = match map.get(&i) {
            Some(n) => *n,
            None => 0,
        };
        let next: usize = if now < usize::MAX {
            now + 1
        } else {
            now
        };
        map.insert(i, next);
    }

    /// How often a number was counted.
    fn count(map: &HashMap<u16, usize>, i: u16) -> (n: usize)
        ensures
            n == count_of(map@, i),
    {
        broadcast use vstd::std_specs::hash::group_hash_axioms;

        match map.get(&i) {
            Some(n) => *n,
            None => 0,
        }
    }

    /// Counts a building.
    pub fn add_building(&mut self, i: DSPItem)
        ensures
            final(self)@ == old(self)@.with_building(i),
    {
        Self::incmap(&mut self.buildings, i.to_u16())
    }

    /// Counts a recipe.
    pub fn add_recipe(&mut self, i: DSPRecipe)
        ensures
            final(self)@ == old(self)@.with_recipe(i),
    {
        Self::incmap(&mut self.recipes, i.to_u16())
    }

    /// Counts a ware of a station.
    pub fn add_station_ware(&mut self, i: DSPItem)
        ensures
            final(self)@ == old(self)@.with_station_ware(i),
    {
        Self::incmap(&mut self.station_wares, i.to_u16())
    }

    /// How often a building was counted.
    pub fn building_count(&self, i: DSPItem) -> (n: usize)
        ensures
            n == count_of(self@.buildings, i.id()),
    {
        Self::count(&self.buildings, i.to_u16())
    }

    /// How often a recipe was counted.
    pub fn recipe_count(&self, i: DSPRecipe) -> (n: usize)
        ensures
            n == count_of(self@.recipes, i.id()),
    {
        Self::count(&self.recipes, i.to_u16())
    }

    /// How often a ware of a station was counted.
    pub fn station_ware_count(&self, i: DSPItem) -> (n: usize)
        ensures
            n == count_of(self@.station_wares, i.id()),
    {
        Self::count(&self.station_wares, i.to_u16())
    }

    /// Appends the lines of a table of counts of items, in the order of the
    /// item numbers.
    fn printmap(out: &mut Vec<char>, map: &HashMap<u16, usize>)
        ensures
            final(out)@ == old(out)@ + item_lines(map@, 65536),
    {
        let mut n: u32 = 0;
        while n < 65536
            invariant
                n <= 65536,
                out@ == old(out)@ + item_lines(map@, n as nat),
            decreases 65536 - n,
        {
            let id: u16 = n as u16;
            let ghost before = out@;
            let count = Self::count(map, id);
            match DSPItem::try_from(id) {
                Ok(item) => {
                    if count > 0 {
                        let name = chars_of(item.name());
                        push_all(out, name.as_slice());
                        out.push(':');
                        out.push(' ');
                        push_decimal(out, count as u64);
                        out.push('\n');
                        assert(out@ =~= before + (item.name_spec() + seq![':', ' '] + decimal(
                            count as nat,
                        ) + seq!['\n']));
                    }
                },
                Err(_) => {},
            }
            n += 1;
            assert(out@ =~= old(out)@ + item_lines(map@, n as nat));
        }
    }

    /// Appends the lines of a table of counts of recipes, in the order of
    /// the recipe numbers.
    fn print_recipes(out: &mut Vec<char>, map: &HashMap<u16, usize>)
        ensures
            final(out)@ == old(out)@ + recipe_lines(map@, 65536),
    {
        let mut n: u32 = 0;
        while n < 65536
            invariant
                n <= 65536,
                out@ == old(out)@ + recipe_lines(map@, n as nat),
            decreases 65536 - n,
        {
            let id: u16 = n as u16;
            let ghost before = out@;
            let count = Self::count(map, id);
            match DSPRecipe::try_from(id) {
                Ok(recipe) => {
                    if count > 0 {
                        let name = chars_of(recipe.name());
                        push_all(out, name.as_slice());
                        out.push(':');
                        out.push(' ');
                        push_decimal(out, count as u64);
                        out.push('\n');
                        assert(out@ =~= before + (recipe.name_spec() + seq![':', ' '] + decimal(
                            count as nat,
                        ) + seq!['\n']));
                    }
                },
                Err(_) => {},
            }
            n += 1;
            assert(out@ =~= old(out)@ + recipe_lines(map@, n as nat));
        }
    }

    /// The counts as text: three tables, of the buildings, of the recipes
    /// and of the wares of stations, each under its heading and in the order
    /// of the numbers.
    pub fn to_text(&self) -> (r: String)
        ensures
            r@ == self@.text(),
    {
        let mut out: Vec<char> = Vec::new();
        let h1 = chars_of("Buildings:\n");
        push_all(&mut out, h1.as_slice());
        Self::printmap(&mut out, &self.buildings);
        let h2 = chars_of("\nRecipes:\n");
        push_all(&mut out, h2.as_slice());
        Self::print_recipes(&mut out, &self.recipes);
        let h3 = chars_of("\nLogistic station wares:\n");
        push_all(&mut out, h3.as_slice());
        Self::printmap(&mut out, &self.station_wares);
        string_of(out.as_slice())
    }
}

impl StatsView {
    /// The counts as text.
    pub open spec fn text(self) -> Seq<char> {
        "Buildings:\n"@ + item_lines(self.buildings, 65536) + "\nRecipes:\n"@ + recipe_lines(
            self.recipes,
            65536,
        ) + "\nLogistic station wares:\n"@ + item_lines(self.station_wares, 65536)
    }
}

} // verus!
