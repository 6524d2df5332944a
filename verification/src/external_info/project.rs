//! The description of a project: where its files are, and which sites of the
//! host the fragments go to.
use std::collections::HashMap;
use vstd::prelude::*;

verus! {

/// A site of the host that fragments can bond to.
#[derive(Debug, Clone)]
pub struct CoordSite {
    /// The name of the site.
    pub name: String,
    /// The id of the host atom at the site.
    pub atom_id: u32,
}

/// A named list of placements: for each, the site of the first coordination
/// atom and, where there is a second one, its site.
#[derive(Debug, Clone)]
pub struct CoordCase {
    /// The name of the list.
    pub name: String,
    /// The placements.
    pub cases: Vec<(u32, Option<u32>)>,
}

/// The description of a project.
#[derive(Debug, Clone)]
pub struct ProjectInfo {
    /// Where the model of the host is.
    pub base_model_loc: String,
    /// Where the table of elements is.
    pub element_table_loc: String,
    /// Where the table of fragments is.
    pub adsorbate_table_loc: String,
    /// Where the potential files are.
    pub potentials_loc: String,
    /// Where the results go.
    pub export_loc: String,
    /// The sites of the host.
    pub coord_sites: Vec<CoordSite>,
    /// The lists of placements.
    pub coord_cases: Vec<CoordCase>,
}

/// The names of the sites by the id of their atom. Of two sites at one atom
/// the later one counts.
pub open spec fn site_names(sites: Seq<CoordSite>) -> Map<u32, String>
    decreases sites.len(),
{
    if sites.len() == 0 {
        Map::empty()
    } else {
        site_names(sites.drop_last()).insert(sites.last().atom_id, sites.last().name)
    }
}

/// The placement `case` with its two sites exchanged.
pub open spec fn reversed_case(case: (u32, Option<u32>)) -> (u32, Option<u32>) {
    (case.1->Some_0, Some(case.0))
}

impl ProjectInfo {
    /// Where the table of elements is.
    pub fn element_table_loc(&self) -> (r: &str)
        ensures
            r@ == self.element_table_loc@,
    {
        self.element_table_loc.as_str()
    }

    /// Where the table of fragments is.
    pub fn adsorbate_table_loc(&self) -> (r: &str)
        ensures
            r@ == self.adsorbate_table_loc@,
    {
        self.adsorbate_table_loc.as_str()
    }

    /// Where the potential files are.
    pub fn potentials_loc(&self) -> (r: &str)
        ensures
            r@ == self.potentials_loc@,
    {
        self.potentials_loc.as_str()
    }

    /// The sites of the host.
    pub fn coord_sites(&self) -> (r: &[CoordSite])
        ensures
            r@ == self.coord_sites@,
    {
        self.coord_sites.as_slice()
    }

    /// The names of the sites, by the id of their atom. Of two sites at one
    /// atom the later one counts.
    pub fn hash_coord_site(&self) -> (r: HashMap<u32, String>)
        ensures
            r@ == site_names(self.coord_sites@),
    {
        broadcast use vstd::std_specs::hash::group_hash_axioms;

        let mut hash_tab: HashMap<u32, String> = HashMap::new();
        let mut i: usize = 0;
        while i < self.coord_sites.len()
            invariant
                0 <= i <= self.coord_sites@.len(),
                hash_tab@ == site_names(self.coord_sites@.take(i as int)),
            decreases self.coord_sites@.len() - i,
        {
            let site = &self.coord_sites[i];
            proof {
                assert(self.coord_sites@.take(i + 1).drop_last() =~= self.coord_sites@.take(
                    i as int,
                ));
                assert(self.coord_sites@.take(i + 1).last() == self.coord_sites@[i as int]);
            }
            hash_tab.insert(site.atom_id, site.name.clone());
            i = i + 1;
        }
        assert(self.coord_sites@.take(i as int) =~= self.coord_sites@);
        hash_tab
    }

    /// Where the results go.
    pub fn export_loc(&self) -> (r: &str)
        ensures
            r@ == self.export_loc@,
    {
        self.export_loc.as_str()
    }

    /// Where the model of the host is.
    pub fn base_model_loc(&self) -> (r: &str)
        ensures
            r@ == self.base_model_loc@,
    {
        self.base_model_loc.as_str()
    }

    /// The lists of placements.
    pub fn coord_cases(&self) -> (r: &[CoordCase])
        ensures
            r@ == self.coord_cases@,
    {
        self.coord_cases.as_slice()
    }
}

impl CoordCase {
    /// Every placement of the list has a second site, so that the list can
    /// be reversed.
    pub open spec fn reversible(&self) -> bool {
        forall|i: int| 0 <= i < self.cases@.len() ==> (#[trigger] self.cases@[i]).1 is Some
    }

    /// The placements of the list; with `reverse`, each with its two sites
    /// exchanged.
    pub fn get_cases(&self, reverse: bool) -> (r: Vec<(u32, Option<u32>)>)
        requires
            reverse ==> self.reversible(),
        ensures
            r@.len() == self.cases@.len(),
            forall|i: int|
                0 <= i < r@.len() ==> #[trigger] r@[i] == if reverse {
                    reversed_case(self.cases@[i])
                } else {
                    self.cases@[i]
                },
    {
        let mut out: Vec<(u32, Option<u32>)> = Vec::new();
        let mut i: usize = 0;
        while i < self.cases.len()
            invariant
                0 <= i <= self.cases@.len(),
                reverse ==> self.reversible(),
                out@.len() == i,
                forall|j: int|
                    0 <= j < i ==> #[trigger] out@[j] == if reverse {
                        reversed_case(self.cases@[j])
                    } else {
                        self.cases@[j]
                    },
            decreases self.cases@.len() - i,
        {
            let (first, second) = self.cases[i];
            if reverse {
                out.push((second.unwrap(), Some(first)));
            } else {
                out.push((first, second));
            }
            i = i + 1;
        }
        out
    }
}

} // verus!
