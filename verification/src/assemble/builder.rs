//! The pipeline as a sequence of stages, each a type of its own: a stage can
//! be neither skipped nor gone back to.
use std::marker::PhantomData;
use vstd::prelude::*;
use crate::assemble::orientation::{calibrate, calibrated_of, orientation_config_error};
use crate::assemble::params::{AdsParams, ParamsView};
use crate::assemble::placement::{place, points_at, ready_of};
use crate::assemble::rigid::{only_shifted, rigidly_moved};
use crate::error::AssembleError;
use crate::kernel::{functional, Kernel, Point3};
use crate::lattice::{is_valid_id, positions, renumbered_by, valid_id, LatticeModel};
use crate::math_helper::{centroid_of, centroid_of_points};

verus! {

/// A stage of the pipeline.
pub trait BuilderState {
    /// A fragment has been brought in at this stage.
    spec fn has_fragment() -> bool;

    /// The target location and the parameters are set at this stage, and
    /// every id of the parameters names an atom of the fragment.
    spec fn has_params() -> bool;
}

/// A stage at which the parameters are set.
pub trait ParamSetState {

}

/// The host alone.
#[derive(Default, Debug)]
pub struct BareLattice;

/// The host and the fragment, as they were brought in.
#[derive(Default, Debug)]
pub struct Imported;

/// The target location and the parameters are set.
#[derive(Default, Debug)]
pub struct ParamSet;

/// The stem of the fragment lies along the x axis.
#[derive(Default, Debug)]
pub struct Aligned;

/// The plane of the fragment lies at its angle.
#[derive(Default, Debug)]
pub struct PlaneAdjusted;

/// The fragment is oriented: its stem expresses the bonding direction.
#[derive(Default, Debug)]
pub struct Calibrated;

/// The fragment is placed: its coordinates are final.
#[derive(Default, Debug)]
pub struct Ready;

impl BuilderState for BareLattice {
    open spec fn has_fragment() -> bool {
        false
    }

    open spec fn has_params() -> bool {
        false
    }
}

impl BuilderState for Imported {
    open spec fn has_fragment() -> bool {
        true
    }

    open spec fn has_params() -> bool {
        false
    }
}

impl BuilderState for ParamSet {
    open spec fn has_fragment() -> bool {
        true
    }

    open spec fn has_params() -> bool {
        true
    }
}

impl BuilderState for Aligned {
    open spec fn has_fragment() -> bool {
        true
    }

    open spec fn has_params() -> bool {
        true
    }
}

impl BuilderState for PlaneAdjusted {
    open spec fn has_fragment() -> bool {
        true
    }

    open spec fn has_params() -> bool {
        true
    }
}

impl BuilderState for Calibrated {
    open spec fn has_fragment() -> bool {
        true
    }

    open spec fn has_params() -> bool {
        true
    }
}

impl BuilderState for Ready {
    open spec fn has_fragment() -> bool {
        true
    }

    open spec fn has_params() -> bool {
        true
    }
}

impl ParamSetState for ParamSet {

}

impl ParamSetState for Aligned {

}

impl ParamSetState for PlaneAdjusted {

}

impl ParamSetState for Calibrated {

}

impl ParamSetState for Ready {

}

/// One placement in progress: the host, the fragment, the target location
/// and the parameters, at the stage `U`.
pub struct AdsorptionBuilder<'a, K: Kernel, M, U: BuilderState> {
    host_lattice: LatticeModel<K::Scalar, M>,
    adsorbate: Option<LatticeModel<K::Scalar, M>>,
    location: Option<Point3<K::Scalar>>,
    ads_params: Option<AdsParams<'a, K::Scalar>>,
    state: PhantomData<U>,
    kernel: PhantomData<K>,
}

impl<'a, K: Kernel, M, U: BuilderState> AdsorptionBuilder<'a, K, M, U> {
    /// The invariant of the type: each stage holds what it says it holds.
    #[verifier::type_invariant]
    pub closed spec fn inv(&self) -> bool {
        &&& U::has_fragment() ==> self.adsorbate is Some
        &&& U::has_params() ==> {
            &&& self.adsorbate is Some
            &&& self.location is Some
            &&& self.ads_params is Some
            &&& self.ads_params->Some_0@.wf()
            &&& self.ads_params->Some_0@.ids_valid(self.adsorbate->Some_0.atoms@.len())
        }
    }

    /// The host.
    pub closed spec fn host(&self) -> LatticeModel<K::Scalar, M> {
        self.host_lattice
    }

    /// The fragment, from the stage `Imported` on.
    pub closed spec fn fragment(&self) -> LatticeModel<K::Scalar, M> {
        self.adsorbate->Some_0
    }

    /// The target location, where one is set.
    pub closed spec fn target(&self) -> Option<Point3<K::Scalar>> {
        self.location
    }

    /// The parameters, from the stage `ParamSet` on.
    pub closed spec fn params(&self) -> ParamsView<K::Scalar> {
        self.ads_params->Some_0@
    }

    /// The host.
    pub fn host_lattice(&self) -> (host: &LatticeModel<K::Scalar, M>)
        ensures
            *host == self.host(),
    {
        &self.host_lattice
    }

    /// The fragment, where one has been brought in.
    pub fn adsorbate(&self) -> (fragment: Option<&LatticeModel<K::Scalar, M>>)
        ensures
            U::has_fragment() ==> fragment == Some(&self.fragment()),
    {
        proof {
            use_type_invariant(self);
        }
        self.adsorbate.as_ref()
    }

    /// The target location, where one is set.
    pub fn location(&self) -> (location: Option<Point3<K::Scalar>>)
        ensures
            location == self.target(),
            U::has_params() ==> location is Some,
    {
        proof {
            use_type_invariant(self);
        }
        self.location
    }

    /// The parameters, where they are set.
    pub fn ads_params(&self) -> (params: Option<&AdsParams<'a, K::Scalar>>)
        ensures
            U::has_params() ==> params is Some && params->Some_0@ == self.params(),
    {
        proof {
            use_type_invariant(self);
        }
        self.ads_params.as_ref()
    }
}

impl<'a, K: Kernel, M> AdsorptionBuilder<'a, K, M, BareLattice> {
    /// Starts a placement on `host_lattice`.
    pub fn new(host_lattice: LatticeModel<K::Scalar, M>) -> (builder: Self)
        ensures
            builder.host() == host_lattice,
            builder.target() is None,
    {
        Self {
            host_lattice,
            adsorbate: None,
            location: None,
            ads_params: None,
            state: PhantomData,
            kernel: PhantomData,
        }
    }

    /// Brings in the fragment.
    pub fn add_adsorbate(self, adsorbate_lattice: LatticeModel<K::Scalar, M>) -> (builder:
        AdsorptionBuilder<'a, K, M, Imported>)
        ensures
            builder.host() == self.host(),
            builder.fragment() == adsorbate_lattice,
            builder.target() == self.target(),
    {
        AdsorptionBuilder {
            host_lattice: self.host_lattice,
            adsorbate: Some(adsorbate_lattice),
            location: self.location,
            ads_params: None,
            state: PhantomData,
            kernel: PhantomData,
        }
    }
}

/// Every id of `ids` names an atom of a collection of `len` atoms.
pub open spec fn all_valid(ids: Seq<u32>, len: nat) -> bool {
    forall|i: int| 0 <= i < ids.len() ==> valid_id(#[trigger] ids[i], len)
}

impl<'a, K: Kernel, M> AdsorptionBuilder<'a, K, M, Imported> {
    /// Sets the target location to the centroid of the host atoms
    /// `target_sites`. Fails exactly where one of these ids names no atom of
    /// the host. Host and fragment stay as they are.
    pub fn with_location_at_sites(self, target_sites: &[u32]) -> (r: Result<Self, AssembleError>)
        requires
            target_sites@.len() > 0,
        ensures
            r is Ok <==> all_valid(target_sites@, self.host().atoms@.len()),
            r matches Err(e) ==> e == AssembleError::InvalidIndex,
            r matches Ok(b) ==> b.host() == self.host() && b.fragment() == self.fragment()
                && b.target() is Some,
            functional::<K>() ==> (r matches Ok(b) ==> b.target() == Some(
                centroid_of::<K>(points_at(positions(self.host().atoms@), target_sites@)),
            )),
    {
        proof {
            use_type_invariant(&self);
        }
        let mut points: Vec<Point3<K::Scalar>> = Vec::new();
        let mut i: usize = 0;
        while i < target_sites.len()
            invariant
                0 <= i <= target_sites@.len(),
                all_valid(target_sites@.take(i as int), self.host_lattice.atoms@.len()),
                points@ =~= points_at(
                    positions(self.host_lattice.atoms@),
                    target_sites@.take(i as int),
                ),
            decreases target_sites@.len() - i,
        {
            let site = target_sites[i];
            if !is_valid_id(site, self.host_lattice.atoms.len()) {
                return Err(AssembleError::InvalidIndex);
            }
            points.push(self.host_lattice.atoms[(site - 1) as usize].xyz);
            proof {
                assert(target_sites@.take(i + 1).drop_last() =~= target_sites@.take(i as int));
                assert forall|j: int| 0 <= j < i + 1 implies valid_id(
                    #[trigger] target_sites@.take(i + 1)[j],
                    self.host_lattice.atoms@.len(),
                ) by {
                    if j < i {
                        assert(target_sites@.take(i as int)[j] == target_sites@[j]);
                    }
                }
            }
            i = i + 1;
        }
        assert(target_sites@.take(i as int) =~= target_sites@);
        let centroid = centroid_of_points::<K>(points.as_slice());
        Ok(
            AdsorptionBuilder {
                host_lattice: self.host_lattice,
                adsorbate: self.adsorbate,
                location: Some(centroid),
                ads_params: None,
                state: PhantomData,
                kernel: PhantomData,
            },
        )
    }

    /// Hands over the parameters. Fails with `MissingLocation` where no
    /// target location is set; else with `InvalidIndex` exactly where an id
    /// of the parameters names no atom of the fragment. So every later stage
    /// works on ids that are known to be good.
    pub fn with_ads_params(self, ads_params: AdsParams<'a, K::Scalar>) -> (r: Result<
        AdsorptionBuilder<'a, K, M, ParamSet>,
        AssembleError,
    >)
        ensures
            match r {
                Ok(b) => {
                    &&& self.target() is Some
                    &&& ads_params@.ids_valid(self.fragment().atoms@.len())
                    &&& b.host() == self.host()
                    &&& b.fragment() == self.fragment()
                    &&& b.target() == self.target()
                    &&& b.params() == ads_params@
                },
                Err(e) => if self.target() is None {
                    e == AssembleError::MissingLocation
                } else {
                    e == AssembleError::InvalidIndex && !ads_params@.ids_valid(
                        self.fragment().atoms@.len(),
                    )
                },
            },
    {
        proof {
            use_type_invariant(&self);
        }
        if self.location.is_none() {
            return Err(AssembleError::MissingLocation);
        }
        let atoms = match &self.adsorbate {
            Some(fragment) => fragment.atoms.len(),
            None => 0,
        };
        if !ads_params.ids_valid_for(atoms) {
            return Err(AssembleError::InvalidIndex);
        }
        proof {
            use_type_invariant(&ads_params);
        }
        Ok(
            AdsorptionBuilder {
                host_lattice: self.host_lattice,
                adsorbate: self.adsorbate,
                location: self.location,
                ads_params: Some(ads_params),
                state: PhantomData,
                kernel: PhantomData,
            },
        )
    }
}

impl<'a, K: Kernel, M> AdsorptionBuilder<'a, K, M, ParamSet> {
    /// The orientation stage: aligns the fragment with the x axis, centers
    /// it, and, where it has more than one atom, rolls it, flips it upright,
    /// pitches and yaws it. `upper_atom_id` names the atom that is to end up
    /// above the first coordination atom.
    ///
    /// Host, location and parameters pass through unchanged, and the
    /// fragment keeps its atoms: only their positions change, and they
    /// change by rotations and translations that the kernel applies to every
    /// atom alike. What the parameters lack is reported before anything is
    /// computed.
    pub fn init_ads(self, upper_atom_id: u32) -> (r: Result<
        AdsorptionBuilder<'a, K, M, Calibrated>,
        AssembleError,
    >)
        ensures
            r matches Ok(b) ==> {
                &&& b.host() == self.host()
                &&& b.target() == self.target()
                &&& b.params() == self.params()
                &&& b.fragment().moved_from(&self.fragment())
                &&& rigidly_moved::<K>(
                    positions(self.fragment().atoms@),
                    positions(b.fragment().atoms@),
                )
            },
            orientation_config_error(
                self.params(),
                self.fragment().atoms@.len(),
                upper_atom_id,
            ) matches Some(e) ==> r matches Err(x) && x == e,
            orientation_config_error(self.params(), self.fragment().atoms@.len(), upper_atom_id)
                is None ==> (r matches Err(e) ==> e == AssembleError::CollinearPoints || e
                == AssembleError::InvalidCoord),
            functional::<K>() ==> match calibrated_of::<K>(
                positions(self.fragment().atoms@),
                self.params(),
                upper_atom_id,
            ) {
                Ok(places) => r matches Ok(b) && positions(b.fragment().atoms@) == places,
                Err(e) => r matches Err(x) && x == e,
            },
    {
        proof {
            use_type_invariant(&self);
        }
        let AdsorptionBuilder { host_lattice, adsorbate, location, ads_params, state: _, kernel: _ } =
            self;
        let mut fragment = adsorbate.unwrap();
        let params = ads_params.unwrap();
        match calibrate::<K, M>(&mut fragment, &params, upper_atom_id) {
            Ok(()) => {
                proof {
                    use_type_invariant(&params);
                }
                Ok(
                    AdsorptionBuilder {
                        host_lattice,
                        adsorbate: Some(fragment),
                        location,
                        ads_params: Some(params),
                        state: PhantomData,
                        kernel: PhantomData,
                    },
                )
            },
            Err(e) => Err(e),
        }
    }
}

impl<'a, K: Kernel, M> AdsorptionBuilder<'a, K, M, Calibrated> {
    /// The placement stage: moves the oriented fragment, without turning it,
    /// to its bonding distance from the target location.
    ///
    /// Host, location and parameters pass through unchanged, and the
    /// fragment keeps its atoms: only their positions change, and they
    /// change by one translation that the kernel applies to every atom alike.
    pub fn place_adsorbate(self) -> (r: Result<AdsorptionBuilder<'a, K, M, Ready>, AssembleError>)
        ensures
            r matches Ok(b) ==> {
                &&& b.host() == self.host()
                &&& b.target() == self.target()
                &&& b.params() == self.params()
                &&& b.fragment().moved_from(&self.fragment())
                &&& rigidly_moved::<K>(
                    positions(self.fragment().atoms@),
                    positions(b.fragment().atoms@),
                )
                &&& only_shifted::<K>(
                    positions(self.fragment().atoms@),
                    positions(b.fragment().atoms@),
                )
            },
            r matches Err(e) ==> e == AssembleError::CollinearPoints || e
                == AssembleError::InvalidCoord,
            r matches Err(e) && e == AssembleError::CollinearPoints
                ==> self.params().coord_atom_ids.len() == 1 && self.params().stem_is_virtual(),
            functional::<K>() ==> match ready_of::<K>(
                positions(self.fragment().atoms@),
                self.params(),
                self.target()->Some_0,
            ) {
                Ok(places) => r matches Ok(b) && positions(b.fragment().atoms@) == places,
                Err(e) => r matches Err(x) && x == e,
            },
    {
        proof {
            use_type_invariant(&self);
        }
        let AdsorptionBuilder { host_lattice, adsorbate, location, ads_params, state: _, kernel: _ } =
            self;
        let mut fragment = adsorbate.unwrap();
        let params = ads_params.unwrap();
        let target = location.unwrap();
        match place::<K, M>(&mut fragment, &params, target) {
            Ok(()) => {
                proof {
                    use_type_invariant(&params);
                }
                Ok(
                    AdsorptionBuilder {
                        host_lattice,
                        adsorbate: Some(fragment),
                        location,
                        ads_params: Some(params),
                        state: PhantomData,
                        kernel: PhantomData,
                    },
                )
            },
            Err(e) => Err(e),
        }
    }
}

impl<'a, K: Kernel, M> AdsorptionBuilder<'a, K, M, Ready> {
    /// Whether the ids of the fragment can be raised by the number of host
    /// atoms without leaving the range of an id.
    pub open spec fn merge_fits(&self) -> bool {
        self.host().merge_fits(&self.fragment())
    }

    /// Decides whether the ids of the fragment can be raised by the number
    /// of host atoms without leaving the range of an id.
    pub fn can_merge(&self) -> (fits: bool)
        ensures
            fits == self.merge_fits(),
    {
        proof {
            use_type_invariant(self);
        }
        match &self.adsorbate {
            Some(fragment) => self.host_lattice.fits_for_merge(fragment),
            None => true,
        }
    }

    /// The merge stage: the host with the atoms of the placed fragment
    /// appended, each under its id raised by the number of host atoms. The
    /// cell and the atoms of the host are as they were brought in.
    pub fn build_adsorbed_lattice(self) -> (merged: LatticeModel<K::Scalar, M>)
        requires
            self.merge_fits(),
        ensures
            merged.lattice_vectors == self.host().lattice_vectors,
            merged.model_type == self.host().model_type,
            merged.atoms@ == self.host().atoms@ + renumbered_by(
                self.fragment().atoms@,
                self.host().atoms@.len(),
            ),
            self.host().numbered_in_order() && self.fragment().numbered_in_order()
                ==> merged.numbered_in_order(),
    {
        proof {
            use_type_invariant(&self);
        }
        let AdsorptionBuilder { host_lattice, adsorbate, location: _, ads_params: _, state: _, kernel: _ } =
            self;
        host_lattice.merge(adsorbate.unwrap())
    }
}

} // verus!
