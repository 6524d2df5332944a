//! The rules by which the seed files of a calculation are laid out: where
//! the files of a model go, and which cut-off energy a model is given.
use vstd::prelude::*;
use vstd::string::StringExecFns;
use crate::text::{decimal_digits, decimal_text};

verus! {

/// The family of the periodic table that the metal of a model belongs to.
#[derive(Debug, Clone, Copy, PartialEq, Eq, Structural)]
pub enum MetalFamily {
    /// The first row of the transition metals: atomic numbers 21 to 30.
    ThreeD,
    /// The second row of the transition metals: atomic numbers 39 to 48.
    FourD,
    /// The third row of the transition metals: atomic numbers 72 to 80.
    FiveD,
    /// The lanthanides: atomic numbers 57 to 71.
    RareEarth,
    /// Any other element.
    Else,
}

/// The family of the element with the atomic number `element_id`.
pub open spec fn family_of(element_id: u32) -> MetalFamily {
    if 21 <= element_id <= 30 {
        MetalFamily::ThreeD
    } else if 39 <= element_id <= 48 {
        MetalFamily::FourD
    } else if 72 <= element_id <= 80 {
        MetalFamily::FiveD
    } else if 57 <= element_id <= 71 {
        MetalFamily::RareEarth
    } else {
        MetalFamily::Else
    }
}

/// Finds the family of the element with the atomic number `element_id`.
pub fn metal_family(element_id: u32) -> (family: MetalFamily)
    ensures
        family == family_of(element_id),
{
    if element_id >= 21 && element_id <= 30 {
        MetalFamily::ThreeD
    } else if element_id >= 39 && element_id <= 48 {
        MetalFamily::FourD
    } else if element_id >= 72 && element_id <= 80 {
        MetalFamily::FiveD
    } else if element_id >= 57 && element_id <= 71 {
        MetalFamily::RareEarth
    } else {
        MetalFamily::Else
    }
}

impl MetalFamily {
    /// The name of the directory that the models of this family go to.
    pub fn dir_name(&self) -> (name: &'static str)
        ensures
            name@ == match *self {
                MetalFamily::ThreeD => "3d"@,
                MetalFamily::FourD => "4d"@,
                MetalFamily::FiveD => "5d"@,
                MetalFamily::RareEarth => "rare_earth"@,
                MetalFamily::Else => "else"@,
            },
    {
        match self {
            MetalFamily::ThreeD => "3d",
            MetalFamily::FourD => "4d",
            MetalFamily::FiveD => "5d",
            MetalFamily::RareEarth => "rare_earth",
            MetalFamily::Else => "else",
        }
    }
}

/// `num` rounded up to the next multiple of ten.
pub open spec fn rounded_up(num: u32) -> u64 {
    if num % 10 == 0 {
        num as u64
    } else {
        ((num / 10 + 1) * 10) as u64
    }
}

/// Rounds an energy up to the next multiple of ten; a multiple of ten stays
/// as it is.
pub fn round_bigger_tenth(num: u32) -> (rounded: u64)
    ensures
        rounded == rounded_up(num),
        rounded % 10 == 0,
        num <= rounded < num + 10,
{
    if num % 10 == 0 {
        num as u64
    } else {
        (num as u64 / 10 + 1) * 10
    }
}

/// The greatest of `energies`, and zero where there are none.
pub open spec fn greatest(energies: Seq<u64>) -> u64
    decreases energies.len(),
{
    if energies.len() == 0 {
        0
    } else if energies.last() > greatest(energies.drop_last()) {
        energies.last()
    } else {
        greatest(energies.drop_last())
    }
}

/// The cut-off energy of a model: the greatest of the energies that the
/// potentials of its elements ask for, each rounded up to the next multiple
/// of ten, and zero for a model without elements.
pub fn final_cutoff_energy(ultra_fine_energies: &[u32]) -> (energy: u64)
    ensures
        energy == greatest(
            Seq::new(ultra_fine_energies@.len(), |i: int| rounded_up(ultra_fine_energies@[i])),
        ),
{
    let ghost all = Seq::new(
        ultra_fine_energies@.len(),
        |i: int| rounded_up(ultra_fine_energies@[i]),
    );
    let mut energy: u64 = 0;
    let mut i: usize = 0;
    while i < ultra_fine_energies.len()
        invariant
            0 <= i <= ultra_fine_energies@.len(),
            all == Seq::new(
                ultra_fine_energies@.len(),
                |i: int| rounded_up(ultra_fine_energies@[i]),
            ),
            energy == greatest(all.take(i as int)),
        decreases ultra_fine_energies@.len() - i,
    {
        let rounded = round_bigger_tenth(ultra_fine_energies[i]);
        proof {
            assert(all.take(i + 1).drop_last() =~= all.take(i as int));
            assert(all.take(i + 1).last() == rounded);
        }
        if rounded > energy {
            energy = rounded;
        }
        i = i + 1;
    }
    assert(all.take(i as int) =~= all);
    energy
}

/// The name of the directory that the files of the model `lattice_name`
/// with the main metal `metal_name` of the family `family` go to, below
/// `target_root_dir`.
pub open spec fn export_dir_of(
    target_root_dir: Seq<char>,
    family: MetalFamily,
    metal_name: Seq<char>,
    lattice_name: Seq<char>,
) -> Seq<char> {
    target_root_dir + "/"@ + (match family {
        MetalFamily::ThreeD => "3d"@,
        MetalFamily::FourD => "4d"@,
        MetalFamily::FiveD => "5d"@,
        MetalFamily::RareEarth => "rare_earth"@,
        MetalFamily::Else => "else"@,
    }) + "/"@ + metal_name + "/"@ + lattice_name + "_opt"@
}

/// Names the directory that the files of a model go to: below the root come
/// the family of the main metal, the metal, and the model with `_opt` after
/// its name.
pub fn export_dir(
    target_root_dir: &str,
    metal_element_id: u32,
    metal_name: &str,
    lattice_name: &str,
) -> (dir: String)
    ensures
        dir@ == export_dir_of(
            target_root_dir@,
            family_of(metal_element_id),
            metal_name@,
            lattice_name@,
        ),
{
    let mut dir = String::from_str(target_root_dir);
    dir.append("/");
    dir.append(metal_family(metal_element_id).dir_name());
    dir.append("/");
    dir.append(metal_name);
    dir.append("/");
    dir.append(lattice_name);
    dir.append("_opt");
    dir
}

/// The name of a seed file: the name of the model and the ending of the
/// file.
pub fn export_filename(lattice_name: &str, ending: &str) -> (name: String)
    ensures
        name@ == lattice_name@ + ending@,
{
    let mut name = String::from_str(lattice_name);
    name.append(ending);
    name
}

/// What a file of atom ids starts with.
pub open spec fn trjaux_header() -> Seq<char> {
    "# Atom IDs to appear in any .trj file to be generated.\n# Correspond to atom IDs which will be used in exported .msi file\n# required for animation/analysis of trajectory within Cerius2.\n"@
}

/// What a file of atom ids ends with.
pub open spec fn trjaux_ending() -> Seq<char> {
    "#Origin  0.000000000000000e+000  0.000000000000000e+000  0.000000000000000e+000"@
}

/// The ids `atom_ids`, one on each line.
pub open spec fn id_lines(atom_ids: Seq<u32>) -> Seq<char>
    decreases atom_ids.len(),
{
    if atom_ids.len() == 0 {
        Seq::empty()
    } else {
        id_lines(atom_ids.drop_last()) + decimal_digits(atom_ids.last() as nat) + "\n"@
    }
}

/// Writes the file of atom ids of a model: a heading, the ids of the atoms,
/// one on each line, and the origin.
pub fn trjaux_text(atom_ids: &[u32]) -> (text: String)
    ensures
        text@ == trjaux_header() + id_lines(atom_ids@) + trjaux_ending(),
{
    let mut text = String::from_str(
        "# Atom IDs to appear in any .trj file to be generated.\n# Correspond to atom IDs which will be used in exported .msi file\n# required for animation/analysis of trajectory within Cerius2.\n",
    );
    let mut i: usize = 0;
    while i < atom_ids.len()
        invariant
            0 <= i <= atom_ids@.len(),
            text@ == trjaux_header() + id_lines(atom_ids@.take(i as int)),
        decreases atom_ids@.len() - i,
    {
        proof {
            assert(atom_ids@.take(i + 1).drop_last() =~= atom_ids@.take(i as int));
            assert(atom_ids@.take(i + 1).last() == atom_ids@[i as int]);
        }
        let number = decimal_text(atom_ids[i] as u128);
        text.append(number.as_str());
        text.append("\n");
        assert(text@ =~= trjaux_header() + id_lines(atom_ids@.take(i + 1)));
        i = i + 1;
    }
    assert(atom_ids@.take(i as int) =~= atom_ids@);
    text.append("#Origin  0.000000000000000e+000  0.000000000000000e+000  0.000000000000000e+000");
    text
}

/// The file that sets the grid of k-points: one point, no offset.
pub open spec fn kptaux() -> Seq<char> {
    "MP_GRID :        1       1       1\nMP_OFFSET :   0.000000000000000e+000  \n0.000000000000000e+000  0.000000000000000e+000\n%BLOCK KPOINT_IMAGES\n   1   1\n%ENDBLOCK KPOINT_IMAGES"@
}

/// Writes the file that sets the grid of k-points.
pub fn kptaux_text() -> (text: &'static str)
    ensures
        text@ == kptaux(),
{
    "MP_GRID :        1       1       1\nMP_OFFSET :   0.000000000000000e+000  \n0.000000000000000e+000  0.000000000000000e+000\n%BLOCK KPOINT_IMAGES\n   1   1\n%ENDBLOCK KPOINT_IMAGES"
}

/// What the script that starts a calculation on twelve processors begins
/// with.
pub open spec fn lsf_prefix() -> Seq<char> {
    "APP_NAME=intelY_mid\nNP=12\nNP_PER_NODE=12\nOMP_NUM_THREADS=1\nRUN=\"RAW\"\n\n/home-yw/Soft/msi/MS70/MaterialsStudio7.0/etc/CASTEP/bin/RunCASTEP.sh -np $NP "@
}

/// Writes the script that starts the calculation of the model `cell_name`.
pub fn lsf_script_text(cell_name: &str) -> (text: String)
    ensures
        text@ == lsf_prefix() + cell_name@,
{
    let mut text = String::from_str(
        "APP_NAME=intelY_mid\nNP=12\nNP_PER_NODE=12\nOMP_NUM_THREADS=1\nRUN=\"RAW\"\n\n/home-yw/Soft/msi/MS70/MaterialsStudio7.0/etc/CASTEP/bin/RunCASTEP.sh -np $NP ",
    );
    text.append(cell_name);
    text
}

/// `items`, with a comma and a space between one and the next.
pub open spec fn joined(items: Seq<Seq<char>>) -> Seq<char>
    decreases items.len(),
{
    if items.len() == 0 {
        Seq::empty()
    } else if items.len() == 1 {
        items[0]
    } else {
        joined(items.drop_last()) + ", "@ + items.last()
    }
}

/// What the script that turns models into `xsd` files begins with.
pub open spec fn xsd_head() -> Seq<char> {
    "#!perl\nuse strict;\nuse Getopt::Long;\nuse MaterialsScript qw(:all);\nmy @params = (\n"@
}

/// What the script that turns models into `xsd` files ends with.
pub open spec fn xsd_tail() -> Seq<char> {
    ");\nforeach my $item (@params) {\n    my $doc = $Documents{\"${item}.msi\"};\n    $doc->CalculateBonds;\n    $doc->Export(\"${item}.xsd\");\n    $doc->Save;\n    $doc->Close;\n}"@
}

/// The characters of each of `items`.
pub open spec fn item_texts(items: Seq<String>) -> Seq<Seq<char>> {
    Seq::new(items.len(), |i: int| items[i]@)
}

/// Writes the script that turns each of the models `items` into an `xsd`
/// file. Each item is the place of a model without the ending of its file,
/// in double quotes.
pub fn xsd_script_text(items: &[String]) -> (text: String)
    ensures
        text@ == xsd_head() + joined(item_texts(items@)) + xsd_tail(),
{
    let ghost texts = item_texts(items@);
    let mut text = String::from_str(
        "#!perl\nuse strict;\nuse Getopt::Long;\nuse MaterialsScript qw(:all);\nmy @params = (\n",
    );
    let mut i: usize = 0;
    while i < items.len()
        invariant
            0 <= i <= items@.len(),
            texts == item_texts(items@),
            text@ == xsd_head() + joined(texts.take(i as int)),
        decreases items@.len() - i,
    {
        proof {
            assert(texts.take(i + 1).drop_last() =~= texts.take(i as int));
            assert(texts.take(i + 1).last() == items@[i as int]@);
            if i == 0 {
                assert(joined(texts.take(0)) =~= Seq::<char>::empty());
                assert(texts.take(1)[0] == items@[0]@);
            }
        }
        if i > 0 {
            text.append(", ");
        }
        text.append(items[i].as_str());
        assert(text@ =~= xsd_head() + joined(texts.take(i + 1)));
        i = i + 1;
    }
    assert(texts.take(i as int) =~= texts);
    text.append(
        ");\nforeach my $item (@params) {\n    my $doc = $Documents{\"${item}.msi\"};\n    $doc->CalculateBonds;\n    $doc->Export(\"${item}.xsd\");\n    $doc->Save;\n    $doc->Close;\n}",
    );
    text
}

/// What the parameters of a geometry optimization begin with, up to the
/// total spin.
pub open spec fn geom_param_head() -> Seq<char> {
    "task : GeometryOptimization\ncomment : CASTEP calculation from Materials Studio\nxc_functional : PBE\nspin_polarized : true\nspin :        "@
}

/// What stands between the total spin and the cut-off energy in the
/// parameters of a geometry optimization.
pub open spec fn geom_param_middle() -> Seq<char> {
    "\nopt_strategy : Speed\npage_wvfns :        0\ncut_off_energy :      "@
}

/// What the parameters of a geometry optimization end with, after the
/// cut-off energy.
pub open spec fn geom_param_tail() -> Seq<char> {
    "\ngrid_scale :        1.500000000000000\nfine_grid_scale :        1.500000000000000\nfinite_basis_corr :        0\nelec_energy_tol :   1.000000000000000e-005\nmax_scf_cycles :     6000\nfix_occupancy : false\nmetals_method : dm\nmixing_scheme : Pulay\nmix_charge_amp :        0.500000000000000\nmix_spin_amp :        2.000000000000000\nmix_charge_gmax :        1.500000000000000\nmix_spin_gmax :        1.500000000000000\nmix_history_length :       20\nperc_extra_bands : 72\nsmearing_width :        0.100000000000000\nspin_fix :        6\nnum_dump_cycles : 0\ngeom_energy_tol :   5.000000000000000e-005\ngeom_force_tol :        0.100000000000000\ngeom_stress_tol :        0.200000000000000\ngeom_disp_tol :        0.005000000000000\ngeom_max_iter :     6000\ngeom_method : BFGS\nfixed_npw : false\ncalculate_ELF : false\ncalculate_stress : false\npopn_calculate : true\ncalculate_hirshfeld : true\ncalculate_densdiff : false\npopn_bond_cutoff :        3.000000000000000\npdos_calculate_weights : true\n"@
}

/// Writes the parameters of a geometry optimization for a model with the
/// total spin `spin_total`. The cut-off energy is given as it is to stand in
/// the file.
pub fn geom_param_text(spin_total: u128, cutoff_energy: &str) -> (text: String)
    ensures
        text@ == geom_param_head() + decimal_digits(spin_total as nat) + geom_param_middle()
            + cutoff_energy@ + geom_param_tail(),
{
    let spin = decimal_text(spin_total);
    let mut text = String::from_str("task : GeometryOptimization\ncomment : CASTEP calculation from Materials Studio\nxc_functional : PBE\nspin_polarized : true\nspin :        ");
    text.append(spin.as_str());
    text.append("\nopt_strategy : Speed\npage_wvfns :        0\ncut_off_energy :      ");
    text.append(cutoff_energy);
    text.append("\ngrid_scale :        1.500000000000000\nfine_grid_scale :        1.500000000000000\nfinite_basis_corr :        0\nelec_energy_tol :   1.000000000000000e-005\nmax_scf_cycles :     6000\nfix_occupancy : false\nmetals_method : dm\nmixing_scheme : Pulay\nmix_charge_amp :        0.500000000000000\nmix_spin_amp :        2.000000000000000\nmix_charge_gmax :        1.500000000000000\nmix_spin_gmax :        1.500000000000000\nmix_history_length :       20\nperc_extra_bands : 72\nsmearing_width :        0.100000000000000\nspin_fix :        6\nnum_dump_cycles : 0\ngeom_energy_tol :   5.000000000000000e-005\ngeom_force_tol :        0.100000000000000\ngeom_stress_tol :        0.200000000000000\ngeom_disp_tol :        0.005000000000000\ngeom_max_iter :     6000\ngeom_method : BFGS\nfixed_npw : false\ncalculate_ELF : false\ncalculate_stress : false\npopn_calculate : true\ncalculate_hirshfeld : true\ncalculate_densdiff : false\npopn_bond_cutoff :        3.000000000000000\npdos_calculate_weights : true\n");
    text
}

/// What the parameters of a band structure calculation begin with, up to the
/// total spin.
pub open spec fn dos_param_head() -> Seq<char> {
    "task : BandStructure\ncontinuation : default\ncomment : CASTEP calculation from Materials Studio\nxc_functional : PBE\nspin_polarized : true\nspin :        "@
}

/// What stands between the total spin and the cut-off energy in the
/// parameters of a band structure calculation.
pub open spec fn dos_param_middle() -> Seq<char> {
    "\nopt_strategy : Speed\npage_wvfns :        0\ncut_off_energy :      "@
}

/// What the parameters of a band structure calculation end with, after the
/// cut-off energy.
pub open spec fn dos_param_tail() -> Seq<char> {
    "\ngrid_scale :        1.500000000000000\nfine_grid_scale :        1.500000000000000\nfinite_basis_corr :        0\nelec_energy_tol :   1.000000000000000e-005\nmax_scf_cycles :     6000\nfix_occupancy : false\nmetals_method : dm\nmixing_scheme : Pulay\nmix_charge_amp :        0.500000000000000\nmix_spin_amp :        2.000000000000000\nmix_charge_gmax :        1.500000000000000\nmix_spin_gmax :        1.500000000000000\nmix_history_length :       20\nperc_extra_bands :      72\nsmearing_width :        0.100000000000000\nspin_fix :        6\nnum_dump_cycles : 0\nbs_nextra_bands :       72\nbs_xc_functional : PBE\nbs_eigenvalue_tol :   1.000000000000000e-005\ncalculate_stress : false\ncalculate_ELF : false\npopn_calculate : false\ncalculate_hirshfeld : false\ncalculate_densdiff : false\npdos_calculate_weights : true\nbs_write_eigenvalues : true\n"@
}

/// Writes the parameters of a band structure calculation for a model with
/// the total spin `spin_total`. The cut-off energy is given as it is to
/// stand in the file.
pub fn dos_param_text(spin_total: u128, cutoff_energy: &str) -> (text: String)
    ensures
        text@ == dos_param_head() + decimal_digits(spin_total as nat) + dos_param_middle()
            + cutoff_energy@ + dos_param_tail(),
{
    let spin = decimal_text(spin_total);
    let mut text = String::from_str("task : BandStructure\ncontinuation : default\ncomment : CASTEP calculation from Materials Studio\nxc_functional : PBE\nspin_polarized : true\nspin :        ");
    text.append(spin.as_str());
    text.append("\nopt_strategy : Speed\npage_wvfns :        0\ncut_off_energy :      ");
    text.append(cutoff_energy);
    text.append("\ngrid_scale :        1.500000000000000\nfine_grid_scale :        1.500000000000000\nfinite_basis_corr :        0\nelec_energy_tol :   1.000000000000000e-005\nmax_scf_cycles :     6000\nfix_occupancy : false\nmetals_method : dm\nmixing_scheme : Pulay\nmix_charge_amp :        0.500000000000000\nmix_spin_amp :        2.000000000000000\nmix_charge_gmax :        1.500000000000000\nmix_spin_gmax :        1.500000000000000\nmix_history_length :       20\nperc_extra_bands :      72\nsmearing_width :        0.100000000000000\nspin_fix :        6\nnum_dump_cycles : 0\nbs_nextra_bands :       72\nbs_xc_functional : PBE\nbs_eigenvalue_tol :   1.000000000000000e-005\ncalculate_stress : false\ncalculate_ELF : false\npopn_calculate : false\ncalculate_hirshfeld : false\ncalculate_densdiff : false\npdos_calculate_weights : true\nbs_write_eigenvalues : true\n");
    text
}

} // verus!
