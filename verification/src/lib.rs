//! Placement of a rigid molecular fragment on a site of a crystal surface.
//!
//! A fragment is brought in beside a host model, oriented by its stem and
//! its plane, moved to its bonding distance from a target location, and
//! merged into the host. The stages are types of their own (see
//! [`assemble::builder`]), so that none can be skipped or repeated.
//!
//! The library decides and keeps books; it does not compute on numbers.
//! Coordinates are values of a scalar type that the library never looks
//! into, and every arithmetic step is a call of a [`kernel::Kernel`]. What is
//! proved holds of every kernel:
//!
//! * which failure is reported for which parameters and ids, and that
//!   nothing else fails but what the kernel itself decides;
//! * that a stage leaves the host, the parameters and every atom alone but
//!   for where the atoms of the fragment are, and that it moves the fragment
//!   as one body ([`assemble::rigid`]);
//! * that, on a kernel whose operations are functions of their arguments,
//!   the positions that come out are given by closed formulas over the
//!   kernel's operations ([`assemble::orientation`],
//!   [`assemble::placement`]), so that two runs agree ([`assemble::laws`]).
//!
//! What the geometry achieves is proved of kernels that are exact
//! ([`assemble::exact`]): where rotations and translations keep distances,
//! so does the pipeline, and where a translation reaches its target, the
//! coordination atoms come to lie at the bond length from the location.
//!
//! Beside the pipeline the library holds the reading of `msi` files
//! ([`parser`]), the layout of the files that a calculation is started from
//! ([`format`], [`cell`], [`param_writer`]), and the description of a
//! project ([`external_info`]).
pub mod adsorbate;
pub mod assemble;
pub mod atom;
pub mod cell;
pub mod error;
pub mod external_info;
pub mod format;
pub mod kernel;
pub mod lattice;
pub mod math_helper;
pub mod model_type;
pub mod molecule;
pub mod param_writer;
pub mod parser;
pub mod text;
