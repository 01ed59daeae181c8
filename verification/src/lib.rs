//! Native elliptic-curve and field gadgets for an arithmetic circuit of two
//! advice columns.
//!
//! "Native" means that the coordinates of the curve live in the field that
//! the circuit itself computes in, so a coordinate is one cell and field
//! arithmetic is one gate. The field is the base field of Grumpkin.
//!
//! A circuit is laid down in a [`region::Region`]: an append-only tape of
//! rows, each with two cells and a selector, together with the copy
//! constraints that tie cells to one another. The operations of the
//! [`chip::ECChip`] append their rows where a cursor stands, move the
//! cursor past them, and hand back the cells that hold their results. The
//! chip lays constraints down and never judges them; whether a region is
//! satisfied is for a checker to say, here [`checker::is_satisfied`].
//!
//! Every operation is proved complete and sound. Complete: the rows that
//! the chip lays down satisfy their gates, and the cells it hands back hold
//! what the operation is to compute. Sound: whatever the cells of a region
//! hold, if the region is satisfied, the cells of each gadget hold what the
//! gadget is to compute from the cells it is tied to.
//!
//! The modules, from the ground up:
//! - [`primality`] and [`certificate`]: the modulus of the field is prime;
//! - [`field`]: residues, field elements, and the arithmetic of the field;
//! - [`curve`] and [`group_law`]: points, the group law, and its laws;
//! - [`gates`]: the polynomial constraints of each selector;
//! - [`region`]: rows, copy constraints, and what "satisfied" means;
//! - [`chip`], [`decompose`], [`points`], [`scalar_mul`]: the operations;
//! - [`soundness`]: what the constraints of each gadget force;
//! - [`checker`]: the evaluation of a region;
//! - [`circuits`]: whole circuits built from the operations.
pub mod primality;
pub mod certificate;
pub mod field;
pub mod curve;
pub mod group_law;
pub mod gates;
pub mod region;
pub mod chip;
pub mod decompose;
pub mod points;
pub mod scalar_mul;
pub mod soundness;
pub mod checker;
pub mod circuits;
