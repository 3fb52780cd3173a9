//! Verified decision core of a 3D molecule viewer.
//!
//! The crate holds what a viewer decides: how an input event changes the
//! navigation state and which camera command it asks for, which of the
//! intersected atoms and bonds a click selects, which camera parameters are
//! acceptable and how far a dolly may go. Every function is proved against
//! its contract.
//!
//! Real numbers are IEEE 754 single-precision values carried by their bit
//! pattern ([`scalar::Scalar`]). The crate compares them exactly and never
//! rounds: sums, products, roots and matrices are computed by the host, which
//! hands the results in and carries the commands out.

pub mod additional_render;
pub mod camera;
pub mod controller;
pub mod mol2;
pub mod molecule;
pub mod scalar;
pub mod vector;
pub mod viewer;
