//! State of the overlays that a host draws on top of the molecule.

use vstd::prelude::*;
use crate::scalar::Scalar;
use crate::vector::Vec3;

verus! {

/// The atoms that are marked as selected, in the order in which they were
/// selected, and the colour in which they are marked (red, green, blue).
#[derive(Clone)]
pub struct SelectedAtomRender {
    pub selected_atoms: Vec<usize>,
    pub color: [Scalar; 3],
}

/// Whether `candidate` is another atom than `atom_idx`.
pub open spec fn is_other_atom(atom_idx: usize) -> spec_fn(usize) -> bool {
    |candidate: usize| candidate != atom_idx
}

impl SelectedAtomRender {
    /// No atom selected; the marking colour is red.
    pub fn new() -> (render: SelectedAtomRender)
        ensures
            render.selected_atoms@.len() == 0,
            render.color@ == seq![Scalar::spec_one(), Scalar::spec_zero(), Scalar::spec_zero()],
    {
        SelectedAtomRender {
            selected_atoms: Vec::new(),
            color: [Scalar::one(), Scalar::zero(), Scalar::zero()],
        }
    }

    /// Whether the atom is selected.
    pub fn is_selected(&self, atom_idx: usize) -> (selected: bool)
        ensures
            selected == self.selected_atoms@.contains(atom_idx),
    {
        let mut i: usize = 0;
        while i < self.selected_atoms.len()
            invariant
                0 <= i <= self.selected_atoms.len(),
                forall|j: int| 0 <= j < i ==> self.selected_atoms@[j] != atom_idx,
            decreases self.selected_atoms.len() - i,
        {
            if self.selected_atoms[i] == atom_idx {
                return true;
            }
            i += 1;
        }
        false
    }

    /// Selects the atom once more: its index is appended, whether or not it
    /// is selected already.
    pub fn add_atom(&mut self, atom_idx: usize)
        ensures
            final(self).selected_atoms@ == old(self).selected_atoms@.push(atom_idx),
            final(self).color == old(self).color,
    {
        self.selected_atoms.push(atom_idx);
    }

    /// Deselects the atom: every occurrence of its index is removed, and the
    /// other indices keep their order.
    pub fn remove_atom(&mut self, atom_idx: usize)
        ensures
            final(self).selected_atoms@ == old(self).selected_atoms@.filter(
                is_other_atom(atom_idx),
            ),
            !final(self).selected_atoms@.contains(atom_idx),
            final(self).color == old(self).color,
    {
        let ghost before = self.selected_atoms@;
        let mut kept: Vec<usize> = Vec::new();
        let mut i: usize = 0;
        while i < self.selected_atoms.len()
            invariant
                0 <= i <= self.selected_atoms.len(),
                self.selected_atoms@ == before,
                kept@ == before.take(i as int).filter(is_other_atom(atom_idx)),
            decreases self.selected_atoms.len() - i,
        {
            let candidate = self.selected_atoms[i];
            proof {
                before.take(i as int).lemma_filter_push(candidate, is_other_atom(atom_idx));
                assert(before.take(i as int).push(candidate) =~= before.take(i + 1));
            }
            if candidate != atom_idx {
                kept.push(candidate);
            }
            i += 1;
        }
        proof {
            assert(before.take(before.len() as int) =~= before);
            if kept@.contains(atom_idx) {
                let at = choose|j: int| 0 <= j < kept@.len() && kept@[j] == atom_idx;
                before.lemma_filter_pred(is_other_atom(atom_idx), at);
            }
        }
        self.selected_atoms = kept;
    }

    /// Selects the atom if it is not selected, deselects it if it is. Either
    /// way the atom's being selected is reversed.
    pub fn toggle_atom(&mut self, atom_idx: usize)
        ensures
            final(self).selected_atoms@ == if old(self).selected_atoms@.contains(atom_idx) {
                old(self).selected_atoms@.filter(is_other_atom(atom_idx))
            } else {
                old(self).selected_atoms@.push(atom_idx)
            },
            final(self).selected_atoms@.contains(atom_idx) == !old(self).selected_atoms@.contains(
                atom_idx,
            ),
            final(self).color == old(self).color,
    {
        if self.is_selected(atom_idx) {
            self.remove_atom(atom_idx);
        } else {
            self.add_atom(atom_idx);
            proof {
                assert(self.selected_atoms@[self.selected_atoms@.len() - 1] == atom_idx);
            }
        }
    }
}

/// The ray that is drawn for inspection: its origin and its direction.
#[derive(Clone, Copy, Debug)]
pub struct DebugRender {
    pub ray: (Vec3, Vec3),
}

impl DebugRender {
    pub fn new(ray: (Vec3, Vec3)) -> (render: DebugRender)
        ensures
            render.ray == ray,
    {
        DebugRender { ray }
    }

    /// Replaces the ray.
    pub fn update_ray(&mut self, ray: (Vec3, Vec3))
        ensures
            final(self).ray == ray,
    {
        self.ray = ray;
    }
}

} // verus!
