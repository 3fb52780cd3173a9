//! Molecules: atoms, and the bonds between them.

use vstd::prelude::*;
use crate::mol2::Mol2Record;
use crate::vector::Vec3;

verus! {

/// An atom: where it is, which element it is, and its number in the molecule
/// (the first atom has number 1).
#[derive(Debug, Clone)]
pub struct Atom {
    pub position: Vec3,
    pub element: String,
    pub id: usize,
}

/// A bond between the atoms at two indices of the molecule's atom list.
#[derive(Clone, Copy, Debug, PartialEq, Eq, Structural)]
pub struct Bond {
    pub atom_a: usize,
    pub atom_b: usize,
    pub order: u8,
}

/// What was read of the atom that a record of a MOL2 file describes: its
/// position, from the three coordinates, and its element.
#[derive(Debug, Clone)]
pub struct AtomReading {
    pub position: Vec3,
    pub element: String,
}

/// A molecule.
#[derive(Debug, Clone)]
pub struct Molecule {
    pub atoms: Vec<Atom>,
    pub bonds: Vec<Bond>,
}

impl Default for Molecule {
    fn default() -> (molecule: Molecule)
        ensures
            molecule.atoms@.len() == 0,
            molecule.bonds@.len() == 0,
            molecule.wf(),
    {
        Molecule { atoms: Vec::new(), bonds: Vec::new() }
    }
}

impl Molecule {
    /// Every bond joins two atoms of the molecule.
    pub open spec fn wf(&self) -> bool {
        forall|i: int|
            0 <= i < self.bonds@.len() ==> (#[trigger] self.bonds@[i]).atom_a < self.atoms@.len()
                && self.bonds@[i].atom_b < self.atoms@.len()
    }

    /// Whether every bond joins two atoms of the molecule.
    pub fn is_wf(&self) -> (r: bool)
        ensures
            r == self.wf(),
    {
        let count = self.atoms.len();
        let mut i: usize = 0;
        while i < self.bonds.len()
            invariant
                0 <= i <= self.bonds.len(),
                count == self.atoms@.len(),
                forall|j: int|
                    0 <= j < i ==> (#[trigger] self.bonds@[j]).atom_a < count
                        && self.bonds@[j].atom_b < count,
            decreases self.bonds.len() - i,
        {
            if self.bonds[i].atom_a >= count || self.bonds[i].atom_b >= count {
                return false;
            }
            i += 1;
        }
        true
    }

    /// The molecule without atoms.
    pub fn new() -> (molecule: Molecule)
        ensures
            molecule.atoms@.len() == 0,
            molecule.bonds@.len() == 0,
            molecule.wf(),
    {
        Molecule { atoms: Vec::new(), bonds: Vec::new() }
    }

    /// Appends an atom and returns its number, which is one more than the
    /// number of atoms before.
    pub fn add_atom(&mut self, position: Vec3, element: String) -> (id: usize)
        requires
            old(self).atoms@.len() < usize::MAX,
        ensures
            old(self).wf() ==> final(self).wf(),
            id == old(self).atoms@.len() + 1,
            final(self).atoms@ == old(self).atoms@.push(Atom { position, element, id }),
            final(self).bonds@ == old(self).bonds@,
    {
        let id: usize = self.atoms.len() + 1;
        self.atoms.push(Atom { position, element, id });
        id
    }

    /// The atoms and the bonds that the first `n` records of a MOL2 file
    /// give. `readings[k]` holds what was read of the atom of record `k`, if
    /// the record is an atom's and its coordinates could be read.
    ///
    /// An atom record with a reading appends an atom, numbered one more than
    /// the atoms before it. A bond record appends a bond if both its numbers
    /// name atoms that precede it. Every other record is passed over.
    pub open spec fn assembled(
        records: Seq<Mol2Record>,
        readings: Seq<Option<AtomReading>>,
        n: int,
    ) -> (Seq<Atom>, Seq<Bond>)
        decreases n,
    {
        if n <= 0 {
            (Seq::empty(), Seq::empty())
        } else {
            let (atoms, bonds) = Molecule::assembled(records, readings, n - 1);
            match records[n - 1] {
                Mol2Record::Atom { .. } => if n - 1 < readings.len() && readings[n - 1] is Some {
                    (
                        atoms.push(
                            Atom {
                                position: readings[n - 1]->0.position,
                                element: readings[n - 1]->0.element,
                                id: (atoms.len() + 1) as usize,
                            },
                        ),
                        bonds,
                    )
                } else {
                    (atoms, bonds)
                },
                Mol2Record::Bond { a_id, b_id, order } => if 0 < a_id <= atoms.len() && 0 < b_id
                    <= atoms.len() {
                    (
                        atoms,
                        bonds.push(
                            Bond { atom_a: (a_id - 1) as usize, atom_b: (b_id - 1) as usize, order },
                        ),
                    )
                } else {
                    (atoms, bonds)
                },
            }
        }
    }

    /// Builds the molecule that the records of a MOL2 file describe, in the
    /// order of the records. `readings[k]` holds what was read of the atom of
    /// record `k`; an atom record without a reading gives no atom.
    pub fn from_mol2(records: &Vec<Mol2Record>, readings: &Vec<Option<AtomReading>>) -> (molecule:
        Molecule)
        ensures
            molecule.wf(),
            molecule.atoms@ == Molecule::assembled(records@, readings@, records@.len() as int).0,
            molecule.bonds@ == Molecule::assembled(records@, readings@, records@.len() as int).1,
    {
        let mut molecule = Molecule::new();
        let mut k: usize = 0;
        while k < records.len()
            invariant
                0 <= k <= records.len(),
                molecule.wf(),
                molecule.atoms@.len() <= k,
                molecule.atoms@ == Molecule::assembled(records@, readings@, k as int).0,
                molecule.bonds@ == Molecule::assembled(records@, readings@, k as int).1,
            decreases records.len() - k,
        {
            match records[k] {
                Mol2Record::Atom { .. } => {
                    if k < readings.len() {
                        match &readings[k] {
                            Some(reading) => {
                                molecule.add_atom(reading.position, reading.element.clone());
                            },
                            None => {},
                        }
                    }
                },
                Mol2Record::Bond { a_id, b_id, order } => {
                    molecule.add_bond(a_id, b_id, order);
                },
            }
            k += 1;
        }
        molecule
    }

    /// Whether the two atom numbers, counted from 1, name atoms of the
    /// molecule.
    pub open spec fn names_atoms(&self, a_id: usize, b_id: usize) -> bool {
        0 < a_id <= self.atoms@.len() && 0 < b_id <= self.atoms@.len()
    }

    /// Appends the bond between the atoms with the given numbers, counted
    /// from 1, if both name atoms of the molecule. Returns whether the bond
    /// was added; if not, the molecule is unchanged.
    pub fn add_bond(&mut self, a_id: usize, b_id: usize, order: u8) -> (added: bool)
        ensures
            old(self).wf() ==> final(self).wf(),
            added == old(self).names_atoms(a_id, b_id),
            final(self).atoms@ == old(self).atoms@,
            added ==> final(self).bonds@ == old(self).bonds@.push(
                Bond { atom_a: (a_id - 1) as usize, atom_b: (b_id - 1) as usize, order },
            ),
            !added ==> final(self).bonds@ == old(self).bonds@,
    {
        if a_id > 0 && b_id > 0 && a_id <= self.atoms.len() && b_id <= self.atoms.len() {
            self.bonds.push(Bond { atom_a: a_id - 1, atom_b: b_id - 1, order });
            true
        } else {
            false
        }
    }
}

} // verus!
