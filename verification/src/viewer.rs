//! Picking: which atom or bond a click selects.
//!
//! A click casts a ray into the scene. For every atom (a sphere) and every
//! bond (the body of a cylinder, without its end caps) the host reduces the
//! intersection test to a few scalars, a *probe*. From the probes this module
//! decides which primitives the ray meets and which of them is nearest.

use vstd::prelude::*;
use vstd::string::StrSliceExecFns;
use crate::molecule::Molecule;
use crate::scalar::{lemma_lt_asymmetric, lemma_lt_transitive, lemma_trichotomy, Scalar};

verus! {

/// The encoding of `0.4`, the radius of the sphere that stands for an atom.
pub const ATOM_RADIUS_BITS: u32 = 0x3ecc_cccd;

/// The encoding of `0.15`, the radius of the cylinder that stands for a bond.
pub const BOND_RADIUS_BITS: u32 = 0x3e19_999a;

/// The encoding of `0.001`, the length below which a bond is not drawn.
pub const MIN_BOND_LENGTH_BITS: u32 = 0x3a83_126f;

/// The encodings of the colour levels `0`, `0.1`, `0.6`, `0.7`, `0.9` and `1`.
pub const LEVEL_0_BITS: u32 = 0;

pub const LEVEL_10_BITS: u32 = 0x3dcc_cccd;

pub const LEVEL_60_BITS: u32 = 0x3f19_999a;

pub const LEVEL_70_BITS: u32 = 0x3f33_3333;

pub const LEVEL_90_BITS: u32 = 0x3f66_6666;

pub const LEVEL_100_BITS: u32 = 0x3f80_0000;

/// A colour, from the encodings of its red, green and blue levels.
pub open spec fn spec_rgb(red: u32, green: u32, blue: u32) -> (Scalar, Scalar, Scalar) {
    (Scalar { bits: red }, Scalar { bits: green }, Scalar { bits: blue })
}

/// A colour, from the encodings of its red, green and blue levels.
#[verifier::when_used_as_spec(spec_rgb)]
pub fn rgb(red: u32, green: u32, blue: u32) -> (color: (Scalar, Scalar, Scalar))
    ensures
        color == spec_rgb(red, green, blue),
{
    (Scalar::from_bits(red), Scalar::from_bits(green), Scalar::from_bits(blue))
}

/// The colour in which an element is drawn: dark grey for `C`, white for `H`,
/// red for `O`, blue for `N`, yellow for `S`, orange for `P`, green for `Cl`,
/// grey for everything else.
pub open spec fn color_of(element: Seq<char>) -> (Scalar, Scalar, Scalar) {
    if element == seq!['C'] {
        spec_rgb(LEVEL_10_BITS, LEVEL_10_BITS, LEVEL_10_BITS)
    } else if element == seq!['H'] {
        spec_rgb(LEVEL_90_BITS, LEVEL_90_BITS, LEVEL_90_BITS)
    } else if element == seq!['O'] {
        spec_rgb(LEVEL_90_BITS, LEVEL_10_BITS, LEVEL_10_BITS)
    } else if element == seq!['N'] {
        spec_rgb(LEVEL_10_BITS, LEVEL_10_BITS, LEVEL_90_BITS)
    } else if element == seq!['S'] {
        spec_rgb(LEVEL_90_BITS, LEVEL_90_BITS, LEVEL_10_BITS)
    } else if element == seq!['P'] {
        spec_rgb(LEVEL_100_BITS, LEVEL_60_BITS, LEVEL_0_BITS)
    } else if element == seq!['C', 'l'] {
        spec_rgb(LEVEL_10_BITS, LEVEL_90_BITS, LEVEL_10_BITS)
    } else {
        spec_rgb(LEVEL_70_BITS, LEVEL_70_BITS, LEVEL_70_BITS)
    }
}

/// The colour in which an element is drawn.
pub fn element_color(element: &str) -> (color: (Scalar, Scalar, Scalar))
    ensures
        color == color_of(element@),
{
    let grey = rgb(LEVEL_70_BITS, LEVEL_70_BITS, LEVEL_70_BITS);
    let len = element.unicode_len();
    if len == 1 {
        let symbol = element.get_char(0);
        proof {
            assert(element@ =~= seq![symbol]);
            assert(seq!['C'][0] == 'C' && seq!['H'][0] == 'H' && seq!['O'][0] == 'O');
            assert(seq!['N'][0] == 'N' && seq!['S'][0] == 'S' && seq!['P'][0] == 'P');
        }
        if symbol == 'C' {
            rgb(LEVEL_10_BITS, LEVEL_10_BITS, LEVEL_10_BITS)
        } else if symbol == 'H' {
            rgb(LEVEL_90_BITS, LEVEL_90_BITS, LEVEL_90_BITS)
        } else if symbol == 'O' {
            rgb(LEVEL_90_BITS, LEVEL_10_BITS, LEVEL_10_BITS)
        } else if symbol == 'N' {
            rgb(LEVEL_10_BITS, LEVEL_10_BITS, LEVEL_90_BITS)
        } else if symbol == 'S' {
            rgb(LEVEL_90_BITS, LEVEL_90_BITS, LEVEL_10_BITS)
        } else if symbol == 'P' {
            rgb(LEVEL_100_BITS, LEVEL_60_BITS, LEVEL_0_BITS)
        } else {
            grey
        }
    } else if len == 2 {
        let first = element.get_char(0);
        let second = element.get_char(1);
        proof {
            assert(element@ =~= seq![first, second]);
            assert(seq!['C', 'l'][0] == 'C' && seq!['C', 'l'][1] == 'l');
        }
        if first == 'C' && second == 'l' {
            rgb(LEVEL_10_BITS, LEVEL_90_BITS, LEVEL_10_BITS)
        } else {
            grey
        }
    } else {
        grey
    }
}

/// What a click selected.
#[derive(Clone, Copy, Debug, PartialEq, Eq, Structural)]
pub enum ViewerEvent {
    /// The atom with this index in the molecule.
    AtomClicked(usize),
    /// The bond with this index in the molecule.
    BondClicked(usize),
    /// The ray met no atom and no bond.
    NothingClicked,
}

/// The ray–sphere test, reduced along the ray.
///
/// With `O` the ray's origin, `D` its unit direction, `C` the sphere's centre
/// and `r` its radius, and `L = C − O`:
#[derive(Clone, Copy, Debug, PartialEq, Eq, Structural)]
pub struct SphereProbe {
    /// `L·D`: how far along the ray it passes closest to the centre.
    pub closest_approach: Scalar,
    /// `L·L − (L·D)²`: the squared distance from the centre to the ray.
    pub distance_sq: Scalar,
    /// `r²`.
    pub radius_sq: Scalar,
    /// `L·D − sqrt(r² − d²)`: the ray parameter of the near root.
    pub near_root: Scalar,
}

/// The test of a ray against the body of a finite cylinder, reduced along the
/// cylinder's axis.
///
/// With the axis running from `A` to `B`, `BA = B − A`, the intersection is a
/// root of a quadratic in the ray parameter:
#[derive(Clone, Copy, Debug, PartialEq, Eq, Structural)]
pub struct CylinderProbe {
    /// The quadratic's discriminant; negative when the ray misses the
    /// infinite cylinder.
    pub discriminant: Scalar,
    /// The ray parameter of the near root.
    pub near_root: Scalar,
    /// `BA·(X − A)` for the intersection point `X`: its place along the axis,
    /// scaled by the axis's length.
    pub axial: Scalar,
    /// `BA·BA`: the value of `axial` at the far end of the axis.
    pub axis_sq: Scalar,
}

impl SphereProbe {
    /// The ray parameter at which the ray enters the sphere, if it meets it:
    /// none when the closest approach lies behind the origin or the ray
    /// passes farther from the centre than the radius.
    pub open spec fn spec_hit(self) -> Option<Scalar> {
        if self.closest_approach.spec_lt(Scalar::spec_zero()) || self.distance_sq.spec_gt(
            self.radius_sq,
        ) {
            None
        } else {
            Some(self.near_root)
        }
    }

    /// Where the ray enters the sphere, if it meets it.
    #[verifier::when_used_as_spec(spec_hit)]
    pub fn hit(self) -> (h: Option<Scalar>)
        ensures
            h == self.spec_hit(),
    {
        if self.closest_approach.lt(Scalar::zero()) {
            return None;
        }
        if self.distance_sq.gt(self.radius_sq) {
            return None;
        }
        Some(self.near_root)
    }
}

impl CylinderProbe {
    /// The ray parameter at which the ray enters the cylinder's body, if it
    /// meets it: none when the quadratic has no real root or the root lies
    /// beyond either end of the axis.
    pub open spec fn spec_hit(self) -> Option<Scalar> {
        if self.discriminant.spec_ge(Scalar::spec_zero()) && self.axial.spec_ge(
            Scalar::spec_zero(),
        ) && self.axial.spec_le(self.axis_sq) {
            Some(self.near_root)
        } else {
            None
        }
    }

    /// Where the ray enters the cylinder's body, if it meets it.
    #[verifier::when_used_as_spec(spec_hit)]
    pub fn hit(self) -> (h: Option<Scalar>)
        ensures
            h == self.spec_hit(),
    {
        if self.discriminant.ge(Scalar::zero()) {
            if self.axial.ge(Scalar::zero()) && self.axial.le(self.axis_sq) {
                return Some(self.near_root);
            }
        }
        None
    }
}

/// Whether an intersection can be picked: it lies in front of the origin and
/// below the largest finite distance.
pub open spec fn counts(h: Option<Scalar>) -> bool {
    h matches Some(t) && t.spec_gt(Scalar::spec_zero()) && t.spec_lt(Scalar::spec_max_finite())
}

/// The intersections in the order in which they are examined: the atoms'
/// first, then the bonds'.
pub open spec fn candidates(atoms: Seq<SphereProbe>, bonds: Seq<CylinderProbe>) -> Seq<
    Option<Scalar>,
> {
    Seq::new(
        atoms.len() + bonds.len(),
        |k: int|
            if k < atoms.len() {
                atoms[k].spec_hit()
            } else {
                bonds[k - atoms.len()].spec_hit()
            },
    )
}

/// Candidate `i` is the nearest that counts, and the first of those that are
/// equally near: every earlier one that counts is strictly farther, no later
/// one is nearer.
pub open spec fn wins(c: Seq<Option<Scalar>>, i: int) -> bool {
    &&& 0 <= i < c.len()
    &&& counts(c[i])
    &&& forall|j: int| 0 <= j < i && #[trigger] counts(c[j]) ==> c[i]->0.spec_lt(c[j]->0)
    &&& forall|j: int| i < j < c.len() && #[trigger] counts(c[j]) ==> c[i]->0.spec_le(c[j]->0)
}

/// `event` is what a click selects among the probed primitives: the winning
/// candidate's atom or bond, or nothing when no candidate counts.
pub open spec fn is_pick(
    atoms: Seq<SphereProbe>,
    bonds: Seq<CylinderProbe>,
    event: ViewerEvent,
) -> bool {
    let c = candidates(atoms, bonds);
    match event {
        ViewerEvent::AtomClicked(i) => i < atoms.len() && wins(c, i as int),
        ViewerEvent::BondClicked(k) => k < bonds.len() && wins(c, atoms.len() + k),
        ViewerEvent::NothingClicked => forall|j: int|
            0 <= j < c.len() ==> !#[trigger] counts(c[j]),
    }
}

/// The state of a scan that has examined the first `n` candidates: `best` is
/// the winner among them, `closest` its ray parameter or, with no winner yet,
/// the largest finite value.
spec fn scanned(c: Seq<Option<Scalar>>, n: int, closest: Scalar, best: Option<int>) -> bool {
    &&& 0 <= n <= c.len()
    &&& match best {
        Some(b) => b < n && wins(c.take(n), b) && c[b] == Some(closest),
        None => closest == Scalar::spec_max_finite() && forall|j: int|
            0 <= j < n ==> !#[trigger] counts(c[j]),
    }
}

/// Whether an intersection replaces the best so far: it lies in front of the
/// origin and strictly nearer than `closest`.
spec fn improves(h: Option<Scalar>, closest: Scalar) -> bool {
    h matches Some(t) && t.spec_lt(closest) && t.spec_gt(Scalar::spec_zero())
}

/// Examining candidate `n` turns a scan of `n` candidates into one of `n + 1`:
/// the candidate becomes the new best exactly when it counts and is strictly
/// nearer than the best so far.
proof fn lemma_scan_step(c: Seq<Option<Scalar>>, n: int, closest: Scalar, best: Option<int>)
    requires
        scanned(c, n, closest, best),
        n < c.len(),
    ensures
        improves(c[n], closest) ==> scanned(c, n + 1, c[n]->0, Some(n)),
        !improves(c[n], closest) ==> scanned(c, n + 1, closest, best),
{
    let before = c.take(n);
    let after = c.take(n + 1);
    assert forall|j: int| 0 <= j < n implies after[j] == c[j] && before[j] == c[j] by {}
    assert(after[n] == c[n]);
    if improves(c[n], closest) {
        assert(counts(c[n]));
        match best {
            Some(b) => {
                assert forall|j: int| 0 <= j < n && #[trigger] counts(after[j]) implies c[n]->0.spec_lt(
                    after[j]->0,
                ) by {
                    assert(counts(before[j]));
                }
            },
            None => {
                assert forall|j: int| 0 <= j < n && #[trigger] counts(after[j]) implies c[n]->0.spec_lt(
                    after[j]->0,
                ) by {
                    assert(counts(c[j]));
                }
            },
        }
        assert(wins(after, n));
    } else {
        match best {
            Some(b) => {
                // A candidate that counts and is not nearer than the best is
                // at least as far: the two are comparable.
                if counts(c[n]) {
                    lemma_trichotomy(c[n]->0, closest);
                }
                assert forall|j: int| 0 <= j < b && #[trigger] counts(after[j]) implies after[b]->0.spec_lt(
                    after[j]->0,
                ) by {
                    assert(counts(before[j]));
                }
                assert forall|j: int| b < j < n + 1 && #[trigger] counts(after[j]) implies after[b]->0.spec_le(
                    after[j]->0,
                ) by {
                    if j < n {
                        assert(counts(before[j]));
                    }
                }
                assert(wins(after, b));
            },
            None => {
                assert forall|j: int| 0 <= j < n + 1 implies !#[trigger] counts(c[j]) by {}
            },
        }
    }
}

/// Selects the primitive that a click hits: the one whose intersection is
/// nearest among those that count, the first examined if several are equally
/// near; atoms are examined before bonds, each kind in the order given.
/// Returns `NothingClicked` when no intersection counts.
pub fn pick(atoms: &Vec<SphereProbe>, bonds: &Vec<CylinderProbe>) -> (event: ViewerEvent)
    ensures
        is_pick(atoms@, bonds@, event),
{
    let ghost c = candidates(atoms@, bonds@);
    let ghost mut best: Option<int> = None;
    let mut closest = Scalar::max_finite();
    let mut picked = ViewerEvent::NothingClicked;

    let mut i: usize = 0;
    while i < atoms.len()
        invariant
            0 <= i <= atoms.len(),
            c == candidates(atoms@, bonds@),
            scanned(c, i as int, closest, best),
            match best {
                Some(b) => picked == ViewerEvent::AtomClicked(b as usize),
                None => picked == ViewerEvent::NothingClicked,
            },
        decreases atoms.len() - i,
    {
        proof {
            lemma_scan_step(c, i as int, closest, best);
        }
        if let Some(t) = atoms[i].hit() {
            if t.lt(closest) && t.gt(Scalar::zero()) {
                closest = t;
                picked = ViewerEvent::AtomClicked(i);
                proof {
                    best = Some(i as int);
                }
            }
        }
        i += 1;
    }

    let mut k: usize = 0;
    while k < bonds.len()
        invariant
            i == atoms.len(),
            0 <= k <= bonds.len(),
            c == candidates(atoms@, bonds@),
            scanned(c, atoms.len() + k, closest, best),
            match best {
                Some(b) => if b < atoms.len() {
                    picked == ViewerEvent::AtomClicked(b as usize)
                } else {
                    picked == ViewerEvent::BondClicked((b - atoms.len()) as usize)
                },
                None => picked == ViewerEvent::NothingClicked,
            },
        decreases bonds.len() - k,
    {
        proof {
            lemma_scan_step(c, atoms.len() + k, closest, best);
        }
        if let Some(t) = bonds[k].hit() {
            if t.lt(closest) && t.gt(Scalar::zero()) {
                closest = t;
                picked = ViewerEvent::BondClicked(k);
                proof {
                    best = Some(atoms.len() + k);
                }
            }
        }
        k += 1;
    }

    proof {
        assert(c.take(c.len() as int) =~= c);
    }
    picked
}

/// A fixed ray and a fixed set of primitives admit one outcome only: two
/// events that both satisfy the picking rule are the same event.
pub proof fn lemma_pick_is_unique(
    atoms: Seq<SphereProbe>,
    bonds: Seq<CylinderProbe>,
    first: ViewerEvent,
    second: ViewerEvent,
)
    requires
        is_pick(atoms, bonds, first),
        is_pick(atoms, bonds, second),
    ensures
        first == second,
{
    let c = candidates(atoms, bonds);
    let a = winner_index(atoms, first);
    let b = winner_index(atoms, second);
    match (a, b) {
        (Some(i), Some(j)) => {
            // Of two winners the later is strictly nearer than the earlier,
            // and the earlier is no farther than the later: the order of
            // scalars admits no such pair.
            if i < j {
                assert(counts(c[i]) && counts(c[j]));
                lemma_lt_transitive(c[j]->0, c[i]->0, c[j]->0);
                lemma_lt_asymmetric(c[j]->0, c[j]->0);
            } else if j < i {
                assert(counts(c[i]) && counts(c[j]));
                lemma_lt_transitive(c[i]->0, c[j]->0, c[i]->0);
                lemma_lt_asymmetric(c[i]->0, c[i]->0);
            }
        },
        (Some(i), None) => {
            assert(counts(c[i]));
        },
        (None, Some(j)) => {
            assert(counts(c[j]));
        },
        (None, None) => {},
    }
}

/// The candidate that an event names, if it names one.
pub open spec fn winner_index(atoms: Seq<SphereProbe>, event: ViewerEvent) -> Option<int> {
    match event {
        ViewerEvent::AtomClicked(i) => Some(i as int),
        ViewerEvent::BondClicked(k) => Some(atoms.len() + k),
        ViewerEvent::NothingClicked => None,
    }
}

/// The picked primitive is nearest: no intersection that counts has a smaller
/// ray parameter than the one of the event's atom or bond.
pub proof fn lemma_pick_is_nearest(
    atoms: Seq<SphereProbe>,
    bonds: Seq<CylinderProbe>,
    event: ViewerEvent,
    other: int,
)
    requires
        is_pick(atoms, bonds, event),
        0 <= other < atoms.len() + bonds.len(),
        counts(candidates(atoms, bonds)[other]),
    ensures
        winner_index(atoms, event) is Some,
        candidates(atoms, bonds)[winner_index(atoms, event)->0]->0.spec_le(
            candidates(atoms, bonds)[other]->0,
        ),
{
    let c = candidates(atoms, bonds);
    match winner_index(atoms, event) {
        Some(w) => {
            assert(wins(c, w));
            if other < w {
                assert(counts(c[other]));
            } else if other > w {
                assert(counts(c[other]));
            }
        },
        None => {
            assert(!counts(c[other]));
        },
    }
}

/// The viewer's state: the molecule on show, whether the scene has to be
/// rebuilt from it, and where the cursor was last seen.
pub struct MoleculeViewer {
    pub molecule: Option<Molecule>,
    pub dirty: bool,
    pub last_mouse_pos: (Scalar, Scalar),
}

impl MoleculeViewer {
    /// The radius of the sphere that stands for an atom, in drawing and in
    /// picking.
    pub open spec fn spec_atom_radius() -> Scalar {
        Scalar { bits: ATOM_RADIUS_BITS }
    }

    /// The radius of an atom's sphere: 0.4.
    #[verifier::when_used_as_spec(spec_atom_radius)]
    pub fn atom_radius() -> (radius: Scalar)
        ensures
            radius == MoleculeViewer::spec_atom_radius(),
    {
        Scalar::from_bits(ATOM_RADIUS_BITS)
    }

    /// The radius of the cylinder that stands for a bond, in drawing and in
    /// picking.
    pub open spec fn spec_bond_radius() -> Scalar {
        Scalar { bits: BOND_RADIUS_BITS }
    }

    /// The radius of a bond's cylinder: 0.15.
    #[verifier::when_used_as_spec(spec_bond_radius)]
    pub fn bond_radius() -> (radius: Scalar)
        ensures
            radius == MoleculeViewer::spec_bond_radius(),
    {
        Scalar::from_bits(BOND_RADIUS_BITS)
    }

    /// Whether a bond of the given length is drawn: it is left out when its
    /// length is below 0.001, which is the case when its atoms coincide.
    pub fn draws_bond(length: Scalar) -> (drawn: bool)
        ensures
            drawn == !length.spec_lt(Scalar { bits: MIN_BOND_LENGTH_BITS }),
    {
        !length.lt(Scalar::from_bits(MIN_BOND_LENGTH_BITS))
    }

    /// A viewer with no molecule, a clean scene and the cursor at `(0, 0)`.
    pub fn new() -> (viewer: MoleculeViewer)
        ensures
            viewer.molecule is None,
            !viewer.dirty,
            viewer.last_mouse_pos == (Scalar::spec_zero(), Scalar::spec_zero()),
    {
        MoleculeViewer {
            molecule: None,
            dirty: false,
            last_mouse_pos: (Scalar::zero(), Scalar::zero()),
        }
    }

    /// Puts a molecule on show and marks the scene for rebuilding.
    pub fn set_molecule(&mut self, molecule: Molecule)
        ensures
            final(self).molecule == Some(molecule),
            final(self).dirty,
            final(self).last_mouse_pos == old(self).last_mouse_pos,
    {
        self.molecule = Some(molecule);
        self.dirty = true;
    }

    /// Records the cursor's position, in pixels.
    pub fn on_mouse_move(&mut self, pos: (Scalar, Scalar))
        ensures
            final(self).last_mouse_pos == pos,
            final(self).molecule == old(self).molecule,
            final(self).dirty == old(self).dirty,
    {
        self.last_mouse_pos = pos;
    }

    /// The molecule is well formed and there is one probe for each of its
    /// atoms and one for each of its bonds.
    pub open spec fn probed(&self, atoms: Seq<SphereProbe>, bonds: Seq<CylinderProbe>) -> bool {
        self.molecule matches Some(molecule) ==> (molecule.wf() && atoms.len()
            == molecule.atoms@.len() && bonds.len() == molecule.bonds@.len())
    }

    /// Resolves a click from the probes of the molecule's atoms and bonds,
    /// one probe for each, in the molecule's order; the molecule has to be
    /// well formed. Without a molecule nothing can be clicked. The result is
    /// never `None`, and an atom or a bond that it names is one of the
    /// molecule's; a bond that it names joins two atoms of the molecule.
    pub fn pick(&self, atoms: &Vec<SphereProbe>, bonds: &Vec<CylinderProbe>) -> (event: Option<
        ViewerEvent,
    >)
        requires
            self.probed(atoms@, bonds@),
        ensures
            self.molecule is None ==> event == Some(ViewerEvent::NothingClicked),
            self.molecule is Some ==> event is Some && is_pick(atoms@, bonds@, event->0),
            event matches Some(ViewerEvent::AtomClicked(i)) ==> (self.molecule is Some && i
                < self.molecule->0.atoms@.len()),
            event matches Some(ViewerEvent::BondClicked(k)) ==> (self.molecule is Some && k
                < self.molecule->0.bonds@.len() && self.molecule->0.bonds@[k as int].atom_a
                < self.molecule->0.atoms@.len() && self.molecule->0.bonds@[k as int].atom_b
                < self.molecule->0.atoms@.len()),
    {
        if self.molecule.is_none() {
            return Some(ViewerEvent::NothingClicked);
        }
        Some(pick(atoms, bonds))
    }

    /// Answers whether the scene has to be rebuilt, which is the case when it
    /// is marked for rebuilding and there is a molecule to build it from, and
    /// clears the mark.
    pub fn update_scene(&mut self) -> (rebuild: bool)
        ensures
            rebuild == (old(self).dirty && old(self).molecule is Some),
            !final(self).dirty,
            final(self).molecule == old(self).molecule,
            final(self).last_mouse_pos == old(self).last_mouse_pos,
    {
        if !self.dirty {
            return false;
        }
        self.dirty = false;
        self.molecule.is_some()
    }
}

} // verus!
