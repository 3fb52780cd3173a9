use moleucle_3dview_rs::additional_render::{DebugRender, SelectedAtomRender};
use moleucle_3dview_rs::scalar::Scalar;
use moleucle_3dview_rs::vector::Vec3;

fn s(x: f32) -> Scalar {
    Scalar::from_bits(x.to_bits())
}

fn v(x: f32, y: f32, z: f32) -> Vec3 {
    Vec3::new(s(x), s(y), s(z))
}

#[test]
fn nothing_is_selected_at_first_and_the_mark_is_red() {
    let render = SelectedAtomRender::new();
    assert!(render.selected_atoms.is_empty());
    assert_eq!(render.color, [s(1.0), s(0.0), s(0.0)]);
    assert!(!render.is_selected(0));
}

#[test]
fn atoms_are_added_in_order_and_may_repeat() {
    let mut render = SelectedAtomRender::new();
    render.add_atom(4);
    render.add_atom(1);
    render.add_atom(4);
    assert_eq!(render.selected_atoms, [4, 1, 4]);
    assert!(render.is_selected(4));
    assert!(render.is_selected(1));
    assert!(!render.is_selected(2));
    assert_eq!(render.color, [s(1.0), s(0.0), s(0.0)]);
}

#[test]
fn removing_an_atom_removes_every_occurrence_and_keeps_the_order() {
    let mut render = SelectedAtomRender::new();
    for atom in [4, 1, 4, 7, 4, 2] {
        render.add_atom(atom);
    }
    render.remove_atom(4);
    assert_eq!(render.selected_atoms, [1, 7, 2]);
    assert!(!render.is_selected(4));
    render.remove_atom(9);
    assert_eq!(render.selected_atoms, [1, 7, 2]);
    render.remove_atom(2);
    render.remove_atom(1);
    render.remove_atom(7);
    assert!(render.selected_atoms.is_empty());
    render.remove_atom(7);
    assert!(render.selected_atoms.is_empty());
}

#[test]
fn toggling_reverses_the_selection_of_an_atom() {
    let mut render = SelectedAtomRender::new();
    render.toggle_atom(3);
    assert_eq!(render.selected_atoms, [3]);
    render.toggle_atom(5);
    assert_eq!(render.selected_atoms, [3, 5]);
    render.toggle_atom(3);
    assert_eq!(render.selected_atoms, [5]);
    render.toggle_atom(3);
    assert_eq!(render.selected_atoms, [5, 3]);
    render.add_atom(5);
    render.toggle_atom(5);
    assert_eq!(render.selected_atoms, [3]);
    for atom in [0usize, 3, 5, 8] {
        let before = render.is_selected(atom);
        render.toggle_atom(atom);
        assert_eq!(render.is_selected(atom), !before);
    }
}

#[test]
fn the_debug_ray_can_be_replaced() {
    let mut render = DebugRender::new((v(0.0, 0.0, 10.0), v(0.0, 0.0, -1.0)));
    assert_eq!(render.ray, (v(0.0, 0.0, 10.0), v(0.0, 0.0, -1.0)));
    render.update_ray((v(1.0, 2.0, 3.0), v(0.0, 1.0, 0.0)));
    assert_eq!(render.ray, (v(1.0, 2.0, 3.0), v(0.0, 1.0, 0.0)));
}
