use pathtracer::scalar::Scalar;
use pathtracer::scene::{grid, Kind, Mix};

fn s(x: f32) -> Scalar {
    Scalar::from_bits(x.to_bits())
}

#[test]
fn standard_mix_has_the_documented_thresholds() {
    let m = Mix::standard();
    assert_eq!(m.diffuse_below.to_bits(), 0.8f32.to_bits());
    assert_eq!(m.metallic_below.to_bits(), 0.95f32.to_bits());
}

#[test]
fn sample_selects_the_kind() {
    let m = Mix::standard();
    assert_eq!(m.select(s(0.0)), Kind::Diffuse);
    assert_eq!(m.select(s(0.79)), Kind::Diffuse);
    assert_eq!(m.select(s(0.8)), Kind::Metallic);
    assert_eq!(m.select(s(0.94)), Kind::Metallic);
    assert_eq!(m.select(s(0.95)), Kind::Glass);
    assert_eq!(m.select(s(0.999)), Kind::Glass);
    assert_eq!(m.select(s(f32::NAN)), Kind::Glass);
}

#[test]
fn other_thresholds_select_by_the_same_rule() {
    let m = Mix { diffuse_below: s(0.7), metallic_below: s(0.85) };
    assert_eq!(m.select(s(0.69)), Kind::Diffuse);
    assert_eq!(m.select(s(0.7)), Kind::Metallic);
    assert_eq!(m.select(s(0.84)), Kind::Metallic);
    assert_eq!(m.select(s(0.85)), Kind::Glass);
}

#[test]
fn cell_within_the_clearance_stays_empty() {
    let m = Mix::standard();
    assert_eq!(m.plan(s(0.1), s(0.5), s(0.9)), None);
    assert_eq!(m.plan(s(0.1), s(0.9), s(0.9)), None);
    assert_eq!(m.plan(s(0.9), s(f32::NAN), s(0.9)), None);
}

#[test]
fn cell_beyond_the_clearance_gets_a_sphere() {
    let m = Mix::standard();
    assert_eq!(m.plan(s(0.1), s(0.91), s(0.9)), Some(Kind::Diffuse));
    assert_eq!(m.plan(s(0.9), s(5.0), s(0.9)), Some(Kind::Metallic));
    assert_eq!(m.plan(s(0.97), s(5.0), s(0.9)), Some(Kind::Glass));
}

#[test]
fn grid_of_eleven_has_twenty_two_cells_a_side() {
    let cells = grid(11);
    assert_eq!(cells.len(), 484);
    assert_eq!(cells[0], (-11, -11));
    assert_eq!(cells[1], (-11, -10));
    assert_eq!(cells[21], (-11, 10));
    assert_eq!(cells[22], (-10, -11));
    assert_eq!(cells[483], (10, 10));
    let mut expected = Vec::new();
    for a in -11..11 {
        for b in -11..11 {
            expected.push((a, b));
        }
    }
    assert_eq!(cells, expected);
}

#[test]
fn small_grids() {
    assert_eq!(grid(0), Vec::new());
    assert_eq!(grid(1), vec![(-1, -1), (-1, 0), (0, -1), (0, 0)]);
    assert_eq!(grid(255).len(), 260100);
}
