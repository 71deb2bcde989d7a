use wavefield::{Array2D, Cross, Material, World};

type V = [f32; 2];

fn velocity_rule(gain: f32, damping: f32) -> impl Fn(V, Cross<f32>) -> V + Sync {
    move |v: V, c: Cross<f32>| {
        let grad = [c.right - c.left, c.down - c.up];
        [
            (v[0] + grad[0] * gain) * (1.0 - damping),
            (v[1] + grad[1] * gain) * (1.0 - damping),
        ]
    }
}

fn pressure_rule(p: f32, c: Cross<V>) -> f32 {
    let divergence = (c.left[0] - c.right[0]) + (c.up[1] - c.down[1]);
    p - divergence
}

fn oscillator(amplitude: f32, period: f32) -> impl Fn(u32) -> f32 {
    move |t: u32| amplitude * ((t as f32 / 16.0) / period).sin()
}

fn world(width: usize, height: usize) -> World<f32, V> {
    World::new(width, height, 0.0, [0.0, 0.0])
}

fn at<T: Copy>(g: &Array2D<T>, x: isize, y: isize) -> T {
    *g.get(x, y).unwrap()
}

#[test]
fn new_world_is_at_rest() {
    let w = world(5, 4);
    assert_eq!(w.width(), 5);
    assert_eq!(w.height(), 4);
    assert_eq!(w.ticks(), 0);
    assert!(w.pressures().as_slice().iter().all(|p| *p == 0.0));
    assert!(w.velocities().as_slice().iter().all(|v| *v == [0.0, 0.0]));
    assert!(w.materials().as_slice().iter().all(|m| *m == Material::Fluid));
}

#[test]
fn pulse_scenario_first_tick() {
    let mut w = world(4, 4);
    *w.pressures_mut().get_mut(2, 2).unwrap() = 1.0;
    w.update(&velocity_rule(1.0, 0.0), &pressure_rule, &oscillator(2.5, 3.0));
    assert_eq!(w.ticks(), 1);
    let v = w.velocities();
    assert_eq!(at(v, 1, 2), [1.0, 0.0]);
    assert_eq!(at(v, 3, 2), [-1.0, 0.0]);
    assert_eq!(at(v, 2, 1), [0.0, 1.0]);
    assert_eq!(at(v, 2, 3), [0.0, -1.0]);
    assert_eq!(at(v, 2, 2), [0.0, 0.0]);
    assert_eq!(at(v, 0, 0), [0.0, 0.0]);
    // the previous velocities were all zero, so no divergence yet
    assert_eq!(at(w.pressures(), 2, 2), 1.0);
}

#[test]
fn pulse_scenario_second_tick() {
    let mut w = world(4, 4);
    *w.pressures_mut().get_mut(2, 2).unwrap() = 1.0;
    let vr = velocity_rule(1.0, 0.0);
    let osc = oscillator(2.5, 3.0);
    w.update(&vr, &pressure_rule, &osc);
    w.update(&vr, &pressure_rule, &osc);
    // divergence at (2,2): left.x - right.x + up.y - down.y = 1 + 1 + 1 + 1
    assert_eq!(at(w.pressures(), 2, 2), -3.0);
    // (1,2) sees left.x = 0, right.x = 0 (the centre), up.y = 0, down.y = 0
    assert_eq!(at(w.pressures(), 1, 2), 0.0);
}

#[test]
fn solid_cells_rest_after_tick() {
    let mut w = world(3, 3);
    w.materials_mut().set(1, 1, Material::Solid);
    *w.pressures_mut().get_mut(1, 1).unwrap() = 5.0;
    *w.pressures_mut().get_mut(0, 1).unwrap() = 2.0;
    let vr = velocity_rule(1.0, 0.0);
    let osc = oscillator(2.5, 3.0);
    for _ in 0..3 {
        w.update(&vr, &pressure_rule, &osc);
        assert_eq!(at(w.pressures(), 1, 1), 0.0);
        assert_eq!(at(w.velocities(), 1, 1), [0.0, 0.0]);
    }
}

#[test]
fn emitter_follows_oscillator() {
    let mut w = world(4, 4);
    w.materials_mut().set(0, 0, Material::Emitter);
    w.materials_mut().set(3, 3, Material::Emitter);
    *w.pressures_mut().get_mut(1, 0).unwrap() = 7.0;
    let vr = velocity_rule(0.1, 0.9999);
    let osc = oscillator(2.5, 3.0);
    for t in 1..=40u32 {
        w.update(&vr, &pressure_rule, &osc);
        let expected = 2.5 * ((t as f32 / 16.0) / 3.0).sin();
        assert!((at(w.pressures(), 0, 0) - expected).abs() < 1e-6);
        assert_eq!(at(w.pressures(), 0, 0), at(w.pressures(), 3, 3));
    }
    assert_eq!(w.ticks(), 40);
}

#[test]
fn fluid_at_rest_stays_at_rest() {
    let mut w = world(8, 8);
    let vr = velocity_rule(0.1, 0.9999);
    let osc = oscillator(2.5, 3.0);
    for _ in 0..200 {
        w.update(&vr, &pressure_rule, &osc);
    }
    assert!(w.pressures().as_slice().iter().all(|p| *p == 0.0));
    assert!(w.velocities().as_slice().iter().all(|v| *v == [0.0, 0.0]));
}

#[test]
fn default_parameters_stay_finite() {
    let mut w = world(24, 24);
    w.materials_mut().set(12, 12, Material::Emitter);
    w.materials_mut().set(5, 5, Material::Solid);
    *w.pressures_mut().get_mut(3, 20).unwrap() = 1.0;
    let vr = velocity_rule(0.1, 0.9999);
    let osc = oscillator(2.5, 3.0);
    for _ in 0..10_000 {
        w.paint_moving_wall(18, 19);
        w.update(&vr, &pressure_rule, &osc);
    }
    assert!(w.pressures().as_slice().iter().all(|p| p.is_finite()));
    assert!(w.velocities().as_slice().iter().all(|v| v[0].is_finite() && v[1].is_finite()));
}

#[test]
fn moving_wall_is_painted_every_sixth_tick() {
    let mut w = world(130, 6);
    w.paint_moving_wall(2, 4);
    let m = w.materials();
    assert_eq!(at(m, 0, 2), Material::Solid);
    assert_eq!(at(m, 63, 3), Material::Solid);
    assert_eq!(at(m, 64, 2), Material::Fluid);
    assert_eq!(at(m, 127, 3), Material::Fluid);
    assert_eq!(at(m, 128, 2), Material::Solid);
    assert_eq!(at(m, 0, 1), Material::Fluid);
    assert_eq!(at(m, 0, 4), Material::Fluid);

    let vr = velocity_rule(0.1, 0.9999);
    let osc = oscillator(2.5, 3.0);
    for _ in 0..6 {
        w.update(&vr, &pressure_rule, &osc);
    }
    // tick 6: the pattern has moved by one column
    w.paint_moving_wall(2, 4);
    let m = w.materials();
    assert_eq!(at(m, 62, 2), Material::Solid);
    assert_eq!(at(m, 63, 2), Material::Fluid);
    assert_eq!(at(m, 127, 2), Material::Solid);
}

#[test]
fn moving_wall_waits_between_steps() {
    let mut w = world(4, 4);
    let vr = velocity_rule(0.1, 0.9999);
    let osc = oscillator(2.5, 3.0);
    w.update(&vr, &pressure_rule, &osc);
    w.paint_moving_wall(0, 4);
    assert!(w.materials().as_slice().iter().all(|m| *m == Material::Fluid));
}

#[test]
fn forcing_wraps_values_over_columns() {
    let mut w = world(5, 3);
    w.apply_forcing(&[1.0, 2.0, 3.0], 2);
    let p = w.pressures();
    let row0: Vec<f32> = (0..5).map(|x| at(p, x, 0)).collect();
    let row1: Vec<f32> = (0..5).map(|x| at(p, x, 1)).collect();
    let row2: Vec<f32> = (0..5).map(|x| at(p, x, 2)).collect();
    assert_eq!(row0, vec![1.0, 2.0, 3.0, 1.0, 2.0]);
    assert_eq!(row1, row0);
    assert_eq!(row2, vec![0.0; 5]);
}

#[test]
fn empty_forcing_changes_nothing() {
    let mut w = world(3, 3);
    w.apply_forcing(&[], 3);
    assert!(w.pressures().as_slice().iter().all(|p| *p == 0.0));
}

#[test]
fn draw_writes_one_pixel_per_cell() {
    let mut w = world(3, 1);
    w.materials_mut().set(2, 0, Material::Solid);
    *w.pressures_mut().get_mut(0, 0).unwrap() = 1.0;
    *w.pressures_mut().get_mut(1, 0).unwrap() = -0.5;
    let shade = |p: f32, fixed: bool| {
        let g = if fixed { 0xff } else { 0x00 };
        if p > 0.0 {
            [(p * 255.0) as u8, g, 0x00, 0xff]
        } else {
            [0x00, g, (-p * 255.0) as u8, 0xff]
        }
    };
    let mut frame = vec![0u8; 12];
    w.draw(&mut frame, &shade);
    assert_eq!(frame, vec![255, 0, 0, 255, 0, 0, 127, 255, 0, 255, 0, 255]);
}

#[test]
fn fixed_materials() {
    assert!(!Material::Fluid.is_fixed());
    assert!(Material::Solid.is_fixed());
    assert!(Material::Emitter.is_fixed());
}
