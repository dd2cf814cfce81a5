//! Pipeline tests: the verified state machine, coordinate model and
//! assembler driven by a double-precision formula step, the way the
//! rendering program drives them.

use kyros::assembler::assemble;
use kyros::config::{check_config, RenderConfig};
use kyros::evaluator::Evaluator;
use kyros::formula::FormulaKind;

#[derive(Clone, Copy)]
struct Cartesian {
    real: f64,
    imaginary: f64,
}

fn multiply(a: Cartesian, b: Cartesian) -> Cartesian {
    Cartesian {
        real: a.real * b.real - a.imaginary * b.imaginary,
        imaginary: a.real * b.imaginary + a.imaginary * b.real,
    }
}

fn add(a: Cartesian, b: Cartesian) -> Cartesian {
    Cartesian { real: a.real + b.real, imaginary: a.imaginary + b.imaginary }
}

fn exceeds_radius(z: Cartesian, radius: f64) -> bool {
    z.real * z.real + z.imaginary * z.imaginary > radius * radius
}

/// The standard quadratic formula `z * z + c`.
fn standard_quadratic(c: Cartesian, z: Cartesian) -> Cartesian {
    add(multiply(z, z), c)
}

fn plane_value(pixel_index: u32, axis_length: u32) -> f64 {
    4f64 * (pixel_index as f64) / (axis_length as f64 - 1f64) - 2f64
}

/// Runs the full per-pixel pipeline the way the rendering program
/// does: coordinates, mode selection, escape-time loop, assembly.
fn render(config: &RenderConfig) -> Vec<u8> {
    let kind = check_config(config).expect("configuration must be renderable");
    assert_eq!(kind, FormulaKind::SD, "these tests drive the standard quadratic formula");
    let mut counts: Vec<u64> = Vec::new();
    for i in 0..config.height {
        for j in 0..config.width {
            let z0 = Cartesian {
                real: plane_value(j, config.width),
                imaginary: plane_value(i, config.height),
            };
            let c_bits = config.initial_c(kyros::Complex {
                real_bits: z0.real.to_bits(),
                imaginary_bits: z0.imaginary.to_bits(),
            });
            let c = Cartesian {
                real: f64::from_bits(c_bits.real_bits),
                imaginary: f64::from_bits(c_bits.imaginary_bits),
            };
            let mut z = z0;
            let mut evaluator = Evaluator::new(config.max_iterations);
            while evaluator.step(exceeds_radius(z, 2.0)) {
                z = standard_quadratic(c, z);
            }
            counts.push(evaluator.iteration);
        }
    }
    assemble(&counts, config.max_iterations)
}

fn small_config() -> RenderConfig {
    RenderConfig {
        width: 4,
        height: 4,
        max_iterations: 4,
        fixed_c: None,
        formula_name: "SD".to_string(),
        output_index: 0,
    }
}

#[test]
fn end_to_end_small_grid_has_full_valid_buffer() {
    let buffer = render(&small_config());
    // 16 pixels, one RGB triple each.
    assert_eq!(buffer.len(), 48);
    assert_eq!(buffer.len() % 3, 0);
    // The corners lie at the extreme coordinates, outside the escape
    // circle from the start, so they escape at once and are white.
    let corners = [0usize, 3, 12, 15];
    for corner in corners {
        assert_eq!(&buffer[3 * corner..3 * corner + 3], &[255, 255, 255]);
    }
}

#[test]
fn rendering_twice_is_byte_identical() {
    let config = small_config();
    let first = render(&config);
    let second = render(&config);
    assert_eq!(first, second);

    let larger = RenderConfig { width: 16, height: 16, max_iterations: 64, ..config };
    let first = render(&larger);
    let second = render(&larger);
    assert_eq!(first, second);
}

#[test]
fn unknown_formula_stops_the_render_before_it_begins() {
    let config = RenderConfig { formula_name: "XYZ".to_string(), ..small_config() };
    let checked = check_config(&config);
    assert!(checked.is_err(), "rendering must not proceed without a formula");
}

#[test]
fn assemble_places_each_count_in_order() {
    let counts: Vec<u64> = vec![0, 1, 4];
    let buffer = assemble(&counts, 4);
    assert_eq!(buffer, vec![255, 255, 255, 255, 38, 0, 0, 0, 0]);
}

#[test]
fn assemble_of_empty_grid_is_empty() {
    let counts: Vec<u64> = Vec::new();
    assert_eq!(assemble(&counts, 4), Vec::<u8>::new());
}
