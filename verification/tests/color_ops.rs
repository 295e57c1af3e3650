use tracer::color::Color;
use tracer::scalar::Scalar;

fn fx(v: f64) -> Scalar {
    Scalar::from_raw((v * 1e9).round() as i64)
}

fn color(r: f64, g: f64, b: f64) -> Color {
    Color::new(fx(r), fx(g), fx(b))
}

#[test]
fn add_color() {
    let c1 = color(0.9, 0.6, 0.75);
    let c2 = color(0.7, 0.1, 0.25);
    assert!(c1.add(c2).approx_eq(&color(1.6, 0.7, 1.0)));
}

#[test]
fn sub_color() {
    let c1 = color(0.9, 0.6, 0.75);
    let c2 = color(0.7, 0.1, 0.25);
    assert!(c1.sub(c2).approx_eq(&color(0.2, 0.5, 0.5)));
}

#[test]
fn mul_color_by_scalar() {
    let c = color(0.2, 0.3, 0.4);
    assert!(c.scale(fx(2.)).approx_eq(&color(0.4, 0.6, 0.8)));
}

#[test]
fn mul_color_by_color() {
    let c1 = color(1.0, 0.2, 0.4);
    let c2 = color(0.9, 1.0, 0.1);
    assert!(c1.mul(c2).approx_eq(&color(0.9, 0.2, 0.04)));
}
