use tracer::canvas::{line_wrap, Canvas};
use tracer::color::Color;
use tracer::scalar::Scalar;

fn fx(v: f64) -> Scalar {
    Scalar::from_raw((v * 1e9).round() as i64)
}

fn color(r: f64, g: f64, b: f64) -> Color {
    Color::new(fx(r), fx(g), fx(b))
}

#[test]
fn create_canvas() {
    let c = Canvas::new(10, 20);
    assert_eq!(c.width, 10);
    assert_eq!(c.height, 20);
    c.pixels.iter().for_each(|p| assert!(p.approx_eq(&color(0., 0., 0.))));
}

#[test]
fn write_to_canvas() {
    let mut c = Canvas::new(10, 20);
    let red = color(1., 0., 0.);
    c = c.write_pixel(2, 3, red);
    assert!(c.read_pixel(2, 3).expect("failed to read pixel").approx_eq(&red));
}

#[test]
fn create_ppm_header() {
    let c1 = color(1.5, 0.0, 0.0);
    let c2 = color(0.0, 0.5, 0.0);
    let c3 = color(-0.5, 0.0, 1.0);
    let c = Canvas::new(5, 3).write_pixel(0, 0, c1).write_pixel(2, 1, c2).write_pixel(4, 2, c3);
    let ppm = c.to_ppm();
    let ppm_lines: Vec<&str> = ppm.split('\n').collect();
    assert_eq!(ppm_lines[0], "P3");
    assert_eq!(ppm_lines[1], "5 3");
    assert_eq!(ppm_lines[2], "255");
    assert_eq!(ppm_lines[3], "255 0 0 0 0 0 0 0 0 0 0 0 0 0 0");
    assert_eq!(ppm_lines[4], "0 0 0 0 0 0 0 128 0 0 0 0 0 0 0");
    assert_eq!(ppm_lines[5], "0 0 0 0 0 0 0 0 0 0 0 0 0 0 255");
}

#[test]
fn split_long_lines() {
    let s = String::from(
        "001 002 003 004 005 006 007 008 009 010 011 012 013 014 015 016 017 018 019 020",
    );
    assert_eq!(
        line_wrap(s),
        "001 002 003 004 005 006 007 008 009 010 011 012 013 014 015 016 017\n018 019 020"
    );
}

#[test]
fn split_ppm_long_lines() {
    let c1 = color(1.0, 0.8, 0.6);
    let c = (0..10).fold(Canvas::new(10, 2), |c, x| (0..2).fold(c, |c, y| c.write_pixel(x, y, c1)));
    let ppm = c.to_ppm();
    let ppm_lines: Vec<&str> = ppm.split('\n').collect();
    assert_eq!(ppm_lines[3], "255 204 153 255 204 153 255 204 153 255 204 153 255 204 153 255 204");
    assert_eq!(ppm_lines[4], "153 255 204 153 255 204 153 255 204 153 255 204 153");
    assert_eq!(ppm_lines[5], "255 204 153 255 204 153 255 204 153 255 204 153 255 204 153 255 204");
    assert_eq!(ppm_lines[6], "153 255 204 153 255 204 153 255 204 153 255 204 153");
}

#[test]
fn ppm_ends_with_newline() {
    let c = Canvas::new(3, 3);
    let ppm = c.to_ppm();
    assert_eq!(ppm.chars().last().unwrap(), '\n');
}
