use ray_tracer::color::Color;
use ray_tracer::scalar::Scalar;

fn s(x: f64) -> Scalar {
    Scalar::from_bits(x.to_bits())
}

fn f(x: Scalar) -> f64 {
    f64::from_bits(x.to_bits())
}

#[test]
fn colors_are_red_green_blue_tuples() {
    let c = Color::new(s(-0.5), s(0.4), s(1.7));
    assert_eq!(f(c.red), -0.5);
    assert_eq!(f(c.green), 0.4);
    assert_eq!(f(c.blue), 1.7);
}

#[test]
fn black_and_white() {
    let black = Color::black();
    assert_eq!(f(black.red), 0.0);
    assert_eq!(f(black.green), 0.0);
    assert_eq!(f(black.blue), 0.0);
    let white = Color::white();
    assert_eq!(f(white.red), 1.0);
    assert_eq!(f(white.green), 1.0);
    assert_eq!(f(white.blue), 1.0);
}
