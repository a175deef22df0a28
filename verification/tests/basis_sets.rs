use qmc::basis::{gaussian, hydrogen_1s, BasisFunction, Gaussian, Hydrogen1s, Hydrogen2s, PointVgl};
use qmc::basis_set::{
    combine, orbital, BasisSet, GaussianBasis, Hydrogen1sBasis, Hydrogen2sBasis, Shape,
};
use qmc::scalar::Real;
use qmc::vector::Vector3;

#[derive(Clone, Copy, Debug, PartialEq, PartialOrd)]
struct Num(f64);

impl Real for Num {
    fn sum(self, rhs: Self) -> Self {
        Num(self.0 + rhs.0)
    }

    fn difference(self, rhs: Self) -> Self {
        Num(self.0 - rhs.0)
    }

    fn product(self, rhs: Self) -> Self {
        Num(self.0 * rhs.0)
    }

    fn quotient(self, rhs: Self) -> Self {
        Num(self.0 / rhs.0)
    }

    fn negation(self) -> Self {
        Num(-self.0)
    }

    fn square_root(self) -> Self {
        Num(self.0.sqrt())
    }

    fn exponential(self) -> Self {
        Num(exp(self.0))
    }

    fn minimum(self, rhs: Self) -> Self {
        Num(self.0.min(rhs.0))
    }

    fn exceeds(self, rhs: Self) -> bool {
        self.0 > rhs.0
    }

    fn differs_in_sign(self, rhs: Self) -> bool {
        self.0.signum() != rhs.0.signum()
    }

    fn finite(self) -> bool {
        self.0.is_finite()
    }

    fn ratio(numer: i64, denom: i64) -> Self {
        Num(numer as f64 / denom as f64)
    }

    fn count(n: usize) -> Self {
        Num(n as f64)
    }

    fn add(self, rhs: Self) -> Self {
        self.sum(rhs)
    }

    fn sub(self, rhs: Self) -> Self {
        self.difference(rhs)
    }

    fn mul(self, rhs: Self) -> Self {
        self.product(rhs)
    }

    fn div(self, rhs: Self) -> Self {
        self.quotient(rhs)
    }

    fn neg(self) -> Self {
        self.negation()
    }

    fn sqrt(self) -> Self {
        self.square_root()
    }

    fn exp(self) -> Self {
        self.exponential()
    }

    fn min(self, rhs: Self) -> Self {
        self.minimum(rhs)
    }

    fn gt(self, rhs: Self) -> bool {
        self.exceeds(rhs)
    }

    fn sign_differs(self, rhs: Self) -> bool {
        self.differs_in_sign(rhs)
    }

    fn is_finite(self) -> bool {
        self.finite()
    }

    fn from_ratio(numer: i64, denom: i64) -> Self {
        Self::ratio(numer, denom)
    }

    fn from_count(n: usize) -> Self {
        Self::count(n)
    }
}

/// The exponential computed in software: a function of its argument.
fn exp(x: f64) -> f64 {
    libm::exp(x)
}

fn nums(xs: &[f64]) -> Vec<Num> {
    xs.iter().map(|x| Num(*x)).collect()
}

fn point(x: f64, y: f64, z: f64) -> Vector3<Num> {
    Vector3::new(Num(x), Num(y), Num(z))
}

fn parts(vgl: &PointVgl<Num>) -> [f64; 5] {
    [vgl.value.0, vgl.gradient.x.0, vgl.gradient.y.0, vgl.gradient.z.0, vgl.laplacian.0]
}

#[test]
fn orbital_of_width_one_is_the_closed_form() {
    let pos = point(0.3, -0.4, 1.2);
    assert_eq!(orbital(Shape::Hydrogen1s, &pos, Num(1.0)), Hydrogen1s {}.evaluate(&pos));
    assert_eq!(orbital(Shape::Hydrogen2s, &pos, Num(1.0)), Hydrogen2s {}.evaluate(&pos));
    assert_eq!(orbital(Shape::Hydrogen1s, &pos, Num(1.0)).value, hydrogen_1s(&pos).0);
    for width in [0.5, 1.0, 3.0] {
        assert_eq!(
            orbital(Shape::Gaussian, &pos, Num(width)),
            Gaussian { width: Num(width) }.evaluate(&pos)
        );
        assert_eq!(orbital(Shape::Gaussian, &pos, Num(width)).value, gaussian(&pos, Num(width)).0);
    }
}

#[test]
fn stretched_orbital_is_the_closed_form_at_the_scaled_position() {
    let pos = point(0.6, -0.8, 2.4);
    let width = 2.0;
    let inner = Hydrogen1s {}.evaluate(&point(0.3, -0.4, 1.2));
    let outer = orbital(Shape::Hydrogen1s, &pos, Num(width));
    assert_eq!(outer.value, inner.value);
    assert_eq!(outer.gradient, inner.gradient.shrink(Num(width)));
    assert_eq!(outer.laplacian, Num(inner.laplacian.0 / (width * width)));
    assert_eq!(outer.value, Num(exp(-(1.69f64.sqrt()))));
    let inner = Hydrogen2s {}.evaluate(&point(0.3, -0.4, 1.2));
    let outer = orbital(Shape::Hydrogen2s, &pos, Num(width));
    assert_eq!(outer.value, inner.value);
    assert_eq!(outer.gradient, inner.gradient.shrink(Num(width)));
    assert_eq!(outer.laplacian, Num(inner.laplacian.0 / (width * width)));
}

#[test]
fn orbitals_of_every_shape_and_width_match_finite_differences() {
    let h = 1e-4;
    let at = [0.3, -0.4, 1.2];
    for shape in [Shape::Hydrogen1s, Shape::Hydrogen2s, Shape::Gaussian] {
        for width in [0.7, 1.0, 2.5] {
            let value = |p: [f64; 3]| orbital(shape, &point(p[0], p[1], p[2]), Num(width)).value.0;
            let vgl = orbital(shape, &point(at[0], at[1], at[2]), Num(width));
            let gradient = [vgl.gradient.x.0, vgl.gradient.y.0, vgl.gradient.z.0];
            let mut laplacian = 0.0;
            for k in 0..3 {
                let mut up = at;
                let mut down = at;
                up[k] += h;
                down[k] -= h;
                let slope = (value(up) - value(down)) / (2.0 * h);
                assert!((gradient[k] - slope).abs() < 1e-7);
                laplacian += (value(up) - 2.0 * value(at) + value(down)) / (h * h);
            }
            assert!((vgl.laplacian.0 - laplacian).abs() < 1e-6);
        }
    }
}

#[test]
fn linear_combination_sums_over_centres_and_widths() {
    let centers = vec![point(0.0, 0.0, 0.0), point(0.0, 0.0, 1.5)];
    let widths = nums(&[1.0, 2.0]);
    let coeffs = vec![nums(&[0.5, -1.0]), nums(&[2.0, 0.25])];
    let pos = point(0.3, -0.4, 1.2);
    for shape in [Shape::Gaussian, Shape::Hydrogen1s, Shape::Hydrogen2s] {
        let mut expected = [0.0; 5];
        for (center, row) in centers.iter().zip(&coeffs) {
            let rel = pos.sub(*center);
            let mut part = [0.0; 5];
            for (c, w) in row.iter().zip(&widths) {
                let term = parts(&orbital(shape, &rel, *w));
                for k in 0..5 {
                    part[k] = part[k] + c.0 * term[k];
                }
            }
            for k in 0..5 {
                expected[k] = expected[k] + part[k];
            }
        }
        let combined = combine(shape, &centers, &widths, &pos, &coeffs);
        assert_eq!(parts(&combined), expected);
        let through_the_set = match shape {
            Shape::Gaussian => {
                GaussianBasis::new(centers.clone(), widths.clone()).linear_combination(&pos, &coeffs)
            }
            Shape::Hydrogen1s => {
                Hydrogen1sBasis::new(centers.clone(), widths.clone()).linear_combination(&pos, &coeffs)
            }
            Shape::Hydrogen2s => {
                Hydrogen2sBasis::new(centers.clone(), widths.clone()).linear_combination(&pos, &coeffs)
            }
        };
        assert_eq!(through_the_set, combined);
        assert!(expected.iter().all(|x| x.is_finite() && *x != 0.0));
    }
}

#[test]
fn linear_combination_takes_as_many_terms_as_coefficients_and_widths() {
    let centers = vec![point(0.0, 0.0, 0.0)];
    let pos = point(0.3, -0.4, 1.2);
    let one_width = Hydrogen1sBasis::new(centers.clone(), nums(&[1.0]));
    let single = one_width.linear_combination(&pos, &vec![nums(&[2.0])]);
    let term = Hydrogen1s {}.evaluate(&pos);
    assert_eq!(single.value, Num(0.0 + (0.0 + 2.0 * term.value.0)));
    assert_eq!(single.laplacian, Num(0.0 + (0.0 + 2.0 * term.laplacian.0)));
    assert_eq!(one_width.linear_combination(&pos, &vec![nums(&[2.0, 5.0])]), single);
    let two_widths = Hydrogen1sBasis::new(centers.clone(), nums(&[1.0, 3.0]));
    assert_eq!(two_widths.linear_combination(&pos, &vec![nums(&[2.0])]), single);
    let nothing = PointVgl {
        value: Num(0.0),
        gradient: point(0.0, 0.0, 0.0),
        laplacian: Num(0.0),
    };
    assert_eq!(two_widths.linear_combination(&pos, &vec![vec![]]), nothing);
    let empty = GaussianBasis::<Num>::new(vec![], nums(&[1.0]));
    assert_eq!(empty.linear_combination(&pos, &vec![]), nothing);
    assert_eq!(empty.centers.len(), 0);
    assert_eq!(empty.widths, nums(&[1.0]));
}
