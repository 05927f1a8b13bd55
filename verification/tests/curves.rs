use cw_abc::abc::StdDecimal;
use cw_abc::curve::{Constant, DecimalPlaces, Linear, SquareRoot};
use cw_abc::decimal::{cube_root, decimal, square_root};

#[test]
fn constant_curve() {
    // Set up normalization for 9 decimal places input, 6 decimal places output
    let normalize = DecimalPlaces::new(9, 6);
    // Create a constant curve with a value of 1.5
    let curve = Constant::new(decimal(15u128, 1).unwrap(), normalize);

    // Test spot price (should always be 1.5 regardless of supply)
    assert_eq!(StdDecimal::percent(150), curve.spot_price(100).unwrap());
    // Test reserve calculation (30 billion input should yield 45 million output)
    assert_eq!(45_000_000u128, curve.reserve(30_000_000_000).unwrap());
    // Test supply calculation (36 million input should yield 24 billion output)
    assert_eq!(24_000_000_000u128, curve.supply(36_000_000).unwrap());
}

#[test]
fn linear_curve() {
    // Set up normalization for 2 decimal places input, 8 decimal places output
    let normalize = DecimalPlaces::new(2, 8);
    // Create a linear curve with a slope of 0.1
    let curve = Linear::new(decimal(1u128, 1).unwrap(), normalize);

    // Test spot price (100 input should yield 0.1 output)
    assert_eq!(StdDecimal::permille(100), curve.spot_price(100).unwrap());
    // Test reserve calculation (1000 input should yield 500 million output)
    assert_eq!(500_000_000u128, curve.reserve(1000).unwrap());
    // Test supply calculation (125 million input should yield 500 output)
    assert_eq!(500u128, curve.supply(125_000_000).unwrap());
}

#[test]
fn sqrt_curve() {
    // Set up normalization for 6 decimal places input, 2 decimal places output
    let normalize = DecimalPlaces::new(6, 2);
    // Create a square root curve with a multiplier of 0.35
    let curve = SquareRoot::new(decimal(35u128, 2).unwrap(), normalize);

    // Test spot price (1 million input should yield 0.35 output)
    assert_eq!(StdDecimal::percent(35), curve.spot_price(1_000_000).unwrap());
    // Test reserve calculation (1 million input should yield 23 output)
    assert_eq!(23u128, curve.reserve(1_000_000).unwrap());
    // Test supply calculation (23 input should yield 990,453 output)
    assert_eq!(990_453u128, curve.supply(23).unwrap());
}

#[test]
fn generic_curve_test() {
    // Set up normalization for 6 decimal places input and output
    let normalize = DecimalPlaces::new(6, 6);
    // Exercise each curve shape on the same round trip
    let shapes: Vec<u8> = vec![0, 1, 2];

    for shape in shapes {
        // Test with a supply of 1 million
        let supply: u128 = 1_000_000;
        // Calculate the reserve for this supply, then the supply back from it
        let (reserve, calculated_supply) = match shape {
            0 => {
                let curve = Constant::new(decimal(1u128, 0).unwrap(), normalize);
                let reserve = curve.reserve(supply).unwrap();
                (reserve, curve.supply(reserve).unwrap())
            }
            1 => {
                let curve = Linear::new(decimal(1u128, 2).unwrap(), normalize);
                let reserve = curve.reserve(supply).unwrap();
                (reserve, curve.supply(reserve).unwrap())
            }
            _ => {
                let curve = SquareRoot::new(decimal(1u128, 1).unwrap(), normalize);
                let reserve = curve.reserve(supply).unwrap();
                (reserve, curve.supply(reserve).unwrap())
            }
        };
        let _ = reserve;

        // Calculate the relative difference between the input and the round-tripped supply
        let diff = (calculated_supply as f64 - supply as f64).abs() / supply as f64;
        // Assert that the difference is within 1%
        assert!(
            diff <= 0.01,
            "Supply mismatch: input={}, calculated={}, difference={:.1}%",
            supply,
            calculated_supply,
            diff * 100.0
        );
    }
}

#[test]
fn decimal_rejects_unrepresentable_numbers() {
    // A mantissa at the 96-bit limit is refused
    assert!(decimal(1u128 << 96, 0).is_err());
    // A scale beyond 28 places is refused
    assert!(decimal(1u128, 29).is_err());
    // The largest representable mantissa and scale are accepted
    assert!(decimal((1u128 << 96) - 1, 28).is_ok());
}

#[test]
fn square_root_converges_on_perfect_squares() {
    let sixteen = decimal(16u128, 0).unwrap();
    let root = square_root(&sixteen).unwrap();
    // sqrt(16) = 4 to within the iteration's convergence threshold:
    // scaled to six decimal places the approximation floors to 4.000000
    // give or take one millionth
    let scaled = root.mantissa * 1_000_000 / 10u128.pow(root.scale);
    assert!((3_999_999..=4_000_001).contains(&scaled), "sqrt(16) ~ {scaled} / 1e6");
}

#[test]
fn cube_root_converges_on_perfect_cubes() {
    let twenty_seven = decimal(27u128, 0).unwrap();
    let root = cube_root(&twenty_seven).unwrap();
    let scaled = root.mantissa * 1_000_000 / 10u128.pow(root.scale);
    assert!((2_999_999..=3_000_001).contains(&scaled), "cbrt(27) ~ {scaled} / 1e6");
}
