use captcha_puzzle::puzzle::{decimal_digits, generate, hidden_code, PuzzleItem};
use captcha_puzzle::shape::{random_shape, shape_from_index, Shape};

#[test]
fn compute_matches_closed_forms_for_all_parameters() {
    for n in 1..8 {
        assert_eq!(Shape::Line.compute(n), 1 + n * n);
        assert_eq!(Shape::Triangle.compute(n), (27 - n) / 2);
        assert_eq!(Shape::Circle.compute(n), n * n);
    }
}

#[test]
fn compute_examples() {
    assert_eq!(Shape::Line.compute(3), 10);
    assert_eq!(Shape::Triangle.compute(3), 12);
    assert_eq!(Shape::Circle.compute(3), 9);
    assert_eq!(Shape::Line.compute(1), 2);
    assert_eq!(Shape::Triangle.compute(7), 10);
    assert_eq!(Shape::Circle.compute(7), 49);
}

#[test]
fn min_radius_per_shape() {
    assert_eq!(Shape::Line.min_radius(), 200);
    assert_eq!(Shape::Triangle.min_radius(), 250);
    assert_eq!(Shape::Circle.min_radius(), 200);
}

#[test]
fn shape_index_mapping() {
    assert_eq!(shape_from_index(0), Shape::Line);
    assert_eq!(shape_from_index(1), Shape::Triangle);
    assert_eq!(shape_from_index(2), Shape::Circle);
    assert_eq!(shape_from_index(7), Shape::Circle);
}

#[test]
fn random_shape_is_one_of_the_three() {
    for _ in 0..50 {
        let s = random_shape();
        assert!(s == Shape::Line || s == Shape::Triangle || s == Shape::Circle);
    }
}

#[test]
fn decimal_digits_examples() {
    assert_eq!(decimal_digits(0), b"0".to_vec());
    assert_eq!(decimal_digits(9), b"9".to_vec());
    assert_eq!(decimal_digits(10), b"10".to_vec());
    assert_eq!(decimal_digits(49), b"49".to_vec());
    assert_eq!(decimal_digits(129), b"129".to_vec());
}

#[test]
fn hidden_code_of_fixed_puzzle() {
    let puzzle = vec![
        PuzzleItem { shape: Shape::Line, param: 3 },
        PuzzleItem { shape: Shape::Triangle, param: 3 },
        PuzzleItem { shape: Shape::Circle, param: 3 },
    ];
    assert_eq!(hidden_code(&puzzle), b"10129".to_vec());
}

#[test]
fn hidden_code_concatenates_in_puzzle_order() {
    let puzzle = vec![
        PuzzleItem { shape: Shape::Line, param: 7 },
        PuzzleItem { shape: Shape::Triangle, param: 1 },
        PuzzleItem { shape: Shape::Circle, param: 2 },
    ];
    // Line(7) = 50, Triangle(1) = 13, Circle(2) = 4.
    assert_eq!(hidden_code(&puzzle), b"50134".to_vec());
}

#[test]
fn generated_puzzle_shape_order_and_parameter_range() {
    for _ in 0..20 {
        let (puzzle, _) = generate();
        assert_eq!(puzzle.len(), 3);
        assert_eq!(puzzle[0].shape, Shape::Line);
        assert_eq!(puzzle[1].shape, Shape::Triangle);
        assert_eq!(puzzle[2].shape, Shape::Circle);
        for it in &puzzle {
            assert!((1..8).contains(&it.param));
        }
    }
}

#[test]
fn generated_code_length_is_sum_of_digit_counts() {
    for _ in 0..20 {
        let (puzzle, code) = generate();
        let mut expected_len = 0;
        for it in &puzzle {
            let value = it.shape.compute(it.param);
            expected_len += value.to_string().len();
        }
        assert_eq!(code.len(), expected_len);
    }
}

#[test]
fn generated_code_matches_recomputed_concatenation() {
    for _ in 0..20 {
        let (puzzle, code) = generate();
        let mut expected = String::new();
        for it in &puzzle {
            expected.push_str(&it.shape.compute(it.param).to_string());
        }
        assert_eq!(code, expected.into_bytes());
    }
}
