use balanced_direction::{Balance, BalanceError};
use balanced_ternary::Digit;

const ALL: [Balance; 9] = [
    Balance::TopLeft,
    Balance::Top,
    Balance::TopRight,
    Balance::Left,
    Balance::Center,
    Balance::Right,
    Balance::BottomLeft,
    Balance::Bottom,
    Balance::BottomRight,
];

#[test]
fn coordinates_of_each_position() {
    let expected = [
        (-1, -1),
        (0, -1),
        (1, -1),
        (-1, 0),
        (0, 0),
        (1, 0),
        (-1, 1),
        (0, 1),
        (1, 1),
    ];
    for (p, v) in ALL.iter().zip(expected.iter()) {
        assert_eq!(p.to_vector(), *v);
        assert_eq!(p.x(), v.0);
        assert_eq!(p.y(), v.1);
    }
}

#[test]
fn conversions_round_trip_on_every_position() {
    for p in ALL {
        let (x, y) = p.to_vector();
        assert_eq!(Balance::from_vector(x, y), Ok(p));
        assert_eq!(Balance::from_value(p.to_value()), Ok(p));
        if p != Balance::Center {
            let angle = p.to_angle().unwrap();
            assert_eq!(Balance::from_angle(angle as i64), Ok(p));
        }
    }
}

#[test]
fn ranks_follow_the_rows() {
    let ranks: Vec<i8> = ALL.iter().map(|p| p.to_value()).collect();
    assert_eq!(ranks, vec![-4, -3, -2, -1, 0, 1, 2, 3, 4]);
    assert_eq!(Balance::from_value(-2), Ok(Balance::TopRight));
}

#[test]
fn out_of_range_inputs_are_refused() {
    assert_eq!(Balance::from_vector(2, 0), Err(BalanceError::InvalidCoordinate));
    assert_eq!(Balance::from_vector(0, -2), Err(BalanceError::InvalidCoordinate));
    assert_eq!(Balance::from_value(5), Err(BalanceError::InvalidRank));
    assert_eq!(Balance::from_value(-5), Err(BalanceError::InvalidRank));
    assert_eq!(Balance::Center.to_angle(), Err(BalanceError::UndefinedAngle));
    assert_eq!(Balance::from_angle(46), Err(BalanceError::InvalidAngle));
    assert_eq!(Balance::from_angle(1), Err(BalanceError::InvalidAngle));
}

#[test]
fn angles_of_each_direction() {
    assert_eq!(Balance::Right.to_angle(), Ok(0));
    assert_eq!(Balance::TopRight.to_angle(), Ok(45));
    assert_eq!(Balance::Top.to_angle(), Ok(90));
    assert_eq!(Balance::TopLeft.to_angle(), Ok(135));
    assert_eq!(Balance::Left.to_angle(), Ok(180));
    assert_eq!(Balance::BottomLeft.to_angle(), Ok(-135));
    assert_eq!(Balance::Bottom.to_angle(), Ok(-90));
    assert_eq!(Balance::BottomRight.to_angle(), Ok(-45));
}

#[test]
fn angles_are_normalized_before_matching() {
    assert_eq!(Balance::from_angle(45), Ok(Balance::TopRight));
    assert_eq!(Balance::from_angle(-135), Ok(Balance::BottomLeft));
    assert_eq!(Balance::from_angle(270), Ok(Balance::Bottom));
    assert_eq!(Balance::from_angle(-270), Ok(Balance::Top));
    assert_eq!(Balance::from_angle(-180), Ok(Balance::Left));
    assert_eq!(Balance::from_angle(360), Ok(Balance::Right));
    assert_eq!(Balance::from_angle(405), Ok(Balance::TopRight));
    assert_eq!(Balance::from_angle(-45 - 720), Ok(Balance::BottomRight));
}

#[test]
fn scalar_and_symbol() {
    assert_eq!(Balance::TopLeft.to_scalar(), 2);
    assert_eq!(Balance::Top.to_scalar(), 1);
    assert_eq!(Balance::Center.to_scalar(), 0);
    assert_eq!(Balance::Top.to_symbol(), "\u{2b06}\u{fe0f}");
    assert_eq!(Balance::Center.to_symbol(), "\u{23fa}\u{fe0f}");
    assert_eq!(Balance::BottomLeft.to_symbol(), "\u{2199}\u{fe0f}");
}

#[test]
fn spatial_predicates() {
    assert!(Balance::TopLeft.has_top() && Balance::TopLeft.has_left());
    assert!(!Balance::TopLeft.has_bottom() && !Balance::TopLeft.has_right());
    assert!(Balance::BottomRight.has_bottom() && Balance::BottomRight.has_right());
    let edges: Vec<Balance> = ALL.iter().copied().filter(|p| p.is_edge()).collect();
    assert_eq!(edges, vec![Balance::Top, Balance::Left, Balance::Right, Balance::Bottom]);
    let corners = ALL.iter().filter(|p| p.is_corner()).count();
    assert_eq!(corners, 4);
    assert!(Balance::Center.is_orthogonal() && Balance::Center.is_diagonal());
    assert!(!Balance::Center.is_edge() && !Balance::Center.is_corner());
    assert!(Balance::Top.is_orthogonal() && !Balance::Top.is_diagonal());
    assert!(Balance::TopRight.is_diagonal() && !Balance::TopRight.is_orthogonal());
}

#[test]
fn clamped_moves_stop_at_the_boundary() {
    assert_eq!(Balance::Center.up(), Balance::Top);
    assert_eq!(Balance::Center.down(), Balance::Bottom);
    assert_eq!(Balance::Center.left(), Balance::Left);
    assert_eq!(Balance::Center.right(), Balance::Right);
    assert_eq!(Balance::Top.up(), Balance::Top);
    assert_eq!(Balance::BottomLeft.up().up().up().up(), Balance::TopLeft);
    assert_eq!(Balance::TopLeft.right().right().right().right(), Balance::TopRight);
    for p in ALL {
        let q = p.down().down().down().down();
        assert_eq!(q.y(), 1);
        assert_eq!(q.x(), p.x());
        assert_eq!(q.down(), q);
        let q = p.left().left().left().left();
        assert_eq!(q.left(), q);
        assert_eq!(q.x(), -1);
    }
}

#[test]
fn wrapping_moves_cycle() {
    assert_eq!(Balance::Top.up_wrap(), Balance::Bottom);
    assert_eq!(Balance::Bottom.down_wrap(), Balance::Top);
    assert_eq!(Balance::Left.left_wrap(), Balance::Right);
    assert_eq!(Balance::TopRight.right_wrap(), Balance::TopLeft);
    assert_eq!(Balance::Center.up_wrap(), Balance::Top);
    for p in ALL {
        assert_eq!(p.up_wrap().down_wrap(), p);
        assert_eq!(p.down_wrap().up_wrap(), p);
        assert_eq!(p.left_wrap().right_wrap(), p);
        assert_eq!(p.right_wrap().left_wrap(), p);
    }
}

#[test]
fn flips_rotations_and_projections() {
    assert_eq!(Balance::Left.flip_h(), Balance::Right);
    assert_eq!(Balance::Top.flip_h(), Balance::Top);
    assert_eq!(Balance::Top.flip_v(), Balance::Bottom);
    assert_eq!(Balance::Center.flip_v(), Balance::Center);
    assert_eq!(Balance::Right.rotate_left(), Balance::Top);
    assert_eq!(Balance::Top.rotate_left(), Balance::Left);
    assert_eq!(Balance::Top.rotate_right(), Balance::Right);
    assert_eq!(Balance::Right.rotate_right(), Balance::Bottom);
    assert_eq!(Balance::TopRight.rotate_left(), Balance::TopLeft);
    assert_eq!(Balance::BottomLeft.center_h(), Balance::Bottom);
    assert_eq!(Balance::TopRight.center_v(), Balance::Right);
    for p in ALL {
        assert_eq!(p.rotate_left().rotate_left().rotate_left().rotate_left(), p);
        assert_eq!(p.rotate_right().rotate_right().rotate_right().rotate_right(), p);
        assert_eq!(p.rotate_left().rotate_right(), p);
        assert_eq!(p.rotate_right().rotate_left(), p);
    }
}

#[test]
fn arithmetic_operators() {
    assert_eq!(Balance::Right + Balance::Right, Balance::Right);
    assert_eq!(Balance::TopLeft + Balance::BottomRight, Balance::Center);
    assert_eq!(Balance::Top + Balance::Right, Balance::TopRight);
    assert_eq!(Balance::TopLeft - Balance::BottomRight, Balance::TopLeft);
    assert_eq!(Balance::Right - Balance::Left, Balance::Right);
    assert_eq!(Balance::Top - Balance::Top, Balance::Center);
    assert_eq!(Balance::TopLeft * Balance::BottomRight, Balance::TopLeft);
    assert_eq!(Balance::TopLeft * Balance::Right, Balance::Left);
    assert_eq!(-Balance::TopRight, Balance::BottomLeft);
    assert_eq!(!Balance::TopRight, Balance::BottomLeft);
    assert_eq!(!Balance::Top, Balance::Left);
    for p in ALL {
        for q in ALL {
            let (x, y) = (p + q).to_vector();
            assert!((-1..=1).contains(&x) && (-1..=1).contains(&y));
        }
    }
}

#[test]
fn certainty_and_truth() {
    let certain: Vec<Balance> = ALL.iter().copied().filter(|p| p.is_certain()).collect();
    assert_eq!(certain, vec![Balance::TopLeft, Balance::BottomRight]);
    for p in ALL {
        assert!(!(p.is_true() && p.is_false()));
        assert_eq!(p.is_uncertain(), !p.is_certain());
        if p.is_true() || p.is_false() {
            assert!(p.is_certain());
        }
    }
    assert_eq!(Balance::BottomRight.to_bool(), Ok(true));
    assert_eq!(Balance::TopLeft.to_bool(), Ok(false));
    assert_eq!(Balance::Center.to_bool(), Err(BalanceError::UncertainValue));
    assert_eq!(Balance::TopRight.to_bool(), Err(BalanceError::UncertainValue));
    assert_eq!(Balance::Right.x_to_bool(), Ok(true));
    assert_eq!(Balance::Left.x_to_bool(), Ok(false));
    assert_eq!(Balance::Top.x_to_bool(), Err(BalanceError::UncertainValue));
    assert_eq!(Balance::Top.y_to_bool(), Ok(false));
    assert_eq!(Balance::Bottom.y_to_bool(), Ok(true));
    assert_eq!(Balance::Left.y_to_bool(), Err(BalanceError::UncertainValue));
}

#[test]
fn truth_digit_predicates() {
    assert!(Balance::TopRight.is_contradictory() && Balance::BottomLeft.is_contradictory());
    assert!(!Balance::TopLeft.is_contradictory() && !Balance::Right.is_contradictory());
    assert!(Balance::Right.has_true() && Balance::BottomLeft.has_true());
    assert!(!Balance::TopLeft.has_true() && !Balance::Center.has_true());
    assert!(Balance::Top.has_false() && Balance::BottomLeft.has_false());
    assert!(!Balance::BottomRight.has_false());
    assert!(Balance::Center.has_unknown() && Balance::Bottom.has_unknown());
    assert!(!Balance::TopRight.has_unknown());
}

#[test]
fn ternary_pairs() {
    assert_eq!(Balance::Right.to_ternary_pair(), (Digit::Pos, Digit::Zero));
    assert_eq!(Balance::BottomLeft.to_ternary_pair(), (Digit::Neg, Digit::Pos));
    assert_eq!(Balance::from_ternary_pair(Digit::Pos, Digit::Zero), Balance::Right);
    for p in ALL {
        let (a, b) = p.to_ternary_pair();
        assert_eq!(Balance::from_ternary_pair(a, b), p);
    }
}

#[test]
fn bitwise_logic_operators() {
    assert_eq!(Balance::Top & Balance::Left, Balance::TopLeft);
    assert_eq!(Balance::Top | Balance::Left, Balance::Center);
    assert_eq!(Balance::Top ^ Balance::Left, Balance::Center);
    assert_eq!(Balance::Right ^ Balance::Right, Balance::Left);
    assert_eq!(Balance::BottomRight & Balance::TopRight, Balance::TopRight);
    assert_eq!(Balance::TopLeft | Balance::BottomRight, Balance::BottomRight);
}

#[test]
fn binary_logic_transforms() {
    assert_eq!(Balance::TopLeft.k3_imply(Balance::TopLeft), Balance::BottomRight);
    assert_eq!(Balance::Center.k3_imply(Balance::BottomLeft), Balance::Bottom);
    assert_eq!(Balance::TopLeft.k3_equiv(Balance::TopLeft), Balance::BottomRight);
    assert_eq!(Balance::Center.k3_equiv(Balance::TopRight), Balance::Center);
    assert_eq!(Balance::TopLeft.ht_imply(Balance::TopLeft), Balance::BottomRight);
    assert_eq!(Balance::Center.ht_imply(Balance::Top), Balance::TopRight);
}

#[test]
fn per_digit_combinators() {
    let transformed = Balance::Center.apply(Digit::not_negative, Digit::not_positive);
    assert_eq!(transformed, Balance::TopRight);
    let result = Balance::TopRight.apply_with(
        |x1, x2| x1.k3_equiv(x2),
        |y1, y2| y1.k3_imply(y2),
        Balance::BottomLeft,
    );
    assert_eq!(result, Balance::BottomLeft);
    assert_eq!(Balance::Center.apply_both(Digit::possibly), Balance::BottomRight);
    assert_eq!(Balance::Top.apply_both(Digit::post), Balance::Right);
}
