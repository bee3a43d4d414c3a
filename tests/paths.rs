use balanced_direction::{Balance, BalanceError, Path};

#[test]
fn cumulative_vector_of_a_path() {
    let path = Path::new(vec![Balance::Top, Balance::Right, Balance::Top]);
    assert_eq!(path.to_vector(), (1, -2));
    assert_eq!(Path::new(vec![]).to_vector(), (0, 0));
    let mut long = Path::new(vec![Balance::Right; 120]);
    for _ in 0..120 {
        long.push(Balance::Left);
    }
    long.push(Balance::BottomLeft);
    assert_eq!(long.to_vector(), (-1, 1));
}

#[test]
fn decomposing_a_vector() {
    let path = Path::from_vector(2, -1);
    assert_eq!(path, Path::new(vec![Balance::TopRight, Balance::Right]));
    assert_eq!(path.to_vector(), (2, -1));
    assert!(Path::from_vector(0, 0).is_empty());
    for (x, y) in [(0, 3), (-4, 0), (3, 3), (-5, 2), (1, -7)] {
        let path = Path::from_vector(x, y);
        assert_eq!(path.to_vector(), (x, y));
        assert_eq!(path.len(), std::cmp::max(x.abs(), y.abs()) as usize);
    }
}

#[test]
fn decomposing_the_extreme_vectors() {
    let path = Path::from_vector(-128, 127);
    assert_eq!(path.len(), 128);
    assert_eq!(path.to_vector(), (-128, 127));
    assert_eq!(path.get(0), Some(&Balance::BottomLeft));
    assert_eq!(path.get(127), Some(&Balance::Left));
}

#[test]
fn normalizing_paths() {
    let path = Path::new(vec![Balance::Top, Balance::Bottom, Balance::Right, Balance::Right]);
    let normalized = path.normalized();
    assert_eq!(normalized.to_vector(), (2, 0));
    assert_eq!(normalized, Path::new(vec![Balance::Right, Balance::Right]));
    assert_eq!(normalized.normalized(), normalized);
    let path = Path::new(vec![Balance::Top, Balance::Top, Balance::Top, Balance::Bottom]);
    assert_eq!(path.normalized().normalized(), path.normalized());
    assert_eq!(path.normalized().len(), 2);
}

#[test]
fn reversing_paths() {
    let path = Path::new(vec![Balance::Top, Balance::Right, Balance::Left]);
    let reversed = path.reversed();
    assert_eq!(reversed, Path::new(vec![Balance::Left, Balance::Right, Balance::Top]));
    assert_eq!(path.to_vector(), (0, -1));
    assert_eq!(reversed.to_vector(), (0, -1));
    assert_eq!(reversed.reversed(), path);
    let path = Path::new(vec![Balance::Top, Balance::Right]);
    assert_eq!(path.reversed().to_vector(), (1, -1));
}

#[test]
fn mapping_moves() {
    let path = Path::new(vec![Balance::Top, Balance::Right, Balance::Left]);
    let transformed = path.each(Balance::up);
    assert_eq!(transformed, Path::new(vec![Balance::Top, Balance::TopRight, Balance::TopLeft]));
    assert_eq!(transformed.to_vector(), (0, -3));

    let path = Path::new(vec![Balance::Left, Balance::TopLeft]);
    let modified = path.each_with(|a, b| a + b, Balance::Right);
    assert_eq!(modified, Path::new(vec![Balance::Center, Balance::Top]));
    assert_eq!(modified.to_vector(), (0, -1));
}

#[test]
fn zipping_paths() {
    let path1 = Path::new(vec![Balance::Top, Balance::Right]);
    let path2 = Path::new(vec![Balance::Bottom, Balance::Left]);
    let result = path1.each_zip(|a, b| a + b, &path2).unwrap();
    assert_eq!(result.to_vector(), (0, 0));
    let result = path1.each_zip(|a, b| a - b, &path2).unwrap();
    assert_eq!(result, Path::new(vec![Balance::Top, Balance::Right]));
    let result = path1.each_zip(|a, _| a.flip_v(), &path2).unwrap();
    assert_eq!(result, Path::new(vec![Balance::Bottom, Balance::Right]));
}

#[test]
fn zipping_paths_of_different_lengths_fails() {
    let path1 = Path::new(vec![Balance::Top, Balance::Right]);
    let path2 = Path::new(vec![Balance::Bottom]);
    assert_eq!(path1.each_zip(|a, b| a + b, &path2), Err(BalanceError::LengthMismatch));
    assert_eq!(path2.each_zip(|a, b| a + b, &path1), Err(BalanceError::LengthMismatch));
}

#[test]
fn editing_a_path() {
    let mut path = Path::new(vec![]);
    assert!(path.is_empty());
    assert_eq!(path.pop(), None);
    path.push(Balance::Top);
    path.push(Balance::Left);
    assert_eq!(path.len(), 2);
    assert_eq!(path.get(1), Some(&Balance::Left));
    assert_eq!(path.get(2), None);
    let collected: Vec<Balance> = path.iter().copied().collect();
    assert_eq!(collected, vec![Balance::Top, Balance::Left]);
    for m in path.iter_mut() {
        *m = m.rotate_right();
    }
    assert_eq!(path, Path::new(vec![Balance::Right, Balance::Top]));
    assert_eq!(path.pop(), Some(Balance::Top));
    assert_eq!(path.len(), 1);
    path.clear();
    assert!(path.is_empty());
}
