use bowling::{score_game, BowlingError, Frame};

#[test]
fn all_gutterballs() {
    let game = vec![Frame::default(); 10];
    assert_eq!(score_game(10, &game), Ok(0))
}

#[test]
fn too_many_frames() {
    let game = vec![Frame::default(); 10];
    assert_eq!(score_game(2, &game), Err(BowlingError::TooManyFrames))
}

#[test]
fn too_few_frames() {
    let game = vec![Frame::default(); 2];
    assert_eq!(score_game(10, &game), Err(BowlingError::TooFewFrames))
}

// A strike stays a strike whatever its second roll holds: before the last
// frame it scores ten and the game goes on.
#[test]
fn invalid_frame1() {
    let game = vec![
        (Frame {
            roll1: 10,
            roll2: Some(1),
            ..Default::default()
        }),
        (Frame {
            ..Default::default()
        }),
    ];
    assert_eq!(score_game(2, &game), Ok(10))
}

#[test]
fn invalid_frame2() {
    let game = vec![
        (Frame {
            roll1: 6,
            roll2: Some(5),
            ..Default::default()
        }),
        (Frame {
            ..Default::default()
        }),
    ];
    assert_eq!(score_game(2, &game), Err(BowlingError::InvalidFrameScore))
}

#[test]
fn all_open_frames() {
    let game = vec![
        (Frame {
            roll1: 1,
            roll2: Some(1),
            ..Default::default()
        }),
        (Frame {
            roll1: 1,
            roll2: Some(1),
            ..Default::default()
        }),
        (Frame {
            roll1: 1,
            roll2: Some(1),
            ..Default::default()
        }),
        (Frame {
            roll1: 1,
            roll2: Some(1),
            ..Default::default()
        }),
        (Frame {
            roll1: 1,
            roll2: Some(1),
            ..Default::default()
        }),
        (Frame {
            roll1: 1,
            roll2: Some(1),
            ..Default::default()
        }),
        (Frame {
            roll1: 1,
            roll2: Some(1),
            ..Default::default()
        }),
        (Frame {
            roll1: 1,
            roll2: Some(1),
            ..Default::default()
        }),
        (Frame {
            roll1: 1,
            roll2: Some(1),
            ..Default::default()
        }),
        (Frame {
            roll1: 1,
            roll2: Some(1),
            ..Default::default()
        }),
    ];
    assert_eq!(score_game(10, &game), Ok(20))
}

#[test]
fn spare_test1() {
    let game = vec![
        (Frame {
            roll1: 5,
            roll2: Some(5),
            ..Default::default()
        }),
        (Frame {
            roll1: 5,
            roll2: None,
            ..Default::default()
        }),
        (Frame {
            ..Default::default()
        }),
        (Frame {
            ..Default::default()
        }),
        (Frame {
            ..Default::default()
        }),
        (Frame {
            ..Default::default()
        }),
        (Frame {
            ..Default::default()
        }),
        (Frame {
            ..Default::default()
        }),
        (Frame {
            ..Default::default()
        }),
        (Frame {
            ..Default::default()
        }),
    ];
    assert_eq!(score_game(10, &game), Ok(20))
}

#[test]
fn spare_test2() {
    let game = vec![
        (Frame {
            roll1: 5,
            roll2: Some(5),
            ..Default::default()
        }),
        (Frame {
            ..Default::default()
        }),
        (Frame {
            ..Default::default()
        }),
        (Frame {
            ..Default::default()
        }),
        (Frame {
            ..Default::default()
        }),
        (Frame {
            ..Default::default()
        }),
        (Frame {
            ..Default::default()
        }),
        (Frame {
            ..Default::default()
        }),
        (Frame {
            ..Default::default()
        }),
        (Frame {
            ..Default::default()
        }),
    ];
    assert_eq!(score_game(10, &game), Ok(10))
}

#[test]
fn strike_test1() {
    let game = vec![
        (Frame {
            roll1: 10,
            roll2: None,
            ..Default::default()
        }),
        (Frame {
            roll1: 10,
            roll2: None,
            ..Default::default()
        }),
        (Frame {
            roll1: 5,
            roll2: Some(0),
            ..Default::default()
        }),
        (Frame {
            ..Default::default()
        }),
        (Frame {
            ..Default::default()
        }),
        (Frame {
            ..Default::default()
        }),
        (Frame {
            ..Default::default()
        }),
        (Frame {
            ..Default::default()
        }),
        (Frame {
            ..Default::default()
        }),
        (Frame {
            ..Default::default()
        }),
    ];
    assert_eq!(score_game(10, &game), Ok(25 + 15 + 5))
}

#[test]
fn strike_test2() {
    let game = vec![
        (Frame {
            roll1: 10,
            roll2: None,
            ..Default::default()
        }),
        (Frame {
            ..Default::default()
        }),
        (Frame {
            ..Default::default()
        }),
        (Frame {
            ..Default::default()
        }),
        (Frame {
            ..Default::default()
        }),
        (Frame {
            ..Default::default()
        }),
        (Frame {
            ..Default::default()
        }),
        (Frame {
            ..Default::default()
        }),
        (Frame {
            ..Default::default()
        }),
        (Frame {
            ..Default::default()
        }),
    ];
    assert_eq!(score_game(10, &game), Ok(10))
}

#[test]
fn perfect_game() {
    let game = vec![
        (Frame {
            roll1: 10,
            roll2: None,
            ..Default::default()
        }),
        (Frame {
            roll1: 10,
            roll2: None,
            ..Default::default()
        }),
        (Frame {
            roll1: 10,
            roll2: None,
            ..Default::default()
        }),
        (Frame {
            roll1: 10,
            roll2: None,
            ..Default::default()
        }),
        (Frame {
            roll1: 10,
            roll2: None,
            ..Default::default()
        }),
        (Frame {
            roll1: 10,
            roll2: None,
            ..Default::default()
        }),
        (Frame {
            roll1: 10,
            roll2: None,
            ..Default::default()
        }),
        (Frame {
            roll1: 10,
            roll2: None,
            ..Default::default()
        }),
        (Frame {
            roll1: 10,
            roll2: None,
            ..Default::default()
        }),
        (Frame {
            roll1: 10,
            roll2: Some(10),
            fill_ball: Some(10),
        }),
    ];
    assert_eq!(score_game(10, &game), Ok(300))
}

#[test]
fn perfect_game_5_frame() {
    let game = vec![
        (Frame {
            roll1: 10,
            roll2: None,
            ..Default::default()
        }),
        (Frame {
            roll1: 10,
            roll2: None,
            ..Default::default()
        }),
        (Frame {
            roll1: 10,
            roll2: None,
            ..Default::default()
        }),
        (Frame {
            roll1: 10,
            roll2: None,
            ..Default::default()
        }),
        (Frame {
            roll1: 10,
            roll2: Some(10),
            fill_ball: Some(10),
        }),
    ];
    assert_eq!(score_game(5, &game), Ok(150))
}

#[test]
fn example_game1() {
    let game = vec![
        (Frame {
            roll1: 10,
            roll2: None,
            ..Default::default()
        }),
        (Frame {
            roll1: 7,
            roll2: Some(3),
            ..Default::default()
        }),
        (Frame {
            roll1: 7,
            roll2: Some(2),
            ..Default::default()
        }),
        (Frame {
            roll1: 9,
            roll2: Some(1),
            ..Default::default()
        }),
        (Frame {
            roll1: 10,
            roll2: None,
            ..Default::default()
        }),
        (Frame {
            roll1: 10,
            roll2: None,
            ..Default::default()
        }),
        (Frame {
            roll1: 10,
            roll2: None,
            ..Default::default()
        }),
        (Frame {
            roll1: 2,
            roll2: Some(3),
            ..Default::default()
        }),
        (Frame {
            roll1: 6,
            roll2: Some(4),
            ..Default::default()
        }),
        (Frame {
            roll1: 7,
            roll2: Some(3),
            fill_ball: Some(3),
        }),
    ];
    assert_eq!(score_game(10, &game), Ok(168))
}

#[test]
fn example_game2() {
    let game = vec![
        (Frame {
            roll1: 10,
            roll2: None,
            ..Default::default()
        }),
        (Frame {
            roll1: 7,
            roll2: Some(3),
            ..Default::default()
        }),
        (Frame {
            roll1: 9,
            roll2: Some(0),
            ..Default::default()
        }),
        (Frame {
            roll1: 10,
            roll2: None,
            ..Default::default()
        }),
        (Frame {
            roll1: 0,
            roll2: Some(8),
            ..Default::default()
        }),
        (Frame {
            roll1: 8,
            roll2: Some(2),
            ..Default::default()
        }),
        (Frame {
            roll1: 0,
            roll2: Some(6),
            ..Default::default()
        }),
        (Frame {
            roll1: 10,
            roll2: None,
            ..Default::default()
        }),
        (Frame {
            roll1: 10,
            roll2: None,
            ..Default::default()
        }),
        (Frame {
            roll1: 10,
            roll2: Some(8),
            fill_ball: Some(1),
        }),
    ];
    assert_eq!(score_game(10, &game), Ok(167))
}
