use ultimate_tictactoe::board::{self, Ownership, Player, Token};
use ultimate_tictactoe::coord::{Global, Local};

const O: Token = Token::Circle;
const X: Token = Token::Cross;
const E: Token = Token::Clear;

fn fill(sub: &mut board::Local, tokens: &[Token; 9]) {
    for (i, t) in tokens.iter().enumerate() {
        sub.place_token(Local::new((i % 3) as u8, (i / 3) as u8), *t);
    }
}

#[test]
fn new_sub_board_is_empty_and_undecided() {
    let sub = board::Local::new();
    for l in Local::iter() {
        assert_eq!(sub.get(l), Token::Clear);
    }
    assert_eq!(sub.total, Ownership::Undecided);
}

#[test]
fn top_row_of_circles_wins_sub_board() {
    let mut sub = board::Local::new();
    sub.place_token(Local::new(0, 0), Token::Circle);
    assert_eq!(sub.total, Ownership::Undecided);
    sub.place_token(Local::new(1, 0), Token::Circle);
    assert_eq!(sub.total, Ownership::Undecided);
    sub.place_token(Local::new(2, 0), Token::Circle);
    assert_eq!(sub.total, Ownership::Circle);
    assert_eq!(sub.get(Local::new(1, 0)), Token::Circle);
}

#[test]
fn column_of_crosses_wins_sub_board() {
    let mut sub = board::Local::new();
    sub.place_token(Local::new(2, 0), Token::Cross);
    sub.place_token(Local::new(0, 0), Token::Circle);
    sub.place_token(Local::new(2, 2), Token::Cross);
    assert_eq!(sub.total, Ownership::Undecided);
    sub.place_token(Local::new(2, 1), Token::Cross);
    assert_eq!(sub.total, Ownership::Cross);
}

#[test]
fn falling_diagonal_wins_sub_board() {
    let mut sub = board::Local::new();
    sub.place_token(Local::new(0, 0), Token::Circle);
    sub.place_token(Local::new(1, 1), Token::Circle);
    sub.place_token(Local::new(2, 2), Token::Circle);
    assert_eq!(sub.total, Ownership::Circle);
}

#[test]
fn rising_diagonal_wins_sub_board() {
    let mut sub = board::Local::new();
    sub.place_token(Local::new(2, 0), Token::Cross);
    sub.place_token(Local::new(1, 1), Token::Cross);
    assert_eq!(sub.total, Ownership::Undecided);
    sub.place_token(Local::new(0, 2), Token::Cross);
    assert_eq!(sub.total, Ownership::Cross);
}

#[test]
fn cells_two_four_five_are_no_line() {
    let mut sub = board::Local::new();
    sub.place_token(Local::new(2, 0), Token::Cross);
    sub.place_token(Local::new(1, 1), Token::Cross);
    sub.place_token(Local::new(2, 1), Token::Cross);
    assert_eq!(sub.total, Ownership::Undecided);
}

#[test]
fn full_sub_board_without_line_is_draw() {
    let mut sub = board::Local::new();
    fill(&mut sub, &[X, O, X, X, O, O, O, X, X]);
    assert_eq!(sub.total, Ownership::Draw);
}

#[test]
fn eight_cells_without_line_are_undecided() {
    let mut sub = board::Local::new();
    fill(&mut sub, &[X, O, X, X, O, O, O, X, E]);
    assert_eq!(sub.total, Ownership::Undecided);
}

#[test]
fn line_completed_on_last_cell_beats_draw() {
    let mut sub = board::Local::new();
    fill(&mut sub, &[X, O, X, O, X, O, O, X, X]);
    assert_eq!(sub.total, Ownership::Cross);
}

#[test]
fn random_sub_board_is_filled_and_evaluated() {
    for _ in 0..50 {
        let sub = board::Local::random();
        let mut copy = board::Local::new();
        for l in Local::iter() {
            assert_ne!(sub.get(l), Token::Clear);
            copy.set(l, sub.get(l));
        }
        assert_ne!(sub.total, Ownership::Undecided);
        let last = Local::new(2, 2);
        copy.place_token(last, sub.get(last));
        assert_eq!(sub.total, copy.total);
    }
}

#[test]
fn sub_board_from_draws_maps_true_to_cross() {
    let draws = [true, true, true, false, false, true, false, true, false];
    let sub = board::Local::from_draws(draws);
    for (i, b) in draws.iter().enumerate() {
        let expected = if *b { X } else { O };
        assert_eq!(sub.get(Local::new((i % 3) as u8, (i / 3) as u8)), expected);
    }
    assert_eq!(sub.total, Ownership::Cross);
}

#[test]
fn sub_board_from_draws_without_line_is_draw() {
    let sub = board::Local::from_draws([true, false, true, true, false, false, false, true, true]);
    assert_eq!(sub.total, Ownership::Draw);
    let circles = board::Local::from_draws([false, true, true, true, false, true, true, true, false]);
    assert_eq!(circles.total, Ownership::Circle);
}

#[test]
fn random_board_is_filled_and_consistent() {
    let b = board::Global::random();
    for r in Local::iter() {
        assert_ne!(b.region(r).total, Ownership::Undecided);
        for c in Local::iter() {
            assert_ne!(b.at(Global::new(r, c)), Token::Clear);
        }
    }
    assert_ne!(b.total(), Ownership::Undecided);
}

#[test]
fn board_from_draws_evaluates_every_grid() {
    let cross_row = [true, true, true, false, false, true, false, true, false];
    let drawn = [true, false, true, true, false, false, false, true, true];
    let mut draws = [drawn; 9];
    draws[3] = cross_row;
    draws[4] = cross_row;
    draws[5] = cross_row;
    let b = board::Global::from_draws(draws);
    for r in 0..9usize {
        let region = Local::new((r % 3) as u8, (r / 3) as u8);
        for c in 0..9usize {
            let cell = Local::new((c % 3) as u8, (c / 3) as u8);
            let expected = if draws[r][c] { X } else { O };
            assert_eq!(b.at(Global::new(region, cell)), expected);
        }
        let owner = if (3..6).contains(&r) { Ownership::Cross } else { Ownership::Draw };
        assert_eq!(b.region(region).total, owner);
    }
    assert_eq!(b.total(), Ownership::Cross);
}

#[test]
fn set_writes_one_cell_and_keeps_ownerships() {
    let mut sub = board::Local::new();
    for x in 0..3u8 {
        sub.set(Local::new(x, 0), Token::Circle);
    }
    assert_eq!(sub.get(Local::new(1, 0)), Token::Circle);
    assert_eq!(sub.total, Ownership::Undecided);

    let mut b = board::Global::new();
    let pos = Global::new(Local::new(0, 1), Local::new(2, 2));
    b.set(pos, Token::Cross);
    assert_eq!(b.at(pos), Token::Cross);
    assert_eq!(b.region(Local::new(0, 1)).total, Ownership::Undecided);
    assert_eq!(b.total(), Ownership::Undecided);
    let mut written = 0;
    for r in Local::iter() {
        for c in Local::iter() {
            if b.at(Global::new(r, c)) != Token::Clear {
                written += 1;
            }
        }
    }
    assert_eq!(written, 1);
}

#[test]
fn new_board_is_empty_and_undecided() {
    let b = board::Global::new();
    for r in Local::iter() {
        assert_eq!(b.region(r).total, Ownership::Undecided);
        for c in Local::iter() {
            assert_eq!(b.at(Global::new(r, c)), Token::Clear);
        }
    }
    assert_eq!(b.total(), Ownership::Undecided);
}

#[test]
fn board_place_token_writes_one_cell() {
    let mut b = board::Global::new();
    let pos = Global::new(Local::new(2, 1), Local::new(0, 2));
    b.place_token(pos, Token::Circle);
    assert_eq!(b.at(pos), Token::Circle);
    assert_eq!(b.region(Local::new(2, 1)).get(Local::new(0, 2)), Token::Circle);
    let mut written = 0;
    for r in Local::iter() {
        for c in Local::iter() {
            if b.at(Global::new(r, c)) != Token::Clear {
                written += 1;
            }
        }
    }
    assert_eq!(written, 1);
    assert_eq!(b.total(), Ownership::Undecided);
}

fn win_region_for(b: &mut board::Global, region: Local, token: Token) {
    for x in 0..3u8 {
        b.place_token(Global::new(region, Local::new(x, 1)), token);
    }
}

#[test]
fn row_of_cross_regions_wins_board() {
    let mut b = board::Global::new();
    win_region_for(&mut b, Local::new(0, 2), Token::Cross);
    win_region_for(&mut b, Local::new(1, 2), Token::Cross);
    assert_eq!(b.region(Local::new(0, 2)).total, Ownership::Cross);
    assert_eq!(b.total(), Ownership::Undecided);
    win_region_for(&mut b, Local::new(2, 2), Token::Cross);
    assert_eq!(b.region(Local::new(2, 2)).total, Ownership::Cross);
    assert_eq!(b.total(), Ownership::Cross);
}

#[test]
fn drawn_regions_do_not_make_a_line() {
    let mut b = board::Global::new();
    let pattern = [X, O, X, X, O, O, O, X, X];
    for r in 0..3u8 {
        let region = Local::new(r, 0);
        for (i, t) in pattern.iter().enumerate() {
            b.place_token(Global::new(region, Local::new((i % 3) as u8, (i / 3) as u8)), *t);
        }
        assert_eq!(b.region(region).total, Ownership::Draw);
    }
    assert_eq!(b.total(), Ownership::Undecided);
}

#[test]
fn player_other_alternates() {
    assert_eq!(Player::Circle.other(), Player::Cross);
    assert_eq!(Player::Cross.other(), Player::Circle);
}

#[test]
fn conversions_between_tokens_players_and_ownerships() {
    assert_eq!(Token::from(Player::Circle), Token::Circle);
    assert_eq!(Token::from(Player::Cross), Token::Cross);
    assert_eq!(Token::from(Ownership::Undecided), Token::Clear);
    assert_eq!(Token::from(Ownership::Circle), Token::Circle);
    assert_eq!(Token::from(Ownership::Cross), Token::Cross);
    assert_eq!(Token::from(Ownership::Draw), Token::Clear);
    assert_eq!(Ownership::from(Token::Clear), Ownership::Undecided);
    assert_eq!(Ownership::from(Token::Circle), Ownership::Circle);
    assert_eq!(Ownership::from(Token::Cross), Ownership::Cross);
}

#[test]
fn symbols_of_tokens_and_ownerships() {
    assert_eq!(Token::Clear.symbol(), ' ');
    assert_eq!(Token::Circle.symbol(), 'O');
    assert_eq!(Token::Cross.symbol(), 'X');
    assert_eq!(Ownership::Undecided.symbol(), ' ');
    assert_eq!(Ownership::Circle.symbol(), 'O');
    assert_eq!(Ownership::Cross.symbol(), 'X');
    assert_eq!(Ownership::Draw.symbol(), '-');
}
