use mode_coordinator::pcloop::{PcLooper, PcSolver};
use mode_coordinator::board::Board;
use mode_coordinator::pcloop::PcPriority;
use mode_coordinator::piece::{Cell, FallingPiece, Piece, PieceState, RotationState, TspinStatus};
use mode_coordinator::protocol::MovementMode;
use mode_coordinator::solution::Solution;
use mode_coordinator::strategy::ClearSearch;

fn step(n: usize) -> FallingPiece {
    FallingPiece {
        kind: PieceState(Piece::L, RotationState::East),
        cells: [Cell { x: n, y: 39 }, Cell { x: n, y: 38 }, Cell { x: n, y: 37 }, Cell { x: n + 1, y: 39 }],
        tspin: TspinStatus::Plain,
    }
}

fn steps(n: usize) -> Vec<FallingPiece> {
    (0..n).map(step).collect()
}

#[test]
fn a_solution_hands_back_the_placements_in_order() {
    let mvs = steps(4);
    let solution = Solution::from_placements(&mvs).expect("four placements fit");
    assert_eq!(solution.len(), 4);
    assert_eq!(solution.placements(), mvs);
    assert_eq!(solution.placements()[2], step(2));
}

#[test]
fn an_empty_solution_holds_nothing() {
    let solution = Solution::from_placements(&Vec::new()).expect("no placement fits");
    assert_eq!(solution.len(), 0);
    assert!(solution.placements().is_empty());
}

#[test]
fn ten_placements_fit_and_eleven_do_not() {
    let ten = Solution::from_placements(&steps(10)).expect("ten placements fit");
    assert_eq!(ten.len(), 10);
    assert_eq!(ten.placements(), steps(10));
    assert!(Solution::from_placements(&steps(11)).is_none());
    assert!(Solution::from_placements(&steps(25)).is_none());
}

#[test]
fn the_strategy_without_a_solver_hands_out_no_work() {
    let mut looper = PcLooper::new(Board::new(), true, MovementMode::ZeroG, PcPriority::Fastest);
    assert!(looper.think().is_none());
    looper.add_next_piece(Piece::I);
    assert!(looper.think().is_none());
}

#[test]
fn the_strategy_without_a_solver_reports_that_there_is_no_sequence() {
    let mut looper = PcLooper::new(Board::new(), false, MovementMode::HardDropOnly, PcPriority::HighestAttack);
    assert!(matches!(looper.suggest_move(), Err(true)));
    looper.solution(Solution::from_placements(&steps(3)));
    assert!(matches!(looper.suggest_move(), Err(true)));
    assert!(!looper.play_move(step(0)));
}

#[test]
fn the_solver_that_is_not_there_finds_nothing() {
    assert!(PcSolver.solve().is_none());
    assert!(<PcLooper as ClearSearch>::solve(&PcSolver).is_none());
}
