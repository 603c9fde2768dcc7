use captcha_puzzle::placement::PlacementEngine;
use captcha_puzzle::puzzle::{hidden_code, PuzzleItem};
use captcha_puzzle::render::{FramePlan, RenderStateMachine};
use captcha_puzzle::shape::Shape;
use captcha_puzzle::verification::{is_solved_message, solved_message, InputTask, LineOutcome};
use captcha_puzzle::vertex::Topology;

fn fixed_puzzle() -> Vec<PuzzleItem> {
    vec![
        PuzzleItem { shape: Shape::Line, param: 3 },
        PuzzleItem { shape: Shape::Triangle, param: 3 },
        PuzzleItem { shape: Shape::Circle, param: 3 },
    ]
}

#[test]
fn solved_message_is_the_expected_bytes() {
    assert_eq!(solved_message(), b"SOLVED".to_vec());
    assert!(is_solved_message(&b"SOLVED".to_vec()));
    assert!(!is_solved_message(&b"SOLVE".to_vec()));
    assert!(!is_solved_message(&b"solved".to_vec()));
    assert!(!is_solved_message(&Vec::new()));
}

#[test]
fn wrong_line_is_a_mismatch() {
    let mut task = InputTask::new(b"10129".to_vec());
    assert_eq!(task.process_line(&b"99999".to_vec()), LineOutcome::Mismatch);
    assert_eq!(task.process_line(&b"".to_vec()), LineOutcome::Mismatch);
    assert_eq!(task.process_line(&b"1012".to_vec()), LineOutcome::Mismatch);
}

#[test]
fn signal_is_sent_at_most_once() {
    let mut task = InputTask::new(b"10129".to_vec());
    assert_eq!(task.process_line(&b"99999".to_vec()), LineOutcome::Mismatch);
    assert_eq!(task.process_line(&b"10129".to_vec()), LineOutcome::Signal);
    assert_eq!(task.process_line(&b"10129".to_vec()), LineOutcome::AlreadySolved);
    assert_eq!(task.process_line(&b"99999".to_vec()), LineOutcome::Mismatch);
    assert_eq!(task.process_line(&b"10129".to_vec()), LineOutcome::AlreadySolved);
}

#[test]
fn unsolved_frame_submits_grouped_batches() {
    let mut machine = RenderStateMachine::new();
    let mut engine = PlacementEngine::new();
    let puzzle = fixed_puzzle();
    match machine.frame(&mut engine, &puzzle, None) {
        FramePlan::Geometry { batches } => {
            // 3 triangles and 3 circles share the triangle-topology batch;
            // 3 lines fill the line-topology batch.
            assert_eq!(batches.len(), 2);
            assert_eq!(batches[0].topology, Topology::TriangleList);
            assert_eq!(batches[0].vertices.len(), 3 * 3 + 3 * 144);
            assert_eq!(batches[1].topology, Topology::LineList);
            assert_eq!(batches[1].vertices.len(), 3 * 2);
        }
        FramePlan::Overlay => panic!("an unsolved frame must submit geometry"),
    }
    assert!(!machine.is_solved());
}

#[test]
fn frame_latches_on_solved_signal_and_stays_solved() {
    let mut machine = RenderStateMachine::new();
    let mut engine = PlacementEngine::new();
    let puzzle = fixed_puzzle();
    assert!(matches!(
        machine.frame(&mut engine, &puzzle, Some(b"SOLVED".to_vec())),
        FramePlan::Overlay
    ));
    assert!(machine.is_solved());
    assert_eq!(engine.len(), 0);
    assert!(matches!(machine.frame(&mut engine, &puzzle, None), FramePlan::Overlay));
    assert!(machine.is_solved());
}

#[test]
fn frame_ignores_other_messages() {
    let mut machine = RenderStateMachine::new();
    let mut engine = PlacementEngine::new();
    let puzzle = fixed_puzzle();
    assert!(matches!(
        machine.frame(&mut engine, &puzzle, Some(b"99999".to_vec())),
        FramePlan::Geometry { .. }
    ));
    assert!(!machine.is_solved());
}

#[test]
fn end_to_end_solving_the_fixed_puzzle() {
    let puzzle = fixed_puzzle();
    let code = hidden_code(&puzzle);
    assert_eq!(code, b"10129".to_vec());

    let mut task = InputTask::new(code);
    let mut machine = RenderStateMachine::new();
    let mut engine = PlacementEngine::new();

    // A wrong submission: reported as a mismatch, no signal, next frame
    // still shows the puzzle.
    assert_eq!(task.process_line(&b"99999".to_vec()), LineOutcome::Mismatch);
    assert!(matches!(machine.frame(&mut engine, &puzzle, None), FramePlan::Geometry { .. }));
    assert!(!machine.is_solved());

    // The correct submission: the one signal is sent, and the next frame
    // switches to the solved overlay.
    assert_eq!(task.process_line(&b"10129".to_vec()), LineOutcome::Signal);
    let msg = solved_message();
    assert!(matches!(machine.frame(&mut engine, &puzzle, Some(msg)), FramePlan::Overlay));
    assert!(machine.is_solved());
}
