use wg_tracker::error::Error;
use wg_tracker::state::driver::{after_step, Move};

fn down() -> Error {
    Error::Network { message: "down".to_string() }
}

fn full() -> Error {
    Error::Parse { message: "disk full".to_string() }
}

#[test]
fn run_goes_on_while_tasks_are_left() {
    assert_eq!(after_step(Ok(()), Ok(()), false), Move::Continue);
}

#[test]
fn run_ends_well_when_finished() {
    assert_eq!(after_step(Ok(()), Ok(()), true), Move::Stop { outcome: Ok(()) });
}

#[test]
fn failed_step_ends_the_run_after_the_state_is_written() {
    assert_eq!(after_step(Err(down()), Ok(()), false), Move::Stop { outcome: Err(down()) });
    assert_eq!(after_step(Err(down()), Ok(()), true), Move::Stop { outcome: Err(down()) });
}

#[test]
fn state_that_cannot_be_written_ends_the_run() {
    assert_eq!(after_step(Ok(()), Err(full()), false), Move::Stop { outcome: Err(full()) });
    assert_eq!(after_step(Err(down()), Err(full()), true), Move::Stop { outcome: Err(full()) });
}
