use macros::{
    seed_collection, Axis, ControllerError, Coordinate, Direction, Instruction, Key, MacroRun,
    RunStatus, Step, Token,
};

/// Drives a run to its end; the controller call numbered `fail_at` (from 0) fails.
fn drive(code: &Vec<Instruction>, fail_at: Option<usize>) -> (Vec<String>, MacroRun) {
    let mut log = Vec::new();
    let mut run = MacroRun::new(code);
    let mut calls = 0usize;
    loop {
        match run.next_step(code) {
            Step::Finish => break,
            Step::Sleep(d) => {
                log.push(format!("sleep {d}"));
                run.advance(code, Ok(()));
            }
            Step::Warn => {
                log.push("warn".to_string());
                run.advance(code, Ok(()));
            }
            Step::Invoke(t) => {
                log.push(format!("{t:?}"));
                let result = if fail_at == Some(calls) {
                    Err(ControllerError { reason: "denied".to_string() })
                } else {
                    Ok(())
                };
                calls += 1;
                run.advance(code, result);
            }
        }
    }
    (log, run)
}

#[test]
fn run_follows_list_order() {
    let c = seed_collection();
    let (log, run) = drive(&c[1].code, None);
    assert_eq!(
        log,
        vec![
            "sleep 1000".to_string(),
            format!("{:?}", Token::Text("NJOPFPDSFSODPFJODSIFJOPSDPFJ THIS IS FROM A MACRO".to_string())),
            "sleep 500".to_string(),
            format!("{:?}", Token::Scroll(4, Axis::Vertical)),
        ]
    );
    assert_eq!(run.status, RunStatus::Completed);
    assert_eq!(run.pc, 4);
}

#[test]
fn wait_comes_before_next_call() {
    let code = vec![
        Instruction::Token(Token::Key(Key::Unicode('x'), Direction::Click)),
        Instruction::Wait(250),
        Instruction::Token(Token::MoveMouse(3, -4, Coordinate::Abs)),
    ];
    let run = MacroRun::new(&code);
    assert_eq!(run.next_step(&code), Step::Invoke(Token::Key(Key::Unicode('x'), Direction::Click)));
    let (log, _) = drive(&code, None);
    assert_eq!(log[1], "sleep 250");
    assert_eq!(log[2], format!("{:?}", Token::MoveMouse(3, -4, Coordinate::Abs)));
}

#[test]
fn unsupported_action_is_skipped() {
    let code = vec![
        Instruction::Token(Token::Raw(7, Direction::Press)),
        Instruction::Token(Token::Unsupported),
        Instruction::Token(Token::Raw(7, Direction::Release)),
    ];
    let (log, run) = drive(&code, None);
    assert_eq!(log.len(), 3);
    assert_eq!(log[1], "warn");
    assert_eq!(log[2], format!("{:?}", Token::Raw(7, Direction::Release)));
    assert_eq!(run.status, RunStatus::Completed);
}

#[test]
fn failed_call_stops_the_run() {
    let code = vec![
        Instruction::Token(Token::Button(macros::Button::Left, Direction::Press)),
        Instruction::Token(Token::Button(macros::Button::Left, Direction::Release)),
        Instruction::Wait(10),
        Instruction::Token(Token::Text("never".to_string())),
    ];
    let (log, run) = drive(&code, Some(1));
    assert_eq!(log.len(), 2);
    assert_eq!(run.pc, 1);
    assert_eq!(run.status, RunStatus::Failed(ControllerError { reason: "denied".to_string() }));
    assert_eq!(run.next_step(&code), Step::Finish);
}

#[test]
fn failure_in_one_run_leaves_another_alone() {
    let c = seed_collection();
    let (_, failed) = drive(&c[0].code, Some(0));
    let (log, ok) = drive(&c[0].code, None);
    assert!(matches!(failed.status, RunStatus::Failed(_)));
    assert_eq!(failed.pc, 1);
    assert_eq!(ok.status, RunStatus::Completed);
    assert_eq!(log.len(), 12);
}

#[test]
fn empty_macro_completes_at_once() {
    let code: Vec<Instruction> = Vec::new();
    let run = MacroRun::new(&code);
    assert_eq!(run.status, RunStatus::Completed);
    assert_eq!(run.next_step(&code), Step::Finish);
}
