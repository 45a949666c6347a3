use shade_eval_print_loop::reload::{CompileFailure, HotReload};
use shade_eval_print_loop::repl::{
    advance, prompt, serve_round, ConnectionAction, ConnectionEvent, ConnectionState,
};

#[test]
fn connection_runs_prompt_read_dispatch_write() {
    assert_eq!("> ", prompt());
    let (state, action) = advance(ConnectionState::Accepted, ConnectionEvent::Started);
    assert_eq!((ConnectionState::WritePrompt, ConnectionAction::WritePrompt), (state, action));
    let (state, action) = advance(state, ConnectionEvent::Written);
    assert_eq!((ConnectionState::ReadLine, ConnectionAction::ReadLine), (state, action));
    let (state, action) = advance(state, ConnectionEvent::Line("(+ 1 2)\n".to_string()));
    assert_eq!(
        (ConnectionState::Dispatch, ConnectionAction::Dispatch("(+ 1 2)\n".to_string())),
        (state, action)
    );
    let (state, action) = advance(state, ConnectionEvent::Evaluated("3\n".to_string()));
    assert_eq!(
        (ConnectionState::WriteResult, ConnectionAction::WriteResult("3\n".to_string())),
        (state, action)
    );
    let (state, action) = advance(state, ConnectionEvent::Written);
    assert_eq!((ConnectionState::WritePrompt, ConnectionAction::WritePrompt), (state, action));
    let (state, action) = advance(state, ConnectionEvent::Written);
    assert_eq!((ConnectionState::ReadLine, ConnectionAction::ReadLine), (state, action));
    // A line of a line feed alone is no end of stream.
    let (state, _) = advance(state, ConnectionEvent::Line("\n".to_string()));
    assert_eq!(ConnectionState::Dispatch, state);
}

#[test]
fn connection_closes_on_end_of_stream() {
    let (state, action) = advance(ConnectionState::ReadLine, ConnectionEvent::Line(String::new()));
    assert_eq!((ConnectionState::Closed, ConnectionAction::Close), (state, action));
    for event in [
        ConnectionEvent::Started,
        ConnectionEvent::Written,
        ConnectionEvent::Line("x".to_string()),
        ConnectionEvent::Evaluated("y".to_string()),
        ConnectionEvent::Failed,
    ] {
        assert_eq!(
            (ConnectionState::Closed, ConnectionAction::Nothing),
            advance(ConnectionState::Closed, event)
        );
    }
}

#[test]
fn connection_closes_on_failure_and_on_what_it_does_not_await() {
    let states = [
        ConnectionState::Accepted,
        ConnectionState::WritePrompt,
        ConnectionState::ReadLine,
        ConnectionState::Dispatch,
        ConnectionState::WriteResult,
    ];
    for state in states {
        assert_eq!(
            (ConnectionState::Closed, ConnectionAction::Close),
            advance(state, ConnectionEvent::Failed)
        );
    }
    assert_eq!(
        (ConnectionState::Closed, ConnectionAction::Close),
        advance(ConnectionState::Dispatch, ConnectionEvent::Line("another\n".to_string()))
    );
    assert_eq!(
        (ConnectionState::Closed, ConnectionAction::Close),
        advance(ConnectionState::Accepted, ConnectionEvent::Written)
    );
    assert_eq!(
        (ConnectionState::Closed, ConnectionAction::Close),
        advance(ConnectionState::ReadLine, ConnectionEvent::Evaluated("3\n".to_string()))
    );
}

#[test]
fn reload_keeps_the_program_when_compilation_fails() {
    let made = std::cell::Cell::new(0);
    let mut state: HotReload<&str> = HotReload::start(Ok("first"), || {
        made.set(made.get() + 1);
        "placeholder"
    });
    assert_eq!(0, made.get());
    assert_eq!(&"first", state.program());
    assert_eq!(&None, state.diagnostic());

    assert!(!state.reload(Err("0:1(1): error".to_string())));
    assert_eq!(&"first", state.program());
    assert_eq!(&Some("0:1(1): error".to_string()), state.diagnostic());

    assert!(!state.reload(Err("0:2(2): error".to_string())));
    assert_eq!(&"first", state.program());
    assert_eq!(&Some("0:2(2): error".to_string()), state.diagnostic());

    assert!(state.reload(Ok("second")));
    assert_eq!(&"second", state.program());
    assert_eq!(&None, state.diagnostic());
}

#[test]
fn reload_starts_on_the_placeholder_when_the_first_compilation_fails() {
    let made = std::cell::Cell::new(0);
    let state: HotReload<u8> = HotReload::start(Err("syntax error".to_string()), || {
        made.set(made.get() + 1);
        7
    });
    assert_eq!(1, made.get());
    assert_eq!(&7, state.program());
    assert_eq!(&Some("syntax error".to_string()), state.diagnostic());
}

#[test]
fn compile_failure_names_its_diagnostic() {
    assert_eq!(
        "0:5(3): error: syntax error",
        CompileFailure::Compilation("0:5(3): error: syntax error".to_string()).diagnostic()
    );
    assert_eq!("POSSIBLE DRIVER ISSUE!", CompileFailure::Other.diagnostic());
}

#[test]
fn round_answers_each_connection_with_its_own_evaluation() {
    let evaluated = std::cell::RefCell::new(Vec::new());
    let eval = |line: String| {
        evaluated.borrow_mut().push(line.clone());
        format!("<{}>\n", line.trim_end())
    };
    let waiting = vec![
        Some("(+ 1 2)\n".to_string()),
        None,
        Some("(screen-size)\n".to_string()),
        None,
    ];

    let replies = serve_round(&waiting, &eval);

    assert_eq!(
        vec![
            Some("<(+ 1 2)>\n".to_string()),
            None,
            Some("<(screen-size)>\n".to_string()),
            None,
        ],
        replies
    );
    assert_eq!(
        vec!["(+ 1 2)\n".to_string(), "(screen-size)\n".to_string()],
        *evaluated.borrow()
    );
    assert_eq!(Vec::<Option<String>>::new(), serve_round(&Vec::new(), &eval));
    assert_eq!(vec![None, None], serve_round(&vec![None, None], &eval));
    assert_eq!(2, evaluated.borrow().len());
}
