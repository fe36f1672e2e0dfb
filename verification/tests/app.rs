use marwood::cell::Cell;
use marwood_gui::app::EXAMPLE_PROGRAM;
use marwood_gui::{Answer, EvalError, Marwood, MarwoodApp, Value};

fn ask<'a>(handle: &mut Marwood, text: &'a str) -> Answer<'a> {
    match handle.vm.eval_text(text) {
        Ok((Cell::Void, rest)) => Ok((Value::Void, rest)),
        Ok((cell, rest)) => Ok((Value::Datum(cell.to_string()), rest)),
        Err(error) => Err(EvalError { message: error.to_string() }),
    }
}

fn press_run(app: &mut MarwoodApp) -> usize {
    let Some(source) = app.start().map(str::to_owned) else {
        return 0;
    };
    let mut evaluations = 0;
    let mut cursor = Some(source.as_str());
    while let Some(text) = cursor {
        let answer = ask(app.interpreter(), text);
        cursor = app.absorb(text, &answer);
        evaluations += 1;
    }
    evaluations
}

#[test]
fn new_app_holds_the_example_program() {
    let app = MarwoodApp::new();
    assert_eq!(app.input(), EXAMPLE_PROGRAM);
    assert_eq!(app.output(), "");
    assert!(app.input().starts_with("(define (filter pred lst)\n              (cond\n"));
    assert!(app.input().ends_with("\n\n            (sieve 100)"));
    assert_eq!(app.input().len(), 855);
}

#[test]
fn default_app_is_the_new_app() {
    let app = MarwoodApp::default();
    assert_eq!(app.input(), EXAMPLE_PROGRAM);
    assert_eq!(app.output(), "");
}

#[test]
fn example_program_lists_the_primes_below_one_hundred() {
    let mut app = MarwoodApp::new();
    press_run(&mut app);
    assert_eq!(
        app.output(),
        "=> (2 3 5 7 11 13 17 19 23 29 31 37 41 43 47 53 59 61 67 71 73 79 83 89 97)\n"
    );
    assert_eq!(app.input(), EXAMPLE_PROGRAM);
}

#[test]
fn set_input_replaces_the_source_only() {
    let mut app = MarwoodApp::new();
    app.set_input("(+ 1 2)".to_string());
    assert_eq!(app.input(), "(+ 1 2)");
    assert_eq!(app.output(), "");
    press_run(&mut app);
    assert_eq!(app.output(), "=> 3\n");
    app.set_input("(* 2 3)".to_string());
    assert_eq!(app.output(), "=> 3\n");
    press_run(&mut app);
    assert_eq!(app.output(), "=> 6\n=> 3\n");
    assert_eq!(app.input(), "(* 2 3)");
}

#[test]
fn app_runs_see_definitions_of_earlier_runs() {
    let mut app = MarwoodApp::new();
    app.set_input("(define y 10)".to_string());
    press_run(&mut app);
    assert_eq!(app.output(), "");
    app.set_input("(* y y)".to_string());
    press_run(&mut app);
    assert_eq!(app.output(), "=> 100\n");
}

#[test]
fn app_run_on_empty_input_changes_nothing() {
    let mut app = MarwoodApp::restore(Some(String::new()), Some("=> 1\n".to_string()));
    assert_eq!(app.start(), None);
    assert_eq!(press_run(&mut app), 0);
    assert_eq!(app.input(), "");
    assert_eq!(app.output(), "=> 1\n");
}

#[test]
fn app_start_is_the_source_text() {
    let mut app = MarwoodApp::new();
    assert_eq!(app.start(), Some(EXAMPLE_PROGRAM));
    app.set_input("(+ 1 2) 3".to_string());
    assert_eq!(app.start(), Some("(+ 1 2) 3"));
}

#[test]
fn app_absorb_takes_one_answer_at_a_time() {
    let mut app = MarwoodApp::restore(Some("7 8".to_string()), Some("old\n".to_string()));
    let next = app.absorb("7 8", &Ok((Value::Datum("7".to_string()), Some("8"))));
    assert_eq!(next, Some("8"));
    assert_eq!(app.output(), "=> 7\nold\n");
    assert_eq!(app.input(), "7 8");
    let next = app.absorb("8", &Err(EvalError { message: "boom".to_string() }));
    assert_eq!(next, None);
    assert_eq!(app.output(), "=> error: boom\n=> 7\nold\n");
    assert_eq!(app.input(), "7 8");
}

#[test]
fn app_run_counts_one_evaluation_for_each_form_up_to_the_error() {
    let mut app = MarwoodApp::new();
    app.set_input("1 (define a 2) (car a) 4 5".to_string());
    assert_eq!(press_run(&mut app), 3);
    assert_eq!(app.output(), "=> error: expected pair, but found 2\n=> 1\n");
}

#[test]
fn app_run_absorbs_errors() {
    let mut app = MarwoodApp::new();
    app.set_input("(+ 1 2) (undefined-procedure) (+ 3 4)".to_string());
    press_run(&mut app);
    assert_eq!(app.output(), "=> error: undefined-procedure is not bound\n=> 3\n");
}

#[test]
fn restore_takes_stored_buffers() {
    let app = MarwoodApp::restore(Some("(+ 1 1)".to_string()), Some("=> 2\n".to_string()));
    assert_eq!(app.input(), "(+ 1 1)");
    assert_eq!(app.output(), "=> 2\n");
}

#[test]
fn restore_fills_in_what_was_not_stored() {
    let app = MarwoodApp::restore(None, None);
    assert_eq!(app.input(), EXAMPLE_PROGRAM);
    assert_eq!(app.output(), "");
    let app = MarwoodApp::restore(Some("1".to_string()), None);
    assert_eq!(app.input(), "1");
    assert_eq!(app.output(), "");
    let app = MarwoodApp::restore(None, Some("=> 1\n".to_string()));
    assert_eq!(app.input(), EXAMPLE_PROGRAM);
    assert_eq!(app.output(), "=> 1\n");
}

#[test]
fn restore_comes_with_a_fresh_interpreter() {
    let mut app = MarwoodApp::new();
    app.set_input("(define kept 1)".to_string());
    press_run(&mut app);
    let mut back = MarwoodApp::restore(Some("kept".to_string()), Some(app.output().to_string()));
    press_run(&mut back);
    assert_eq!(back.output(), "=> error: kept is not bound\n");
}
