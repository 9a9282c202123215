use trace_debug::config::Args;
use trace_debug::generator::{SpanAction, SpanGenerator};

fn args_with(number: usize) -> Args {
    let mut args = Args::default();
    args.number = number;
    args
}

/// One letter for each operation of a run, up to and without `Finish`.
fn letters(args: &Args) -> String {
    let mut generator = SpanGenerator::new(args);
    let mut out = String::new();
    loop {
        match generator.next_action() {
            SpanAction::Open { tracer_name, span_name } => {
                assert_eq!(tracer_name, args.tracer_name);
                assert_eq!(span_name, args.span_name);
                out.push('O');
            }
            SpanAction::Report => out.push('R'),
            SpanAction::Close => out.push('C'),
            SpanAction::Finish => return out,
        }
    }
}

#[test]
fn no_children_gives_the_root_alone() {
    assert_eq!(letters(&args_with(0)), "ORC");
}

#[test]
fn one_child_is_nested_in_the_root() {
    assert_eq!(letters(&args_with(1)), "ORORCC");
}

#[test]
fn two_children_follow_each_other_inside_the_root() {
    assert_eq!(letters(&args_with(2)), "ORORCORCC");
}

#[test]
fn reports_are_one_more_than_children() {
    for number in 0..50usize {
        let run = letters(&args_with(number));
        assert_eq!(run.len(), 3 * number + 3);
        assert_eq!(run.matches('R').count(), number + 1);
        assert_eq!(run.matches('O').count(), number + 1);
        assert_eq!(run.matches('C').count(), number + 1);
    }
}

#[test]
fn depth_is_one_at_every_child() {
    for number in 0..20usize {
        let mut depth = 0usize;
        for (at, op) in letters(&args_with(number)).chars().enumerate() {
            match op {
                'O' => {
                    assert_eq!(depth, if at == 0 { 0 } else { 1 });
                    depth += 1;
                }
                'R' => assert!(depth >= 1),
                _ => depth -= 1,
            }
        }
        assert_eq!(depth, 0);
    }
}

#[test]
fn open_carries_the_names_of_the_settings() {
    let mut args = args_with(1);
    args.tracer_name = String::from("my-tracer");
    args.span_name = String::from("my-span");
    let mut generator = SpanGenerator::new(&args);
    match generator.next_action() {
        SpanAction::Open { tracer_name, span_name } => {
            assert_eq!(tracer_name, "my-tracer");
            assert_eq!(span_name, "my-span");
        }
        other => panic!("unexpected action {:?}", other),
    }
}

#[test]
fn finish_is_repeated_once_reached() {
    let mut generator = SpanGenerator::new(&args_with(0));
    assert!(!generator.is_finished());
    assert!(matches!(generator.next_action(), SpanAction::Open { .. }));
    assert!(matches!(generator.next_action(), SpanAction::Report));
    assert!(!generator.is_finished());
    assert!(matches!(generator.next_action(), SpanAction::Close));
    assert!(generator.is_finished());
    assert!(matches!(generator.next_action(), SpanAction::Finish));
    assert!(matches!(generator.next_action(), SpanAction::Finish));
    assert!(generator.is_finished());
}

#[test]
fn a_huge_number_of_children_starts_like_any_other() {
    let mut generator = SpanGenerator::new(&args_with(usize::MAX));
    assert!(matches!(generator.next_action(), SpanAction::Open { .. }));
    assert!(matches!(generator.next_action(), SpanAction::Report));
    for _ in 0..1000 {
        assert!(matches!(generator.next_action(), SpanAction::Open { .. }));
        assert!(matches!(generator.next_action(), SpanAction::Report));
        assert!(matches!(generator.next_action(), SpanAction::Close));
    }
    assert!(!generator.is_finished());
}
