use retry::config::{RetryConfig, DEBUG, INFO};
use retry::retry::{attempt_message, sleep_message, Next, Retry};
use retry::text::{decimal_string, push_decimal, signed_decimal_string};

fn words(w: &[&str]) -> Vec<String> {
    w.iter().map(|s| s.to_string()).collect()
}

fn engine(setup: impl FnOnce(&mut RetryConfig), command: &[&str]) -> Retry {
    let mut c = RetryConfig::new();
    setup(&mut c);
    c.command(words(command));
    Retry::new(c)
}

/// Attempts made, the code reported and the pauses, for an attempt outcome
/// given by its 0-based index.
fn drive(e: &mut Retry, outcome: impl Fn(usize) -> Option<i32>) -> (usize, Option<i32>, Vec<u64>) {
    let mut sleeps = vec![];
    let mut i = 0;
    loop {
        let code = outcome(i);
        i += 1;
        match e.finish_attempt(code) {
            Next::Stop(c) => return (i, c, sleeps),
            Next::Sleep(s) => sleeps.push(s),
        }
    }
}

fn env_var(e: &Retry, name: &str) -> Option<String> {
    e.build_command().env.iter().find(|v| v.name == name).map(|v| v.value.clone())
}

#[test]
fn defaults_of_new() {
    let c = RetryConfig::new();
    assert_eq!(c.max_tries, 10);
    assert_eq!(c.sleep, 5);
    assert!(!c.backoff);
    assert_eq!(c.max_backoff, 60);
    assert_eq!(c.log_level, INFO);
    assert!(!c.quiet);
    assert!(!c.retry_on_success);
    assert!(c.command.is_empty());
}

#[test]
fn setters_chain_and_verbose_sets_level() {
    let mut c = RetryConfig::new();
    c.max_tries(0).sleep(7).backoff(true).max_backoff(9).verbose(true).quiet(true).retry_on_success(true);
    assert_eq!((c.max_tries, c.sleep, c.max_backoff), (0, 7, 9));
    assert!(c.backoff && c.quiet && c.retry_on_success);
    assert_eq!(c.log_level, DEBUG);
    c.verbose(false);
    assert_eq!(c.log_level, INFO);
    c.log_level(5);
    assert_eq!(c.log_level, 5);
}

#[test]
fn backoff_is_powers_of_two_below_clamp() {
    let e = engine(|c| { c.backoff(true).max_backoff(1 << 20); }, &["x"]);
    assert_eq!(e.sleep_duration_from_count(1), 2);
    assert_eq!(e.sleep_duration_from_count(2), 4);
    assert_eq!(e.sleep_duration_from_count(5), 32);
    assert_eq!(e.sleep_duration_from_count(20), 1 << 20);
    assert_eq!(e.sleep_duration_from_count(0), 1);
}

#[test]
fn backoff_clamps_at_max() {
    let e = engine(|c| { c.backoff(true).max_backoff(60); }, &["x"]);
    assert_eq!(e.sleep_duration_from_count(5), 32);
    assert_eq!(e.sleep_duration_from_count(6), 60);
    assert_eq!(e.sleep_duration_from_count(63), 60);
    assert_eq!(e.sleep_duration_from_count(64), 60);
    assert_eq!(e.sleep_duration_from_count(u64::MAX), 60);
}

#[test]
fn backoff_at_the_edge_of_u64() {
    let e = engine(|c| { c.backoff(true).max_backoff(u64::MAX); }, &["x"]);
    assert_eq!(e.sleep_duration_from_count(63), 1u64 << 63);
    assert_eq!(e.sleep_duration_from_count(64), u64::MAX);
}

#[test]
fn fixed_sleep_ignores_count() {
    let e = engine(|c| { c.sleep(3).max_backoff(1); }, &["x"]);
    for n in [0u64, 1, 2, 10, 64, u64::MAX] {
        assert_eq!(e.sleep_duration_from_count(n), 3);
    }
}

#[test]
fn success_is_retried_only_when_inverted() {
    let mut plain = engine(|c| { c.max_tries(4); }, &["true"]);
    assert_eq!(drive(&mut plain, |_| Some(0)).0, 1);
    let mut inverted = engine(|c| { c.max_tries(4).retry_on_success(true); }, &["true"]);
    let (n, code, _) = drive(&mut inverted, |_| Some(0));
    assert_eq!(n, 4);
    assert_eq!(code, Some(0));
}

#[test]
fn inverted_run_stops_on_failure_and_signal() {
    let mut e = engine(|c| { c.retry_on_success(true); }, &["x"]);
    assert_eq!(e.finish_attempt(Some(2)), Next::Stop(None));
    let mut e = engine(|c| { c.retry_on_success(true); }, &["x"]);
    assert_eq!(e.finish_attempt(None), Next::Stop(None));
}

#[test]
fn budget_gives_exactly_n_attempts_on_failure() {
    for n in 1..6usize {
        let mut e = engine(|c| { c.max_tries(n as u64).sleep(0); }, &["false"]);
        let (made, code, sleeps) = drive(&mut e, |_| Some(1));
        assert_eq!(made, n);
        assert_eq!(sleeps.len(), n - 1);
        assert_eq!(e.count(), n as u64);
        if n == 1 {
            assert_eq!(code, None);
        } else {
            assert_eq!(code, Some(1));
        }
    }
}

#[test]
fn unlimited_budget_runs_until_success() {
    let mut e = engine(|c| { c.max_tries(0).sleep(0); }, &["flaky"]);
    let (made, code, _) = drive(&mut e, |i| if i < 25 { Some(3) } else { Some(0) });
    assert_eq!(made, 26);
    assert_eq!(code, Some(3));
}

#[test]
fn signal_is_a_failure_and_leaves_no_exit_code() {
    let mut e = engine(|_| {}, &["x"]);
    assert_eq!(e.finish_attempt(None), Next::Sleep(5));
    assert_eq!(e.prev_exit_code(), None);
    assert_eq!(env_var(&e, "RETRY_PREV_EXIT_CODE"), None);
    assert_eq!(env_var(&e, "RETRY_PREV_SLEEP"), Some("5".to_string()));
    assert_eq!(env_var(&e, "RETRY_TRY"), Some("2".to_string()));
}

#[test]
fn previous_exit_code_is_handed_on() {
    let mut e = engine(|_| {}, &["x"]);
    assert_eq!(e.finish_attempt(Some(-7)), Next::Sleep(5));
    assert_eq!(e.prev_exit_code(), Some(-7));
    assert_eq!(env_var(&e, "RETRY_PREV_EXIT_CODE"), Some("-7".to_string()));
}

#[test]
fn environment_order_and_names() {
    let mut e = engine(|c| { c.max_tries(0).backoff(true); }, &["x"]);
    let names = |e: &Retry| e.build_command().env.iter().map(|v| v.name.clone()).collect::<Vec<_>>();
    assert_eq!(names(&e), words(&["RETRY_TRY", "RETRY_MAX", "RETRY_NEXT_SLEEP"]));
    assert_eq!(env_var(&e, "RETRY_MAX"), Some("0".to_string()));
    assert_eq!(env_var(&e, "RETRY_NEXT_SLEEP"), Some("2".to_string()));
    e.finish_attempt(Some(1));
    assert_eq!(
        names(&e),
        words(&["RETRY_TRY", "RETRY_MAX", "RETRY_NEXT_SLEEP", "RETRY_PREV_SLEEP", "RETRY_PREV_EXIT_CODE"])
    );
}

#[test]
fn same_configuration_same_run() {
    let go = || {
        let mut e = engine(|c| { c.backoff(true).max_tries(5).max_backoff(10); }, &["m", "a"]);
        let mut seen = vec![];
        let mut i = 0;
        loop {
            let env: Vec<(String, String)> =
                e.build_command().env.iter().map(|v| (v.name.clone(), v.value.clone())).collect();
            seen.push(env);
            i += 1;
            let code = if i == 4 { Some(0) } else { Some(i) };
            if let Next::Stop(c) = e.finish_attempt(code) {
                return (seen, c);
            }
        }
    };
    let first = go();
    assert_eq!(first, go());
    assert_eq!(first.0.len(), 4);
}

#[test]
fn launch_keeps_argv_verbatim() {
    let e = engine(|_| {}, &["my prog", "a b", "$HOME", ""]);
    let l = e.build_command();
    assert_eq!(l.program, "my prog");
    assert_eq!(l.args, words(&["a b", "$HOME", ""]));
}

#[test]
fn run_message_quotes_words() {
    let e = engine(|_| {}, &["echo", "-n", "test"]);
    assert_eq!(e.run_message(), "try #1/10: echo -n test");
    let e = engine(|c| { c.max_tries(0); }, &["my prog", "a b", "c"]);
    assert_eq!(e.run_message(), "try #1: 'my prog' 'a b' c");
    let e = engine(|_| {}, &["", ""]);
    assert_eq!(e.run_message(), "try #1/10: '' ''");
    let e = engine(|_| {}, &["ls"]);
    assert_eq!(e.run_message(), "try #1/10: ls ");
}

#[test]
fn run_message_counts_attempts() {
    let mut e = engine(|c| { c.max_tries(3); }, &["x"]);
    e.finish_attempt(Some(1));
    e.finish_attempt(Some(1));
    assert_eq!(e.run_message(), "try #3/3: x ");
}

#[test]
fn sleep_messages() {
    assert_eq!(sleep_message(Some(1), 5), "unexpected exit code: 1, sleeping 5s");
    assert_eq!(sleep_message(Some(-3), 0), "unexpected exit code: -3, sleeping 0s");
    assert_eq!(sleep_message(None, 60), "process terminated by signal, sleeping 60s");
}

#[test]
fn log_filter() {
    let e = engine(|_| {}, &["x"]);
    assert!(e.should_log(INFO));
    assert!(!e.should_log(DEBUG));
    let e = engine(|c| { c.verbose(true); }, &["x"]);
    assert!(e.should_log(INFO));
    assert!(e.should_log(DEBUG));
}

#[test]
fn keep_trying_counts_and_checks_budget() {
    let mut e = engine(|c| { c.max_tries(2); }, &["x"]);
    assert!(e.keep_trying());
    assert!(!e.keep_trying());
    assert_eq!(e.count(), 2);
    assert_eq!(e.sleep_duration(), 5);
}

#[test]
fn decimals() {
    assert_eq!(decimal_string(0), "0");
    assert_eq!(decimal_string(9), "9");
    assert_eq!(decimal_string(10), "10");
    assert_eq!(decimal_string(1234567890), "1234567890");
    assert_eq!(decimal_string(u64::MAX as u128 + 1), "18446744073709551616");
    assert_eq!(signed_decimal_string(i32::MIN), "-2147483648");
    assert_eq!(signed_decimal_string(-1), "-1");
    assert_eq!(signed_decimal_string(42), "42");
    let mut s = "n=".to_string();
    push_decimal(&mut s, 305);
    assert_eq!(s, "n=305");
}

#[test]
fn new_engine_starts_empty() {
    let e = engine(|_| {}, &["x", "y"]);
    assert_eq!(e.count(), 0);
    assert_eq!(e.prev_exit_code(), None);
    assert_eq!(e.config().command, words(&["x", "y"]));
}

#[test]
fn attempt_message_from_quoted_parts() {
    assert_eq!(attempt_message(0, 10, "echo", "-n test"), "try #1/10: echo -n test");
    assert_eq!(attempt_message(41, 0, "'a b'", ""), "try #42: 'a b' ");
    assert_eq!(attempt_message(u64::MAX, u64::MAX, "x", "y"), "try #18446744073709551616/18446744073709551615: x y");
}
