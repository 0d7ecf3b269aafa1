use vstd::arithmetic::power2::{lemma2_to64, lemma_pow2_strictly_increases, lemma_pow2_unfold, pow2};
use vstd::prelude::*;

use crate::config::RetryConfig;
use crate::text::{
    decimal, decimal_string, join_words, push_decimal, quote_word, shell_joined, shell_quoted,
    signed_decimal, signed_decimal_string,
};

verus! {

/// The pause, in seconds, that the policy gives for attempt count `n`:
/// `min(2^n, max_backoff)` with backoff, else the fixed `sleep`.
pub open spec fn delay(c: RetryConfig, n: nat) -> nat {
    if c.backoff {
        if pow2(n) <= c.max_backoff {
            pow2(n)
        } else {
            c.max_backoff as nat
        }
    } else {
        c.sleep as nat
    }
}

/// Whether an attempt that ended with `code` (`None`: killed by a signal)
/// asks for another one: on failure, or on success when inverted.
pub open spec fn wants_retry(c: RetryConfig, code: Option<i32>) -> bool {
    (code != Some(0i32)) != c.retry_on_success
}

/// Whether the budget allows another attempt once `done` have been made.
pub open spec fn within_budget(c: RetryConfig, done: nat) -> bool {
    c.max_tries == 0 || done < c.max_tries
}

/// Whether the run goes on after its attempt number `done` ended with `code`.
pub open spec fn goes_on(c: RetryConfig, done: nat, code: Option<i32>) -> bool {
    wants_retry(c, code) && within_budget(c, done)
}

/// Past 63, the power of two exceeds every `u64`.
proof fn lemma_pow2_past_u64(n: nat)
    requires
        n >= 64,
    ensures
        pow2(n) > u64::MAX,
{
    lemma2_to64();
    if n > 64 {
        lemma_pow2_strictly_increases(64, n);
    }
}

/// One variable of the environment handed to an attempt.
pub struct EnvVar {
    pub name: String,
    pub value: String,
}

/// The environment variables as name and value pairs.
pub open spec fn env_view(env: Seq<EnvVar>) -> Seq<(Seq<char>, Seq<char>)> {
    env.map_values(|e: EnvVar| (e.name@, e.value@))
}

/// The retry variables that the attempt following `count` finished ones
/// sees, when the last of them ended with `prev` (`None`: no attempt yet,
/// or killed by a signal).
pub open spec fn attempt_env(c: RetryConfig, count: nat, prev: Option<i32>) -> Seq<
    (Seq<char>, Seq<char>),
> {
    seq![
        ("RETRY_TRY"@, decimal(count + 1)),
        ("RETRY_MAX"@, decimal(c.max_tries as nat)),
        ("RETRY_NEXT_SLEEP"@, decimal(delay(c, count + 1))),
    ] + (if count > 0 {
        seq![("RETRY_PREV_SLEEP"@, decimal(delay(c, count)))]
    } else {
        Seq::empty()
    }) + (match prev {
        Some(x) => seq![("RETRY_PREV_EXIT_CODE"@, signed_decimal(x as int))],
        None => Seq::empty(),
    })
}

/// An attempt to launch: the program, its arguments as given, and the retry
/// variables to add to the inherited environment.
pub struct Launch {
    pub program: String,
    pub args: Vec<String>,
    pub env: Vec<EnvVar>,
}

/// The line that announces attempt `count + 1` of `max_tries` (0: no
/// limit, left out), given the quoted program and the joined arguments.
pub open spec fn attempt_line(count: nat, max_tries: nat, quoted: Seq<char>, joined: Seq<char>) -> Seq<
    char,
> {
    "try #"@ + decimal(count + 1) + (if max_tries != 0 {
        "/"@ + decimal(max_tries)
    } else {
        Seq::empty()
    }) + ": "@ + quoted + " "@ + joined
}

/// The log line that announces an attempt.
pub open spec fn run_line(c: RetryConfig, count: nat, program: Seq<char>, args: Seq<Seq<char>>) -> Seq<
    char,
> {
    attempt_line(count, c.max_tries as nat, shell_quoted(program), shell_joined(args))
}

/// The line that announces attempt `count + 1`, from the program already
/// quoted and the arguments already joined.
pub fn attempt_message(count: u64, max_tries: u64, quoted: &str, joined: &str) -> (r: String)
    ensures
        r@ == attempt_line(count as nat, max_tries as nat, quoted@, joined@),
{
    let mut out = String::from_str("try #");
    push_decimal(&mut out, count as u128 + 1);
    if max_tries != 0 {
        out.append("/");
        push_decimal(&mut out, max_tries as u128);
    }
    out.append(": ");
    out.append(quoted);
    out.append(" ");
    out.append(joined);
    out
}

/// The log line written before the pause that follows a retried attempt.
pub open spec fn sleep_line(code: Option<i32>, secs: nat) -> Seq<char> {
    let reason = match code {
        Some(x) => "unexpected exit code: "@ + signed_decimal(x as int),
        None => "process terminated by signal"@,
    };
    reason + ", sleeping "@ + decimal(secs) + "s"@
}

/// The debug line written before sleeping `secs` seconds after an attempt
/// that ended with `code`.
pub fn sleep_message(code: Option<i32>, secs: u64) -> (r: String)
    ensures
        r@ == sleep_line(code, secs as nat),
{
    let mut out = match code {
        Some(x) => {
            let mut m = String::from_str("unexpected exit code: ");
            let v = signed_decimal_string(x);
            m.append(v.as_str());
            m
        },
        None => String::from_str("process terminated by signal"),
    };
    out.append(", sleeping ");
    push_decimal(&mut out, secs as u128);
    out.append("s");
    out
}

fn clone_words(v: &Vec<String>) -> (r: Vec<String>)
    ensures
        r.deep_view() == v.deep_view(),
{
    let mut out: Vec<String> = Vec::new();
    let mut i: usize = 0;
    while i < v.len()
        invariant
            i <= v@.len(),
            out@.len() == i,
            forall|j: int| 0 <= j < i ==> out@[j]@ == v@[j]@,
        decreases v@.len() - i,
    {
        out.push(v[i].clone());
        i += 1;
    }
    assert(out.deep_view() =~= v.deep_view());
    out
}

/// What the caller does after an attempt.
#[derive(PartialEq, Eq, Structural, Debug, Clone, Copy)]
pub enum Next {
    /// The run is over, with the exit code it reports.
    Stop(Option<i32>),
    /// Sleep this many seconds, then launch the next attempt.
    Sleep(u64),
}

/// What a run's state means: its configuration, the attempts finished, the
/// program and its arguments, and the exit code of the last attempt after
/// which the run went on.
pub struct RunState {
    pub config: RetryConfig,
    pub count: u64,
    pub program: Seq<char>,
    pub args: Seq<Seq<char>>,
    pub prev_exit_code: Option<i32>,
}

/// The state of one run: its configuration and what the attempts so far left.
pub struct Retry {
    config: RetryConfig,
    count: u64,
    command: String,
    args: Vec<String>,
    prev_exit_code: Option<i32>,
}

impl View for Retry {
    type V = RunState;

    closed spec fn view(&self) -> RunState {
        RunState {
            config: self.config,
            count: self.count,
            program: self.command@,
            args: self.args.deep_view(),
            prev_exit_code: self.prev_exit_code,
        }
    }
}

impl Retry {
    /// Starts a run with no attempt made.
    pub fn new(config: RetryConfig) -> (r: Retry)
        requires
            config.command@.len() >= 1,
        ensures
            r@.config == config,
            r@.count == 0,
            r@.prev_exit_code.is_none(),
            r@.program == config.command@[0]@,
            r@.args == config.command.deep_view().drop_first(),
    {
        let mut args: Vec<String> = Vec::new();
        let mut i: usize = 1;
        while i < config.command.len()
            invariant
                1 <= i <= config.command@.len(),
                args@.len() == i - 1,
                forall|j: int| 0 <= j < args@.len() ==> args@[j]@ == config.command@[j + 1]@,
            decreases config.command@.len() - i,
        {
            let a = config.command[i].clone();
            args.push(a);
            i += 1;
        }
        assert(args.deep_view() =~= config.command.deep_view().drop_first());
        let command = config.command[0].clone();
        Retry { config, count: 0, command, args, prev_exit_code: None }
    }

    /// Number of attempts finished so far.
    pub fn count(&self) -> (r: u64)
        ensures
            r == self@.count,
    {
        self.count
    }

    /// Exit code of the last attempt after which the run went on (`None`
    /// before that, or when it was killed by a signal).
    pub fn prev_exit_code(&self) -> (r: Option<i32>)
        ensures
            r == self@.prev_exit_code,
    {
        self.prev_exit_code
    }

    /// The configuration the run was started with.
    pub fn config(&self) -> (r: &RetryConfig)
        ensures
            *r == self@.config,
    {
        &self.config
    }

    /// The pause the policy gives for attempt count `count`.
    pub fn sleep_duration_from_count(&self, count: u64) -> (r: u64)
        ensures
            r as nat == delay(self@.config, count as nat),
    {
        if self.config.backoff {
            let cap = self.config.max_backoff;
            let mut exp: u128 = 1;
            let mut i: u64 = 0;
            proof {
                lemma2_to64();
            }
            while i < count && exp <= cap as u128
                invariant
                    i <= count,
                    exp as nat == pow2(i as nat),
                decreases count - i,
            {
                proof {
                    lemma_pow2_unfold((i + 1) as nat);
                }
                exp = exp * 2;
                i = i + 1;
            }
            if exp <= cap as u128 {
                exp as u64
            } else {
                proof {
                    if i < count {
                        lemma_pow2_strictly_increases(i as nat, count as nat);
                    }
                }
                cap
            }
        } else {
            self.config.sleep
        }
    }

    /// The pause that follows the attempts finished so far.
    pub fn sleep_duration(&self) -> (r: u64)
        ensures
            r as nat == delay(self@.config, self@.count as nat),
    {
        self.sleep_duration_from_count(self.count)
    }

    /// The attempt to launch next: the program and arguments as configured,
    /// with the retry variables of the current state.
    pub fn build_command(&self) -> (r: Launch)
        ensures
            r.program@ == self@.program,
            r.args.deep_view() == self@.args,
            env_view(r.env@) == attempt_env(self@.config, self@.count as nat, self@.prev_exit_code),
    {
        let ghost c = self@.config;
        let ghost n = self@.count as nat;
        let next_sleep = if self.count < u64::MAX {
            self.sleep_duration_from_count(self.count + 1)
        } else {
            proof {
                lemma_pow2_past_u64(n);
                lemma_pow2_past_u64(n + 1);
            }
            self.sleep_duration_from_count(self.count)
        };
        let mut env: Vec<EnvVar> = Vec::new();
        env.push(
            EnvVar {
                name: String::from_str("RETRY_TRY"),
                value: decimal_string(self.count as u128 + 1),
            },
        );
        env.push(
            EnvVar {
                name: String::from_str("RETRY_MAX"),
                value: decimal_string(self.config.max_tries as u128),
            },
        );
        env.push(
            EnvVar {
                name: String::from_str("RETRY_NEXT_SLEEP"),
                value: decimal_string(next_sleep as u128),
            },
        );
        let ghost first = env@;
        assert(env_view(first) =~= seq![
            ("RETRY_TRY"@, decimal(n + 1)),
            ("RETRY_MAX"@, decimal(c.max_tries as nat)),
            ("RETRY_NEXT_SLEEP"@, decimal(delay(c, n + 1))),
        ]);
        if self.count > 0 {
            env.push(
                EnvVar {
                    name: String::from_str("RETRY_PREV_SLEEP"),
                    value: decimal_string(self.sleep_duration() as u128),
                },
            );
        }
        let ghost second = env@;
        assert(env_view(second) =~= env_view(first) + (if n > 0 {
            seq![("RETRY_PREV_SLEEP"@, decimal(delay(c, n)))]
        } else {
            Seq::empty()
        }));
        match self.prev_exit_code {
            Some(x) => {
                env.push(
                    EnvVar {
                        name: String::from_str("RETRY_PREV_EXIT_CODE"),
                        value: signed_decimal_string(x),
                    },
                );
            },
            None => {},
        }
        assert(env_view(env@) =~= attempt_env(c, n, self@.prev_exit_code));
        Launch { program: self.command.clone(), args: clone_words(&self.args), env }
    }

    /// The log line that announces the next attempt.
    pub fn run_message(&self) -> (r: String)
        ensures
            r@ == run_line(self@.config, self@.count as nat, self@.program, self@.args),
    {
        let quoted = quote_word(self.command.as_str());
        let joined = join_words(&self.args);
        attempt_message(self.count, self.config.max_tries, quoted.as_str(), joined.as_str())
    }

    /// Whether a line of `level` is shown: never when quiet, else when the
    /// level is at most the configured one.
    pub fn should_log(&self, level: i32) -> (r: bool)
        ensures
            r == (!self@.config.quiet && level <= self@.config.log_level),
    {
        !self.config.quiet && level <= self.config.log_level
    }

    /// Counts one more finished attempt (the counter stops at `u64::MAX`)
    /// and says whether the budget allows another.
    pub fn keep_trying(&mut self) -> (r: bool)
        ensures
            final(self)@.count == if old(self)@.count < u64::MAX {
                (old(self)@.count + 1) as u64
            } else {
                old(self)@.count
            },
            final(self)@.config == old(self)@.config,
            final(self)@.program == old(self)@.program,
            final(self)@.args == old(self)@.args,
            final(self)@.prev_exit_code == old(self)@.prev_exit_code,
            r == within_budget(old(self)@.config, (old(self)@.count + 1) as nat),
    {
        if self.count < u64::MAX {
            self.count += 1;
        }
        self.config.max_tries == 0 || self.count < self.config.max_tries
    }

    /// Takes in how an attempt ended (`None`: killed by a signal) and decides
    /// what comes next. When the run goes on, that exit code is recorded and
    /// the pause is the policy's for the new count. When it stops, the run
    /// reports the exit code last recorded: that of the attempt before the
    /// final one, `None` when the first attempt ends the run.
    pub fn finish_attempt(&mut self, code: Option<i32>) -> (r: Next)
        ensures
            final(self)@.count == if old(self)@.count < u64::MAX {
                (old(self)@.count + 1) as u64
            } else {
                old(self)@.count
            },
            final(self)@.config == old(self)@.config,
            final(self)@.program == old(self)@.program,
            final(self)@.args == old(self)@.args,
            goes_on(old(self)@.config, (old(self)@.count + 1) as nat, code) ==> {
                &&& final(self)@.prev_exit_code == code
                &&& r == Next::Sleep(delay(old(self)@.config, final(self)@.count as nat) as u64)
            },
            !goes_on(old(self)@.config, (old(self)@.count + 1) as nat, code) ==> {
                &&& final(self)@.prev_exit_code == old(self)@.prev_exit_code
                &&& r == Next::Stop(old(self)@.prev_exit_code)
            },
    {
        let success = match code {
            Some(c) => c == 0,
            None => false,
        };
        let should_retry = if self.config.retry_on_success {
            success
        } else {
            !success
        };
        let more = self.keep_trying();
        if should_retry && more {
            self.prev_exit_code = code;
            Next::Sleep(self.sleep_duration())
        } else {
            Next::Stop(self.prev_exit_code)
        }
    }
}

} // verus!
