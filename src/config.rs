use vstd::prelude::*;

verus! {

/// Log level of the lines that are always shown (unless quiet).
pub const INFO: i32 = 0;

/// Log level of the lines shown only when verbose.
pub const DEBUG: i32 = 1;

/// The resolved options of one run.
pub struct RetryConfig {
    /// Attempt budget; 0 means unlimited.
    pub max_tries: u64,
    /// Fixed pause in seconds, used when backoff is off.
    pub sleep: u64,
    /// Pause grows as powers of two when set.
    pub backoff: bool,
    /// Upper clamp, in seconds, of the exponential pause.
    pub max_backoff: u64,
    /// Lines of a level above this one are not shown.
    pub log_level: i32,
    /// Shows no log line at all when set.
    pub quiet: bool,
    /// Retries when the command succeeds instead of when it fails.
    pub retry_on_success: bool,
    /// The program, then its arguments.
    pub command: Vec<String>,
}

/// The configuration a run starts from before any option is applied.
pub open spec fn is_default_config(c: RetryConfig) -> bool {
    &&& c.max_tries == 10
    &&& c.sleep == 5
    &&& !c.backoff
    &&& c.max_backoff == 60
    &&& c.log_level == INFO
    &&& !c.quiet
    &&& !c.retry_on_success
    &&& c.command@.len() == 0
}

impl Default for RetryConfig {
    fn default() -> (r: Self)
        ensures
            is_default_config(r),
    {
        RetryConfig {
            max_tries: 10,
            sleep: 5,
            backoff: false,
            max_backoff: 60,
            log_level: INFO,
            quiet: false,
            retry_on_success: false,
            command: Vec::new(),
        }
    }
}

impl RetryConfig {
    pub fn new() -> (r: Self)
        ensures
            is_default_config(r),
    {
        RetryConfig::default()
    }

    pub fn max_tries(&mut self, n: u64) -> (r: &mut Self)
        ensures
            *r == (RetryConfig { max_tries: n, ..*old(self) }),
            *final(self) == *final(r),
    {
        self.max_tries = n;
        self
    }

    pub fn sleep(&mut self, sleep: u64) -> (r: &mut Self)
        ensures
            *r == (RetryConfig { sleep: sleep, ..*old(self) }),
            *final(self) == *final(r),
    {
        self.sleep = sleep;
        self
    }

    pub fn backoff(&mut self, backoff: bool) -> (r: &mut Self)
        ensures
            *r == (RetryConfig { backoff: backoff, ..*old(self) }),
            *final(self) == *final(r),
    {
        self.backoff = backoff;
        self
    }

    pub fn max_backoff(&mut self, max_backoff: u64) -> (r: &mut Self)
        ensures
            *r == (RetryConfig { max_backoff: max_backoff, ..*old(self) }),
            *final(self) == *final(r),
    {
        self.max_backoff = max_backoff;
        self
    }

    pub fn log_level(&mut self, log_level: i32) -> (r: &mut Self)
        ensures
            *r == (RetryConfig { log_level: log_level, ..*old(self) }),
            *final(self) == *final(r),
    {
        self.log_level = log_level;
        self
    }

    /// DEBUG when `verbose`, else INFO.
    pub fn verbose(&mut self, verbose: bool) -> (r: &mut Self)
        ensures
            *r == (RetryConfig { log_level: if verbose { DEBUG } else { INFO }, ..*old(self) }),
            *final(self) == *final(r),
    {
        self.log_level = if verbose {
            DEBUG
        } else {
            INFO
        };
        self
    }

    pub fn quiet(&mut self, quiet: bool) -> (r: &mut Self)
        ensures
            *r == (RetryConfig { quiet: quiet, ..*old(self) }),
            *final(self) == *final(r),
    {
        self.quiet = quiet;
        self
    }

    pub fn retry_on_success(&mut self, retry_on_success: bool) -> (r: &mut Self)
        ensures
            *r == (RetryConfig { retry_on_success: retry_on_success, ..*old(self) }),
            *final(self) == *final(r),
    {
        self.retry_on_success = retry_on_success;
        self
    }

    pub fn command(&mut self, command: Vec<String>) -> (r: &mut Self)
        ensures
            *r == (RetryConfig { command: command, ..*old(self) }),
            *final(self) == *final(r),
    {
        self.command = command;
        self
    }
}

} // verus!
