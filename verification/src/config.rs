//! Virtual machine configuration.
//!
//! Settings that users can change, such as the number of threads to run.
use vstd::prelude::*;

verus! {

/// The default number of reductions a process can perform before being
/// suspended.
pub const DEFAULT_REDUCTIONS: usize = 1000;

/// The maximum time (in nanoseconds) to spend on scanning blocks in a single
/// recycling scan.
pub const MAXIMUM_TIME_PER_RECYCLING_SCAN: usize = 20_000;

/// The estimated time (in nanoseconds) spent on scanning a single block.
pub const ESTIMATED_TIME_PER_BLOCK: usize = 20;

/// The maximum number of blocks to scan in a single recycling scan.
pub const DEFAULT_RECYCLE_BLOCKS_PER_SCAN: usize = 1000;

/// The default number of threads used for parsing bytecode images, if the
/// machine has at least that many CPUs.
pub const DEFAULT_BYTECODE_THREADS: usize = 4;

/// The configuration settings of the virtual machine.
pub struct Config {
    /// The number of primary process threads to run.
    pub primary_threads: u16,
    /// The number of blocking process threads to run.
    pub blocking_threads: u16,
    /// The number of threads to use for parsing bytecode images.
    pub bytecode_threads: u16,
    /// The number of reductions a process can perform before being suspended.
    pub reductions: usize,
    /// The maximum number of blocks to scan in a single recycling scan.
    pub recycle_blocks_per_scan: usize,
}

/// Raw values of the configuration's environment variables, as read by the
/// program (`None` for a variable that is not set).
pub struct EnvSettings {
    /// `INKO_PRIMARY_THREADS`.
    pub primary_threads: Option<String>,
    /// `INKO_BLOCKING_THREADS`.
    pub blocking_threads: Option<String>,
    /// `INKO_BYTECODE_THREADS`.
    pub bytecode_threads: Option<String>,
    /// `INKO_REDUCTIONS`.
    pub reductions: Option<String>,
    /// `INKO_RECYCLE_BLOCKS_PER_SCAN`.
    pub recycle_blocks_per_scan: Option<String>,
}

/// What `str::parse::<u16>` returns for a string.
pub uninterp spec fn parsed_u16(s: Seq<char>) -> Option<u16>;

/// What `str::parse::<usize>` returns for a string.
pub uninterp spec fn parsed_usize(s: Seq<char>) -> Option<usize>;

/// Parses a decimal `u16` with `str::parse`; the result depends on the
/// string alone and is named `parsed_u16`. Which strings it accepts is not
/// stated.
#[verifier::external_body]
fn parse_u16(s: &str) -> (r: Option<u16>)
    ensures
        r == parsed_u16(s@),
{
    s.parse::<u16>().ok()
}

/// Parses a decimal `usize` with `str::parse`; the result depends on the
/// string alone and is named `parsed_usize`. Which strings it accepts is not
/// stated.
#[verifier::external_body]
fn parse_usize(s: &str) -> (r: Option<usize>)
    ensures
        r == parsed_usize(s@),
{
    s.parse::<usize>().ok()
}

/// Calls `num_cpus::get`, which the crate documents to always return at least
/// one. The count itself depends on the machine and is not stated.
#[verifier::external_body]
fn cpu_count() -> (r: usize)
    ensures
        r >= 1,
{
    num_cpus::get()
}

/// The value a setting takes after applying a raw environment value: the
/// parsed value if there is one, else the current value.
pub open spec fn applied<T>(current: T, parsed: Option<T>) -> T {
    match parsed {
        Some(v) => v,
        None => current,
    }
}

/// The parsed value of an optional raw `u16` setting.
pub open spec fn raw_u16(raw: Option<String>) -> Option<u16> {
    match raw {
        Some(s) => parsed_u16(s@),
        None => None,
    }
}

/// The parsed value of an optional raw `usize` setting.
pub open spec fn raw_usize(raw: Option<String>) -> Option<usize> {
    match raw {
        Some(s) => parsed_usize(s@),
        None => None,
    }
}

fn apply_u16(current: u16, raw: &Option<String>) -> (r: u16)
    ensures
        r == applied(current, raw_u16(*raw)),
{
    match raw {
        Some(s) => match parse_u16(s.as_str()) {
            Some(v) => v,
            None => current,
        },
        None => current,
    }
}

fn apply_usize(current: usize, raw: &Option<String>) -> (r: usize)
    ensures
        r == applied(current, raw_usize(*raw)),
{
    match raw {
        Some(s) => match parse_usize(s.as_str()) {
            Some(v) => v,
            None => current,
        },
        None => current,
    }
}

impl Config {
    /// Returns the default configuration for a machine with `cpu_count` CPUs.
    pub fn for_cpu_count(cpu_count: usize) -> (r: Config)
        ensures
            r.primary_threads == cpu_count as u16,
            r.blocking_threads == cpu_count as u16,
            r.bytecode_threads == (if cpu_count < DEFAULT_BYTECODE_THREADS {
                cpu_count
            } else {
                DEFAULT_BYTECODE_THREADS
            }) as u16,
            r.reductions == DEFAULT_REDUCTIONS,
            r.recycle_blocks_per_scan == MAXIMUM_TIME_PER_RECYCLING_SCAN / ESTIMATED_TIME_PER_BLOCK,
    {
        let bytecode: usize = if cpu_count < DEFAULT_BYTECODE_THREADS {
            cpu_count
        } else {
            DEFAULT_BYTECODE_THREADS
        };
        Config {
            primary_threads: cpu_count as u16,
            blocking_threads: cpu_count as u16,
            bytecode_threads: bytecode as u16,
            reductions: DEFAULT_REDUCTIONS,
            recycle_blocks_per_scan: MAXIMUM_TIME_PER_RECYCLING_SCAN / ESTIMATED_TIME_PER_BLOCK,
        }
    }

    /// Returns the default configuration for this machine: the thread counts
    /// follow the number of CPUs, as `Config::for_cpu_count` states.
    pub fn new() -> (r: Config)
        ensures
            exists|n: usize|
                n >= 1 && #[trigger] Config::for_cpu_count_spec(n) == (
                r.primary_threads,
                r.blocking_threads,
                r.bytecode_threads,
                r.reductions,
                r.recycle_blocks_per_scan,
            ),
    {
        let count = cpu_count();
        let r = Config::for_cpu_count(count);
        assert(Config::for_cpu_count_spec(count) == (
            r.primary_threads,
            r.blocking_threads,
            r.bytecode_threads,
            r.reductions,
            r.recycle_blocks_per_scan,
        ));
        r
    }

    /// The settings that `Config::for_cpu_count(n)` produces, in field order.
    pub open spec fn for_cpu_count_spec(n: usize) -> (u16, u16, u16, usize, usize) {
        (
            n as u16,
            n as u16,
            (if n < DEFAULT_BYTECODE_THREADS {
                n
            } else {
                DEFAULT_BYTECODE_THREADS
            }) as u16,
            DEFAULT_REDUCTIONS,
            MAXIMUM_TIME_PER_RECYCLING_SCAN / ESTIMATED_TIME_PER_BLOCK,
        )
    }

    /// Populates the settings from the raw values of their environment
    /// variables: a value that parses replaces the setting, anything else
    /// leaves it as it is.
    pub fn populate_from_env(&mut self, env: &EnvSettings)
        ensures
            final(self).primary_threads == applied(old(self).primary_threads, raw_u16(env.primary_threads)),
            final(self).blocking_threads == applied(old(self).blocking_threads, raw_u16(env.blocking_threads)),
            final(self).bytecode_threads == applied(old(self).bytecode_threads, raw_u16(env.bytecode_threads)),
            final(self).reductions == applied(old(self).reductions, raw_usize(env.reductions)),
            final(self).recycle_blocks_per_scan == applied(
                old(self).recycle_blocks_per_scan,
                raw_usize(env.recycle_blocks_per_scan),
            ),
    {
        self.primary_threads = apply_u16(self.primary_threads, &env.primary_threads);
        self.blocking_threads = apply_u16(self.blocking_threads, &env.blocking_threads);
        self.bytecode_threads = apply_u16(self.bytecode_threads, &env.bytecode_threads);
        self.reductions = apply_usize(self.reductions, &env.reductions);
        self.recycle_blocks_per_scan = apply_usize(
            self.recycle_blocks_per_scan,
            &env.recycle_blocks_per_scan,
        );
    }
}

} // verus!
