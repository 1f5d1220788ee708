//! Builder for FFmpeg subprocess invocations: the argument list, a timeout,
//! and the file the command writes; and the files it reads, which are the
//! arguments that follow `-i`.

use vstd::prelude::*;
use std::time::Duration;

verus! {

/// The duration of `secs` whole seconds (`Duration::from_secs`).
pub uninterp spec fn duration_of_secs(secs: u64) -> Duration;

/// `Duration::from_secs`.
#[verifier::external_body]
fn duration_from_secs(secs: u64) -> (d: Duration)
    ensures
        d == duration_of_secs(secs),
{
    Duration::from_secs(secs)
}

/// Default timeout of one FFmpeg subprocess, in seconds (ten minutes).
pub const DEFAULT_TIMEOUT_SECS: u64 = 600;

/// The default timeout of one FFmpeg subprocess.
pub fn default_timeout() -> (d: Duration)
    ensures
        d == duration_of_secs(DEFAULT_TIMEOUT_SECS),
{
    duration_from_secs(DEFAULT_TIMEOUT_SECS)
}

/// Builder for an FFmpeg subprocess invocation.
pub struct FfmpegCommand {
    /// The arguments, in order.
    pub args: Vec<String>,
    /// How long the command may run.
    pub timeout: Duration,
    /// The file the command writes, when known.
    pub output_path: Option<String>,
}

/// The arguments that directly follow a `-i` flag, in order.
pub open spec fn inputs_of(args: Seq<Seq<char>>) -> Seq<Seq<char>>
    decreases args.len(),
{
    if args.len() < 2 {
        Seq::empty()
    } else {
        let prev = inputs_of(args.drop_last());
        if args[args.len() - 2] == "-i"@ {
            prev.push(args.last())
        } else {
            prev
        }
    }
}

/// The character sequences of a vector of strings.
pub open spec fn arg_views(v: Seq<String>) -> Seq<Seq<char>> {
    v.map_values(|s: String| s@)
}

impl FfmpegCommand {
    /// A builder with no arguments, the default timeout and no output file.
    pub fn new() -> (c: FfmpegCommand)
        ensures
            c.args@.len() == 0,
            c.timeout == duration_of_secs(DEFAULT_TIMEOUT_SECS),
            c.output_path is None,
    {
        FfmpegCommand { args: Vec::new(), timeout: default_timeout(), output_path: None }
    }

    /// Push a single argument.
    pub fn arg(self, a: &str) -> (c: FfmpegCommand)
        ensures
            arg_views(c.args@) == arg_views(self.args@).push(a@),
            c.timeout == self.timeout,
            c.output_path == self.output_path,
    {
        let mut c = self;
        c.args.push(String::from_str(a));
        proof {
            assert(arg_views(c.args@) =~= arg_views(self.args@).push(a@));
        }
        c
    }

    /// Push several arguments, in order.
    pub fn args(self, items: &[&str]) -> (c: FfmpegCommand)
        ensures
            arg_views(c.args@) == arg_views(self.args@) + items@.map_values(|s: &str| s@),
            c.timeout == self.timeout,
            c.output_path == self.output_path,
    {
        let mut c = self;
        let n = items.len();
        let mut i: usize = 0;
        while i < n
            invariant
                n == items@.len(),
                i <= n,
                arg_views(c.args@) == arg_views(self.args@) + items@.take(i as int).map_values(|s: &str| s@),
                c.timeout == self.timeout,
                c.output_path == self.output_path,
            decreases n - i,
        {
            let ghost before = c.args@;
            c.args.push(String::from_str(items[i]));
            proof {
                assert(arg_views(c.args@) =~= arg_views(before).push(items@[i as int]@));
                assert(items@.take(i + 1).map_values(|s: &str| s@) =~= items@.take(i as int).map_values(
                    |s: &str| s@,
                ).push(items@[i as int]@));
                assert(arg_views(c.args@) =~= arg_views(self.args@) + items@.take(i + 1).map_values(
                    |s: &str| s@,
                ));
            }
            i += 1;
        }
        proof {
            assert(items@.take(n as int) =~= items@);
        }
        c
    }

    /// Set a custom timeout.
    pub fn timeout(self, d: Duration) -> (c: FfmpegCommand)
        ensures
            c.args@ == self.args@,
            c.timeout == d,
            c.output_path == self.output_path,
    {
        FfmpegCommand { timeout: d, ..self }
    }

    /// Name the file the command writes.
    pub fn output_file(self, path: &str) -> (c: FfmpegCommand)
        ensures
            c.args@ == self.args@,
            c.timeout == self.timeout,
            c.output_path matches Some(p) && p@ == path@,
    {
        FfmpegCommand { output_path: Some(String::from_str(path)), ..self }
    }

    /// The files the command reads: each argument that follows `-i`.
    pub fn input_files(&self) -> (r: Vec<String>)
        ensures
            arg_views(r@) == inputs_of(arg_views(self.args@)),
    {
        let flag = String::from_str("-i");
        let mut r: Vec<String> = Vec::new();
        let n = self.args.len();
        if n < 2 {
            proof {
                assert(arg_views(r@) =~= inputs_of(arg_views(self.args@)));
            }
            return r;
        }
        let mut i: usize = 1;
        proof {
            assert(arg_views(self.args@).take(1).len() < 2);
            assert(arg_views(r@) =~= inputs_of(arg_views(self.args@).take(1)));
        }
        while i < n
            invariant
                n == self.args@.len(),
                1 <= i <= n,
                flag@ == "-i"@,
                arg_views(r@) == inputs_of(arg_views(self.args@).take(i as int)),
            decreases n - i,
        {
            let ghost a = arg_views(self.args@);
            proof {
                assert(a.take(i + 1).drop_last() =~= a.take(i as int));
                assert(a.take(i + 1)[i - 1] == a[i - 1]);
            }
            if self.args[i - 1] == flag {
                r.push(self.args[i].clone());
                proof {
                    assert(arg_views(r@) =~= inputs_of(a.take(i as int)).push(a[i as int]));
                }
            }
            i += 1;
        }
        proof {
            assert(arg_views(self.args@).take(n as int) =~= arg_views(self.args@));
        }
        r
    }

    /// A command for an already-built argument list: the last argument names
    /// the output file unless it is a flag (starts with `-`).
    pub fn for_args(args: &[String]) -> (c: FfmpegCommand)
        ensures
            arg_views(c.args@) == args@.map_values(|s: String| s@),
            c.timeout == duration_of_secs(DEFAULT_TIMEOUT_SECS),
            args@.len() == 0 ==> c.output_path is None,
            args@.len() > 0 ==> (if args@.last()@.len() > 0 && args@.last()@[0] == '-' {
                c.output_path is None
            } else {
                c.output_path matches Some(p) && p@ == args@.last()@
            }),
    {
        let mut c = FfmpegCommand::new();
        let n = args.len();
        if n > 0 {
            let last = args[n - 1].as_str();
            let flag = !last.is_empty() && last.get_char(0) == '-';
            if !flag {
                c = c.output_file(last);
            }
        }
        let mut i: usize = 0;
        while i < n
            invariant
                n == args@.len(),
                i <= n,
                arg_views(c.args@) == args@.take(i as int).map_values(|s: String| s@),
                c.timeout == duration_of_secs(DEFAULT_TIMEOUT_SECS),
                n == 0 ==> c.output_path is None,
                n > 0 ==> (if args@.last()@.len() > 0 && args@.last()@[0] == '-' {
                    c.output_path is None
                } else {
                    c.output_path matches Some(p) && p@ == args@.last()@
                }),
            decreases n - i,
        {
            let ghost before = c.args@;
            c.args.push(args[i].clone());
            proof {
                assert(arg_views(c.args@) =~= arg_views(before).push(args@[i as int]@));
                assert(args@.take(i + 1).map_values(|s: String| s@) =~= args@.take(i as int).map_values(
                    |s: String| s@,
                ).push(args@[i as int]@));
                assert(arg_views(c.args@) =~= args@.take(i + 1).map_values(|s: String| s@));
            }
            i += 1;
        }
        proof {
            assert(args@.take(n as int) =~= args@);
        }
        c
    }
}

impl Default for FfmpegCommand {
    fn default() -> (c: FfmpegCommand)
        ensures
            c.args@.len() == 0,
            c.timeout == duration_of_secs(DEFAULT_TIMEOUT_SECS),
            c.output_path is None,
    {
        FfmpegCommand::new()
    }
}

} // verus!
