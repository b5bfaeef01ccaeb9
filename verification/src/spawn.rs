//! Planning the launch of a spawned engine.
//!
//! Launching the child process and wiring its pipes is I/O and stays outside
//! the library.  What is decided here: whether an inherited session is used
//! instead of spawning, which executable is run, and the exact argument list
//! it is given — the protocol-mode flag, the caller's extra arguments, then
//! the target path.

use vstd::prelude::*;

verus! {

/// How a spawned engine is launched: the executable to use (empty means the
/// platform default) and the extra arguments to pass before the target.
pub struct R2PipeSpawnOptions {
    pub exepath: String,
    pub args: Vec<&'static str>,
}

impl Default for R2PipeSpawnOptions {
    /// No executable override and no extra arguments.
    fn default() -> (r: Self)
        ensures
            r.exepath@ == Seq::<char>::empty(),
            r.args@ == Seq::<&'static str>::empty(),
    {
        R2PipeSpawnOptions { exepath: String::new(), args: Vec::new() }
    }
}

impl Clone for R2PipeSpawnOptions {
    /// A copy with the same executable and the same arguments.
    fn clone(&self) -> (r: Self)
        ensures
            r.exepath == self.exepath,
            r.args@ == self.args@,
    {
        let args = self.args.clone();
        proof {
            assert(args@ =~= self.args@) by {
                assert(forall|i: int| 0 <= i < self.args@.len() ==> args@[i] == self.args@[i])
                    by {
                    assert(forall|i: int|
                        0 <= i < self.args@.len() ==> cloned::<&'static str>(
                            self.args@[i],
                            #[trigger] args@[i],
                        ));
                }
            }
        }
        R2PipeSpawnOptions { exepath: self.exepath.clone(), args }
    }
}

/// The name of the engine executable where the caller overrides nothing.
pub open spec fn default_exe_name(windows: bool) -> Seq<char> {
    if windows {
        "radare2.exe"@
    } else {
        "r2"@
    }
}

/// The extra arguments the caller asked for, if any.
pub open spec fn opt_args(opts: Option<R2PipeSpawnOptions>) -> Seq<&'static str> {
    match opts {
        Some(o) => o.args@,
        None => Seq::empty(),
    }
}

/// True when a spawn request falls back to the inherited session: no name
/// was given and a session is already open around this process.
pub fn spawn_should_open(name: &str, has_session: bool) -> (r: bool)
    ensures
        r == (name@.len() == 0 && has_session),
{
    name.is_empty() && has_session
}

/// The executable a spawn request runs: the caller's override where options
/// were given, else the platform's canonical engine binary.
pub fn spawn_exepath(opts: &Option<R2PipeSpawnOptions>, windows: bool) -> (r: String)
    ensures
        opts matches Some(o) ==> r@ == o.exepath@,
        opts is None ==> r@ == default_exe_name(windows),
{
    match opts {
        Some(o) => o.exepath.clone(),
        None => {
            if windows {
                "radare2.exe".to_owned()
            } else {
                "r2".to_owned()
            }
        },
    }
}

/// The full argument list handed to the engine executable: the quiet
/// protocol-mode flag, then the caller's extra arguments, then the target
/// path.
pub fn spawn_args(name: &str, opts: &Option<R2PipeSpawnOptions>) -> (r: Vec<String>)
    ensures
        r@.len() == 2 + opt_args(*opts).len(),
        r@[0]@ == "-q0"@,
        forall|k: int|
            0 <= k < opt_args(*opts).len() ==> (#[trigger] r@[k + 1])@ == opt_args(*opts)[k]@,
        r@[r@.len() - 1]@ == name@,
{
    let mut argv: Vec<String> = Vec::new();
    argv.push("-q0".to_owned());
    match opts {
        Some(o) => {
            let m = o.args.len();
            let mut j: usize = 0;
            while j < m
                invariant
                    j <= m,
                    m == o.args@.len(),
                    opts matches Some(oo) && oo.args@ == o.args@,
                    argv@.len() == 1 + j,
                    argv@[0]@ == "-q0"@,
                    forall|k: int|
                        0 <= k < j ==> (#[trigger] argv@[k + 1])@ == o.args@[k]@,
                decreases m - j,
            {
                let a: &'static str = o.args[j];
                argv.push(a.to_owned());
                j += 1;
            }
        },
        None => {},
    }
    argv.push(name.to_owned());
    argv
}

} // verus!
