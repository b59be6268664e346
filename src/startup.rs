use vstd::prelude::*;

use crate::lifecycle::{Engine, LifecycleError, start_result};

verus! {

/// Operating system of the build target.
#[derive(Clone, Copy, Debug, PartialEq, Eq, Structural)]
pub enum Os {
    Windows,
    Linux,
    MacOs,
    Other,
}

/// Processor architecture of the build target.
#[derive(Clone, Copy, Debug, PartialEq, Eq, Structural)]
pub enum Arch {
    X86,
    X86_64,
    Aarch64,
    Other,
}

/// The target that the host process was built for.
#[derive(Clone, Copy, Debug, PartialEq, Eq, Structural)]
pub struct Platform {
    pub os: Os,
    pub arch: Arch,
}

/// The name of the environment variable that locates the runtime's
/// installation.
pub open spec fn home_var_spec() -> Seq<char> {
    "R_HOME"@
}

/// The installation directory used when the environment names none.
pub open spec fn default_home_spec() -> Seq<char> {
    "/usr/lib/R"@
}

/// A 32-bit Windows build passes its architecture to the initializer.
pub open spec fn is_windows_x86(p: Platform) -> bool {
    p.os == Os::Windows && p.arch == Arch::X86
}

/// The argument vector handed to the native initializer.
pub open spec fn startup_args_spec(p: Platform) -> Seq<Seq<char>> {
    if is_windows_x86(p) {
        seq!["R"@, "--arch=i386"@, "--slave"@, "--no-save"@]
    } else {
        seq!["R"@, "--slave"@, "--no-save"@]
    }
}

/// The stack-depth override is unsafe on Windows, which keeps the native
/// default; elsewhere the limit is lifted.
pub open spec fn unlimited_stack_spec(p: Platform) -> bool {
    p.os != Os::Windows
}

/// The home directory to write into the environment, if any: the default,
/// and only when no value is present.
pub open spec fn home_to_set_spec(current: Option<Seq<char>>) -> Option<Seq<char>> {
    match current {
        Some(_) => None,
        None => Some(default_home_spec()),
    }
}

pub open spec fn strings_view(v: Seq<String>) -> Seq<Seq<char>> {
    v.map_values(|s: String| s@)
}

pub open spec fn opt_string_view(o: Option<String>) -> Option<Seq<char>> {
    match o {
        Some(s) => Some(s@),
        None => None,
    }
}

/// The native work of a start-up, in the order it is to be done: write the
/// home directory into the environment if `set_home` holds one, call the
/// initializer with `args`, lift the stack limit if `unlimited_stack`, then
/// set up the main loop.
pub struct StartPlan {
    pub set_home: Option<String>,
    pub args: Vec<String>,
    pub unlimited_stack: bool,
}

impl StartPlan {
    pub open spec fn matches(&self, p: Platform, current_home: Option<Seq<char>>) -> bool {
        &&& opt_string_view(self.set_home) == home_to_set_spec(current_home)
        &&& strings_view(self.args@) == startup_args_spec(p)
        &&& self.unlimited_stack == unlimited_stack_spec(p)
    }
}

/// The name of the environment variable read at start-up.
pub fn home_var() -> (r: String)
    ensures
        r@ == home_var_spec(),
{
    "R_HOME".to_string()
}

/// The argument vector for the native initializer on platform `p`.
pub fn startup_args(p: Platform) -> (r: Vec<String>)
    ensures
        strings_view(r@) == startup_args_spec(p),
{
    proof {
        reveal_strlit("R");
        reveal_strlit("--arch=i386");
        reveal_strlit("--slave");
        reveal_strlit("--no-save");
    }
    let mut r: Vec<String> = Vec::new();
    r.push("R".to_string());
    if p.os == Os::Windows && p.arch == Arch::X86 {
        r.push("--arch=i386".to_string());
    }
    r.push("--slave".to_string());
    r.push("--no-save".to_string());
    assert(strings_view(r@) =~= startup_args_spec(p));
    r
}

/// Whether the native stack-depth limit is lifted on platform `p`.
pub fn unlimited_stack(p: Platform) -> (r: bool)
    ensures
        r == unlimited_stack_spec(p),
{
    p.os != Os::Windows
}

/// The home directory to write into the environment, given what it holds
/// now (`None` when the variable is absent or unreadable).
pub fn home_to_set(current: &Option<String>) -> (r: Option<String>)
    ensures
        opt_string_view(r) == home_to_set_spec(opt_string_view(*current)),
{
    match current {
        Some(_) => None,
        None => Some("/usr/lib/R".to_string()),
    }
}

/// Starts the interpreter: records the transition on `engine` and returns
/// the native work to be done for platform `p`, given the current value of
/// the home variable. Refused, with nothing changed, unless the interpreter
/// has never been started.
pub fn start_r(engine: &mut Engine, p: Platform, current_home: &Option<String>) -> (r: Result<
    StartPlan,
    LifecycleError,
>)
    requires
        old(engine).wf(),
    ensures
        final(engine).wf(),
        match start_result(old(engine).phase_spec()) {
            Ok(ph) => r is Ok && r->Ok_0.matches(p, opt_string_view(*current_home))
                && final(engine).phase_spec() == ph
                && final(engine).starts() == old(engine).starts() + 1
                && final(engine).stops() == old(engine).stops(),
            Err(e) => r == Err::<StartPlan, LifecycleError>(e) && *final(engine) == *old(engine),
        },
{
    match engine.start() {
        Ok(()) => {
            let plan = StartPlan {
                set_home: home_to_set(current_home),
                args: startup_args(p),
                unlimited_stack: unlimited_stack(p),
            };
            Ok(plan)
        },
        Err(e) => Err(e),
    }
}

} // verus!
