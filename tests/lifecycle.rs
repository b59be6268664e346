use rembed::lifecycle::{Engine, LifecycleError, Phase};
use rembed::startup::{home_to_set, home_var, start_r, startup_args, unlimited_stack, Arch, Os, Platform};

fn linux() -> Platform {
    Platform { os: Os::Linux, arch: Arch::X86_64 }
}

#[test]
fn start_then_stop_once_each() {
    let mut e = Engine::new();
    assert_eq!(e.phase(), Phase::Uninitialized);
    assert_eq!(e.start(), Ok(()));
    assert_eq!(e.phase(), Phase::Running);
    assert!(e.is_running());
    assert_eq!(e.stop(), Ok(()));
    assert_eq!(e.phase(), Phase::Stopped);
    assert_eq!(e.start(), Err(LifecycleError::RestartAfterStop));
    assert_eq!(e.phase(), Phase::Stopped);
    assert_eq!(e.stop(), Err(LifecycleError::AlreadyStopped));
}

#[test]
fn second_start_while_running_is_refused() {
    let mut e = Engine::new();
    assert_eq!(e.start(), Ok(()));
    assert_eq!(e.start(), Err(LifecycleError::AlreadyRunning));
    assert_eq!(e.phase(), Phase::Running);
}

#[test]
fn stop_before_start_is_refused() {
    let mut e = Engine::new();
    assert_eq!(e.stop(), Err(LifecycleError::NotStarted));
    assert_eq!(e.phase(), Phase::Uninitialized);
}

#[test]
fn operations_guarded_by_phase() {
    let mut e = Engine::new();
    assert_eq!(e.ensure_running(), Err(LifecycleError::NotStarted));
    e.start().unwrap();
    assert_eq!(e.ensure_running(), Ok(()));
    e.stop().unwrap();
    assert_eq!(e.ensure_running(), Err(LifecycleError::AlreadyStopped));
}

#[test]
fn args_on_linux() {
    assert_eq!(startup_args(linux()), vec!["R", "--slave", "--no-save"]);
    assert!(unlimited_stack(linux()));
}

#[test]
fn args_on_32_bit_windows() {
    let p = Platform { os: Os::Windows, arch: Arch::X86 };
    assert_eq!(startup_args(p), vec!["R", "--arch=i386", "--slave", "--no-save"]);
    assert!(!unlimited_stack(p));
}

#[test]
fn args_on_64_bit_windows() {
    let p = Platform { os: Os::Windows, arch: Arch::X86_64 };
    assert_eq!(startup_args(p), vec!["R", "--slave", "--no-save"]);
    assert!(!unlimited_stack(p));
}

#[test]
fn home_default_only_when_absent() {
    assert_eq!(home_var(), "R_HOME");
    assert_eq!(home_to_set(&None), Some("/usr/lib/R".to_string()));
    assert_eq!(home_to_set(&Some("/opt/R".to_string())), None);
}

#[test]
fn start_r_plans_native_work() {
    let mut e = Engine::new();
    let plan = start_r(&mut e, linux(), &None).unwrap();
    assert_eq!(plan.set_home, Some("/usr/lib/R".to_string()));
    assert_eq!(plan.args, vec!["R", "--slave", "--no-save"]);
    assert!(plan.unlimited_stack);
    assert_eq!(e.phase(), Phase::Running);
}

#[test]
fn start_r_keeps_existing_home() {
    let mut e = Engine::new();
    let plan = start_r(&mut e, linux(), &Some("/opt/R".to_string())).unwrap();
    assert_eq!(plan.set_home, None);
}

#[test]
fn start_r_after_stop_is_refused() {
    let mut e = Engine::new();
    start_r(&mut e, linux(), &None).unwrap();
    e.stop().unwrap();
    assert!(matches!(start_r(&mut e, linux(), &None), Err(LifecycleError::RestartAfterStop)));
    assert_eq!(e.phase(), Phase::Stopped);
}
