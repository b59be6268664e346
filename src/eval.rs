use vstd::prelude::*;

use crate::lifecycle::{Engine, LifecycleError, usable_in};
use crate::protect::ProtectStack;

verus! {

/// The parser's status code for a successful parse.
pub const PARSE_OK: u32 = 1;

/// The type tag of a double-precision numeric vector.
pub const REALSXP: u32 = 14;

/// Why a protected evaluation produced no value.
#[derive(Clone, Copy, Debug, PartialEq, Eq, Structural)]
pub enum EvalError {
    /// The parser reported this status instead of success.
    Parse(u32),
    /// The text parsed to no expression at all.
    NoExpression,
    /// The interpreter raised an error while evaluating.
    Runtime,
    /// The host reported an event that the current step does not expect.
    Protocol,
}

/// The step that a protected evaluation is waiting on.
#[derive(Clone, Copy, Debug, PartialEq, Eq, Structural)]
pub enum Stage {
    AwaitSource,
    AwaitSourceProtected,
    AwaitParse,
    AwaitParsedProtected,
    AwaitValue,
    AwaitPrinted,
    AwaitReleased,
    Finished,
}

/// What the host reports after doing the native work of an action.
#[derive(Clone, Copy, Debug)]
pub enum Event {
    /// The source text now exists as an interpreter string `handle`.
    SourceMade(u64),
    /// A protect, print or unprotect has been done.
    Done,
    /// The parser returned `handle` with `status`, holding `count`
    /// top-level expressions.
    Parsed { handle: u64, status: u32, count: u64 },
    /// Evaluating the first expression gave `handle`.
    Evaluated(u64),
    /// Evaluating the first expression raised an interpreter error.
    EvalFailed,
}

/// The native work that the host is to do next.
#[derive(Clone, Copy, Debug)]
pub enum Action {
    /// Wrap the source text as an interpreter string.
    MakeSource,
    /// Protect the handle from the collector.
    Protect(u64),
    /// Parse the string held by the handle.
    Parse(u64),
    /// Evaluate the first expression of the parse result in the global
    /// environment.
    Evaluate(u64),
    /// Print the value.
    Print(u64),
    /// Release this many of the most recent protections.
    Unprotect(usize),
    /// Nothing more to do: the evaluation's result. The value is no longer
    /// protected.
    Finish(Result<u64, EvalError>),
}

/// One parse-evaluate-print of source text under the protect/unprotect
/// discipline, driven one native step at a time.
#[derive(Clone, Copy, Debug)]
pub struct ProtectedEval {
    pub stage: Stage,
    pub print: bool,
    pub source: u64,
    pub parsed: u64,
    pub status: u32,
    pub count: u64,
    pub value: u64,
    pub outcome: Result<u64, EvalError>,
}

/// The handles that this evaluation holds protected at `s.stage`, oldest
/// first.
pub open spec fn held(s: ProtectedEval) -> Seq<u64> {
    match s.stage {
        Stage::AwaitSourceProtected | Stage::AwaitParse => seq![s.source],
        Stage::AwaitParsedProtected | Stage::AwaitValue | Stage::AwaitPrinted => seq![
            s.source,
            s.parsed,
        ],
        _ => Seq::empty(),
    }
}

/// The protection stack is the stack from before the evaluation with the
/// evaluation's own handles on top.
pub open spec fn consistent(s: ProtectedEval, stack: Seq<u64>) -> bool {
    let k = held(s).len();
    &&& k <= stack.len()
    &&& stack.subrange(stack.len() - k, stack.len() as int) =~= held(s)
}

/// A fresh evaluation, before any native work.
pub open spec fn begin_spec(print: bool) -> ProtectedEval {
    ProtectedEval {
        stage: Stage::AwaitSource,
        print,
        source: 0,
        parsed: 0,
        status: 0,
        count: 0,
        value: 0,
        outcome: Err(EvalError::Protocol),
    }
}

/// Releases the `n` handles held and records the outcome.
pub open spec fn release(s: ProtectedEval, stack: Seq<u64>, n: nat, out: Result<u64, EvalError>) -> (
    ProtectedEval,
    Seq<u64>,
    Action,
) {
    (
        ProtectedEval { stage: Stage::AwaitReleased, outcome: out, ..s },
        stack.subrange(0, stack.len() - n),
        Action::Unprotect(n as usize),
    )
}

/// The next state, protection stack and action after event `e`.
pub open spec fn step_spec(s: ProtectedEval, stack: Seq<u64>, e: Event) -> (
    ProtectedEval,
    Seq<u64>,
    Action,
) {
    match s.stage {
        Stage::AwaitSource => match e {
            Event::SourceMade(h) => (
                ProtectedEval { stage: Stage::AwaitSourceProtected, source: h, ..s },
                stack.push(h),
                Action::Protect(h),
            ),
            _ => (
                ProtectedEval { stage: Stage::Finished, outcome: Err(EvalError::Protocol), ..s },
                stack,
                Action::Finish(Err(EvalError::Protocol)),
            ),
        },
        Stage::AwaitSourceProtected => match e {
            Event::Done => (
                ProtectedEval { stage: Stage::AwaitParse, ..s },
                stack,
                Action::Parse(s.source),
            ),
            _ => release(s, stack, 1, Err(EvalError::Protocol)),
        },
        Stage::AwaitParse => match e {
            Event::Parsed { handle, status, count } => (
                ProtectedEval {
                    stage: Stage::AwaitParsedProtected,
                    parsed: handle,
                    status,
                    count,
                    ..s
                },
                stack.push(handle),
                Action::Protect(handle),
            ),
            _ => release(s, stack, 1, Err(EvalError::Protocol)),
        },
        Stage::AwaitParsedProtected => match e {
            Event::Done => if s.status != PARSE_OK {
                release(s, stack, 2, Err(EvalError::Parse(s.status)))
            } else if s.count == 0 {
                release(s, stack, 2, Err(EvalError::NoExpression))
            } else {
                (ProtectedEval { stage: Stage::AwaitValue, ..s }, stack, Action::Evaluate(s.parsed))
            },
            _ => release(s, stack, 2, Err(EvalError::Protocol)),
        },
        Stage::AwaitValue => match e {
            Event::Evaluated(v) => if s.print {
                (ProtectedEval { stage: Stage::AwaitPrinted, value: v, ..s }, stack, Action::Print(v))
            } else {
                release(ProtectedEval { value: v, ..s }, stack, 2, Ok(v))
            },
            Event::EvalFailed => release(s, stack, 2, Err(EvalError::Runtime)),
            _ => release(s, stack, 2, Err(EvalError::Protocol)),
        },
        Stage::AwaitPrinted => match e {
            Event::Done => release(s, stack, 2, Ok(s.value)),
            _ => release(s, stack, 2, Err(EvalError::Protocol)),
        },
        _ => (ProtectedEval { stage: Stage::Finished, ..s }, stack, Action::Finish(s.outcome)),
    }
}

/// Each step keeps the record of protections consistent with the handles
/// that the evaluation holds.
pub proof fn lemma_step_consistent(s: ProtectedEval, stack: Seq<u64>, e: Event)
    requires
        consistent(s, stack),
    ensures
        consistent(step_spec(s, stack, e).0, step_spec(s, stack, e).1),
{
    let k0 = held(s).len();
    assert forall|i: int| 0 <= i < k0 implies stack[stack.len() - k0 + i] == held(s)[i] by {
        assert(stack.subrange(stack.len() - k0, stack.len() as int)[i] == held(s)[i]);
    }
    let (s1, st1, _) = step_spec(s, stack, e);
    let k = held(s1).len();
    if k == 0 {
        assert(st1.subrange(st1.len() - k, st1.len() as int) =~= held(s1));
    } else if s.stage == s1.stage {
        assert(st1 == stack);
        assert(held(s1) == held(s));
    } else if s1.stage == Stage::AwaitParse || s1.stage == Stage::AwaitValue {
        assert(st1 == stack);
        assert(held(s1) =~= held(s));
    } else if s1.stage == Stage::AwaitPrinted {
        assert(st1 == stack);
        assert(held(s1) =~= held(s));
    } else if s1.stage == Stage::AwaitSourceProtected {
        assert(st1 == stack.push(s1.source));
        assert(st1.subrange(st1.len() - k, st1.len() as int) =~= held(s1));
    } else {
        assert(s.stage == Stage::AwaitParse);
        assert(st1 == stack.push(s1.parsed));
        assert(held(s).len() == 1 && held(s)[0] == s.source);
        assert(stack[stack.len() - 1 + 0] == held(s)[0]);
        assert(st1[st1.len() - 2] == s.source);
        assert(st1.subrange(st1.len() - k, st1.len() as int) =~= held(s1));
    }
}

/// How many more events an evaluation at stage `st` can take before it has
/// finished.
pub open spec fn steps_left(st: Stage) -> nat {
    match st {
        Stage::AwaitSource => 7,
        Stage::AwaitSourceProtected => 6,
        Stage::AwaitParse => 5,
        Stage::AwaitParsedProtected => 4,
        Stage::AwaitValue => 3,
        Stage::AwaitPrinted => 2,
        Stage::AwaitReleased => 1,
        Stage::Finished => 0,
    }
}

/// The part of the protection stack below the evaluation's own handles.
pub open spec fn below(s: ProtectedEval, stack: Seq<u64>) -> Seq<u64> {
    stack.subrange(0, stack.len() - held(s).len())
}

/// The state and protection stack after the host reports `events` in turn.
pub open spec fn run(s: ProtectedEval, stack: Seq<u64>, events: Seq<Event>) -> (
    ProtectedEval,
    Seq<u64>,
) decreases events.len(),
{
    if events.len() == 0 {
        (s, stack)
    } else {
        let (s1, st1, _) = step_spec(s, stack, events[0]);
        run(s1, st1, events.drop_first())
    }
}

proof fn lemma_step_progress(s: ProtectedEval, stack: Seq<u64>, e: Event)
    requires
        consistent(s, stack),
    ensures
        below(step_spec(s, stack, e).0, step_spec(s, stack, e).1) == below(s, stack),
        steps_left(s.stage) == 0 ==> step_spec(s, stack, e).0.stage == Stage::Finished,
        steps_left(s.stage) > 0 ==> steps_left(step_spec(s, stack, e).0.stage) < steps_left(
            s.stage,
        ),
{
    lemma_step_consistent(s, stack, e);
    let (s1, st1, _) = step_spec(s, stack, e);
    assert(below(s1, st1) =~= below(s, stack));
}

proof fn lemma_run(s: ProtectedEval, stack: Seq<u64>, events: Seq<Event>)
    requires
        consistent(s, stack),
    ensures
        consistent(run(s, stack, events).0, run(s, stack, events).1),
        below(run(s, stack, events).0, run(s, stack, events).1) == below(s, stack),
        events.len() >= steps_left(s.stage) ==> run(s, stack, events).0.stage == Stage::Finished,
    decreases events.len(),
{
    if events.len() > 0 {
        lemma_step_consistent(s, stack, events[0]);
        lemma_step_progress(s, stack, events[0]);
        let (s1, st1, _) = step_spec(s, stack, events[0]);
        lemma_run(s1, st1, events.drop_first());
    }
}

/// Whatever the host reports, an evaluation leaves the protections that were
/// there before it alone; it finishes after at most seven events, and from
/// the moment it releases its handles the stack is exactly as it was
/// before: every protect is matched by one unprotect, newest first.
pub proof fn lemma_protection_balanced(base: Seq<u64>, print: bool, events: Seq<Event>)
    ensures
        run(begin_spec(print), base, events).1.len() >= base.len(),
        run(begin_spec(print), base, events).1.subrange(0, base.len() as int) == base,
        run(begin_spec(print), base, events).0.stage == Stage::AwaitReleased ==> run(
            begin_spec(print),
            base,
            events,
        ).1 == base,
        run(begin_spec(print), base, events).0.stage == Stage::Finished ==> run(
            begin_spec(print),
            base,
            events,
        ).1 == base,
        events.len() >= 7 ==> run(begin_spec(print), base, events).0.stage == Stage::Finished,
{
    let s = begin_spec(print);
    assert(base.subrange(0, base.len() as int) =~= base);
    assert(base.subrange(base.len() as int, base.len() as int) =~= Seq::<u64>::empty());
    assert(consistent(s, base));
    lemma_run(s, base, events);
    let (s2, st2) = run(s, base, events);
    let k = held(s2).len();
    assert(st2.subrange(0, st2.len() - k) == base);
    assert(st2.subrange(0, base.len() as int) =~= st2.subrange(0, st2.len() - k).subrange(
        0,
        base.len() as int,
    ));
    if s2.stage == Stage::AwaitReleased || s2.stage == Stage::Finished {
        assert(st2 =~= st2.subrange(0, st2.len() - k));
    }
}

/// The events of an evaluation whose text parses to `count` expressions and
/// whose first expression raises an interpreter error.
pub open spec fn failing_events(src: u64, parsed: u64, count: u64) -> Seq<Event> {
    seq![
        Event::SourceMade(src),
        Event::Done,
        Event::Parsed { handle: parsed, status: PARSE_OK, count },
        Event::Done,
        Event::EvalFailed,
        Event::Done,
    ]
}

/// An error raised inside the interpreter, such as a call of an undefined
/// function, is reported as `Runtime` rather than ending the process; all
/// protections are released, and since an evaluation never changes the
/// engine, the interpreter stays running for the next one.
pub proof fn lemma_runtime_error_reported(
    base: Seq<u64>,
    print: bool,
    src: u64,
    parsed: u64,
    count: u64,
)
    requires
        count > 0,
    ensures
        run(begin_spec(print), base, failing_events(src, parsed, count)).0.stage
            == Stage::Finished,
        run(begin_spec(print), base, failing_events(src, parsed, count)).0.outcome == Err::<
            u64,
            EvalError,
        >(EvalError::Runtime),
        run(begin_spec(print), base, failing_events(src, parsed, count)).1 == base,
{
    let e0 = failing_events(src, parsed, count);
    let e1 = e0.drop_first();
    let e2 = e1.drop_first();
    let e3 = e2.drop_first();
    let e4 = e3.drop_first();
    let e5 = e4.drop_first();
    let e6 = e5.drop_first();
    assert(e1[0] == e0[1] && e2[0] == e0[2] && e3[0] == e0[3]);
    assert(e4[0] == e0[4] && e5[0] == e0[5] && e6.len() == 0);
    let s0 = begin_spec(print);
    let (s1, t1, _) = step_spec(s0, base, e0[0]);
    let (s2, t2, _) = step_spec(s1, t1, e1[0]);
    let (s3, t3, _) = step_spec(s2, t2, e2[0]);
    let (s4, t4, _) = step_spec(s3, t3, e3[0]);
    let (s5, t5, _) = step_spec(s4, t4, e4[0]);
    let (s6, t6, _) = step_spec(s5, t5, e5[0]);
    assert(run(s6, t6, e6) == (s6, t6));
    assert(run(s5, t5, e5) == run(s6, t6, e6));
    assert(run(s4, t4, e4) == run(s5, t5, e5));
    assert(run(s3, t3, e3) == run(s4, t4, e4));
    assert(run(s2, t2, e2) == run(s3, t3, e3));
    assert(run(s1, t1, e1) == run(s2, t2, e2));
    assert(run(s0, base, e0) == run(s1, t1, e1));
    assert(t5 =~= base);
}

/// Whether a value's type tag marks a double-precision numeric vector.
pub fn is_real(tag: u32) -> (r: bool)
    ensures
        r == (tag == REALSXP),
{
    tag == REALSXP
}

impl ProtectedEval {
    /// Begins an evaluation, printing its value if `print`. Refused unless
    /// the interpreter is running. The first native step is always to make
    /// the source string.
    pub fn begin(engine: &Engine, print: bool) -> (r: Result<(ProtectedEval, Action), LifecycleError>)
        ensures
            match usable_in(engine.phase_spec()) {
                Ok(_) => r is Ok && r->Ok_0.0 == begin_spec(print) && r->Ok_0.1 == Action::MakeSource,
                Err(e) => r == Err::<(ProtectedEval, Action), LifecycleError>(e),
            },
    {
        match engine.ensure_running() {
            Ok(()) => {
                let s = ProtectedEval {
                    stage: Stage::AwaitSource,
                    print,
                    source: 0,
                    parsed: 0,
                    status: 0,
                    count: 0,
                    value: 0,
                    outcome: Err(EvalError::Protocol),
                };
                Ok((s, Action::MakeSource))
            },
            Err(e) => Err(e),
        }
    }

    fn release(&mut self, stack: &mut ProtectStack, n: usize, out: Result<u64, EvalError>) -> (r: Action)
        requires
            n <= old(stack)@.len(),
        ensures
            (*final(self), final(stack)@, r) == release(*old(self), old(stack)@, n as nat, out),
    {
        stack.unprotect(n);
        self.stage = Stage::AwaitReleased;
        self.outcome = out;
        Action::Unprotect(n)
    }

    /// Takes the host's report on the last action, updates the record of
    /// protections exactly as the interpreter's stack changes, and returns
    /// the next action.
    pub fn step(&mut self, stack: &mut ProtectStack, e: Event) -> (r: Action)
        requires
            consistent(*old(self), old(stack)@),
            old(stack)@.len() + 2 <= usize::MAX,
        ensures
            (*final(self), final(stack)@, r) == step_spec(*old(self), old(stack)@, e),
            consistent(*final(self), final(stack)@),
    {
        let ghost s0 = *self;
        let ghost st0 = stack@;
        let r = match self.stage {
            Stage::AwaitSource => match e {
                Event::SourceMade(h) => {
                    stack.protect(h);
                    self.stage = Stage::AwaitSourceProtected;
                    self.source = h;
                    Action::Protect(h)
                },
                _ => {
                    self.stage = Stage::Finished;
                    self.outcome = Err(EvalError::Protocol);
                    Action::Finish(Err(EvalError::Protocol))
                },
            },
            Stage::AwaitSourceProtected => match e {
                Event::Done => {
                    self.stage = Stage::AwaitParse;
                    Action::Parse(self.source)
                },
                _ => self.release(stack, 1, Err(EvalError::Protocol)),
            },
            Stage::AwaitParse => match e {
                Event::Parsed { handle, status, count } => {
                    stack.protect(handle);
                    self.stage = Stage::AwaitParsedProtected;
                    self.parsed = handle;
                    self.status = status;
                    self.count = count;
                    Action::Protect(handle)
                },
                _ => self.release(stack, 1, Err(EvalError::Protocol)),
            },
            Stage::AwaitParsedProtected => match e {
                Event::Done => {
                    if self.status != PARSE_OK {
                        let st = self.status;
                        self.release(stack, 2, Err(EvalError::Parse(st)))
                    } else if self.count == 0 {
                        self.release(stack, 2, Err(EvalError::NoExpression))
                    } else {
                        self.stage = Stage::AwaitValue;
                        Action::Evaluate(self.parsed)
                    }
                },
                _ => self.release(stack, 2, Err(EvalError::Protocol)),
            },
            Stage::AwaitValue => match e {
                Event::Evaluated(v) => {
                    self.value = v;
                    if self.print {
                        self.stage = Stage::AwaitPrinted;
                        Action::Print(v)
                    } else {
                        self.release(stack, 2, Ok(v))
                    }
                },
                Event::EvalFailed => self.release(stack, 2, Err(EvalError::Runtime)),
                _ => self.release(stack, 2, Err(EvalError::Protocol)),
            },
            Stage::AwaitPrinted => match e {
                Event::Done => {
                    let v = self.value;
                    self.release(stack, 2, Ok(v))
                },
                _ => self.release(stack, 2, Err(EvalError::Protocol)),
            },
            _ => {
                self.stage = Stage::Finished;
                Action::Finish(self.outcome)
            },
        };
        proof {
            lemma_step_consistent(s0, st0, e);
        }
        r
    }
}

} // verus!
