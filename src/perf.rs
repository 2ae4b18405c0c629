//! The measurement adapter: one hardware counter, started and stopped around
//! each benchmark iteration, and the values it yields.
use crate::counter::{cleared, idle, running, Call, Counter, Setting, Setup};
use perfcnt::linux::PerfCounterBuilderLinux;
use vstd::prelude::*;

verus! {
/// An operation on the counter.
#[derive(Clone, Copy, Debug, PartialEq, Eq, Structural)]
pub enum Step {
    Create,
    Start,
    Stop,
    Read,
    Reset,
}

pub open spec fn step_message(s: Step) -> Seq<char> {
    match s {
        Step::Create => "Could not create counter"@,
        Step::Start => "Could not start perf counter"@,
        Step::Stop => "Could not stop perf counter"@,
        Step::Read => "Could not read perf counter"@,
        Step::Reset => "Could not reset perf counter"@,
    }
}

impl Step {
    /// What to report when this operation fails.
    pub fn message(&self) -> (r: &'static str)
        ensures
            r@ == step_message(*self),
    {
        match self {
            Step::Create => "Could not create counter",
            Step::Start => "Could not start perf counter",
            Step::Stop => "Could not stop perf counter",
            Step::Read => "Could not read perf counter",
            Step::Reset => "Could not reset perf counter",
        }
    }
}

/// A failed counter operation, with the system's error.
#[derive(Debug)]
pub struct CounterError {
    pub step: Step,
    pub source: std::io::Error,
}

/// Attributes the outcome of one counter operation to `step`: a success is
/// passed on unchanged, a failure keeps the system's error and names the step.
pub fn attribute<T>(step: Step, outcome: Result<T, std::io::Error>) -> (r: Result<T, CounterError>)
    ensures
        outcome is Ok <==> r is Ok,
        outcome is Ok ==> r->Ok_0 == outcome->Ok_0,
        outcome is Err ==> r->Err_0 == (CounterError { step, source: outcome->Err_0 }),
{
    match outcome {
        Ok(v) => Ok(v),
        Err(source) => Err(CounterError { step, source }),
    }
}

/// The result of a measurement whose count was read as `count`, given how
/// resetting the counter afterwards went: the count, or the reset's failure.
pub fn keep_count(count: Value, reset: Result<(), std::io::Error>) -> (r: Result<
    Value,
    CounterError,
>)
    ensures
        reset is Ok <==> r is Ok,
        r is Ok ==> r->Ok_0 == count,
        reset is Err ==> r->Err_0 == (CounterError { step: Step::Reset, source: reset->Err_0 }),
{
    match reset {
        Ok(()) => Ok(count),
        Err(source) => Err(CounterError { step: Step::Reset, source }),
    }
}

/// The count of one iteration.
pub type Value = u64;

/// The value that `add` combines two values into.
pub open spec fn combined(a: int, b: int) -> int {
    a + b
}

/// The value of no events.
pub open spec fn zero_value() -> int {
    0
}

/// Measures one hardware event of one process with a performance counter.
pub struct Perf {
    counter: Counter,
}

impl Perf {
    /// The settings the counter was opened with, in order.
    pub closed spec fn settings(&self) -> Seq<Setting> {
        self.counter.settings()
    }

    /// The calls made on the counter since it was opened, in order, with
    /// what each returned.
    pub closed spec fn history(&self) -> Seq<Call> {
        self.counter.history()
    }

    /// Opens the counter that `builder` describes, for process `pid`, in the
    /// disabled state.
    pub fn new(builder: PerfCounterBuilderLinux, pid: i32) -> (r: Result<Perf, CounterError>)
        ensures
            r is Ok ==> r->Ok_0.settings() == seq![Setting::ForPid(pid), Setting::Disable, Setting::Finish],
            r is Ok ==> r->Ok_0.history() == Seq::<Call>::empty(),
            r is Err ==> r->Err_0.step == Step::Create,
    {
        let mut setup = Setup::new(builder);
        setup.for_pid(pid);
        setup.disable();
        match attribute(Step::Create, setup.finish()) {
            Ok(counter) => {
                assert(counter.settings() =~= seq![Setting::ForPid(pid), Setting::Disable, Setting::Finish]);
                Ok(Perf { counter })
            },
            Err(e) => Err(e),
        }
    }

    /// Starts counting, from the count the counter holds. The token it
    /// returns carries nothing: the counter holds the running state.
    pub fn start(&mut self) -> (r: Result<u64, CounterError>)
        ensures
            final(self).history() == old(self).history().push(Call::Start { ok: r is Ok }),
            final(self).settings() == old(self).settings(),
            r is Ok ==> r->Ok_0 == 0 && running(final(self).history()),
            r is Err ==> r->Err_0.step == Step::Start,
    {
        match attribute(Step::Start, self.counter.start()) {
            Ok(()) => Ok(0),
            Err(e) => Err(e),
        }
    }

    /// Stops counting, reads the count and resets the counter to zero, in that
    /// order, and returns the count read. It stops at the first call that
    /// fails and reports it.
    pub fn end(&mut self, _token: u64) -> (r: Result<Value, CounterError>)
        ensures
            final(self).settings() == old(self).settings(),
            r is Ok ==> final(self).history() == old(self).history() + seq![
                Call::Stop { ok: true },
                Call::Read { count: Some(r->Ok_0) },
                Call::Reset { ok: true },
            ],
            r is Ok ==> cleared(final(self).history()),
            r is Err ==> r->Err_0.step == Step::Stop || r->Err_0.step == Step::Read
                || r->Err_0.step == Step::Reset,
            r is Err && r->Err_0.step == Step::Stop ==> final(self).history() == old(
                self,
            ).history().push(Call::Stop { ok: false }),
            r is Err && r->Err_0.step == Step::Read ==> final(self).history() == old(
                self,
            ).history() + seq![Call::Stop { ok: true }, Call::Read { count: None }],
            r is Err && r->Err_0.step == Step::Reset ==> exists|c: u64|
                final(self).history() == old(self).history() + seq![
                    Call::Stop { ok: true },
                    Call::Read { count: Some(c) },
                    Call::Reset { ok: false },
                ],
    {
        let ghost h = self.counter.history();
        let stopped = self.counter.stop();
        if let Err(source) = stopped {
            return Err(CounterError { step: Step::Stop, source });
        }
        let count = match self.counter.read() {
            Ok(v) => v,
            Err(source) => {
                assert(self.counter.history() =~= h + seq![Call::Stop { ok: true }, Call::Read { count: None }]);
                return Err(CounterError { step: Step::Read, source });
            },
        };
        let reset = self.counter.reset();
        let ghost h2 = self.counter.history();
        assert(h2 =~= h + seq![
            Call::Stop { ok: true },
            Call::Read { count: Some(count) },
            Call::Reset { ok: reset is Ok },
        ]);
        assert(h2.drop_last().drop_last().drop_last() =~= h);
        assert(h2.drop_last().drop_last().last() == Call::Stop { ok: true });
        assert(idle(h2.drop_last().drop_last()));
        assert(idle(h2.drop_last()));
        keep_count(count, reset)
    }

    /// Combines the counts of two iterations.
    pub fn add(v1: &Value, v2: &Value) -> (r: Value)
        requires
            *v1 + *v2 <= u64::MAX,
        ensures
            r == combined(*v1 as int, *v2 as int),
    {
        *v1 + *v2
    }

    /// The count of no events, the identity of `add`.
    pub fn zero() -> (r: Value)
        ensures
            r == zero_value(),
    {
        0
    }
}

/// Zero is the identity of `add` on either side, and such a sum never
/// overflows.
pub proof fn lemma_zero_is_identity(v: Value)
    ensures
        combined(zero_value(), v as int) == v,
        combined(v as int, zero_value()) == v,
        zero_value() + v <= u64::MAX,
{
}

/// `add` is commutative where the sum fits.
pub proof fn lemma_add_commutative(a: Value, b: Value)
    requires
        a + b <= u64::MAX,
    ensures
        combined(a as int, b as int) == combined(b as int, a as int),
{
}

/// `add` is associative where the total fits; then every partial sum fits too.
pub proof fn lemma_add_associative(a: Value, b: Value, c: Value)
    requires
        a + b + c <= u64::MAX,
    ensures
        combined(a as int, b as int) <= u64::MAX,
        combined(b as int, c as int) <= u64::MAX,
        combined(combined(a as int, b as int), c as int) == combined(
            a as int,
            combined(b as int, c as int),
        ),
{
}

} // verus!
