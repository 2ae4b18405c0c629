//! The outside counter: perfcnt's Linux counter and its builder. Each is held
//! together with a record of the operations applied to it, which only the
//! wrappers of this module, one per perfcnt call, extend.
use perfcnt::linux::PerfCounter;
use perfcnt::linux::PerfCounterBuilderLinux;
use perfcnt::AbstractPerfCounter;
use vstd::prelude::*;

verus! {

#[verifier::external_type_specification]
#[verifier::external_body]
pub struct ExIoError(std::io::Error);

#[verifier::external_type_specification]
#[verifier::external_body]
pub struct ExPerfCounter(PerfCounter);

#[verifier::external_type_specification]
#[verifier::external_body]
pub struct ExPerfCounterBuilderLinux(PerfCounterBuilderLinux);

/// A setting applied to a counter description before the counter is opened.
#[derive(Clone, Copy, Debug, PartialEq, Eq, Structural)]
pub enum Setting {
    /// Observe the process with this id.
    ForPid(i32),
    /// Open the counter disabled.
    Disable,
    /// The counter was opened.
    Finish,
}

/// A call made on an open counter, with what it returned.
#[derive(Clone, Copy, Debug, PartialEq, Eq, Structural)]
pub enum Call {
    Start { ok: bool },
    Stop { ok: bool },
    /// The count read, if the read succeeded.
    Read { count: Option<u64> },
    Reset { ok: bool },
}

/// Whether the counter is known to be disabled after the calls `h`, made on a
/// counter that was opened disabled.
pub open spec fn idle(h: Seq<Call>) -> bool
    decreases h.len(),
{
    if h.len() == 0 {
        true
    } else {
        match h.last() {
            Call::Stop { ok } => ok,
            Call::Start { .. } => false,
            _ => idle(h.drop_last()),
        }
    }
}

/// Whether the counter is known to be counting after the calls `h`.
pub open spec fn running(h: Seq<Call>) -> bool
    decreases h.len(),
{
    if h.len() == 0 {
        false
    } else {
        match h.last() {
            Call::Start { ok } => ok,
            Call::Stop { .. } => false,
            _ => running(h.drop_last()),
        }
    }
}

/// Whether the counter is known to be disabled with a count of zero after
/// the calls `h`, made on a counter that was opened disabled.
pub open spec fn cleared(h: Seq<Call>) -> bool
    decreases h.len(),
{
    if h.len() == 0 {
        true
    } else {
        match h.last() {
            Call::Reset { ok } => ok && idle(h.drop_last()),
            Call::Stop { ok } => ok && cleared(h.drop_last()),
            Call::Start { .. } => false,
            Call::Read { .. } => cleared(h.drop_last()),
        }
    }
}

/// A counter description being configured.
pub struct Setup {
    builder: PerfCounterBuilderLinux,
    applied: Ghost<Seq<Setting>>,
}

impl Setup {
    /// The settings applied so far, in order.
    pub closed spec fn settings(&self) -> Seq<Setting> {
        self.applied@
    }

    /// Starts configuring `builder`.
    pub fn new(builder: PerfCounterBuilderLinux) -> (r: Setup)
        ensures
            r.settings() == Seq::<Setting>::empty(),
    {
        Setup { builder, applied: Ghost(Seq::empty()) }
    }

    /// Relies on PerfCounterBuilderLinux::for_pid: sets the process to observe.
    #[verifier::external_body]
    pub fn for_pid(&mut self, pid: i32)
        ensures
            final(self).settings() == old(self).settings().push(Setting::ForPid(pid)),
    {
        self.builder.for_pid(pid);
    }

    /// Relies on PerfCounterBuilderLinux::disable: the counter starts out disabled.
    #[verifier::external_body]
    pub fn disable(&mut self)
        ensures
            final(self).settings() == old(self).settings().push(Setting::Disable),
    {
        self.builder.disable();
    }

    /// Opens the counter described, or returns the system's error.
    pub fn finish(self) -> (r: Result<Counter, std::io::Error>)
        ensures
            r is Ok ==> r->Ok_0.settings() == self.settings().push(Setting::Finish),
            r is Ok ==> r->Ok_0.history() == Seq::<Call>::empty(),
    {
        match open_counter(&self.builder) {
            Ok(handle) => Ok(
                Counter {
                    handle,
                    settings: Ghost(self.applied@.push(Setting::Finish)),
                    calls: Ghost(Seq::empty()),
                },
            ),
            Err(e) => Err(e),
        }
    }
}

/// Relies on PerfCounterBuilderLinux::finish: opens the counter, or returns
/// the system's error.
#[verifier::external_body]
fn open_counter(builder: &PerfCounterBuilderLinux) -> (r: Result<PerfCounter, std::io::Error>) {
    builder.finish()
}

/// An open counter.
pub struct Counter {
    handle: PerfCounter,
    settings: Ghost<Seq<Setting>>,
    calls: Ghost<Seq<Call>>,
}

impl Counter {
    /// The settings it was opened with, in order.
    pub closed spec fn settings(&self) -> Seq<Setting> {
        self.settings@
    }

    /// The calls made on it since it was opened, in order.
    pub closed spec fn history(&self) -> Seq<Call> {
        self.calls@
    }

    /// Relies on AbstractPerfCounter::start for PerfCounter: enables counting.
    #[verifier::external_body]
    pub fn start(&mut self) -> (r: Result<(), std::io::Error>)
        ensures
            final(self).history() == old(self).history().push(Call::Start { ok: r is Ok }),
            final(self).settings() == old(self).settings(),
    {
        self.handle.start()
    }

    /// Relies on AbstractPerfCounter::stop for PerfCounter: disables counting.
    #[verifier::external_body]
    pub fn stop(&mut self) -> (r: Result<(), std::io::Error>)
        ensures
            final(self).history() == old(self).history().push(Call::Stop { ok: r is Ok }),
            final(self).settings() == old(self).settings(),
    {
        self.handle.stop()
    }

    /// Relies on AbstractPerfCounter::read for PerfCounter: the current count.
    #[verifier::external_body]
    pub fn read(&mut self) -> (r: Result<u64, std::io::Error>)
        ensures
            final(self).history() == old(self).history().push(
                Call::Read { count: if r is Ok { Some(r->Ok_0) } else { None } },
            ),
            final(self).settings() == old(self).settings(),
    {
        self.handle.read()
    }

    /// Relies on AbstractPerfCounter::reset for PerfCounter: sets the count to zero.
    #[verifier::external_body]
    pub fn reset(&mut self) -> (r: Result<(), std::io::Error>)
        ensures
            final(self).history() == old(self).history().push(Call::Reset { ok: r is Ok }),
            final(self).settings() == old(self).settings(),
    {
        self.handle.reset()
    }
}

} // verus!
