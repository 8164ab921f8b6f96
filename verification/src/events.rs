//! Event emitters whose work runs on other threads and whose events are
//! delivered to a JavaScript callback: which callback is bound, which events
//! are scheduled, and what is answered from what came back.

use crate::text::concat2;
use crate::values::Throw;
use vstd::prelude::*;
use vstd::string::*;

verus! {

/// The number of workers an emitter starts.
pub const EMITTER_WORKERS: u32 = 10;

/// What each worker reports to the collector when it is done.
pub const WORKER_REPORT: i32 = 10;

/// An event delivered to the callback: its name and its number.
#[derive(Debug, Clone)]
pub struct EmitterEvent {
    pub name: String,
    pub value: i32,
}

/// The number of successful receives in `received`.
pub open spec fn count_received(received: Seq<bool>) -> nat
    decreases received.len(),
{
    if received.len() == 0 {
        0
    } else {
        count_received(received.drop_last()) + (if received.last() {
            1nat
        } else {
            0nat
        })
    }
}

proof fn lemma_count_received_bound(received: Seq<bool>)
    ensures
        count_received(received) <= received.len(),
    decreases received.len(),
{
    if received.len() > 0 {
        lemma_count_received_bound(received.drop_last());
    }
}

/// The progress events, one per worker: `progress` with the worker's index.
pub fn progress_events() -> (r: Vec<EmitterEvent>)
    ensures
        r@.len() == EMITTER_WORKERS,
        forall|i: int|
            0 <= i < r@.len() ==> (#[trigger] r@[i]).name@ == "progress"@ && r@[i].value == i,
{
    let mut r: Vec<EmitterEvent> = Vec::new();
    let mut i: u32 = 0;
    while i < EMITTER_WORKERS
        invariant
            i <= EMITTER_WORKERS,
            r@.len() == i,
            forall|k: int|
                0 <= k < r@.len() ==> (#[trigger] r@[k]).name@ == "progress"@ && r@[k].value == k,
        decreases EMITTER_WORKERS - i,
    {
        r.push(EmitterEvent { name: String::from_str("progress"), value: i as i32 });
        i = i + 1;
    }
    r
}

/// The final event: `end` with the sum of the reports received, a receive
/// that failed counting as zero.
pub fn end_event(received: &[bool]) -> (e: EmitterEvent)
    requires
        received@.len() <= EMITTER_WORKERS,
    ensures
        e.name@ == "end"@,
        e.value == WORKER_REPORT * count_received(received@),
{
    let mut sum: i32 = 0;
    let mut i: usize = 0;
    while i < received.len()
        invariant
            i <= received@.len() <= EMITTER_WORKERS,
            sum == WORKER_REPORT * count_received(received@.subrange(0, i as int)),
        decreases received@.len() - i,
    {
        proof {
            assert(received@.subrange(0, i + 1).drop_last() =~= received@.subrange(0, i as int));
            lemma_count_received_bound(received@.subrange(0, i as int));
        }
        if received[i] {
            sum = sum + WORKER_REPORT;
        }
        i = i + 1;
    }
    assert(received@.subrange(0, received@.len() as int) =~= received@);
    EmitterEvent { name: String::from_str("end"), value: sum }
}

/// An emitter whose events go to its own `emit` method.
#[derive(Debug)]
pub struct Emitter {
    cb: Option<u64>,
}

impl View for Emitter {
    /// The handle of the bound callback, if one is bound.
    type V = Option<u64>;

    closed spec fn view(&self) -> Option<u64> {
        self.cb
    }
}

impl Emitter {
    /// An emitter with no callback bound.
    pub fn new() -> (e: Emitter)
        ensures
            e@ is None,
    {
        Emitter { cb: None }
    }

    /// Binds the callback with the handle `handler`.
    pub fn bind(&mut self, handler: u64)
        ensures
            final(self)@ == Some(handler),
    {
        self.cb = Some(handler);
    }

    /// Unbinds the callback; later starts schedule nothing.
    pub fn shutdown(&mut self)
        ensures
            final(self)@ is None,
    {
        self.cb = None;
    }

    /// The callback to which a start schedules its events; nothing is
    /// started when none is bound.
    pub fn start(&self) -> (r: Option<u64>)
        ensures
            r == self@,
    {
        self.cb
    }
}

/// The first event sent to the callback of a `TestEmitter`.
pub const TEST_EMITTER_QUERY: &'static str = "number";

/// What the callback of a `TestEmitter` gave back to the query.
#[derive(Debug)]
pub enum CallbackOutcome {
    /// A number, and whether it is twelve.
    Number { is_twelve: bool },
    /// A value that is not a number.
    NotNumber,
    /// The callback threw.
    Threw(Throw),
}

/// The command sent back to the callback after its answer.
pub fn test_emitter_command(outcome: &CallbackOutcome) -> (s: String)
    ensures
        s@ == (match *outcome {
            CallbackOutcome::Number { is_twelve } => if is_twelve {
                "done"@
            } else {
                "wrong number"@
            },
            CallbackOutcome::NotNumber => "no number returned"@,
            CallbackOutcome::Threw(_) => "threw JavaScript Error"@,
        }),
{
    match outcome {
        CallbackOutcome::Number { is_twelve } => {
            if *is_twelve {
                String::from_str("done")
            } else {
                String::from_str("wrong number")
            }
        },
        CallbackOutcome::NotNumber => String::from_str("no number returned"),
        CallbackOutcome::Threw(e) => {
            let s = concat2("threw ", e.message());
            proof {
                reveal_strlit("threw ");
                reveal_strlit("JavaScript Error");
                reveal_strlit("threw JavaScript Error");
            }
            s
        },
    }
}

/// An emitter whose events go to a callback given to its constructor.
#[derive(Debug)]
pub struct TestEmitter {
    cb: Option<u64>,
}

impl View for TestEmitter {
    /// The handle of the bound callback, if one is bound.
    type V = Option<u64>;

    closed spec fn view(&self) -> Option<u64> {
        self.cb
    }
}

impl TestEmitter {
    /// An emitter with no callback bound.
    pub fn new() -> (e: TestEmitter)
        ensures
            e@ is None,
    {
        TestEmitter { cb: None }
    }

    /// Binds the callback with the handle `handler`.
    pub fn bind(&mut self, handler: u64)
        ensures
            final(self)@ == Some(handler),
    {
        self.cb = Some(handler);
    }

    /// Unbinds the callback; later starts schedule nothing.
    pub fn shutdown(&mut self)
        ensures
            final(self)@ is None,
    {
        self.cb = None;
    }

    /// The callback that a start queries; nothing is started when none is
    /// bound.
    pub fn start(&self) -> (r: Option<u64>)
        ensures
            r == self@,
    {
        self.cb
    }
}

} // verus!
