use vstd::prelude::*;

verus! {

/// One element of the retry schedule: how long to wait before the next
/// reading and how long a notification stays visible, in milliseconds.
#[derive(Debug, Clone, Copy, PartialEq, Eq, Structural)]
pub struct MonitorResponse {
    pub delay: i32,
    pub duration: i32,
}

impl MonitorResponse {
    /// The delay to wait, in milliseconds; a negative delay counts as none.
    pub fn wait_ms(&self) -> (r: u64)
        ensures
            r == (if self.delay > 0 {
                self.delay as int
            } else {
                0
            }),
    {
        if self.delay > 0 {
            self.delay as u64
        } else {
            0
        }
    }
}

pub const DEFAULT_RETRIES: i32 = 10;

pub const DEFAULT_NORMAL_DELAY: i32 = 5000;

pub const DEFAULT_DELAY: i32 = 5000;

pub const DEFAULT_DURATION: i32 = 2000;

/// The element that a schedule without a generator hands out.
pub open spec fn default_response() -> MonitorResponse {
    MonitorResponse { delay: DEFAULT_DELAY, duration: DEFAULT_DURATION }
}

/// How a schedule is built: its length, its base delay, and the function
/// that produces each element.
pub struct MonitorSettings<F> {
    pub retries: i32,
    pub normal_delay: i32,
    pub response_generator: F,
}

/// `r` is an element that `generator` may produce (`None` stands for the
/// default profile).
pub open spec fn generated_by<F: Fn() -> MonitorResponse>(
    generator: Option<F>,
    r: MonitorResponse,
) -> bool {
    match generator {
        Some(f) => f.ensures((), r),
        None => r == default_response(),
    }
}

/// `generator` may be called.
pub open spec fn can_generate<F: Fn() -> MonitorResponse>(generator: Option<F>) -> bool {
    match generator {
        Some(f) => f.requires(()),
        None => true,
    }
}

/// The number of elements a schedule built with `retries` hands out.
pub open spec fn schedule_length(retries: i32) -> nat {
    if retries > 0 {
        retries as nat
    } else {
        0
    }
}

/// A finite schedule of retries. Each call of `next` hands out one element
/// until the schedule is exhausted; a new schedule is built to run again.
pub struct Monitor<F> {
    normal_delay: i32,
    pending: i32,
    response_generator: Option<F>,
}

impl<F: Fn() -> MonitorResponse> Monitor<F> {
    /// Elements still to be handed out.
    pub closed spec fn remaining(&self) -> nat {
        schedule_length(self.pending)
    }

    /// The function that produces each element; `None` for the default profile.
    pub closed spec fn generator(&self) -> Option<F> {
        self.response_generator
    }

    pub closed spec fn spec_normal_delay(&self) -> i32 {
        self.normal_delay
    }

    /// A schedule built from `settings`, or from the default profile (ten
    /// elements of a 5000 ms delay and a 2000 ms duration, base delay 5000 ms)
    /// when there are none.
    pub fn new(settings: Option<MonitorSettings<F>>) -> (r: Self)
        ensures
            match settings {
                Some(s) => {
                    &&& r.remaining() == schedule_length(s.retries)
                    &&& r.generator() == Some(s.response_generator)
                    &&& r.spec_normal_delay() == s.normal_delay
                },
                None => {
                    &&& r.remaining() == schedule_length(DEFAULT_RETRIES)
                    &&& r.generator() is None
                    &&& r.spec_normal_delay() == DEFAULT_NORMAL_DELAY
                },
            },
    {
        match settings {
            Some(s) => Monitor {
                normal_delay: s.normal_delay,
                pending: s.retries,
                response_generator: Some(s.response_generator),
            },
            None => Monitor {
                normal_delay: DEFAULT_NORMAL_DELAY,
                pending: DEFAULT_RETRIES,
                response_generator: None,
            },
        }
    }

    /// The base delay between readings, in milliseconds.
    pub fn normal_delay(&self) -> (r: i32)
        ensures
            r == self.spec_normal_delay(),
    {
        self.normal_delay
    }

    /// The next element of the schedule, or `None` once it is exhausted.
    pub fn next(&mut self) -> (r: Option<MonitorResponse>)
        requires
            can_generate(old(self).generator()),
        ensures
            final(self).generator() == old(self).generator(),
            final(self).spec_normal_delay() == old(self).spec_normal_delay(),
            old(self).remaining() > 0 ==> {
                &&& final(self).remaining() == old(self).remaining() - 1
                &&& r matches Some(x) && generated_by(old(self).generator(), x)
            },
            old(self).remaining() == 0 ==> final(self).remaining() == 0 && r is None,
    {
        if self.pending > 0 {
            self.pending = self.pending - 1;
            match &self.response_generator {
                Some(f) => Some(f()),
                None => Some(MonitorResponse { delay: DEFAULT_DELAY, duration: DEFAULT_DURATION }),
            }
        } else {
            None
        }
    }

    /// All the elements left in the schedule, in order; the schedule is
    /// exhausted afterwards.
    pub fn responses(self) -> (r: Vec<MonitorResponse>)
        requires
            can_generate(self.generator()),
        ensures
            r.len() == self.remaining(),
            forall|i: int| 0 <= i < r.len() ==> generated_by(self.generator(), #[trigger] r[i]),
    {
        let ghost start = self;
        let mut schedule = self;
        let mut out: Vec<MonitorResponse> = Vec::new();
        loop
            invariant
                schedule.generator() == start.generator(),
                can_generate(schedule.generator()),
                out.len() + schedule.remaining() == start.remaining(),
                forall|i: int|
                    0 <= i < out.len() ==> generated_by(start.generator(), #[trigger] out[i]),
            ensures
                out.len() == start.remaining(),
                forall|i: int|
                    0 <= i < out.len() ==> generated_by(start.generator(), #[trigger] out[i]),
            decreases schedule.remaining(),
        {
            match schedule.next() {
                Some(x) => {
                    out.push(x);
                },
                None => {
                    break;
                },
            }
        }
        out
    }
}

impl<F: Fn() -> MonitorResponse> Default for Monitor<F> {
    fn default() -> (r: Self)
        ensures
            r.remaining() == schedule_length(DEFAULT_RETRIES),
            r.generator() is None,
            r.spec_normal_delay() == DEFAULT_NORMAL_DELAY,
    {
        Self::new(None)
    }
}

} // verus!
