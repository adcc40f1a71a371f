use vstd::prelude::*;

verus! {

/// The value that a transformation consumes and produces. It carries no data.
#[derive(Clone, Copy, Debug, PartialEq, Eq, Structural)]
pub struct Zed;

/// A capability that applies a single-use transformation to a freshly built `Zed`.
///
/// `calls` counts the applications made through this provider so far; every
/// implementation adds exactly one per call of `bar`.
pub trait Foo {
    /// How many times `bar` has been called on this provider.
    spec fn calls(&self) -> nat;

    /// Whether one more call of `bar` can be accepted.
    spec fn ready(&self) -> bool;

    /// Takes ownership of `update_fn`, which can therefore run at most once,
    /// and records the call.
    fn bar<F>(&mut self, update_fn: F)
        where
            F: FnOnce(Zed) -> Zed + Send + 'static,
        requires
            old(self).ready(),
            update_fn.requires((Zed,)),
        ensures
            final(self).calls() == old(self).calls() + 1,
    ;
}

/// The production provider: it builds a `Zed` and hands it to the transformation.
pub struct FooImpl {
    applied: Ghost<nat>,
}

impl FooImpl {
    pub fn new() -> (r: FooImpl)
        ensures
            r.calls() == 0,
            r.ready(),
    {
        FooImpl { applied: Ghost(0) }
    }
}

impl Foo for FooImpl {
    closed spec fn calls(&self) -> nat {
        self.applied@
    }

    open spec fn ready(&self) -> bool {
        true
    }

    /// Runs `update_fn` on a new `Zed`: for a generic `F` its postcondition can
    /// only hold of some result by an actual call.
    fn bar<F>(&mut self, update_fn: F)
        where
            F: FnOnce(Zed) -> Zed + Send + 'static,
        ensures
            exists|r: Zed| update_fn.ensures((Zed,), r),
    {
        let _r = update_fn(Zed);
        self.applied = Ghost(self.applied@ + 1);
    }
}

/// A test double for `Foo`: it counts the calls of `bar` without running the
/// transformation, and checks that count against an expectation set beforehand.
pub struct MockFoo {
    calls: u64,
    expected: Option<u64>,
}

impl MockFoo {
    /// The number of calls that the double was told to expect, if any.
    pub closed spec fn expected_calls(&self) -> Option<nat> {
        match self.expected {
            Some(n) => Some(n as nat),
            None => None,
        }
    }

    /// Whether the calls recorded so far are exactly those expected; with no
    /// expectation set, no call at all is expected.
    pub open spec fn satisfied(&self) -> bool {
        match self.expected_calls() {
            Some(n) => self.calls() == n,
            None => self.calls() == 0,
        }
    }

    pub fn new() -> (r: MockFoo)
        ensures
            r.calls() == 0,
            r.expected_calls() == None::<nat>,
    {
        MockFoo { calls: 0, expected: None }
    }

    /// Tells the double how many calls of `bar` to expect.
    pub fn expect_bar(&mut self, times: u64)
        ensures
            final(self).calls() == old(self).calls(),
            final(self).expected_calls() == Some(times as nat),
    {
        self.expected = Some(times);
    }

    pub fn call_count(&self) -> (r: u64)
        ensures
            r as nat == self.calls(),
    {
        self.calls
    }

    /// Checks the recorded calls against the expectation.
    pub fn checkpoint(&self) -> (r: bool)
        ensures
            r == self.satisfied(),
    {
        match self.expected {
            Some(n) => self.calls == n,
            None => self.calls == 0,
        }
    }
}

impl Foo for MockFoo {
    closed spec fn calls(&self) -> nat {
        self.calls as nat
    }

    closed spec fn ready(&self) -> bool {
        self.calls < u64::MAX
    }

    fn bar<F>(&mut self, update_fn: F)
        where
            F: FnOnce(Zed) -> Zed + Send + 'static,
        ensures
            final(self).expected_calls() == old(self).expected_calls(),
    {
        self.calls = self.calls + 1;
    }
}

/// One drive's effect on a provider: exactly one more application.
pub open spec fn drove_once<P: Foo>(before: P, after: P) -> bool {
    after.calls() == before.calls() + 1
}

/// The orchestrator: it drives a provider by applying the identity transformation once.
pub struct BazImpl;

impl BazImpl {
    pub fn baz<F: Foo>(self, f: &mut F)
        requires
            old(f).ready(),
        ensures
            drove_once(*old(f), *final(f)),
    {
        f.bar(|zed: Zed| -> (r: Zed)
            ensures
                r == zed,
            { zed });
    }
}

/// Whatever provider is driven, the production one or the test double, a drive
/// makes the same calls: from equal counts, one drive each leaves equal counts.
pub proof fn lemma_substitution_keeps_calls(p0: FooImpl, p1: FooImpl, m0: MockFoo, m1: MockFoo)
    requires
        drove_once(p0, p1),
        drove_once(m0, m1),
        p0.calls() == m0.calls(),
    ensures
        p1.calls() == m1.calls(),
{
}

/// Driving a fresh provider leaves the same call pattern each time: two fresh
/// providers, each driven once, have seen exactly one call each.
pub proof fn lemma_fresh_drive_repeats<P: Foo>(p0: P, p1: P, q0: P, q1: P)
    requires
        p0.calls() == 0,
        q0.calls() == 0,
        drove_once(p0, p1),
        drove_once(q0, q1),
    ensures
        p1.calls() == 1,
        p1.calls() == q1.calls(),
{
}

} // verus!
