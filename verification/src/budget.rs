//! The request budget: a counter with a fixed cap that gates every remote call.

use vstd::prelude::*;

verus! {

/// Ceiling on the number of remote calls one run may issue.
pub const MAX_REQUESTS: usize = 1500;

/// What a budget is, as numbers: how many calls were made, and how many may be.
pub struct BudgetView {
    pub count: nat,
    pub cap: nat,
}

impl BudgetView {
    /// A slot is left.
    pub open spec fn has_room(self) -> bool {
        self.count < self.cap
    }

    /// No slot is left.
    pub open spec fn exhausted(self) -> bool {
        self.count >= self.cap
    }

    /// Slots that are left.
    pub open spec fn remaining(self) -> nat {
        if self.count < self.cap {
            (self.cap - self.count) as nat
        } else {
            0
        }
    }

    /// The budget after one attempt to take a slot: the count moves only
    /// when a slot was left.
    pub open spec fn consume(self) -> BudgetView {
        if self.has_room() {
            BudgetView { count: self.count + 1, cap: self.cap }
        } else {
            self
        }
    }

    /// The budget after `n` attempts in a row.
    pub open spec fn consume_n(self, n: nat) -> BudgetView
        decreases n,
    {
        if n == 0 {
            self
        } else {
            self.consume().consume_n((n - 1) as nat)
        }
    }

    /// How many of `n` attempts in a row succeed.
    pub open spec fn granted(self, n: nat) -> nat
        decreases n,
    {
        if n == 0 {
            0
        } else {
            (if self.has_room() { 1nat } else { 0nat }) + self.consume().granted((n - 1) as nat)
        }
    }
}

/// The refusal that a spent budget answers with.
#[derive(Clone, Copy, Debug, PartialEq, Eq, Structural)]
pub struct BudgetExceeded {
    pub cap: usize,
}

/// Counts the remote calls of one run against a fixed cap.
///
/// The fields are private: the count moves only through `try_consume`,
/// which takes the budget by exclusive borrow. Callers on several threads
/// therefore share a budget behind a lock, and their attempts are served
/// one after another in some order; `lemma_attempts_granted` holds of
/// every such order.
#[derive(Debug)]
pub struct RequestBudget {
    count: usize,
    cap: usize,
}

impl View for RequestBudget {
    type V = BudgetView;

    closed spec fn view(&self) -> BudgetView {
        BudgetView { count: self.count as nat, cap: self.cap as nat }
    }
}

impl RequestBudget {
    #[verifier::type_invariant]
    spec fn within_cap(self) -> bool {
        self.count <= self.cap
    }

    /// A fresh budget of `cap` calls, none of them used.
    pub fn new(cap: usize) -> (b: RequestBudget)
        ensures
            b@ == (BudgetView { count: 0, cap: cap as nat }),
    {
        RequestBudget { count: 0, cap }
    }

    /// Calls made so far.
    pub fn count(&self) -> (n: usize)
        ensures
            n == self@.count,
            n <= self@.cap,
    {
        proof {
            use_type_invariant(self);
        }
        self.count
    }

    /// The cap this budget was made with.
    pub fn cap(&self) -> (n: usize)
        ensures
            n == self@.cap,
    {
        self.cap
    }

    /// Slots that are left.
    pub fn remaining(&self) -> (n: usize)
        ensures
            n == self@.remaining(),
    {
        proof {
            use_type_invariant(self);
        }
        self.cap - self.count
    }

    /// Whether every slot is used.
    pub fn is_exhausted(&self) -> (b: bool)
        ensures
            b == self@.exhausted(),
    {
        self.count >= self.cap
    }

    /// Takes one slot if one is left. On refusal the count stays as it was.
    pub fn try_consume(&mut self) -> (r: Result<(), BudgetExceeded>)
        ensures
            final(self)@ == old(self)@.consume(),
            old(self)@.has_room() ==> r == Ok::<(), BudgetExceeded>(()),
            !old(self)@.has_room() ==> r is Err && r->Err_0.cap == old(self)@.cap,
    {
        if self.count < self.cap {
            self.count = self.count + 1;
            Ok(())
        } else {
            Err(BudgetExceeded { cap: self.cap })
        }
    }
}

/// The smaller of two numbers.
pub open spec fn min_nat(a: nat, b: nat) -> nat {
    if a <= b {
        a
    } else {
        b
    }
}

/// Of `n` attempts on one budget, in whatever order they are served, as
/// many succeed as slots were left, or all of them if fewer were made; the
/// rest are refused. The count rises by the number that succeeded and never
/// passes the cap.
pub proof fn lemma_attempts_granted(b: BudgetView, n: nat)
    ensures
        b.granted(n) == min_nat(n, b.remaining()),
        b.consume_n(n).count == b.count + min_nat(n, b.remaining()),
        b.consume_n(n).cap == b.cap,
        b.count <= b.cap ==> b.consume_n(n).count <= b.cap,
    decreases n,
{
    if n > 0 {
        lemma_attempts_granted(b.consume(), (n - 1) as nat);
    }
}

/// The count never goes down, and a spent budget stays spent.
pub proof fn lemma_count_is_monotone(b: BudgetView, n: nat)
    ensures
        b.count <= b.consume_n(n).count,
        b.exhausted() ==> b.consume_n(n) == b,
    decreases n,
{
    if n > 0 {
        lemma_count_is_monotone(b.consume(), (n - 1) as nat);
    }
}

} // verus!
