//! Which updates of the auto splitter the log tells of: ever fewer, the longer it runs.

use vstd::prelude::*;

verus! {

/// How many updates are counted before a counter overflows.
pub const MAX_UPDATES: i32 = 1111111110;

/// The counters behind the choice of the updates that the log tells of. They wrap around.
#[derive(Clone, Copy, Debug, PartialEq, Eq, Structural)]
pub struct Counters {
    /// How many updates there were.
    pub updates: i32,
    /// How many updates there are until the next one to tell of.
    pub wait: i32,
    /// How many updates lie between the last one to tell of and the next.
    pub gap: i32,
}

/// Counts the updates of the auto splitter, and picks those that the log tells of. The view
/// is how many updates there were.
pub struct UpdateLog {
    counters: Counters,
    count: Ghost<nat>,
}

/// The number fits a counter.
pub open spec fn fits(n: int) -> bool {
    i32::MIN <= n <= i32::MAX
}

/// The number that a counter holds in place of this one: the one that fits, and differs by a
/// multiple of what 32 bits can tell apart.
pub open spec fn wrap(n: int) -> i32 {
    ((n + 0x8000_0000) % 0x1_0000_0000 - 0x8000_0000) as i32
}

impl Counters {
    /// The counters before the first update.
    pub open spec fn spec_new() -> Self {
        Counters { updates: 0, wait: 0, gap: 1 }
    }

    /// The counters once a further update is counted. After one that the log tells of, the
    /// next one to tell of lies ten times as far off as it did the last time.
    pub open spec fn spec_counted(self) -> Self {
        let gap = if self.wait == 0 {
            wrap(self.gap * 10)
        } else {
            self.gap
        };
        let wait = if self.wait == 0 {
            gap
        } else {
            self.wait
        };
        Counters { updates: wrap(self.updates + 1), wait: wrap(wait - 1), gap }
    }

    /// A counter wraps around when a further update is counted.
    pub open spec fn spec_overflows(self) -> bool {
        ||| !fits(self.updates + 1)
        ||| if self.wait == 0 {
            !fits(self.gap * 10) || !fits(self.gap * 10 - 1)
        } else {
            !fits(self.wait - 1)
        }
    }

    /// The counters before the first update.
    pub fn new() -> (counters: Self)
        ensures
            counters == Self::spec_new(),
    {
        Counters { updates: 0, wait: 0, gap: 1 }
    }

    /// Counts a further update.
    pub fn counted(self) -> (counters: Self)
        ensures
            counters == self.spec_counted(),
    {
        let mut wait: i32 = self.wait;
        let mut gap: i32 = self.gap;
        if wait == 0 {
            gap = gap.wrapping_mul(10);
            wait = gap;
        }
        Counters { updates: self.updates.wrapping_add(1), wait: wait.wrapping_sub(1), gap }
    }

    /// Whether a counter wraps around when a further update is counted.
    pub fn overflows(self) -> (overflows: bool)
        ensures
            overflows == self.spec_overflows(),
    {
        let wait: i64 = if self.wait == 0 {
            self.gap as i64 * 10
        } else {
            self.wait as i64
        };
        self.updates == i32::MAX || wait <= i32::MIN as i64 || wait > i32::MAX as i64
    }
}

/// The counters after `n` updates.
pub open spec fn counters_after(n: nat) -> Counters
    decreases n,
{
    if n == 0 {
        Counters::spec_new()
    } else {
        counters_after((n - 1) as nat).spec_counted()
    }
}

/// A power of ten.
pub open spec fn ten_to(k: nat) -> nat
    decreases k,
{
    if k == 0 {
        1
    } else {
        10 * ten_to((k - 1) as nat)
    }
}

/// How many updates come before the log tells of one for the `k`-th time after the first:
/// 0, 10, 110, 1110 and so on.
pub open spec fn milestone(k: nat) -> nat
    decreases k,
{
    if k == 0 {
        0
    } else {
        milestone((k - 1) as nat) + ten_to(k)
    }
}

/// The log tells of the update that comes after this many.
pub open spec fn is_milestone(n: nat) -> bool {
    exists|k: nat| #[trigger] milestone(k) == n
}

/// The milestones in closed form.
pub proof fn lemma_milestone_formula(k: nat)
    ensures
        9 * milestone(k) == 10 * (ten_to(k) - 1),
        ten_to(k) > 0,
    decreases k,
{
    if k > 0 {
        lemma_milestone_formula((k - 1) as nat);
    }
}

/// Between one milestone and the next lies a power of ten, ten times what lies before it.
pub proof fn lemma_milestone_gap(k: nat)
    ensures
        milestone(k + 1) - milestone(k) == ten_to(k + 1),
        milestone(k + 2) - milestone(k + 1) == 10 * (milestone(k + 1) - milestone(k)),
{
    reveal_with_fuel(milestone, 3);
    reveal_with_fuel(ten_to, 3);
}

proof fn lemma_milestone_increases(j: nat, k: nat)
    requires
        j < k,
    ensures
        milestone(j) < milestone(k),
    decreases k,
{
    lemma_milestone_formula(k);
    if j + 1 < k {
        lemma_milestone_increases(j, (k - 1) as nat);
    }
}

proof fn lemma_last_milestone()
    ensures
        ten_to(9) == 1000000000,
        milestone(9) == MAX_UPDATES,
{
    reveal_with_fuel(ten_to, 10);
    reveal_with_fuel(milestone, 10);
}

/// Counters from which the next update to tell of comes after the `k`-th milestone.
spec fn heads_for(counters: Counters, k: nat) -> bool {
    &&& k <= 9
    &&& counters.gap == ten_to(k)
    &&& counters.wait >= 0
    &&& counters.updates + counters.wait == milestone(k)
    &&& if k == 0 {
        counters.updates == 0
    } else {
        milestone((k - 1) as nat) < counters.updates
    }
}

proof fn lemma_heads_for(counters: Counters, k: nat)
    requires
        heads_for(counters, k),
    ensures
        0 <= counters.updates <= MAX_UPDATES,
        is_milestone(counters.updates as nat) <==> counters.wait == 0,
        counters.updates == MAX_UPDATES <==> k == 9 && counters.wait == 0,
{
    lemma_last_milestone();
    if k < 9 {
        lemma_milestone_increases(k, 9);
    }
    if counters.wait == 0 {
        assert(milestone(k) == counters.updates);
    } else {
        assert forall|j: nat| #[trigger] milestone(j) != counters.updates by {
            if j + 1 < k {
                lemma_milestone_increases(j, (k - 1) as nat);
            } else if k < j {
                lemma_milestone_increases(k, j);
            }
        }
    }
}

proof fn lemma_counters_head(n: nat) -> (k: nat)
    requires
        n <= MAX_UPDATES,
    ensures
        counters_after(n).updates == n,
        heads_for(counters_after(n), k),
    decreases n,
{
    lemma_last_milestone();
    if n == 0 {
        0
    } else {
        let before = counters_after((n - 1) as nat);
        let k = lemma_counters_head((n - 1) as nat);
        lemma_heads_for(before, k);
        if before.wait == 0 {
            lemma_gap_fits(k + 1);
            k + 1
        } else {
            k
        }
    }
}

/// As long as no counter overflows, the log tells of the updates at the milestones, by their
/// number; and none overflows before the last of them.
pub proof fn lemma_updates_to_tell_of(n: nat)
    requires
        n <= MAX_UPDATES,
    ensures
        counters_after(n).updates == n,
        counters_after(n).wait == 0 <==> is_milestone(n),
        counters_after(n).spec_overflows() <==> n == MAX_UPDATES,
{
    let k = lemma_counters_head(n);
    lemma_last_milestone();
    lemma_heads_for(counters_after(n), k);
    if k < 9 {
        lemma_gap_fits(k + 1);
    }
}

impl View for UpdateLog {
    type V = nat;

    /// How many updates there were.
    closed spec fn view(&self) -> nat {
        self.count@
    }
}

impl UpdateLog {
    #[verifier::type_invariant]
    spec fn well_formed(self) -> bool {
        self.counters == counters_after(self.count@)
    }

    /// A count before the first update.
    pub fn new() -> (log: Self)
        ensures
            log@ == 0,
    {
        UpdateLog { counters: Counters::new(), count: Ghost(0) }
    }

    /// How many updates there were, where the log tells of the one that comes now.
    pub fn due(&self) -> (due: Option<i32>)
        ensures
            due == if counters_after(self@).wait == 0 {
                Some(counters_after(self@).updates)
            } else {
                None
            },
            self@ <= MAX_UPDATES ==> (due is Some <==> is_milestone(self@)),
            self@ <= MAX_UPDATES && due is Some ==> due->0 == self@,
    {
        proof {
            use_type_invariant(self);
            if self@ <= MAX_UPDATES {
                lemma_updates_to_tell_of(self@);
            }
        }
        if self.counters.wait == 0 {
            Some(self.counters.updates)
        } else {
            None
        }
    }

    /// Whether a counter wraps around when a further update is counted.
    pub fn overflows(&self) -> (overflows: bool)
        ensures
            overflows == counters_after(self@).spec_overflows(),
            self@ <= MAX_UPDATES ==> (overflows <==> self@ == MAX_UPDATES),
    {
        proof {
            use_type_invariant(self);
            if self@ <= MAX_UPDATES {
                lemma_updates_to_tell_of(self@);
            }
        }
        self.counters.overflows()
    }

    /// Counts an update.
    pub fn updated(&mut self)
        ensures
            final(self)@ == old(self)@ + 1,
    {
        proof {
            use_type_invariant(&*self);
        }
        let counters = self.counters.counted();
        let ghost count = self.count@ + 1;
        *self = UpdateLog { counters, count: Ghost(count) };
    }
}

proof fn lemma_gap_fits(k: nat)
    requires
        k <= 9,
    ensures
        ten_to(k) <= 1000000000,
    decreases 9 - k,
{
    lemma_last_milestone();
    if k < 9 {
        lemma_gap_fits(k + 1);
    }
}

/// The counters begin with an update to tell of.
pub proof fn lemma_first_counters(counters: Counters)
    requires
        call_ensures(Counters::new, (), counters),
    ensures
        counters.updates == 0 && counters.wait == 0 && counters.gap == 1,
        counters_after(0) == counters,
{
}

/// Each update is counted once. Between updates to tell of, the wait goes down by one; after
/// one, it begins anew with ten times the gap. All this is up to multiples of what 32 bits can
/// tell apart, which come in exactly where a number would not fit.
pub proof fn lemma_counted(counters: Counters, counted: Counters, overflows: bool)
    requires
        call_ensures(Counters::counted, (counters,), counted),
        call_ensures(Counters::overflows, (counters,), overflows),
    ensures
        (counted.updates - counters.updates - 1) % 0x1_0000_0000 == 0,
        counters.wait != 0 ==> counted.gap == counters.gap && (counted.wait - counters.wait + 1)
            % 0x1_0000_0000 == 0,
        counters.wait == 0 ==> (counted.gap - 10 * counters.gap) % 0x1_0000_0000 == 0 && (
        counted.wait - counted.gap + 1) % 0x1_0000_0000 == 0,
        !overflows ==> counted.updates == counters.updates + 1,
        !overflows && counters.wait != 0 ==> counted.wait == counters.wait - 1,
        !overflows && counters.wait == 0 ==> counted.gap == 10 * counters.gap && counted.wait
            == 10 * counters.gap - 1,
        overflows <==> counters.updates == 0x7fff_ffff || counters.wait == -0x8000_0000 || (
        counters.wait == 0 && !(-0x8000_0000 < 10 * counters.gap <= 0x7fff_ffff)),
{
}

/// The counters after some updates are those that counting them one by one leads to.
pub proof fn lemma_counters_follow(n: nat, counted: Counters)
    requires
        call_ensures(Counters::counted, (counters_after(n),), counted),
    ensures
        counters_after(n + 1) == counted,
{
}

proof fn lemma_ten_to(k: nat)
    ensures
        ten_to(k) == vstd::arithmetic::power::pow(10, k),
    decreases k,
{
    reveal(vstd::arithmetic::power::pow);
    if k > 0 {
        lemma_ten_to((k - 1) as nat);
    }
}

/// The milestones are the numbers with as many ones as there were milestones before, and a zero
/// behind them: a ninth of what a power of ten has above one, times ten.
pub proof fn lemma_milestones(n: nat)
    ensures
        is_milestone(n) <==> exists|k: nat|
            9 * n == 10 * (#[trigger] vstd::arithmetic::power::pow(10, k) - 1),
{
    if is_milestone(n) {
        let k = choose|k: nat| #[trigger] milestone(k) == n;
        lemma_milestone_formula(k);
        lemma_ten_to(k);
        assert(9 * n == 10 * (vstd::arithmetic::power::pow(10, k) - 1));
    }
    if exists|k: nat| 9 * n == 10 * (#[trigger] vstd::arithmetic::power::pow(10, k) - 1) {
        let k = choose|k: nat| 9 * n == 10 * (#[trigger] vstd::arithmetic::power::pow(10, k) - 1);
        lemma_milestone_formula(k);
        lemma_ten_to(k);
        assert(milestone(k) == n);
    }
}

/// The count begins at nothing and goes up by one with each update. The log tells of the update
/// that comes now, by how many there were, exactly where that number is ten times a ninth of a
/// power of ten less one: 0, 10, 110, 1110 and so on, up to the last one before a counter
/// overflows. In any case it tells what the counters say.
pub proof fn lemma_update_log(
    new: UpdateLog,
    log: &UpdateLog,
    due: Option<i32>,
    overflows: bool,
    counting: &mut UpdateLog,
)
    requires
        call_ensures(UpdateLog::new, (), new),
        call_ensures(UpdateLog::due, (log,), due),
        call_ensures(UpdateLog::overflows, (log,), overflows),
        call_ensures(UpdateLog::updated, (counting,), ()),
    ensures
        new@ == 0,
        final(counting)@ == old(counting)@ + 1,
        log@ <= 1111111110 ==> (due is Some <==> exists|k: nat|
            9 * log@ == 10 * (#[trigger] vstd::arithmetic::power::pow(10, k) - 1)),
        log@ <= 1111111110 && due is Some ==> due->0 == log@,
        log@ <= 1111111110 ==> (overflows <==> log@ == 1111111110),
        due is Some <==> counters_after(log@).wait == 0,
        due matches Some(updates) ==> updates == counters_after(log@).updates,
{
    lemma_milestones(log@);
}

} // verus!
