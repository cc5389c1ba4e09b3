//! The animation driver: one tracked tick that every time-dependent binding
//! reads, advanced once per frame, and a flag that says whether another frame
//! is needed.
use vstd::prelude::*;

use crate::instant::Instant;

verus! {

/// Identifies a binding that is being evaluated, so that a tracked read of the
/// tick can register it as a dependent.
pub type BindingId = u64;

/// What a driver holds, as mathematics.
pub struct DriverModel {
    /// The current tick.
    pub tick: Instant,
    /// Whether some binding asked for another frame since the tick last changed.
    pub active: bool,
    /// The bindings that read the tick tracked since it last changed.
    pub dependents: Set<BindingId>,
    /// The bindings that a change of the tick has marked for re-evaluation and
    /// that have not been handed out yet.
    pub pending: Set<BindingId>,
}

/// The bindings that a sequence holds.
pub open spec fn ids_of(s: Seq<BindingId>) -> Set<BindingId> {
    Set::new(|b: BindingId| s.contains(b))
}

/// Advancing to `new_tick`: nothing at all when it is the current tick; else
/// the flag is cleared, the tick is written, and every dependent is marked for
/// re-evaluation and has to read the tick again to stay a dependent.
pub open spec fn advance(m: DriverModel, new_tick: Instant) -> DriverModel {
    if new_tick == m.tick {
        m
    } else {
        DriverModel {
            tick: new_tick,
            active: false,
            dependents: Set::empty(),
            pending: m.pending.union(m.dependents),
        }
    }
}

/// Reading the tick while `context` is being evaluated (if any) registers it.
pub open spec fn read_tracked(m: DriverModel, context: Option<BindingId>) -> DriverModel {
    match context {
        Some(b) => DriverModel { dependents: m.dependents.insert(b), ..m },
        None => m,
    }
}

/// Asking for another frame.
pub open spec fn mark_active(m: DriverModel) -> DriverModel {
    DriverModel { active: true, ..m }
}

/// Handing out the bindings to re-evaluate.
pub open spec fn clear_pending(m: DriverModel) -> DriverModel {
    DriverModel { pending: Set::empty(), ..m }
}

/// Drives all animations from one logical clock.
pub struct AnimationDriver {
    active_animations: bool,
    global_instant: Instant,
    dependents: Vec<BindingId>,
    pending: Vec<BindingId>,
}

impl View for AnimationDriver {
    type V = DriverModel;

    closed spec fn view(&self) -> DriverModel {
        DriverModel {
            tick: self.global_instant,
            active: self.active_animations,
            dependents: ids_of(self.dependents@),
            pending: ids_of(self.pending@),
        }
    }
}

proof fn lemma_push_contains(s: Seq<BindingId>, b: BindingId)
    ensures
        forall|x: BindingId| #[trigger] s.push(b).contains(x) <==> (s.contains(x) || x == b),
{
    assert forall|x: BindingId| #[trigger] s.push(b).contains(x) implies (s.contains(x) || x
        == b) by {
        let k = choose|k: int| 0 <= k < s.push(b).len() && s.push(b)[k] == x;
        if k < s.len() {
            assert(s[k] == x);
        }
    }
    assert forall|x: BindingId| s.contains(x) implies #[trigger] s.push(b).contains(x) by {
        let k = choose|k: int| 0 <= k < s.len() && s[k] == x;
        assert(s.push(b)[k] == x);
    }
    assert(s.push(b)[s.len() as int] == b);
}

fn contains_id(v: &Vec<BindingId>, b: BindingId) -> (r: bool)
    ensures
        r == v@.contains(b),
{
    let mut i: usize = 0;
    while i < v.len()
        invariant
            i <= v.len(),
            forall|j: int| 0 <= j < i ==> v@[j] != b,
        decreases v.len() - i,
    {
        if v[i] == b {
            return true;
        }
        i = i + 1;
    }
    false
}

impl AnimationDriver {
    /// Every binding is listed once.
    pub closed spec fn wf(&self) -> bool {
        self.dependents@.no_duplicates() && self.pending@.no_duplicates()
    }

    /// A driver at tick zero, with no active animation and no dependent.
    pub fn new() -> (r: AnimationDriver)
        ensures
            r.wf(),
            r@.tick == Instant(0),
            !r@.active,
            r@.dependents == Set::<BindingId>::empty(),
            r@.pending == Set::<BindingId>::empty(),
    {
        let r = AnimationDriver {
            active_animations: false,
            global_instant: Instant(0),
            dependents: Vec::new(),
            pending: Vec::new(),
        };
        assert(r@.dependents =~= Set::<BindingId>::empty());
        assert(r@.pending =~= Set::<BindingId>::empty());
        r
    }

    /// Iterates through all animations based on the new time tick: when the
    /// tick changes, clears the active flag and marks every dependent of the
    /// tick for re-evaluation. This should be called once per frame.
    pub fn update_animations(&mut self, new_tick: Instant)
        requires
            old(self).wf(),
        ensures
            final(self).wf(),
            final(self)@ == advance(old(self)@, new_tick),
            new_tick == old(self)@.tick ==> *final(self) == *old(self),
    {
        if self.global_instant != new_tick {
            self.active_animations = false;
            let ghost old_pending = self.pending@;
            let mut i: usize = 0;
            while i < self.dependents.len()
                invariant
                    i <= self.dependents.len(),
                    self.dependents@ == old(self).dependents@,
                    self.global_instant == old(self).global_instant,
                    !self.active_animations,
                    self.pending@.no_duplicates(),
                    forall|x: BindingId|
                        #[trigger] self.pending@.contains(x) <==> (old_pending.contains(x)
                            || self.dependents@.subrange(0, i as int).contains(x)),
                decreases self.dependents.len() - i,
            {
                let b = self.dependents[i];
                let ghost before = self.pending@;
                proof {
                    lemma_push_contains(before, b);
                    lemma_push_contains(self.dependents@.subrange(0, i as int), b);
                    assert(self.dependents@.subrange(0, i + 1) =~= self.dependents@.subrange(
                        0,
                        i as int,
                    ).push(b));
                }
                if !contains_id(&self.pending, b) {
                    self.pending.push(b);
                }
                i = i + 1;
            }
            assert(self.dependents@.subrange(0, self.dependents@.len() as int)
                =~= self.dependents@);
            assert(ids_of(self.pending@) =~= ids_of(old_pending).union(ids_of(self.dependents@)));
            self.dependents = Vec::new();
            self.global_instant = new_tick;
            assert(ids_of(self.dependents@) =~= Set::<BindingId>::empty());
        }
    }

    /// Returns true if some binding asked for another animation frame since
    /// the tick last changed. Registers no dependency.
    pub fn has_active_animations(&self) -> (r: bool)
        ensures
            r == self@.active,
    {
        self.active_animations
    }

    /// Tell the driver that there are active animations.
    pub fn set_has_active_animations(&mut self)
        requires
            old(self).wf(),
        ensures
            final(self).wf(),
            final(self)@ == mark_active(old(self)@),
    {
        self.active_animations = true;
    }

    /// The current instant that is to be used for animation. When a binding is
    /// being evaluated, pass it as `context`: it becomes a dependent of the
    /// tick and is marked for re-evaluation when the tick changes.
    pub fn current_tick(&mut self, context: Option<BindingId>) -> (r: Instant)
        requires
            old(self).wf(),
        ensures
            final(self).wf(),
            r == old(self)@.tick,
            final(self)@ == read_tracked(old(self)@, context),
    {
        if let Some(b) = context {
            proof {
                lemma_push_contains(self.dependents@, b);
            }
            if !contains_id(&self.dependents, b) {
                self.dependents.push(b);
            }
            assert(ids_of(self.dependents@) =~= ids_of(old(self).dependents@).insert(b));
        }
        self.global_instant
    }

    /// The current tick, read without registering any dependency.
    pub fn current_tick_untracked(&self) -> (r: Instant)
        ensures
            r == self@.tick,
    {
        self.global_instant
    }

    /// Whether a change of the tick has marked `binding` for re-evaluation and
    /// it has not been handed out yet.
    pub fn needs_reevaluation(&self, binding: BindingId) -> (r: bool)
        ensures
            r == self@.pending.contains(binding),
    {
        contains_id(&self.pending, binding)
    }

    /// Hands out the bindings marked for re-evaluation, each once, and forgets them.
    pub fn take_pending(&mut self) -> (r: Vec<BindingId>)
        requires
            old(self).wf(),
        ensures
            final(self).wf(),
            r@.no_duplicates(),
            ids_of(r@) == old(self)@.pending,
            final(self)@ == clear_pending(old(self)@),
    {
        let mut r: Vec<BindingId> = Vec::new();
        core::mem::swap(&mut r, &mut self.pending);
        assert(ids_of(self.pending@) =~= Set::<BindingId>::empty());
        r
    }
}

impl Default for AnimationDriver {
    fn default() -> (r: AnimationDriver)
        ensures
            r.wf(),
            r@.tick == Instant(0),
            !r@.active,
            r@.dependents == Set::<BindingId>::empty(),
            r@.pending == Set::<BindingId>::empty(),
    {
        AnimationDriver::new()
    }
}

/// The current instant that is to be used for animation, read from `driver`;
/// registers `context`, if any, as a dependent of the tick.
pub fn current_tick(driver: &mut AnimationDriver, context: Option<BindingId>) -> (r: Instant)
    requires
        old(driver).wf(),
    ensures
        final(driver).wf(),
        r == old(driver)@.tick,
        final(driver)@ == read_tracked(old(driver)@, context),
{
    driver.current_tick(context)
}

/// Advancing twice to the same tick is advancing once: the second call changes
/// nothing, and in particular marks no binding for re-evaluation.
pub proof fn lemma_advance_idempotent(m: DriverModel, t: Instant)
    ensures
        advance(advance(m, t), t) == advance(m, t),
        advance(advance(m, t), t).pending == advance(m, t).pending,
{
}

/// After advancing to two different ticks in turn, no animation is active, and
/// tracked reads of the tick leave it so until a binding asks for a frame.
pub proof fn lemma_advance_clears_active(
    m: DriverModel,
    t1: Instant,
    t2: Instant,
    context: Option<BindingId>,
)
    requires
        t1 != t2,
    ensures
        !advance(advance(m, t1), t2).active,
        !read_tracked(advance(advance(m, t1), t2), context).active,
        mark_active(advance(advance(m, t1), t2)).active,
{
}

/// Asking for another frame twice is asking once.
pub proof fn lemma_mark_active_idempotent(m: DriverModel)
    ensures
        mark_active(mark_active(m)) == mark_active(m),
{
}

/// A binding that reads the tick tracked is marked for re-evaluation by the
/// next advance to a different tick, and an advance to the same tick marks
/// nothing.
pub proof fn lemma_tracked_read_retriggers(m: DriverModel, b: BindingId, t: Instant)
    ensures
        t != m.tick ==> advance(read_tracked(m, Some(b)), t).pending.contains(b),
        t == m.tick ==> advance(read_tracked(m, Some(b)), t) == read_tracked(m, Some(b)),
{
}

} // verus!
