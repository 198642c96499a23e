use vstd::prelude::*;
use crate::geometry::Rect;

verus! {

/// Largest sprite-sheet cell size, row and column an animation may use.
pub const SHEET_MAX: i64 = 0x1_0000;

/// What the animation conditions read of a body: its velocity.
#[derive(Clone, Copy, Debug, PartialEq, Eq, Structural)]
pub struct Snapshot {
    pub vx: i64,
    pub vy: i64,
}

/// A condition on a snapshot that activates a clip.
#[derive(Clone, Copy, Debug, PartialEq, Eq, Structural)]
pub enum Predicate {
    /// Always holds: the fallback clip.
    Always,
    /// Horizontal speed is not zero.
    SpeedNonZero,
    /// Vertical speed is below the bound (negative speeds rise).
    FallSpeedBelow(i64),
    /// Vertical speed is above the bound.
    FallSpeedAbove(i64),
}

pub open spec fn holds(p: Predicate, s: Snapshot) -> bool {
    match p {
        Predicate::Always => true,
        Predicate::SpeedNonZero => s.vx != 0,
        Predicate::FallSpeedBelow(b) => s.vy < b,
        Predicate::FallSpeedAbove(b) => s.vy > b,
    }
}

/// Evaluates a predicate by comparing the snapshot's fields.
pub fn evaluate(p: Predicate, s: Snapshot) -> (r: bool)
    ensures
        r == holds(p, s),
{
    match p {
        Predicate::Always => true,
        Predicate::SpeedNonZero => s.vx != 0,
        Predicate::FallSpeedBelow(b) => s.vy < b,
        Predicate::FallSpeedAbove(b) => s.vy > b,
    }
}

/// A sequence of sprite-sheet cells on one row, each shown for `hold` ticks.
#[derive(Clone, Debug)]
pub struct Clip {
    pub row: i64,
    pub frames: Vec<i64>,
    pub hold: u32,
}

/// A clip and the condition that selects it.
#[derive(Clone, Debug)]
pub struct Binding {
    pub when: Predicate,
    pub clip: Clip,
}

#[derive(Clone, Copy, Debug, PartialEq, Eq, Structural)]
pub enum AnimError {
    /// No binding has the `Always` predicate.
    NoDefault,
    /// A clip has no frames, a zero hold, or a cell outside the sheet.
    BadClip,
}

pub open spec fn clip_ok(c: Clip) -> bool {
    &&& c.frames@.len() > 0
    &&& c.hold > 0
    &&& 0 <= c.row <= SHEET_MAX
    &&& forall|k: int| 0 <= k < c.frames@.len() ==> 0 <= #[trigger] c.frames@[k] <= SHEET_MAX
}

pub open spec fn has_default(bs: Seq<Binding>) -> bool {
    exists|i: int| 0 <= i < bs.len() && (#[trigger] bs[i]).when == Predicate::Always
}

/// `i` is the first binding whose predicate holds of `s`.
pub open spec fn is_first_match(bs: Seq<Binding>, s: Snapshot, i: int) -> bool {
    &&& 0 <= i < bs.len()
    &&& holds(bs[i].when, s)
    &&& forall|j: int| 0 <= j < i ==> !holds(#[trigger] bs[j].when, s)
}

/// The binding selected for `s`: the first whose predicate holds.
pub open spec fn selected(bs: Seq<Binding>, s: Snapshot) -> int {
    choose|i: int| is_first_match(bs, s, i)
}

/// The active clip, frame and hold counter after one tick on `s` from
/// `(active, frame, elapsed)`.
pub open spec fn next_counters(bs: Seq<Binding>, active: int, frame: int, elapsed: int, s: Snapshot) -> (int, int, int) {
    let n = selected(bs, s);
    if n != active {
        (n, 0, 0)
    } else if elapsed + 1 >= bs[active].clip.hold {
        (active, (frame + 1) % (bs[active].clip.frames@.len() as int), 0)
    } else {
        (active, frame, elapsed + 1)
    }
}

/// Every sequence of bindings with an `Always` binding has exactly one
/// first match for every snapshot, and the selection is that match.
pub proof fn lemma_first_match_exists(bs: Seq<Binding>, s: Snapshot)
    requires
        has_default(bs),
    ensures
        is_first_match(bs, s, selected(bs, s)),
{
    let d = choose|i: int| 0 <= i < bs.len() && (#[trigger] bs[i]).when == Predicate::Always;
    lemma_match_from(bs, s, 0, d);
}

proof fn lemma_match_from(bs: Seq<Binding>, s: Snapshot, i: int, d: int)
    requires
        0 <= i <= d < bs.len(),
        holds(bs[d].when, s),
        forall|j: int| 0 <= j < i ==> !holds(#[trigger] bs[j].when, s),
    ensures
        exists|k: int| is_first_match(bs, s, k),
    decreases d - i,
{
    if holds(bs[i].when, s) {
        assert(is_first_match(bs, s, i));
    } else {
        lemma_match_from(bs, s, i + 1, d);
    }
}

/// Selection is deterministic: two first matches of the same snapshot are
/// the same binding.
pub proof fn lemma_first_match_unique(bs: Seq<Binding>, s: Snapshot, i: int, j: int)
    requires
        is_first_match(bs, s, i),
        is_first_match(bs, s, j),
    ensures
        i == j,
{
    if i < j {
        assert(!holds(bs[i].when, s));
    } else if j < i {
        assert(!holds(bs[j].when, s));
    }
}

/// The default binding always matches when no other does: if no binding
/// other than an `Always` one holds of `s`, the selection is the first
/// `Always` binding.
pub proof fn lemma_default_selected(bs: Seq<Binding>, s: Snapshot)
    requires
        has_default(bs),
        forall|j: int| 0 <= j < bs.len() && (#[trigger] bs[j]).when != Predicate::Always ==> !holds(bs[j].when, s),
    ensures
        bs[selected(bs, s)].when == Predicate::Always,
        forall|j: int| 0 <= j < selected(bs, s) ==> (#[trigger] bs[j]).when != Predicate::Always,
{
    lemma_first_match_exists(bs, s);
}

/// Whether a clip can be shown: frames present, a non-zero hold, and every
/// cell on the sheet.
pub fn clip_valid(c: &Clip) -> (r: bool)
    ensures
        r == clip_ok(*c),
{
    if c.frames.len() == 0 || c.hold == 0 || c.row < 0 || c.row > SHEET_MAX {
        return false;
    }
    let mut k: usize = 0;
    while k < c.frames.len()
        invariant
            k <= c.frames@.len(),
            forall|m: int| 0 <= m < k ==> 0 <= #[trigger] c.frames@[m] <= SHEET_MAX,
        decreases c.frames@.len() - k,
    {
        if c.frames[k] < 0 || c.frames[k] > SHEET_MAX {
            assert(!(0 <= c.frames@[k as int] <= SHEET_MAX));
            return false;
        }
        k = k + 1;
    }
    true
}

/// Chooses, each tick, the clip of the first binding whose predicate holds
/// of the body's snapshot, and advances that clip's frames.
#[derive(Clone, Debug)]
pub struct AnimMachine {
    pub bindings: Vec<Binding>,
    pub frame_w: i64,
    pub frame_h: i64,
    pub active: usize,
    pub frame: usize,
    pub elapsed: u32,
    pub frozen: bool,
}

impl AnimMachine {
    pub open spec fn wf(&self) -> bool {
        &&& has_default(self.bindings@)
        &&& forall|i: int| 0 <= i < self.bindings@.len() ==> clip_ok(#[trigger] self.bindings@[i].clip)
        &&& 0 <= self.frame_w <= SHEET_MAX
        &&& 0 <= self.frame_h <= SHEET_MAX
        &&& self.active < self.bindings@.len()
        &&& self.frame < self.bindings@[self.active as int].clip.frames@.len()
        &&& self.elapsed < self.bindings@[self.active as int].clip.hold
    }

    /// The frame rectangle on the sprite sheet for the current state.
    pub open spec fn rect_spec(&self) -> Rect {
        let c = self.bindings@[self.active as int].clip;
        Rect {
            x: (c.frames@[self.frame as int] * self.frame_w) as i64,
            y: (c.row * self.frame_h) as i64,
            w: self.frame_w,
            h: self.frame_h,
        }
    }

    /// A machine over `bindings`, on the first frame of the first clip;
    /// refuses bindings with a bad clip, then bindings without a default.
    pub fn new(bindings: Vec<Binding>, frame_w: i64, frame_h: i64) -> (r: Result<AnimMachine, AnimError>)
        requires
            0 <= frame_w <= SHEET_MAX,
            0 <= frame_h <= SHEET_MAX,
        ensures
            match r {
                Ok(m) => {
                    &&& m.wf()
                    &&& m.bindings@ == bindings@
                    &&& m.frame_w == frame_w && m.frame_h == frame_h
                    &&& m.active == 0 && m.frame == 0 && m.elapsed == 0
                    &&& !m.frozen
                },
                Err(e) => e == if exists|i: int| 0 <= i < bindings@.len() && !clip_ok(#[trigger] bindings@[i].clip) {
                    AnimError::BadClip
                } else {
                    AnimError::NoDefault
                },
            },
            r.is_ok() <==> (has_default(bindings@) && forall|i: int| 0 <= i < bindings@.len() ==> clip_ok(#[trigger] bindings@[i].clip)),
    {
        let mut i: usize = 0;
        let mut found = false;
        while i < bindings.len()
            invariant
                i <= bindings@.len(),
                forall|k: int| 0 <= k < i ==> clip_ok(#[trigger] bindings@[k].clip),
                found <==> exists|k: int| 0 <= k < i && (#[trigger] bindings@[k]).when == Predicate::Always,
            decreases bindings@.len() - i,
        {
            if !clip_valid(&bindings[i].clip) {
                return Err(AnimError::BadClip);
            }
            if bindings[i].when == Predicate::Always {
                found = true;
            }
            assert(bindings@[i as int].when == Predicate::Always ==> found);
            i = i + 1;
        }
        if !found {
            return Err(AnimError::NoDefault);
        }
        Ok(AnimMachine { bindings, frame_w, frame_h, active: 0, frame: 0, elapsed: 0, frozen: false })
    }

    /// The index of the binding selected for `s`.
    pub fn select(&self, s: Snapshot) -> (r: usize)
        requires
            self.wf(),
        ensures
            is_first_match(self.bindings@, s, r as int),
            r as int == selected(self.bindings@, s),
    {
        proof {
            lemma_first_match_exists(self.bindings@, s);
        }
        let mut i: usize = 0;
        while i < self.bindings.len()
            invariant
                self.wf(),
                i <= selected(self.bindings@, s),
                is_first_match(self.bindings@, s, selected(self.bindings@, s)),
                forall|j: int| 0 <= j < i ==> !holds(#[trigger] self.bindings@[j].when, s),
            decreases self.bindings@.len() - i,
        {
            if evaluate(self.bindings[i].when, s) {
                proof {
                    lemma_first_match_unique(self.bindings@, s, i as int, selected(self.bindings@, s));
                }
                return i;
            }
            i = i + 1;
        }
        i
    }

    /// One tick on the body's snapshot `s`: a change of clip restarts at its
    /// first frame; the same clip counts the tick and, after `hold` ticks on
    /// a frame, moves to the next frame, wrapping round. A frozen machine
    /// stays as it is.
    pub fn tick(&mut self, s: Snapshot)
        requires
            old(self).wf(),
        ensures
            final(self).wf(),
            final(self).bindings@ == old(self).bindings@,
            final(self).frame_w == old(self).frame_w,
            final(self).frame_h == old(self).frame_h,
            final(self).frozen == old(self).frozen,
            old(self).frozen ==> final(self).active == old(self).active && final(self).frame == old(self).frame
                && final(self).elapsed == old(self).elapsed,
            !old(self).frozen ==> (final(self).active as int, final(self).frame as int, final(self).elapsed as int)
                == next_counters(old(self).bindings@, old(self).active as int, old(self).frame as int,
                old(self).elapsed as int, s),
    {
        if self.frozen {
            return;
        }
        let n = self.select(s);
        if n != self.active {
            self.active = n;
            self.frame = 0;
            self.elapsed = 0;
        } else {
            let hold = self.bindings[n].clip.hold;
            let len = self.bindings[n].clip.frames.len();
            if self.elapsed + 1 >= hold {
                self.frame = (self.frame + 1) % len;
                self.elapsed = 0;
            } else {
                self.elapsed = self.elapsed + 1;
            }
        }
    }

    /// The sprite-sheet rectangle of the current frame; a frozen machine
    /// keeps returning the one it showed when it froze.
    pub fn current_rect(&self) -> (r: Rect)
        requires
            self.wf(),
        ensures
            r == self.rect_spec(),
    {
        let c = &self.bindings[self.active].clip;
        let col = c.frames[self.frame];
        proof {
            assert(0 <= col <= SHEET_MAX);
            assert(0 <= col * self.frame_w <= SHEET_MAX * SHEET_MAX) by (nonlinear_arith)
                requires 0 <= col <= SHEET_MAX, 0 <= self.frame_w <= SHEET_MAX;
            assert(0 <= c.row * self.frame_h <= SHEET_MAX * SHEET_MAX) by (nonlinear_arith)
                requires 0 <= c.row <= SHEET_MAX, 0 <= self.frame_h <= SHEET_MAX;
        }
        Rect { x: col * self.frame_w, y: c.row * self.frame_h, w: self.frame_w, h: self.frame_h }
    }

    pub fn set_frozen(&mut self, frozen: bool)
        requires
            old(self).wf(),
        ensures
            final(self).wf(),
            final(self).frozen == frozen,
            final(self).bindings@ == old(self).bindings@,
            final(self).frame_w == old(self).frame_w,
            final(self).frame_h == old(self).frame_h,
            final(self).active == old(self).active,
            final(self).frame == old(self).frame,
            final(self).elapsed == old(self).elapsed,
    {
        self.frozen = frozen;
    }
}

} // verus!
