use vstd::prelude::*;

use crate::assembly::{Reg, REG_COUNT};

verus! {

/// What the allocator knows of one machine register.
#[derive(Debug, Clone, Copy, PartialEq, Eq, Structural)]
pub struct RegisyerState {
    pub is_used: bool,
    pub is_dirty: bool,
    pub is_live: bool,
    pub is_reserved: bool,
    pub reg: Reg,
}

/// Hands out machine registers that are neither used nor reserved.
#[derive(Debug, Clone)]
pub struct RegisterAllocator {
    regs: Vec<RegisyerState>,
}

impl RegisterAllocator {
    /// The state of register number `i`.
    pub closed spec fn state(&self, i: int) -> RegisyerState {
        self.regs@[i]
    }

    /// There is one state per register, in order of number.
    pub closed spec fn wf(&self) -> bool {
        &&& self.regs@.len() == REG_COUNT
        &&& forall|i: int| 0 <= i < REG_COUNT ==> (#[trigger] self.regs@[i]).reg.number() == i
    }

    /// `new` is `old` with register `n` set as `f` says and the others unchanged.
    pub open spec fn changed(old: &Self, new: &Self, n: int, s: RegisyerState) -> bool {
        &&& new.wf()
        &&& new.state(n) == s
        &&& forall|i: int| 0 <= i < REG_COUNT && i != n ==> #[trigger] new.state(i) == old.state(i)
    }

    /// Every register, none used, dirty, live or reserved.
    pub fn all() -> (r: Self)
        ensures
            r.wf(),
            forall|i: int| 0 <= i < REG_COUNT ==> {
                let s = #[trigger] r.state(i);
                !s.is_used && !s.is_dirty && !s.is_live && !s.is_reserved
            },
    {
        let all = Reg::all();
        let mut regs: Vec<RegisyerState> = Vec::new();
        let mut i: usize = 0;
        while i < all.len()
            invariant
                all@.len() == REG_COUNT,
                forall|j: int| 0 <= j < REG_COUNT ==> (#[trigger] all@[j]).number() == j,
                i <= all@.len(),
                regs@.len() == i,
                forall|j: int| 0 <= j < i ==> (#[trigger] regs@[j]) == (RegisyerState {
                    is_used: false,
                    is_dirty: false,
                    is_live: false,
                    is_reserved: false,
                    reg: all@[j],
                }),
            decreases all@.len() - i,
        {
            regs.push(RegisyerState { is_used: false, is_dirty: false, is_live: false, is_reserved: false, reg: all[i] });
            i = i + 1;
        }
        Self { regs }
    }

    pub fn make_dirty(&mut self, reg: Reg)
        requires
            old(self).wf(),
        ensures
            Self::changed(old(self), final(self), reg.number() as int,
                RegisyerState { is_dirty: true, ..old(self).state(reg.number() as int) }),
    {
        let i = reg.index();
        let mut s = self.regs[i];
        s.is_dirty = true;
        self.regs.set(i, s);
    }

    pub fn make_live(&mut self, reg: Reg)
        requires
            old(self).wf(),
        ensures
            Self::changed(old(self), final(self), reg.number() as int,
                RegisyerState { is_live: true, ..old(self).state(reg.number() as int) }),
    {
        let i = reg.index();
        let mut s = self.regs[i];
        s.is_live = true;
        self.regs.set(i, s);
    }

    pub fn make_dead(&mut self, reg: Reg)
        requires
            old(self).wf(),
        ensures
            Self::changed(old(self), final(self), reg.number() as int,
                RegisyerState { is_live: false, ..old(self).state(reg.number() as int) }),
    {
        let i = reg.index();
        let mut s = self.regs[i];
        s.is_live = false;
        self.regs.set(i, s);
    }

    pub fn make_reserved(&mut self, reg: Reg)
        requires
            old(self).wf(),
        ensures
            Self::changed(old(self), final(self), reg.number() as int,
                RegisyerState { is_reserved: true, ..old(self).state(reg.number() as int) }),
    {
        let i = reg.index();
        let mut s = self.regs[i];
        s.is_reserved = true;
        self.regs.set(i, s);
    }

    /// Whether register number `i` can be handed out.
    pub open spec fn free(&self, i: int) -> bool {
        !self.state(i).is_used && !self.state(i).is_reserved
    }

    /// Hands out the lowest-numbered free register and marks it used; `None` when none is free.
    pub fn get(&mut self) -> (r: Option<Reg>)
        requires
            old(self).wf(),
        ensures
            r is None ==> *final(self) == *old(self) && forall|i: int| 0 <= i < REG_COUNT ==> !#[trigger] old(self).free(i),
            r is Some ==> {
                let n = r->0.number() as int;
                &&& old(self).free(n)
                &&& forall|i: int| 0 <= i < n ==> !#[trigger] old(self).free(i)
                &&& Self::changed(old(self), final(self), n, RegisyerState { is_used: true, ..old(self).state(n) })
            },
    {
        let mut i: usize = 0;
        while i < self.regs.len()
            invariant
                self.wf(),
                *self == *old(self),
                i <= REG_COUNT,
                forall|j: int| 0 <= j < i ==> !#[trigger] self.free(j),
            decreases REG_COUNT - i,
        {
            let s = self.regs[i];
            if !s.is_used && !s.is_reserved {
                let mut t = s;
                t.is_used = true;
                self.regs.set(i, t);
                return Some(s.reg);
            }
            i = i + 1;
        }
        None
    }

    pub fn is_used(&self, reg: Reg) -> (r: bool)
        requires
            self.wf(),
        ensures
            r == self.state(reg.number() as int).is_used,
    {
        self.regs[reg.index()].is_used
    }
}

} // verus!
