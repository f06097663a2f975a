use crate::x86::cpu_flags::{CpuFlags, INTERRUPT_ENABLED};
use vstd::prelude::*;

verus! {

/// A lock around a value for a processor that interrupts can stop at any
/// time: while the lock is held, interrupts are off.
pub struct Mutex<T> {
    data: T,
    lock: bool,
}

/// The proof that a lock is held, with the state of interrupts that the
/// release brings back.
pub struct MutexGuard {
    old_interrupt_flag: bool,
}

impl MutexGuard {
    /// Whether interrupts were on when the lock was taken.
    pub closed spec fn saved_interrupt_flag(&self) -> bool {
        self.old_interrupt_flag
    }
}

/// The flags once a lock is taken: interrupts off, all else as it was.
pub open spec fn flags_when_locked(flags: CpuFlags) -> CpuFlags {
    CpuFlags { bits: flags.bits & !INTERRUPT_ENABLED }
}

/// The flags once a lock is released: interrupts on if they were on when
/// the lock was taken, all else as it was.
pub open spec fn flags_when_released(flags: CpuFlags, saved: bool) -> CpuFlags {
    if saved {
        CpuFlags { bits: flags.bits | INTERRUPT_ENABLED }
    } else {
        flags
    }
}

impl<T> Mutex<T> {
    /// The value that the lock guards.
    pub closed spec fn view(&self) -> T {
        self.data
    }

    /// Nobody holds the lock.
    pub closed spec fn is_free(&self) -> bool {
        self.lock
    }

    /// A free lock around `data`.
    pub fn new(data: T) -> (mutex: Self)
        ensures
            mutex@ == data,
            mutex.is_free(),
    {
        Self { data, lock: true }
    }

    /// Takes the lock: notes whether interrupts are on, switches them off,
    /// and only then takes the lock, so that no handler can ask for the
    /// lock while this processor holds it. The lock must be free; on one
    /// processor, waiting for it would never end.
    pub fn lock(&mut self, cpu_flags: &mut CpuFlags) -> (guard: MutexGuard)
        requires
            old(self).is_free(),
        ensures
            !final(self).is_free(),
            final(self)@ == old(self)@,
            guard.saved_interrupt_flag() == old(cpu_flags).interrupts_on(),
            *final(cpu_flags) == flags_when_locked(*old(cpu_flags)),
            !final(cpu_flags).interrupts_on(),
    {
        let old_interrupt_flag = cpu_flags.interrupt_enabled();
        *cpu_flags = cpu_flags.with_interrupt_enabled(false);
        self.lock = false;
        MutexGuard { old_interrupt_flag }
    }

    /// Gives the lock back: first releases it, then switches interrupts on
    /// again if they were on when it was taken.
    pub fn unlock(&mut self, guard: MutexGuard, cpu_flags: &mut CpuFlags)
        requires
            !old(self).is_free(),
        ensures
            final(self).is_free(),
            final(self)@ == old(self)@,
            *final(cpu_flags) == flags_when_released(*old(cpu_flags), guard.saved_interrupt_flag()),
            final(cpu_flags).interrupts_on() == (guard.saved_interrupt_flag() || old(
                cpu_flags,
            ).interrupts_on()),
    {
        self.lock = true;
        if guard.old_interrupt_flag {
            *cpu_flags = cpu_flags.with_interrupt_enabled(true);
        }
    }

    /// The value, for reading.
    pub fn get(&self) -> (data: &T)
        ensures
            *data == self@,
    {
        &self.data
    }

    /// Puts `data` in the place of the value and returns what was there.
    /// Only the holder of the lock may do so.
    pub fn replace(&mut self, guard: &MutexGuard, data: T) -> (previous: T)
        requires
            !old(self).is_free(),
        ensures
            final(self)@ == data,
            previous == old(self)@,
            final(self).is_free() == old(self).is_free(),
    {
        let mut data = data;
        core::mem::swap(&mut self.data, &mut data);
        data
    }

    /// The value, once the lock is no longer needed.
    pub fn into_inner(self) -> (data: T)
        ensures
            data == self@,
    {
        self.data
    }
}

/// Taking a lock and giving it back leaves the flags as they were: the
/// interrupt flag is off in between and is then what it was before.
pub proof fn lemma_flags_restored(flags: CpuFlags)
    ensures
        !flags_when_locked(flags).interrupts_on(),
        flags_when_released(flags_when_locked(flags), flags.interrupts_on()) == flags,
{
    let bits = flags.bits;
    assert(((bits & !0x200u32) / 0x200u32) % 2 == 0) by (bit_vector);
    assert((bits / 0x200u32) % 2 == 1 ==> (bits & !0x200u32) | 0x200u32 == bits) by (bit_vector);
    assert((bits / 0x200u32) % 2 != 1 ==> (bits & !0x200u32) == bits) by (bit_vector);
}

} // verus!
