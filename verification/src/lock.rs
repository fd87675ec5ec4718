use vstd::prelude::*;

verus! {

/// A lock that opens with the key of the same code.
#[derive(Debug, Clone, Copy, PartialEq, Eq, Structural)]
pub struct Lock {
    pub code: u32,
}

/// A key for one specific lock code.
#[derive(Debug, Clone, Copy, PartialEq, Eq, Structural)]
pub struct RegularKey {
    pub code: u32,
}

/// A key: a regular key opens the lock with its code, a skeleton key opens
/// any lock.
#[derive(Debug, Clone, Copy, PartialEq, Eq, Structural)]
pub enum Key {
    RegularKey(RegularKey),
    SkeletonKey,
}

/// Outcome of trying to open a lock.
#[derive(Debug, Clone, Copy, PartialEq, Eq, Structural)]
pub enum UnlockOutcome {
    Unlocked,
    StillLocked,
}

/// Whether `key` opens a lock with code `code`.
pub open spec fn key_fits(key: Key, code: u32) -> bool {
    match key {
        Key::RegularKey(k) => k.code == code,
        Key::SkeletonKey => true,
    }
}

impl Key {
    /// Whether this key opens `lock`.
    pub fn fits(&self, lock: &Lock) -> (r: bool)
        ensures
            r == key_fits(*self, lock.code),
    {
        match self {
            Key::RegularKey(k) => lock.code == k.code,
            Key::SkeletonKey => true,
        }
    }
}

impl Lock {
    /// Tries to open the lock with the keys an operator carries: the first
    /// key that fits is used; the lock stays locked if none fits.
    pub fn try_unlock(&self, keys: &[Key]) -> (r: UnlockOutcome)
        ensures
            r == UnlockOutcome::Unlocked <==> exists|i: int|
                0 <= i < keys@.len() && key_fits(#[trigger] keys@[i], self.code),
    {
        let mut i: usize = 0;
        while i < keys.len()
            invariant
                i <= keys.len(),
                forall|j: int| 0 <= j < i ==> !key_fits(#[trigger] keys@[j], self.code),
            decreases keys.len() - i,
        {
            if keys[i].fits(self) {
                return match keys[i] {
                    Key::RegularKey(k) => {
                        if self.code == k.code {
                            UnlockOutcome::Unlocked
                        } else {
                            UnlockOutcome::StillLocked
                        }
                    },
                    Key::SkeletonKey => UnlockOutcome::Unlocked,
                };
            }
            i = i + 1;
        }
        UnlockOutcome::StillLocked
    }
}

/// Law: a skeleton key opens every lock, and a regular key opens exactly the
/// locks with its code.
pub proof fn lemma_keys_open(code: u32, other: u32)
    ensures
        key_fits(Key::SkeletonKey, code),
        key_fits(Key::RegularKey(RegularKey { code }), code),
        other != code ==> !key_fits(Key::RegularKey(RegularKey { code: other }), code),
{
}

} // verus!
