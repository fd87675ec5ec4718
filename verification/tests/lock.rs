use dmz::lock::{Key, Lock, RegularKey, UnlockOutcome};

#[test]
fn should_not_unlock_without_matching_key() {
    let lock = Lock { code: 123 };
    let keys = [Key::RegularKey(RegularKey { code: 234 })];
    assert_eq!(lock.try_unlock(&keys), UnlockOutcome::StillLocked);
}

#[test]
fn should_unlock_with_matching_regular_key() {
    let lock = Lock { code: 123 };
    let keys = [Key::RegularKey(RegularKey { code: 123 })];
    assert_eq!(lock.try_unlock(&keys), UnlockOutcome::Unlocked);
}

#[test]
fn skeleton_key_unlocks_any_lock() {
    let lock = Lock { code: 5 };
    let keys = [Key::RegularKey(RegularKey { code: 6 }), Key::SkeletonKey];
    assert_eq!(lock.try_unlock(&keys), UnlockOutcome::Unlocked);
}

#[test]
fn no_keys_stay_locked() {
    assert_eq!(Lock { code: 1 }.try_unlock(&[]), UnlockOutcome::StillLocked);
}
