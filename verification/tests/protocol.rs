use hart_cs::spinlock::{BoolLock, OwnerLock};
use hart_cs::status::MaskPattern;
use hart_cs::system::{handoff, Phase, System};

#[test]
fn bool_lock_second_acquire_never_succeeds() {
    let mut lock = BoolLock::new();
    assert!(!lock.locked);
    assert!(lock.try_acquire());
    // The boolean form records no holder: a hart that acquires again
    // without releasing spins forever. Every bounded prefix of that spin
    // observes only failed attempts.
    for _ in 0..1000 {
        assert!(!lock.try_acquire());
    }
    lock.release();
    assert!(lock.try_acquire());
}

#[test]
fn owner_lock_fast_path_reenters_while_others_block() {
    let mut lock = OwnerLock::new();
    assert!(lock.try_acquire(7));
    // Same hart: immediate success, no spinning.
    assert!(lock.try_acquire(7));
    // Every other hart keeps blocking.
    for _ in 0..1000 {
        assert!(!lock.try_acquire(3));
        assert!(!lock.try_acquire(11));
    }
    lock.release(7);
    assert!(lock.try_acquire(3));
}

#[test]
fn fresh_system_is_idle_and_unlocked() {
    let statuses = vec![0b1010u64, 0b1000, 0];
    let sys = System::new(MaskPattern::MasterAndDelegate, &statuses);
    assert_eq!(sys.harts.len(), 3);
    for (h, &s) in sys.harts.iter().zip(statuses.iter()) {
        assert_eq!(h.phase, Phase::Idle);
        assert_eq!(h.status, s);
    }
    assert!(!sys.lock.locked);
    assert_eq!(sys.depth, 0);
    assert_eq!(sys.shared, 0);
}

#[test]
fn one_full_section_masks_excludes_and_restores() {
    let statuses = vec![0xFFAAu64, 0x1A];
    let mut sys = System::new(MaskPattern::MasterAndDelegate, &statuses);

    sys.step_mask_interrupts(0);
    // Entry cleared exactly the configured interrupt-enable bits and
    // captured the full prior register as the token.
    assert_eq!(sys.harts[0].status, 0xFFA0);
    assert_eq!(sys.harts[0].saved, 0xFFAA);
    assert_eq!(sys.harts[0].phase, Phase::Entering);

    assert!(sys.step_try_lock(0));
    assert_eq!(sys.harts[0].phase, Phase::InSection);
    assert_eq!(sys.depth, 1);

    // A second hart spinning meanwhile never gets in.
    sys.step_mask_interrupts(1);
    for _ in 0..100 {
        assert!(!sys.step_try_lock(1));
        assert_eq!(sys.harts[1].phase, Phase::Entering);
    }

    sys.step_write_shared(0, 42);
    assert_eq!(sys.step_read_shared(0), 42);

    sys.step_unlock(0);
    assert_eq!(sys.depth, 0);
    assert!(!sys.lock.locked);
    assert_eq!(sys.harts[0].phase, Phase::Exiting);

    sys.step_restore(0);
    assert_eq!(sys.harts[0].phase, Phase::Idle);
    // Bit-for-bit restoration of the status register.
    assert_eq!(sys.harts[0].status, 0xFFAA);

    // Now the waiter gets in and sees the protected write.
    assert!(sys.step_try_lock(1));
    assert_eq!(sys.step_read_shared(1), 42);
    sys.step_unlock(1);
    sys.step_restore(1);
    assert_eq!(sys.harts[1].status, 0x1A);
}

#[test]
fn handoff_makes_writes_visible_across_harts() {
    // Every ordered pair of distinct harts, several values.
    let statuses = vec![0xAAu64, 0x08, 0x02, 0];
    for a in 0..4usize {
        for b in 0..4usize {
            if a == b {
                continue;
            }
            for &v in &[0u64, 7, 0xFFFF_FFFF_FFFF_FFFF] {
                let mut sys = System::new(MaskPattern::MasterOnly, &statuses);
                let read_back = handoff(&mut sys, a, b, v);
                assert_eq!(read_back, v);
                assert_eq!(sys.shared, v);
                assert_eq!(sys.harts[a].status, statuses[a]);
                assert_eq!(sys.harts[b].status, statuses[b]);
                assert_eq!(sys.harts[a].phase, Phase::Idle);
                assert_eq!(sys.harts[b].phase, Phase::Idle);
                assert!(!sys.lock.locked);
            }
        }
    }
}

#[test]
fn every_mask_configuration_runs_a_clean_section() {
    for cfg in [
        MaskPattern::MasterAndDelegate,
        MaskPattern::MasterOnly,
        MaskPattern::DelegateOnly,
        MaskPattern::Neither,
    ] {
        let statuses = vec![0xBEEAu64];
        let mut sys = System::new(cfg, &statuses);
        sys.step_mask_interrupts(0);
        assert_eq!(sys.harts[0].status, 0xBEEA & !cfg.imm());
        assert!(sys.step_try_lock(0));
        sys.step_unlock(0);
        sys.step_restore(0);
        assert_eq!(sys.harts[0].status, 0xBEEA);
        assert_eq!(sys.harts[0].phase, Phase::Idle);
    }
}
