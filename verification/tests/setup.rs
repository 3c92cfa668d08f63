use spin::Mutex;
use wmm::setup::claim_setup;

#[test]
fn setup_is_due_at_the_first_consultation_only() {
    let mut initialized = false;
    assert!(claim_setup(&mut initialized));
    assert!(initialized);
    for _ in 0..10 {
        assert!(!claim_setup(&mut initialized));
        assert!(initialized);
    }
}

#[test]
fn setup_is_never_due_once_the_flag_is_set() {
    let mut initialized = true;
    assert!(!claim_setup(&mut initialized));
    assert!(initialized);
}

#[test]
fn guarded_flag_sets_up_once_over_many_calls() {
    let initialized = Mutex::new(false);
    let mut setups = 0;
    for call in 0..1600 {
        {
            let mut guard = initialized.lock();
            if claim_setup(&mut guard) {
                assert_eq!(call, 0);
                setups += 1;
            }
        }
        assert_eq!(setups, 1);
        assert!(*initialized.lock());
    }
    assert_eq!(setups, 1);
}
