use fsr_sdk::context::{
    create_outcome, destroy_outcome, CreateOutcome, DependencyFate, NativeContextOwner,
};
use fsr_sdk::error::{Error, InvariantViolation, Operation};
use std::cell::RefCell;

/// Events of one simulated context: 1 = native create, 2 = native destroy,
/// 3 = creation state released, 4 = device released.
struct Ledger {
    events: RefCell<Vec<u32>>,
    runtime_released: RefCell<bool>,
}

impl Ledger {
    fn new() -> Self {
        Ledger {
            events: RefCell::new(Vec::new()),
            runtime_released: RefCell::new(false),
        }
    }

    fn apply(&self, fate: DependencyFate) {
        if fate == DependencyFate::Release {
            self.events.borrow_mut().push(3);
            self.events.borrow_mut().push(4);
            *self.runtime_released.borrow_mut() = true;
        }
    }
}

/// Runs the creation policy the way the owner does: native create, then the
/// classified outcome.
fn create(
    ledger: &Ledger,
    create_code: u32,
    null_handle: bool,
) -> Result<NativeContextOwner<u32>, Error> {
    ledger.events.borrow_mut().push(1);
    match create_outcome(create_code, null_handle) {
        CreateOutcome::Live => Ok(NativeContextOwner::establish(7)),
        CreateOutcome::Rejected { error, fate } => {
            ledger.apply(fate);
            Err(error)
        }
    }
}

/// Runs one teardown the way the owner does.
fn teardown(
    ledger: &Ledger,
    owner: &mut NativeContextOwner<u32>,
    destroy_code: u32,
) -> Result<(), Error> {
    match owner.take_for_teardown() {
        None => Ok(()),
        Some(_) => {
            ledger.events.borrow_mut().push(2);
            let (result, fate) = destroy_outcome(destroy_code);
            ledger.apply(fate);
            result
        }
    }
}

#[test]
fn returned_create_errors_never_destroy_even_nonnull_outputs() {
    for null in [false, true] {
        let ledger = Ledger::new();
        let owner = create(&ledger, u32::MAX, null);
        assert!(matches!(
            owner,
            Err(Error::Native {
                operation: Operation::Create,
                code: u32::MAX
            })
        ));
        assert_eq!(*ledger.events.borrow(), [1, 3, 4]);
        assert!(*ledger.runtime_released.borrow());
    }
}

#[test]
fn ok_null_retains_every_dependency_without_destroy() {
    let ledger = Ledger::new();
    let owner = create(&ledger, 0, true);
    assert!(matches!(
        owner,
        Err(Error::NativeInvariantViolation(
            InvariantViolation::NullContextOnSuccess
        ))
    ));
    assert_eq!(*ledger.events.borrow(), [1]);
    assert!(!*ledger.runtime_released.borrow());
}

#[test]
fn successful_teardown_is_once_and_ordered_for_explicit_destroy_and_drop() {
    for explicit in [false, true] {
        let ledger = Ledger::new();
        let mut owner = create(&ledger, 0, false).unwrap();
        assert_eq!(*ledger.events.borrow(), [1]);
        assert_eq!(owner.live(), Some(&7));
        if explicit {
            teardown(&ledger, &mut owner, 0).unwrap();
        }
        // Drop tears down again; it must not destroy a second time.
        teardown(&ledger, &mut owner, 0).unwrap();
        assert_eq!(*ledger.events.borrow(), [1, 2, 3, 4]);
        assert!(*ledger.runtime_released.borrow());
        assert_eq!(owner.live(), None);
    }
}

#[test]
fn destroy_errors_retain_every_dependency_and_never_retry() {
    for explicit in [false, true] {
        let ledger = Ledger::new();
        let mut owner = create(&ledger, 0, false).unwrap();
        if explicit {
            assert_eq!(
                teardown(&ledger, &mut owner, u32::MAX),
                Err(Error::Native {
                    operation: Operation::Destroy,
                    code: u32::MAX
                })
            );
            assert_eq!(teardown(&ledger, &mut owner, 0), Ok(()));
        } else {
            let _ = teardown(&ledger, &mut owner, u32::MAX);
        }
        assert_eq!(*ledger.events.borrow(), [1, 2]);
        assert!(!*ledger.runtime_released.borrow());
    }
}

#[test]
fn create_outcome_of_each_code() {
    assert_eq!(create_outcome(0, false), CreateOutcome::Live);
    assert_eq!(
        create_outcome(6, false),
        CreateOutcome::Rejected {
            error: Error::Native {
                operation: Operation::Create,
                code: 6
            },
            fate: DependencyFate::Release,
        }
    );
    assert_eq!(
        create_outcome(0, true),
        CreateOutcome::Rejected {
            error: Error::NativeInvariantViolation(InvariantViolation::NullContextOnSuccess),
            fate: DependencyFate::Retain,
        }
    );
}

#[test]
fn destroy_outcome_of_each_code() {
    assert_eq!(destroy_outcome(0), (Ok(()), DependencyFate::Release));
    assert_eq!(
        destroy_outcome(3),
        (
            Err(Error::Native {
                operation: Operation::Destroy,
                code: 3
            }),
            DependencyFate::Retain
        )
    );
}
