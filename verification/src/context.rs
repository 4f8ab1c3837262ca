//! Lifecycle policy of one native FidelityFX context: what a create or destroy
//! return code means, what happens to the dependencies the native side may
//! reference, that teardown is attempted at most once, and that a failed
//! dispatch poisons the context for good.
//!
//! The native calls themselves are made by the caller; these decisions tell it
//! what to do with their results.
use crate::abi::FFX_API_RETURN_OK;
use crate::error::{Error, InvariantViolation, Operation};
use vstd::prelude::*;

verus! {

/// What happens to the dependencies (creation state, device, runtime)
/// retained for a native context.
#[derive(Debug, Clone, Copy, PartialEq, Eq, Structural)]
pub enum DependencyFate {
    /// Released in order: creation state, then device, then runtime.
    Release,
    /// Kept alive for the rest of the process: the native side may still use them.
    Retain,
}

/// The meaning of a native create call's return code and output handle.
#[derive(Debug, Clone, Copy, PartialEq, Eq, Structural)]
pub enum CreateOutcome {
    /// The context is live; its owner takes the handle and the dependencies.
    Live,
    /// Creation failed; no destroy is ever attempted for this attempt.
    Rejected { error: Error, fate: DependencyFate },
}

/// A returned error code fails creation and releases the dependencies without
/// touching the output handle, even a non-null one; success with a null handle
/// is an invariant violation that retains every dependency; success with a
/// non-null handle makes the context live.
pub open spec fn spec_create_outcome(code: u32, handle_is_null: bool) -> CreateOutcome {
    if code != FFX_API_RETURN_OK {
        CreateOutcome::Rejected {
            error: Error::Native { operation: Operation::Create, code },
            fate: DependencyFate::Release,
        }
    } else if handle_is_null {
        CreateOutcome::Rejected {
            error: Error::NativeInvariantViolation(InvariantViolation::NullContextOnSuccess),
            fate: DependencyFate::Retain,
        }
    } else {
        CreateOutcome::Live
    }
}

/// Classifies the result of a native create call.
pub fn create_outcome(code: u32, handle_is_null: bool) -> (r: CreateOutcome)
    ensures
        r == spec_create_outcome(code, handle_is_null),
{
    if code != FFX_API_RETURN_OK {
        return CreateOutcome::Rejected {
            error: Error::Native { operation: Operation::Create, code },
            fate: DependencyFate::Release,
        };
    }
    if handle_is_null {
        return CreateOutcome::Rejected {
            error: Error::NativeInvariantViolation(InvariantViolation::NullContextOnSuccess),
            fate: DependencyFate::Retain,
        };
    }
    CreateOutcome::Live
}

/// A successful destroy releases the dependencies; a failed one keeps the
/// code and retains them all.
pub open spec fn spec_destroy_outcome(code: u32) -> (Result<(), Error>, DependencyFate) {
    if code == FFX_API_RETURN_OK {
        (Ok(()), DependencyFate::Release)
    } else {
        (Err(Error::Native { operation: Operation::Destroy, code }), DependencyFate::Retain)
    }
}

/// Classifies the result of a native destroy call.
pub fn destroy_outcome(code: u32) -> (r: (Result<(), Error>, DependencyFate))
    ensures
        r == spec_destroy_outcome(code),
{
    if code == FFX_API_RETURN_OK {
        (Ok(()), DependencyFate::Release)
    } else {
        (Err(Error::Native { operation: Operation::Destroy, code }), DependencyFate::Retain)
    }
}

/// One teardown: the live context it hands over for native destruction, and
/// what the owner holds afterwards (nothing: teardown is terminal before the
/// native call is made).
pub open spec fn teardown_step<L>(live: Option<L>) -> (Option<L>, Option<L>) {
    (live, None)
}

/// Native destroy attempts made by `teardowns` successive teardowns of an
/// owner holding `live`.
pub open spec fn destroy_attempts<L>(live: Option<L>, teardowns: nat) -> nat
    decreases teardowns,
{
    if teardowns == 0 {
        0
    } else {
        let (attempt, after) = teardown_step(live);
        (if attempt is Some { 1nat } else { 0nat }) + destroy_attempts(after, (teardowns - 1) as nat)
    }
}

/// Owner of at most one live native context (its handle and dependencies).
pub struct NativeContextOwner<L> {
    live: Option<L>,
}

impl<L> NativeContextOwner<L> {
    /// The live context held, if any.
    pub closed spec fn spec_live(&self) -> Option<L> {
        self.live
    }

    /// Takes ownership of a context whose creation succeeded.
    pub fn establish(live: L) -> (r: Self)
        ensures
            r.spec_live() == Some(live),
    {
        NativeContextOwner { live: Some(live) }
    }

    /// The live context, if teardown has not happened yet.
    pub fn live(&self) -> (r: Option<&L>)
        ensures
            match r {
                Some(l) => self.spec_live() == Some(*l),
                None => self.spec_live() is None,
            },
    {
        match &self.live {
            Some(l) => Some(l),
            None => None,
        }
    }

    /// Begins teardown: hands over the live context for native destruction,
    /// if there still is one, and leaves the owner empty so that no later
    /// teardown (explicit or on drop) can destroy it again.
    pub fn take_for_teardown(&mut self) -> (r: Option<L>)
        ensures
            (r, final(self).spec_live()) == teardown_step(old(self).spec_live()),
    {
        self.live.take()
    }
}

/// Teardown is attempted once: however many times an owner is torn down
/// (explicit destroy, then drop), native destruction is attempted exactly once
/// for a live context and never for an empty owner.
pub proof fn lemma_teardown_attempts_destroy_once<L>(live: Option<L>, teardowns: nat)
    requires
        teardowns >= 1,
    ensures
        destroy_attempts(live, teardowns) == (if live is Some { 1nat } else { 0nat }),
    decreases teardowns,
{
    if teardowns > 1 {
        lemma_teardown_attempts_destroy_once(None::<L>, (teardowns - 1) as nat);
    }
    reveal_with_fuel(destroy_attempts, 2);
    if teardowns > 1 {
        assert(destroy_attempts(None::<L>, (teardowns - 1) as nat) == 0);
    }
}

/// A failed destroy is never retried and retains every dependency: the error
/// keeps the native code, and no later teardown of that owner attempts
/// another destroy.
pub proof fn lemma_failed_destroy_is_terminal<L>(live: L, code: u32, later_teardowns: nat)
    requires
        code != FFX_API_RETURN_OK,
    ensures
        spec_destroy_outcome(code) == (
            Err::<(), Error>(Error::Native { operation: Operation::Destroy, code }),
            DependencyFate::Retain,
        ),
        teardown_step(Some(live)).0 == Some(live),
        destroy_attempts(teardown_step(Some(live)).1, later_teardowns) == 0,
{
    if later_teardowns >= 1 {
        lemma_teardown_attempts_destroy_once(None::<L>, later_teardowns);
    }
}

/// Creation policy: a context becomes live exactly when the native call
/// returned OK with a non-null handle. A returned error code never leads to a
/// destroy and releases the dependencies, whatever the output handle; OK with
/// a null handle retains every dependency.
pub proof fn lemma_create_policy(code: u32, handle_is_null: bool)
    ensures
        (spec_create_outcome(code, handle_is_null) is Live) <==> (code == FFX_API_RETURN_OK
            && !handle_is_null),
        code != FFX_API_RETURN_OK ==> spec_create_outcome(code, handle_is_null)
            == (CreateOutcome::Rejected {
            error: Error::Native { operation: Operation::Create, code },
            fate: DependencyFate::Release,
        }),
        code == FFX_API_RETURN_OK && handle_is_null ==> (spec_create_outcome(code, handle_is_null)
            matches CreateOutcome::Rejected { fate: DependencyFate::Retain, .. }),
{
}

/// Destruction policy: a destroy succeeds exactly when the native call
/// returned OK, and then releases the dependencies; any other code is
/// returned with the destroy operation and that code, and retains them.
pub proof fn lemma_destroy_policy(code: u32)
    ensures
        (spec_destroy_outcome(code).0 is Ok) <==> code == FFX_API_RETURN_OK,
        code == FFX_API_RETURN_OK ==> spec_destroy_outcome(code) == (
            Ok::<(), Error>(()),
            DependencyFate::Release,
        ),
        code != FFX_API_RETURN_OK ==> spec_destroy_outcome(code) == (
            Err::<(), Error>(Error::Native { operation: Operation::Destroy, code }),
            DependencyFate::Retain,
        ),
{
}

/// Whether a context has been poisoned by a failed native dispatch.
pub struct DispatchGate {
    poisoned: bool,
}

/// The result of a native dispatch's return code.
pub open spec fn spec_dispatch_result(code: u32) -> Result<(), Error> {
    if code == FFX_API_RETURN_OK {
        Ok(())
    } else {
        Err(Error::Native { operation: Operation::Dispatch, code })
    }
}

/// Poison after a series of native dispatch return codes, starting from `poisoned`.
pub open spec fn poisoned_after(poisoned: bool, codes: Seq<u32>) -> bool
    decreases codes.len(),
{
    if codes.len() == 0 {
        poisoned
    } else {
        poisoned_after(poisoned || codes[0] != FFX_API_RETURN_OK, codes.drop_first())
    }
}

impl DispatchGate {
    /// Whether dispatch is refused.
    pub closed spec fn is_poisoned(self) -> bool {
        self.poisoned
    }

    /// A fresh context accepts dispatches.
    pub fn new() -> (r: Self)
        ensures
            !r.is_poisoned(),
    {
        DispatchGate { poisoned: false }
    }

    /// Whether dispatch is refused.
    pub fn poisoned(&self) -> (r: bool)
        ensures
            r == self.is_poisoned(),
    {
        self.poisoned
    }

    /// Runs one dispatch: refuses a poisoned context before inspecting
    /// anything; otherwise inspects, and only if inspection succeeds calls the
    /// native dispatch with its descriptor. Inspection errors leave the context
    /// usable; a native error is returned with its code and poisons the context.
    ///
    /// A poisoned context asks nothing of either closure, so neither is called
    /// there; the native dispatch is only ever handed a descriptor that the
    /// inspection returned. The poison afterwards is `poisoned_after` the
    /// native return codes of this dispatch: none where it was refused or the
    /// inspection failed, one where the native dispatch ran.
    pub fn dispatch_core<D, I: FnOnce() -> Result<D, Error>, N: FnOnce(D) -> u32>(
        &mut self,
        inspect: I,
        native: N,
    ) -> (r: Result<(), Error>)
        requires
            !old(self).is_poisoned() ==> call_requires(inspect, ()),
            forall|d: D|
                !old(self).is_poisoned() && #[trigger] call_ensures(inspect, (), Ok::<D, Error>(d))
                    ==> call_requires(native, (d,)),
        ensures
            old(self).is_poisoned() ==> r == Err::<(), Error>(Error::DispatchPoisoned)
                && final(self).is_poisoned() == poisoned_after(old(self).is_poisoned(), Seq::empty()),
            !old(self).is_poisoned() ==> (exists|inspected: Result<D, Error>|
                #[trigger] call_ensures(inspect, (), inspected) && match inspected {
                    Err(e) => r == Err::<(), Error>(e) && final(self).is_poisoned()
                        == poisoned_after(old(self).is_poisoned(), Seq::empty()),
                    Ok(desc) => (exists|code: u32|
                        #[trigger] call_ensures(native, (desc,), code) && r == spec_dispatch_result(code)
                            && final(self).is_poisoned() == poisoned_after(
                            old(self).is_poisoned(),
                            seq![code],
                        )),
                }),
    {
        if self.poisoned {
            return Err(Error::DispatchPoisoned);
        }
        let inspected = inspect();
        let ghost observed = inspected;
        assert(call_ensures(inspect, (), observed));
        match inspected {
            Err(e) => {
                assert(!self.poisoned);
                assert(observed == Err::<D, Error>(e));
                Err(e)
            },
            Ok(desc) => {
                let ghost handed = desc;
                let code = native(desc);
                assert(call_ensures(native, (handed,), code));
                proof {
                    reveal_with_fuel(poisoned_after, 2);
                }
                if code == FFX_API_RETURN_OK {
                    Ok(())
                } else {
                    self.poisoned = true;
                    Err(Error::Native { operation: Operation::Dispatch, code })
                }
            },
        }
    }
}

/// Poison is permanent and caused only by native failures: after a series of
/// native dispatch return codes a context is poisoned exactly when it was
/// before or one of the codes was not OK.
pub proof fn lemma_poison_is_permanent(poisoned: bool, codes: Seq<u32>)
    ensures
        poisoned_after(poisoned, codes) == (poisoned || exists|i: int|
            0 <= i < codes.len() && codes[i] != FFX_API_RETURN_OK),
    decreases codes.len(),
{
    if codes.len() > 0 {
        let rest = codes.drop_first();
        lemma_poison_is_permanent(poisoned || codes[0] != FFX_API_RETURN_OK, rest);
        if exists|i: int| 0 <= i < rest.len() && rest[i] != FFX_API_RETURN_OK {
            let i = choose|i: int| 0 <= i < rest.len() && rest[i] != FFX_API_RETURN_OK;
            assert(codes[i + 1] != FFX_API_RETURN_OK);
        }
        if exists|i: int| 0 <= i < codes.len() && codes[i] != FFX_API_RETURN_OK {
            let i = choose|i: int| 0 <= i < codes.len() && codes[i] != FFX_API_RETURN_OK;
            if i > 0 {
                assert(rest[i - 1] != FFX_API_RETURN_OK);
            }
        }
    }
}

/// Successive dispatches compose: the poison after one series of native
/// dispatch return codes followed by another is the poison after the second
/// series, started from the poison that the first left.
pub proof fn lemma_poison_composes(poisoned: bool, first: Seq<u32>, second: Seq<u32>)
    ensures
        poisoned_after(poisoned, first + second) == poisoned_after(
            poisoned_after(poisoned, first),
            second,
        ),
    decreases first.len(),
{
    if first.len() > 0 {
        assert((first + second).drop_first() =~= first.drop_first() + second);
        lemma_poison_composes(poisoned || first[0] != FFX_API_RETURN_OK, first.drop_first(), second);
    } else {
        assert(first + second =~= second);
    }
}

/// A native dispatch succeeds exactly when it returned OK; any other code is
/// returned with the dispatch operation and that code.
pub proof fn lemma_dispatch_result_keeps_code(code: u32)
    ensures
        (spec_dispatch_result(code) is Ok) <==> code == FFX_API_RETURN_OK,
        code != FFX_API_RETURN_OK ==> spec_dispatch_result(code) == Err::<(), Error>(
            Error::Native { operation: Operation::Dispatch, code },
        ),
{
}

} // verus!
