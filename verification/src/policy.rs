//! The per-batch binary-file policy: a small state machine that remembers a
//! user's earlier choice ("skip all binaries", "always process binaries") so
//! later files in the same batch do not prompt again. The prompt itself is a
//! collaborator outside this crate; it hands the chosen option in as a
//! `BinaryChoice` value.

use vstd::prelude::*;

verus! {

/// What to do with one binary file.
#[derive(Clone, Copy, Debug, PartialEq, Eq, Structural)]
pub enum BinaryAction {
    Skip,
    Process,
}

/// Batch-wide policy for binary files. A run starts at `AskEvery`; the state
/// moves only on an explicit user choice and never resets during a batch.
#[derive(Clone, Copy, Debug, PartialEq, Eq, Structural)]
pub enum BinaryPolicy {
    AskEvery,
    SkipAll,
    NeverSkip,
}

/// One of the four answers the binary-file prompt offers.
#[derive(Clone, Copy, Debug, PartialEq, Eq, Structural)]
pub enum BinaryChoice {
    SkipOnce,
    SkipAll,
    ProcessOnce,
    ProcessAll,
}

impl BinaryPolicy {
    /// The transition function of the policy state machine: from the current
    /// state and the user's choice to the action for this file and the state
    /// for the next one. The choice is consulted only in `AskEvery`; the two
    /// settled states act on their own and stay where they are.
    pub open spec fn spec_decide(self, choice: BinaryChoice) -> (BinaryAction, BinaryPolicy) {
        match self {
            BinaryPolicy::AskEvery => match choice {
                BinaryChoice::SkipOnce => (BinaryAction::Skip, BinaryPolicy::AskEvery),
                BinaryChoice::SkipAll => (BinaryAction::Skip, BinaryPolicy::SkipAll),
                BinaryChoice::ProcessOnce => (BinaryAction::Process, BinaryPolicy::AskEvery),
                BinaryChoice::ProcessAll => (BinaryAction::Process, BinaryPolicy::NeverSkip),
            },
            BinaryPolicy::SkipAll => (BinaryAction::Skip, BinaryPolicy::SkipAll),
            BinaryPolicy::NeverSkip => (BinaryAction::Process, BinaryPolicy::NeverSkip),
        }
    }

    /// Deciding from this state consults the user exactly when the state is
    /// `AskEvery`.
    pub open spec fn spec_needs_prompt(self) -> bool {
        self is AskEvery
    }

    /// True exactly when `decide` from this state depends on a fresh user
    /// choice, so the caller must put up the prompt first.
    pub fn needs_prompt(&self) -> (r: bool)
        ensures
            r == self.spec_needs_prompt(),
    {
        matches!(self, BinaryPolicy::AskEvery)
    }

    /// One step of the policy state machine. `choice` is the user's answer to
    /// the binary-file prompt; it is read only when the state is `AskEvery`
    /// (see `needs_prompt`), so callers in a settled state may pass any value.
    pub fn decide(self, choice: BinaryChoice) -> (r: (BinaryAction, BinaryPolicy))
        ensures
            r == self.spec_decide(choice),
    {
        match self {
            BinaryPolicy::AskEvery => match choice {
                BinaryChoice::SkipOnce => (BinaryAction::Skip, BinaryPolicy::AskEvery),
                BinaryChoice::SkipAll => (BinaryAction::Skip, BinaryPolicy::SkipAll),
                BinaryChoice::ProcessOnce => (BinaryAction::Process, BinaryPolicy::AskEvery),
                BinaryChoice::ProcessAll => (BinaryAction::Process, BinaryPolicy::NeverSkip),
            },
            BinaryPolicy::SkipAll => (BinaryAction::Skip, BinaryPolicy::SkipAll),
            BinaryPolicy::NeverSkip => (BinaryAction::Process, BinaryPolicy::NeverSkip),
        }
    }
}

/// The binary sub-decision for one file, as a triple: whether to skip the
/// file, whether to record a binary-file warning, and the policy state for
/// the next file. Binary handling is off in extension-only mode and for
/// non-binary files; a dry run warns and skips without consulting anyone;
/// a live run steps the policy state machine.
pub open spec fn spec_binary_gate(
    policy: BinaryPolicy,
    ext_only: bool,
    dry_run: bool,
    is_bin: bool,
    choice: BinaryChoice,
) -> (bool, bool, BinaryPolicy) {
    if ext_only || !is_bin {
        (false, false, policy)
    } else if dry_run {
        (true, true, policy)
    } else {
        (policy.spec_decide(choice).0 is Skip, false, policy.spec_decide(choice).1)
    }
}

/// The binary sub-decision consults the user exactly when the file is
/// binary, signature work is on, the run is live, and the policy still asks.
pub open spec fn spec_binary_gate_prompts(
    policy: BinaryPolicy,
    ext_only: bool,
    dry_run: bool,
    is_bin: bool,
) -> bool {
    !ext_only && is_bin && !dry_run && policy.spec_needs_prompt()
}

/// True exactly when `binary_gate` for these inputs depends on a fresh user
/// choice, so the caller must put up the binary-file prompt first.
pub fn binary_gate_prompts(
    policy: BinaryPolicy,
    ext_only: bool,
    dry_run: bool,
    is_bin: bool,
) -> (r: bool)
    ensures
        r == spec_binary_gate_prompts(policy, ext_only, dry_run, is_bin),
{
    !ext_only && is_bin && !dry_run && policy.needs_prompt()
}

/// The binary sub-decision for one file: whether to skip it, whether to
/// record a binary-file warning, and the policy for the next file. `choice`
/// is read only when `binary_gate_prompts` is true for the same inputs.
pub fn binary_gate(
    policy: BinaryPolicy,
    ext_only: bool,
    dry_run: bool,
    is_bin: bool,
    choice: BinaryChoice,
) -> (r: (bool, bool, BinaryPolicy))
    ensures
        r == spec_binary_gate(policy, ext_only, dry_run, is_bin, choice),
{
    if ext_only || !is_bin {
        (false, false, policy)
    } else if dry_run {
        (true, true, policy)
    } else {
        let (action, next) = policy.decide(choice);
        (matches!(action, BinaryAction::Skip), false, next)
    }
}

/// Law: a dry run never consults the user about a binary file and never
/// moves the policy state, whatever the file and the offered choice.
pub proof fn lemma_dry_run_keeps_policy(
    policy: BinaryPolicy,
    ext_only: bool,
    is_bin: bool,
    choice: BinaryChoice,
)
    ensures
        spec_binary_gate(policy, ext_only, true, is_bin, choice).2 == policy,
        !spec_binary_gate_prompts(policy, ext_only, true, is_bin),
{
}

/// Law: choosing "skip all" while the policy still asks settles the policy at
/// `SkipAll`; from then on every binary file is skipped without a prompt and
/// the state never moves again.
pub proof fn lemma_skip_all_is_sticky(later: BinaryChoice)
    ensures
        BinaryPolicy::AskEvery.spec_decide(BinaryChoice::SkipAll) == (
            BinaryAction::Skip,
            BinaryPolicy::SkipAll,
        ),
        !BinaryPolicy::SkipAll.spec_needs_prompt(),
        BinaryPolicy::SkipAll.spec_decide(later) == (BinaryAction::Skip, BinaryPolicy::SkipAll),
{
}

/// Law: the settled states are fixed points: whatever the offered choice,
/// they keep their action and their state, and never prompt.
pub proof fn lemma_settled_states_are_stable(choice: BinaryChoice)
    ensures
        BinaryPolicy::SkipAll.spec_decide(choice) == (BinaryAction::Skip, BinaryPolicy::SkipAll),
        BinaryPolicy::NeverSkip.spec_decide(choice) == (
            BinaryAction::Process,
            BinaryPolicy::NeverSkip,
        ),
        !BinaryPolicy::SkipAll.spec_needs_prompt(),
        !BinaryPolicy::NeverSkip.spec_needs_prompt(),
{
}

} // verus!
