use sortify::policy::binary_gate;
use sortify::policy::binary_gate_prompts;
use sortify::policy::BinaryAction;
use sortify::policy::BinaryChoice;
use sortify::policy::BinaryPolicy;

#[test]
fn ask_every_maps_each_choice() {
    assert_eq!(
        BinaryPolicy::AskEvery.decide(BinaryChoice::SkipOnce),
        (BinaryAction::Skip, BinaryPolicy::AskEvery)
    );
    assert_eq!(
        BinaryPolicy::AskEvery.decide(BinaryChoice::SkipAll),
        (BinaryAction::Skip, BinaryPolicy::SkipAll)
    );
    assert_eq!(
        BinaryPolicy::AskEvery.decide(BinaryChoice::ProcessOnce),
        (BinaryAction::Process, BinaryPolicy::AskEvery)
    );
    assert_eq!(
        BinaryPolicy::AskEvery.decide(BinaryChoice::ProcessAll),
        (BinaryAction::Process, BinaryPolicy::NeverSkip)
    );
}

#[test]
fn settled_states_ignore_the_choice() {
    for c in [
        BinaryChoice::SkipOnce,
        BinaryChoice::SkipAll,
        BinaryChoice::ProcessOnce,
        BinaryChoice::ProcessAll,
    ] {
        assert_eq!(BinaryPolicy::SkipAll.decide(c), (BinaryAction::Skip, BinaryPolicy::SkipAll));
        assert_eq!(
            BinaryPolicy::NeverSkip.decide(c),
            (BinaryAction::Process, BinaryPolicy::NeverSkip)
        );
    }
}

#[test]
fn only_ask_every_prompts() {
    assert!(BinaryPolicy::AskEvery.needs_prompt());
    assert!(!BinaryPolicy::SkipAll.needs_prompt());
    assert!(!BinaryPolicy::NeverSkip.needs_prompt());
}

#[test]
fn skip_all_on_first_file_silences_the_second() {
    // File 1: binary, live run, user answers "skip all".
    let policy = BinaryPolicy::AskEvery;
    assert!(binary_gate_prompts(policy, false, false, true));
    let (skip1, warn1, policy) = binary_gate(policy, false, false, true, BinaryChoice::SkipAll);
    assert!(skip1);
    assert!(!warn1);
    assert_eq!(policy, BinaryPolicy::SkipAll);

    // File 2: also binary, skipped without prompting, state unchanged.
    assert!(!binary_gate_prompts(policy, false, false, true));
    let (skip2, warn2, policy) = binary_gate(policy, false, false, true, BinaryChoice::ProcessAll);
    assert!(skip2);
    assert!(!warn2);
    assert_eq!(policy, BinaryPolicy::SkipAll);
}

#[test]
fn dry_run_warns_skips_and_keeps_policy() {
    for start in [BinaryPolicy::AskEvery, BinaryPolicy::SkipAll, BinaryPolicy::NeverSkip] {
        assert!(!binary_gate_prompts(start, false, true, true));
        let (skip, warn, next) = binary_gate(start, false, true, true, BinaryChoice::ProcessAll);
        assert!(skip);
        assert!(warn);
        assert_eq!(next, start);
    }
}

#[test]
fn non_binary_and_ext_only_pass_through() {
    let (skip, warn, next) =
        binary_gate(BinaryPolicy::AskEvery, false, false, false, BinaryChoice::SkipAll);
    assert!(!skip && !warn);
    assert_eq!(next, BinaryPolicy::AskEvery);
    assert!(!binary_gate_prompts(BinaryPolicy::AskEvery, false, false, false));

    let (skip, warn, next) =
        binary_gate(BinaryPolicy::AskEvery, true, false, true, BinaryChoice::SkipAll);
    assert!(!skip && !warn);
    assert_eq!(next, BinaryPolicy::AskEvery);
    assert!(!binary_gate_prompts(BinaryPolicy::AskEvery, true, false, true));
}

#[test]
fn never_skip_processes_without_prompting() {
    let (skip, warn, next) =
        binary_gate(BinaryPolicy::NeverSkip, false, false, true, BinaryChoice::SkipAll);
    assert!(!skip);
    assert!(!warn);
    assert_eq!(next, BinaryPolicy::NeverSkip);
}
