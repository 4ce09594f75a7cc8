use minirt::bridge::encode_outcome;
use minirt::bridge::print;
use minirt::entry::lang_start;
use minirt::halt::on_panic;
use minirt::halt::PanicRecord;
use minirt::halt::ProcessPhase;
use minirt::hooks::_rust_eh_personality;
use minirt::hooks::eh_personality;
use minirt::term::Termination;

#[test]
fn unit_reports_zero() {
    assert_eq!(().report(), 0);
}

#[test]
fn success_reports_its_payload() {
    let outcome: Result<(), &str> = Ok(());
    assert_eq!(outcome.report(), ().report());
}

#[test]
fn failure_reports_one_whatever_the_payload() {
    let text: Result<(), &str> = Err("disk on fire");
    assert_eq!(text.report(), 1);
    let number: Result<(), u64> = Err(u64::MAX);
    assert_eq!(number.report(), 1);
    let silent: Result<(), ()> = Err(());
    assert_eq!(silent.report(), 1);
}

#[test]
fn nesting_resolves_by_repeated_delegation() {
    let deep_success: Result<Result<(), u8>, &str> = Ok(Ok(()));
    assert_eq!(deep_success.report(), 0);
    let inner_failure: Result<Result<(), u8>, &str> = Ok(Err(7));
    assert_eq!(inner_failure.report(), 1);
    let outer_failure: Result<Result<(), u8>, &str> = Err("never started");
    assert_eq!(outer_failure.report(), 1);
}

#[test]
fn trampoline_tolerates_no_arguments_and_runs_entry_once() {
    let mut calls: u32 = 0;
    let null_argv: usize = 0;
    let status = lang_start(
        || {
            calls += 1;
        },
        0,
        null_argv,
    );
    assert_eq!(status, 0);
    assert_eq!(calls, 1);
}

#[test]
fn trampoline_delivers_success_status() {
    let status = lang_start(|| (), 0, 0);
    assert_eq!(status, 0);
}

#[test]
fn trampoline_delivers_failure_status_whatever_the_payload() {
    let with_text = lang_start(|| -> Result<(), &str> { Err("boom") }, 0, 0);
    assert_eq!(with_text, 1);
    let with_number = lang_start(|| -> Result<(), i64> { Err(-42) }, 0, 0);
    assert_eq!(with_number, 1);
}

#[test]
fn trampoline_never_reads_the_argument_vector() {
    let status = lang_start(|| (), 3, 0xdead);
    assert_eq!(status, 0);
}

#[test]
fn panic_orders_a_halt_and_discards_the_record() {
    let with_message = PanicRecord {
        message: Some("index out of range"),
        line: 12,
        column: 5,
    };
    assert_eq!(on_panic(ProcessPhase::Running, &with_message), ProcessPhase::Halted);
    let without_message = PanicRecord {
        message: None,
        line: 0,
        column: 0,
    };
    assert_eq!(on_panic(ProcessPhase::Running, &without_message), ProcessPhase::Halted);
    assert_eq!(on_panic(ProcessPhase::Halted, &without_message), ProcessPhase::Halted);
}

#[test]
fn personality_hooks_do_nothing() {
    eh_personality();
    _rust_eh_personality();
}

#[test]
fn print_returns_the_byte_count_on_success() {
    let written = print(b"hello, friend\n");
    assert_eq!(written, 14);
}

#[test]
fn print_of_nothing_writes_nothing() {
    let written = print(b"");
    assert_eq!(written, 0);
}

#[test]
fn bridge_outcome_passes_through_unmodified() {
    assert_eq!(encode_outcome(Some(14)), 14);
    assert_eq!(encode_outcome(Some(0)), 0);
    assert!(encode_outcome(None) < 0);
}
