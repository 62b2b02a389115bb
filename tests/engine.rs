use ringpool::completion::{CompletionRecord, DecodeError};
use ringpool::config::{Opts, MAX_SQES};
use ringpool::cpu::CpuCycle;
use ringpool::driver::{Driver, PassAction};
use ringpool::ring::{BacklogStep, RingState, SubmitResult, EBUSY};
use ringpool::setup::{Setup, SetupAction, SetupError};

#[test]
fn default_args() {
    let args = Opts::default();
    assert_eq!(args.async_work, false);
    assert_eq!(args.sqes, 0);
    assert_eq!(args.max_unbounded_workers, 0);
    assert_eq!(args.num_rings, 1);
    assert_eq!(args.num_threads, 1);
    assert_eq!(args.cpu, vec![0]);
}

#[test]
fn target_depth_defaults_to_capacity() {
    let mut o = Opts::default();
    assert_eq!(o.target_depth(), MAX_SQES);
    o.sqes = 7;
    assert_eq!(o.target_depth(), 7);
}

#[test]
fn empty_cpu_list_means_cpu_zero() {
    let mut o = Opts::default();
    o.cpu = vec![];
    assert_eq!(o.cpu_list(), vec![0]);
    o.cpu = vec![3, 5];
    assert_eq!(o.cpu_list(), vec![3, 5]);
}

#[test]
fn worker_limits_zero_keeps_kernel_default() {
    let mut o = Opts::default();
    assert_eq!(o.worker_limits(), [0, 0]);
    o.max_unbounded_workers = 8;
    assert_eq!(o.worker_limits(), [0, 8]);
}

#[test]
fn inline_only_for_one_thread() {
    let mut o = Opts::default();
    assert!(o.runs_inline());
    o.num_threads = 0;
    assert!(o.runs_inline());
    o.num_threads = 3;
    assert!(!o.runs_inline());
}

#[test]
fn cpu_cycle_wraps() {
    let mut c = CpuCycle::new(vec![2, 4, 6]);
    let got: Vec<usize> = (0..7).map(|_| c.next_cpu()).collect();
    assert_eq!(got, vec![2, 4, 6, 2, 4, 6, 2]);
    let mut d = CpuCycle::new(vec![]);
    assert_eq!(d.next_cpu(), 0);
    assert_eq!(d.next_cpu(), 0);
}

#[test]
fn fill_reaches_target_depth() {
    let mut r: RingState<u64> = RingState::new(8);
    assert_eq!(r.fill(5), 5);
    assert_eq!(r.queued(), 5);
    assert_eq!(r.fill(5), 3);
    assert_eq!(r.queued(), 8);
    assert!(r.is_full());
    assert_eq!(r.fill(5), 0);
}

#[test]
fn fill_clamps_to_capacity() {
    let mut r: RingState<u64> = RingState::new(2);
    assert_eq!(r.fill(4), 2);
    assert_eq!(r.queued(), 2);
    assert_eq!(r.backlog_len(), 0);
}

#[test]
fn full_pass_refills_to_depth() {
    let mut d: Driver<u64> = Driver::new(1, 4, 4);
    assert_eq!(d.prime(0), 4);
    assert_eq!(d.on_primed(0, SubmitResult::Submitted(4)), Ok(()));
    assert_eq!(d.ring_state(0).in_flight(), 4);
    assert!(matches!(d.next_action(), PassAction::Wait { ring: 0 }));
    assert!(d.wait_report_fits(SubmitResult::Submitted(0), 4));
    assert_eq!(d.on_wait(SubmitResult::Submitted(0), 4), Ok(()));
    assert!(matches!(d.next_action(), PassAction::PushTemplates { ring: 0, count: 4 }));
    assert_eq!(d.ring_state(0).queued(), 4);
    assert!(matches!(d.next_action(), PassAction::Extract { ring: 0, ready: 4 }));
    d.on_extracted(4);
    assert_eq!(d.ring_state(0).ready(), 0);
    assert_eq!(d.ring_state(0).queued(), 4);
    assert!(matches!(d.next_action(), PassAction::Wait { ring: 0 }));
}

#[test]
fn interrupted_wait_changes_nothing() {
    let mut d: Driver<u64> = Driver::new(2, 4, 4);
    d.prime(0);
    d.prime(1);
    assert_eq!(d.on_wait(SubmitResult::Interrupted, 0), Ok(()));
    assert_eq!(d.ring_state(0).queued(), 4);
    assert_eq!(d.ring_state(0).in_flight(), 0);
    assert!(matches!(d.next_action(), PassAction::Wait { ring: 1 }));
}

#[test]
fn failed_wait_is_fatal() {
    let mut d: Driver<u64> = Driver::new(1, 4, 4);
    assert_eq!(d.on_wait(SubmitResult::Failed(-9), 0), Err(-9));
    assert_eq!(d.on_wait(SubmitResult::Busy, 0), Err(EBUSY));
}

#[test]
fn backlog_drains_in_order_before_fill() {
    let mut d: Driver<u64> = Driver::new(1, 2, 2);
    assert_eq!(d.prime(0), 2);
    // the queue turns out full: both copies join the backlog
    d.on_refused(10);
    d.on_refused(11);
    assert_eq!(d.ring_state(0).backlog_len(), 2);
    assert_eq!(d.on_wait(SubmitResult::Submitted(0), 0), Ok(()));
    assert!(matches!(d.next_action(), PassAction::PushBacklog { ring: 0, entry: 10 }));
    assert!(matches!(d.next_action(), PassAction::PushBacklog { ring: 0, entry: 11 }));
    assert!(matches!(d.next_action(), PassAction::PushTemplates { ring: 0, count: 0 }));
}

#[test]
fn full_queue_is_flushed_before_backlog_moves() {
    let mut r: RingState<u64> = RingState::new(1);
    r.fill(1);
    r.defer(7);
    r.fill(1);
    assert_eq!(r.fill(1), 0);
    assert!(matches!(r.backlog_step(), BacklogStep::Push(7)));
    assert!(matches!(r.backlog_step(), BacklogStep::Empty));
    r.requeue(7);
    r.fill(0);
    assert_eq!(r.backlog_len(), 1);
    let mut d: Driver<u64> = Driver::new(1, 1, 1);
    d.prime(0);
    d.on_refused(1);
    d.prime(0);
    assert_eq!(d.on_wait(SubmitResult::Submitted(0), 0), Ok(()));
    assert!(matches!(d.next_action(), PassAction::PushBacklog { ring: 0, entry: 1 }));
    d.on_refused(1);
    assert_eq!(d.ring_state(0).backlog_len(), 1);
    assert!(matches!(d.next_action(), PassAction::Extract { ring: 0, ready: 0 }));
}

#[test]
fn flush_outcomes() {
    let mut d: Driver<u64> = Driver::new(1, 2, 2);
    d.prime(0);
    d.on_wait(SubmitResult::Submitted(0), 0).unwrap();
    assert_eq!(d.on_flush(SubmitResult::Submitted(1)), Ok(()));
    assert_eq!(d.ring_state(0).in_flight(), 1);
    assert!(matches!(d.next_action(), PassAction::PushTemplates { ring: 0, count: 1 }));
    let mut e: Driver<u64> = Driver::new(1, 2, 2);
    e.prime(0);
    e.on_wait(SubmitResult::Submitted(0), 0).unwrap();
    assert_eq!(e.on_flush(SubmitResult::Failed(-5)), Err(-5));
    assert_eq!(e.on_flush(SubmitResult::Busy), Ok(()));
    assert!(matches!(e.next_action(), PassAction::Extract { ring: 0, ready: 0 }));
}

#[test]
fn entries_are_conserved() {
    let mut r: RingState<u64> = RingState::new(4);
    r.fill(4);
    assert_eq!(r.on_wait(SubmitResult::Submitted(3)), ringpool::ring::WaitFlow::Proceed);
    r.on_arrived(2);
    r.take_ready(1);
    assert_eq!(r.queued(), 1);
    assert_eq!(r.in_flight(), 1);
    assert_eq!(r.ready(), 1);
    assert_eq!(r.queued() as u64 + r.in_flight() + r.ready() + r.backlog_len() as u64, 4 - 1);
}

#[test]
fn setup_restores_mask_after_success() {
    let mut s = Setup::new(2, vec![1, 3]);
    assert_eq!(s.step(None), SetupAction::Create(1));
    assert_eq!(s.step(None), SetupAction::SaveMask);
    assert_eq!(s.step(None), SetupAction::Pin { ring: 0, cpu: 1 });
    assert_eq!(s.step(None), SetupAction::Prime(0));
    assert_eq!(s.step(None), SetupAction::Pin { ring: 1, cpu: 3 });
    assert_eq!(s.step(None), SetupAction::Prime(1));
    assert_eq!(s.step(None), SetupAction::Restore);
    assert_eq!(s.step(None), SetupAction::Done);
}

#[test]
fn setup_restores_mask_after_failure() {
    let mut s = Setup::new(1, vec![]);
    assert_eq!(s.step(None), SetupAction::SaveMask);
    assert_eq!(s.step(None), SetupAction::Pin { ring: 0, cpu: 0 });
    let e = SetupError::Affinity(22);
    assert_eq!(s.step(Some(e)), SetupAction::Restore);
    assert_eq!(s.step(None), SetupAction::Failed(e));
    assert_eq!(s.step(None), SetupAction::Failed(e));
}

#[test]
fn setup_creation_failure_stops_at_once() {
    let mut s = Setup::new(3, vec![0]);
    let e = SetupError::RingCreation(12);
    assert_eq!(s.step(Some(e)), SetupAction::Failed(e));
    let mut t = Setup::new(1, vec![0]);
    t.step(None);
    t.step(None);
    let p = SetupError::Submit(16);
    assert_eq!(t.step(Some(p)), SetupAction::Restore);
    assert_eq!(t.step(Some(SetupError::Affinity(1))), SetupAction::Failed(p));
}

#[test]
fn payload_lengths() {
    let ok = CompletionRecord { result: 3, user_data: 9 };
    assert_eq!(ok.payload_len(8), Ok(3));
    assert_eq!(ok.index(), 9);
    let bad = CompletionRecord { result: -11, user_data: 0 };
    assert_eq!(bad.payload_len(8), Err(DecodeError::OpFailed(-11)));
    let long = CompletionRecord { result: 9, user_data: 0 };
    assert_eq!(long.payload_len(8), Err(DecodeError::TooLong(9)));
}

#[test]
fn decode_reads_text_prefix() {
    let buf = b"hello world".to_vec();
    let r = CompletionRecord { result: 5, user_data: 1 };
    assert_eq!(r.decode(&buf), Ok("hello".to_string()));
    let z = CompletionRecord { result: 0, user_data: 1 };
    assert_eq!(z.decode(&buf), Ok(String::new()));
    let bin = vec![0xffu8, 0xfe];
    let r2 = CompletionRecord { result: 2, user_data: 1 };
    assert_eq!(r2.decode(&bin), Err(DecodeError::NotText));
}
