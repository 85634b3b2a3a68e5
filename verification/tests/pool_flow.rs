use std::sync::Arc;

use dbpool::cmd::prepare;
use dbpool::cmd::Cmd;
use dbpool::cmd::QueuedGet;
use dbpool::pool::handle_get;
use dbpool::pool::take_result;
use dbpool::pool::GetOutcome;
use dbpool::pool::Pool;
use dbpool::pool::PoolError;
use dbpool::pool::TrySubmitError;
use dbpool::pool::WorkerStep;
use dbpool::store::DbError;
use dbpool::store::DbMap;

fn column(pairs: &[(&[u8], &[u8])]) -> Arc<DbMap> {
    let mut m = DbMap::new();
    for (k, v) in pairs {
        m.insert(k.to_vec(), v.to_vec());
    }
    Arc::new(m)
}

#[test]
fn clamping_lifts_zero_to_one() {
    let p = Pool::new(0, 0);
    assert_eq!(p.queue_size(), 1);
    assert_eq!(p.worker_num(), 1);
    assert_eq!(p.channel_capacity(), Some(1));
}

#[test]
fn clamping_caps_huge_values() {
    let p = Pool::new(1_000_000_000, 1_000_000_000);
    assert_eq!(p.queue_size(), 8192);
    assert_eq!(p.worker_num(), 512);
    assert_eq!(p.channel_capacity(), Some(8192));
}

#[test]
fn clamping_keeps_values_in_range() {
    let p = Pool::new(16, 2);
    assert_eq!(p.queue_size(), 16);
    assert_eq!(p.worker_num(), 2);
    assert_eq!(p.channel_capacity(), Some(16));
}

#[test]
fn single_get_round_trip() {
    let map = column(&[(b"k", &[0x01, 0x02])]);
    let p = Pool::new(16, 1);
    let mut rx = p.submit(Cmd::get(map, b"k".to_vec())).unwrap();
    assert_eq!(p.occupancy(), 1);
    let step = p.worker_step();
    assert_eq!(step, WorkerStep::Handled(GetOutcome::Delivered { found: true }));
    let h = take_result(&mut rx).expect("worker answered").expect("key present");
    assert_eq!(h.bytes(), &vec![0x01, 0x02]);
}

#[test]
fn storage_error_passes_through() {
    let map = column(&[(b"k", &[1])]);
    let p = Pool::new(16, 1);
    let mut rx = p.submit(Cmd::get(map, b"missing".to_vec())).unwrap();
    let step = p.worker_step();
    assert_eq!(step, WorkerStep::Handled(GetOutcome::Delivered { found: false }));
    let r = take_result(&mut rx).expect("worker answered");
    assert_eq!(r.unwrap_err(), PoolError::Storage(DbError::NotFound));
}

#[test]
fn result_pending_until_worker_answers() {
    let map = column(&[(b"k", &[5])]);
    let p = Pool::new(4, 1);
    let mut rx = p.submit(Cmd::get(map, b"k".to_vec())).unwrap();
    assert!(take_result(&mut rx).is_none());
    p.worker_step();
    let h = take_result(&mut rx).unwrap().unwrap();
    assert_eq!(h.bytes(), &vec![5]);
}

#[test]
fn backpressure_refuses_when_full() {
    let map = column(&[(b"a", &[1]), (b"b", &[2])]);
    let p = Pool::new(1, 1);
    let mut rx1 = p.submit(Cmd::get(map.clone(), b"a".to_vec())).unwrap();
    assert_eq!(p.occupancy(), 1);
    // The channel is at capacity: a waiting submit would suspend here, the
    // non-waiting form hands the request back.
    let second = p.try_submit(Cmd::get(map.clone(), b"b".to_vec()));
    let returned = match second {
        Err(TrySubmitError::Full(c)) => c,
        _ => panic!("expected the full channel to refuse"),
    };
    let Cmd::Get(g) = returned;
    assert_eq!(g.key, b"b".to_vec());
    assert!(g.res.is_none());
    assert_eq!(p.occupancy(), 1);
    // A worker drains one command; the same request now fits.
    assert_eq!(
        p.worker_step(),
        WorkerStep::Handled(GetOutcome::Delivered { found: true })
    );
    let mut rx2 = p
        .try_submit(Cmd::get(map, b"b".to_vec()))
        .ok()
        .expect("channel has room again");
    p.worker_step();
    assert_eq!(take_result(&mut rx1).unwrap().unwrap().bytes(), &vec![1]);
    assert_eq!(take_result(&mut rx2).unwrap().unwrap().bytes(), &vec![2]);
}

#[test]
fn results_route_to_their_own_submitters() {
    let map = column(&[(b"a", &[0xaa]), (b"b", &[0xbb])]);
    let p = Pool::new(8, 2);
    let mut rx_a = p.submit(Cmd::get(map.clone(), b"a".to_vec())).unwrap();
    let mut rx_b = p.submit(Cmd::get(map, b"b".to_vec())).unwrap();
    p.worker_step();
    p.worker_step();
    assert_eq!(take_result(&mut rx_a).unwrap().unwrap().bytes(), &vec![0xaa]);
    assert_eq!(take_result(&mut rx_b).unwrap().unwrap().bytes(), &vec![0xbb]);
}

#[test]
fn commands_leave_in_submission_order() {
    let map = column(&[(b"present", &[1])]);
    let p = Pool::new(8, 1);
    let mut rx1 = p.submit(Cmd::get(map.clone(), b"present".to_vec())).unwrap();
    let mut rx2 = p.submit(Cmd::get(map, b"absent".to_vec())).unwrap();
    // The worker dequeues oldest first: the present key, then the absent one.
    assert_eq!(
        p.worker_step(),
        WorkerStep::Handled(GetOutcome::Delivered { found: true })
    );
    assert_eq!(
        p.worker_step(),
        WorkerStep::Handled(GetOutcome::Delivered { found: false })
    );
    assert!(take_result(&mut rx1).unwrap().is_ok());
    assert!(take_result(&mut rx2).unwrap().is_err());
}

#[test]
fn cancellation_before_dispatch_elides_query() {
    let map = column(&[(b"k", &[1])]);
    let p = Pool::new(4, 1);
    // No worker is running yet; the command waits in the channel.
    let rx = p.submit(Cmd::get(map, b"k".to_vec())).unwrap();
    drop(rx);
    // The worker resumes, finds the submitter gone, and elides the query.
    assert_eq!(p.worker_step(), WorkerStep::Handled(GetOutcome::Elided));
}

#[test]
fn direct_dispatch_elides_after_receiver_drop() {
    let map = column(&[(b"k", &[1])]);
    let (tx, rx) = futures::channel::oneshot::channel();
    drop(rx);
    let g = QueuedGet { map, key: b"k".to_vec(), res: tx };
    assert_eq!(handle_get(g), GetOutcome::Elided);
}

#[test]
fn direct_dispatch_answers_live_receiver() {
    let map = column(&[(b"k", &[6, 7])]);
    let (tx, mut rx) = futures::channel::oneshot::channel();
    let g = QueuedGet { map, key: b"k".to_vec(), res: tx };
    assert_eq!(handle_get(g), GetOutcome::Delivered { found: true });
    let h = take_result(&mut rx).unwrap().unwrap();
    assert_eq!(h.bytes(), &vec![6, 7]);
}

#[test]
fn worker_lost_surfaces_as_error() {
    let map = column(&[(b"k", &[1])]);
    let (tx, mut rx) = futures::channel::oneshot::channel();
    let q = prepare(Cmd::get(map, b"k".to_vec()), tx);
    // The worker dies holding the command: the sender is dropped without a
    // value and the submitter learns the worker was lost.
    drop(q);
    let r = take_result(&mut rx).expect("drop completes the one-shot");
    assert_eq!(r.unwrap_err(), PoolError::WorkerLost);
}

#[test]
fn shutdown_with_pending_commands_drains_and_refuses() {
    let map = column(&[(b"k", &[9])]);
    let p = Pool::new(16, 2);
    let mut receivers = Vec::new();
    for _ in 0..10 {
        receivers.push(p.submit(Cmd::get(map.clone(), b"k".to_vec())).unwrap());
    }
    assert_eq!(p.occupancy(), 10);
    assert!(p.close());
    // Workers drain what was queued...
    for _ in 0..10 {
        assert_eq!(
            p.worker_step(),
            WorkerStep::Handled(GetOutcome::Delivered { found: true })
        );
    }
    // ...then see end-of-stream and terminate.
    assert_eq!(p.worker_step(), WorkerStep::Closed);
    assert_eq!(p.worker_step(), WorkerStep::Closed);
    assert!(p.channel_empty());
    assert_eq!(p.occupancy(), 0);
    // Every submitted command completed.
    for mut rx in receivers {
        assert_eq!(take_result(&mut rx).unwrap().unwrap().bytes(), &vec![9]);
    }
    // No further submission succeeds.
    let refused = p.submit(Cmd::get(map.clone(), b"k".to_vec()));
    assert_eq!(refused.err().unwrap(), PoolError::SubmissionFailed);
    match p.try_submit(Cmd::get(map, b"k".to_vec())) {
        Err(TrySubmitError::Closed(Cmd::Get(g))) => assert_eq!(g.key, b"k".to_vec()),
        _ => panic!("expected the closed channel to refuse"),
    }
    // A second close reports the misuse.
    assert!(!p.close());
}

#[test]
fn handle_outlives_worker_turnover() {
    let map = column(&[(b"a", &[1, 2, 3]), (b"b", &[4])]);
    let p = Pool::new(8, 1);
    let mut rx_a = p.submit(Cmd::get(map.clone(), b"a".to_vec())).unwrap();
    p.worker_step();
    let h = take_result(&mut rx_a).unwrap().unwrap();
    // The worker takes another command; the first handle stays readable.
    let mut rx_b = p.submit(Cmd::get(map, b"b".to_vec())).unwrap();
    p.worker_step();
    assert_eq!(take_result(&mut rx_b).unwrap().unwrap().bytes(), &vec![4]);
    assert_eq!(h.bytes(), &vec![1, 2, 3]);
}
