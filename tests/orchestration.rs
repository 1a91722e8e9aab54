use std::sync::{Arc, Mutex};
use std::time::Duration;

use parallel_core::aggregate::{classify, Aggregator, Outcome, OutcomeKind};
use parallel_core::gate::ConcurrencyGate;
use parallel_core::generator::{GenAction, GenEvent, MeteredGenerator, PendingCounter};
use parallel_core::taskgroup::{TaskGroup, TaskStatus};

#[test]
fn generator_spawns_each_index_then_idles() {
    let mut g = MeteredGenerator::new(3);
    assert_eq!(g.outstanding(), 3);
    assert_eq!(g.on_event(GenEvent::Tick), GenAction::Spawn(0));
    assert_eq!(g.on_event(GenEvent::Tick), GenAction::Spawn(1));
    assert_eq!(g.on_event(GenEvent::Tick), GenAction::Spawn(2));
    assert!(g.is_finished());
    assert_eq!(g.outstanding(), 0);
    assert_eq!(g.on_event(GenEvent::Tick), GenAction::Idle);
    assert_eq!(g.on_event(GenEvent::Cancelled), GenAction::Idle);
    assert_eq!(g.created(), 3);
}

#[test]
fn cancellation_releases_exactly_the_rest() {
    let k: u32 = 10;
    for j in 0..k {
        let mut g = MeteredGenerator::new(k);
        let mut pending = PendingCounter::new();
        assert!(pending.register(&g));
        assert_eq!(pending.get(), k as usize);
        let mut released: u32 = 0;
        for _ in 0..j {
            let a = g.on_event(GenEvent::Tick);
            released += a.release();
            assert!(pending.settle(a));
        }
        let stop = g.on_event(GenEvent::Cancelled);
        assert_eq!(stop, GenAction::Stop(k - j));
        released += stop.release();
        assert!(pending.settle(stop));
        assert_eq!(released, k);
        assert_eq!(pending.get(), 0);
        assert!(g.is_finished());
        assert_eq!(g.on_event(GenEvent::Tick), GenAction::Idle);
    }
}

#[test]
fn pending_counter_never_goes_negative() {
    let mut pending = PendingCounter::new();
    assert!(!pending.settle(GenAction::Spawn(0)));
    assert_eq!(pending.get(), 0);
    assert!(pending.settle(GenAction::Idle));
    let g = MeteredGenerator::new(2);
    assert!(pending.register(&g));
    assert!(!pending.settle(GenAction::Stop(3)));
    assert_eq!(pending.get(), 2);
}

#[test]
fn classify_by_status_range() {
    assert_eq!(classify(Outcome::Status(200)), OutcomeKind::Success);
    assert_eq!(classify(Outcome::Status(299)), OutcomeKind::Success);
    assert_eq!(classify(Outcome::Status(199)), OutcomeKind::Other);
    assert_eq!(classify(Outcome::Status(300)), OutcomeKind::Other);
    assert_eq!(classify(Outcome::Status(400)), OutcomeKind::ClientError);
    assert_eq!(classify(Outcome::Status(404)), OutcomeKind::ClientError);
    assert_eq!(classify(Outcome::Status(499)), OutcomeKind::ClientError);
    assert_eq!(classify(Outcome::Status(500)), OutcomeKind::Other);
    assert_eq!(classify(Outcome::Failed), OutcomeKind::Other);
}

#[test]
fn scripted_outcomes_are_counted_exactly() {
    let script = vec![
        Outcome::Status(200),
        Outcome::Status(404),
        Outcome::Failed,
        Outcome::Status(201),
        Outcome::Status(503),
        Outcome::Status(400),
        Outcome::Status(200),
    ];
    let mut agg = Aggregator::new();
    for o in script.iter() {
        assert!(agg.poll(Some(*o)));
        assert!(!agg.poll(None));
    }
    assert_eq!(agg.count_200(), 3);
    assert_eq!(agg.count_400(), 2);
    assert_eq!(agg.count_other(), 2);
    assert_eq!(agg.total(), script.len() as u128);
}

#[test]
fn gate_admits_at_most_its_bound() {
    let mut gate = ConcurrencyGate::new(3);
    let mut admitted = 0;
    for _ in 0..5 {
        if gate.try_acquire() {
            admitted += 1;
        }
    }
    assert_eq!(admitted, 3);
    assert_eq!(gate.held(), 3);
    assert_eq!(gate.available(), 0);
    gate.release();
    assert_eq!(gate.available(), 1);
    assert!(gate.try_acquire());
    assert!(!gate.try_acquire());
    assert_eq!(gate.peak(), 3);
    assert_eq!(gate.bound(), 3);
}

#[test]
fn task_group_lifecycle() {
    let mut group = TaskGroup::new();
    assert_eq!(group.len(), 0);
    group.abort_all();
    assert_eq!(group.len(), 0);
    let a = group.add().unwrap();
    let b = group.add().unwrap();
    let c = group.add().unwrap();
    assert_eq!((a, b, c), (0, 1, 2));
    assert!(group.mark_done(b));
    assert!(!group.mark_done(42));
    group.abort_all();
    assert_eq!(group.status(a), Some(TaskStatus::AbortRequested));
    assert_eq!(group.status(b), Some(TaskStatus::Done));
    group.abort_all();
    assert_eq!(group.status(c), Some(TaskStatus::AbortRequested));
    assert_eq!(group.drain_completed(), 1);
    assert_eq!(group.len(), 2);
    assert_eq!(group.status(b), None);
    assert_eq!(group.drain_completed(), 0);
    assert!(group.mark_done(a));
    assert!(group.mark_done(c));
    assert_eq!(group.drain_completed(), 2);
    assert_eq!(group.len(), 0);
}

#[test]
fn end_to_end_gate_and_generator() {
    // Gate bound 2, one job every 10 ms, a batch of 5 jobs, no cancellation.
    let rt = tokio::runtime::Builder::new_multi_thread()
        .worker_threads(4)
        .enable_all()
        .build()
        .unwrap();
    let (peak, resolved, pending_left) = rt.block_on(async {
        let permits = Arc::new(tokio::sync::Semaphore::new(2));
        let probe = Arc::new(Mutex::new(ConcurrencyGate::new(2)));
        let pending = Arc::new(Mutex::new(PendingCounter::new()));
        let results = Arc::new(Mutex::new(Aggregator::new()));
        let mut generator = MeteredGenerator::new(5);
        assert!(pending.lock().unwrap().register(&generator));
        let mut interval = tokio::time::interval(Duration::from_millis(10));
        let mut bodies = Vec::new();
        while !generator.is_finished() {
            interval.tick().await;
            let action = generator.on_event(GenEvent::Tick);
            if let GenAction::Spawn(_) = action {
                let permits = permits.clone();
                let probe = probe.clone();
                let results = results.clone();
                bodies.push(tokio::spawn(async move {
                    let _permit = permits.acquire().await.unwrap();
                    assert!(probe.lock().unwrap().try_acquire());
                    tokio::time::sleep(Duration::from_millis(35)).await;
                    probe.lock().unwrap().release();
                    results.lock().unwrap().poll(Some(Outcome::Status(200)));
                }));
            }
            assert!(pending.lock().unwrap().settle(action));
        }
        for b in bodies {
            b.await.unwrap();
        }
        let peak = probe.lock().unwrap().peak();
        let resolved = results.lock().unwrap().total();
        let left = pending.lock().unwrap().get();
        (peak, resolved, left)
    });
    assert!(peak <= 2);
    assert_eq!(resolved, 5);
    assert_eq!(pending_left, 0);
}
