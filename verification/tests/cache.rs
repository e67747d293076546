use futures::stream::StreamExt;
use futures_ticker::Ticker;
use refresh_view::builder::{view, Builder, ConfigError};
use refresh_view::cell::View;
use refresh_view::cycle::{Action, Phase, Signal};
use refresh_view::refresh::Refresh;
use refresh_view::refresher::Refresher;
use smol::{Task, Timer};
use std::future::ready;
use std::sync::atomic::{AtomicU64, Ordering};
use std::sync::Arc;
use std::time::{Duration, Instant};

fn running(first: u64) -> Refresher<u64> {
    let mut refresher = Refresher::start(first);
    assert_eq!(refresher.on(Signal::Spawned), Action::Wait);
    refresher
}

fn idle_task() -> Task<()> {
    Task::spawn(async {})
}

#[test]
fn start_publishes_first_value() {
    let refresher = Refresher::start(5u64);
    assert_eq!(refresher.state(), Phase::Idle);
    assert_eq!(*refresher.share().read(), 5);
}

#[test]
fn idle_loop_publishes_nothing() {
    let mut refresher = Refresher::start(5u64);
    let cell = refresher.share();
    assert_eq!(refresher.on(Signal::Tick), Action::Wait);
    assert_eq!(refresher.on(Signal::Refreshed(9)), Action::Wait);
    assert_eq!(refresher.state(), Phase::Idle);
    assert_eq!(*cell.read(), 5);
}

#[test]
fn running_loop_replaces_the_value() {
    let mut refresher = running(5);
    let cell = refresher.share();
    assert_eq!(refresher.state(), Phase::Running);
    assert_eq!(refresher.on(Signal::Tick), Action::Invoke);
    assert_eq!(*cell.read(), 5);
    assert_eq!(refresher.on(Signal::Refreshed(9)), Action::Publish);
    assert_eq!(*cell.read(), 9);
}

#[test]
fn failed_refresh_keeps_the_last_good_value() {
    let mut refresher = running(5);
    let cell = refresher.share();
    assert_eq!(refresher.on(Signal::Tick), Action::Invoke);
    assert_eq!(refresher.on(Signal::Failed), Action::Wait);
    assert_eq!(*cell.read(), 5);
    assert_eq!(refresher.on(Signal::Tick), Action::Invoke);
    assert_eq!(refresher.on(Signal::Refreshed(6)), Action::Publish);
    assert_eq!(*cell.read(), 6);
}

#[test]
fn stopped_loop_discards_late_results() {
    let mut refresher = running(5);
    let cell = refresher.share();
    assert_eq!(refresher.on(Signal::Tick), Action::Invoke);
    assert_eq!(refresher.on(Signal::Cancelled), Action::Halt);
    assert_eq!(refresher.on(Signal::Refreshed(9)), Action::Halt);
    assert_eq!(refresher.on(Signal::Tick), Action::Halt);
    assert_eq!(refresher.on(Signal::Spawned), Action::Halt);
    assert_eq!(refresher.state(), Phase::Stopped);
    assert_eq!(*cell.read(), 5);
}

#[test]
fn closed_ticks_stop_the_loop() {
    let mut refresher = running(1);
    assert_eq!(refresher.on(Signal::Closed), Action::Halt);
    assert_eq!(refresher.state(), Phase::Stopped);
}

#[test]
fn cloned_cells_share_one_slot() {
    let mut refresher = running(1);
    let a = refresher.share();
    let b = a.clone();
    assert!(Arc::ptr_eq(&a.read(), &b.read()));
    refresher.on(Signal::Refreshed(2));
    assert_eq!(*a.read(), 2);
    assert_eq!(*b.read(), 2);
    assert!(Arc::ptr_eq(&a.read(), &b.read()));
}

#[test]
fn cloned_views_see_the_same_updates() {
    let mut refresher = running(100);
    let a = View::new(refresher.share(), idle_task());
    let b = a.clone();
    assert_eq!(*b.read(), *a.read());
    refresher.on(Signal::Tick);
    refresher.on(Signal::Refreshed(1000));
    assert_eq!(*a.read(), 1000);
    assert_eq!(*b.read(), 1000);
    assert!(Arc::ptr_eq(&a.read(), &b.read()));
}

#[test]
fn reads_between_refreshes_return_the_same_snapshot() {
    let mut refresher = running(3);
    let cell = refresher.share();
    refresher.on(Signal::Tick);
    let first = cell.read();
    for _ in 0..1000 {
        let again = cell.read();
        assert!(Arc::ptr_eq(&first, &again));
        assert_eq!(*again, 3);
    }
}

#[test]
fn held_snapshot_outlives_its_replacement() {
    let mut refresher = Refresher::start(String::from("old"));
    refresher.on(Signal::Spawned);
    let cell = refresher.share();
    let held = cell.read();
    refresher.on(Signal::Refreshed(String::from("new")));
    assert_eq!(*held, "old");
    assert_eq!(*cell.read(), "new");
}

#[test]
fn increasing_source_gives_increasing_reads() {
    let mut refresher = running(0);
    let cell = refresher.share();
    let mut seen = *cell.read();
    for produced in [3u64, 4, 10, 11, 500] {
        assert_eq!(refresher.on(Signal::Tick), Action::Invoke);
        assert_eq!(refresher.on(Signal::Failed), Action::Wait);
        assert!(*cell.read() >= seen);
        assert_eq!(refresher.on(Signal::Tick), Action::Invoke);
        assert_eq!(refresher.on(Signal::Refreshed(produced)), Action::Publish);
        let now = *cell.read();
        assert!(now > seen);
        assert_eq!(now, produced);
        seen = now;
    }
}

#[test]
fn every_read_is_a_whole_produced_value() {
    let mut refresher = Refresher::start((0u64, 0u64));
    refresher.on(Signal::Spawned);
    let cell = refresher.share();
    for n in 1..200u64 {
        refresher.on(Signal::Refreshed((n, 2 * n)));
        let seen = cell.read();
        assert_eq!(*seen, (n, 2 * n));
    }
}

fn compound(p: f64, r: f64, n: f64, t: f64) -> f64 {
    p * (1_f64 + (r / n)).powf(n * t)
}

#[test]
fn compounding_value_increases() {
    let principal = 100_f64;
    let rate = 0.05;
    let n = 1_f64;
    let mut refresher = Refresher::start(compound(principal, rate, n, 0.0));
    refresher.on(Signal::Spawned);
    let cell = refresher.share();
    assert_eq!(*cell.read(), 100_f64);
    let mut value = 0_f64;
    let mut elapsed_ms = 0_u32;
    for _ in 0..10 {
        for _ in 0..5 {
            elapsed_ms += 100;
            assert_eq!(refresher.on(Signal::Tick), Action::Invoke);
            let v = compound(principal, rate, n, f64::from(elapsed_ms) / 1000_f64);
            assert_eq!(refresher.on(Signal::Refreshed(v)), Action::Publish);
        }
        let curr = *cell.read();
        assert!(curr > value);
        value = curr;
    }
    assert_eq!(value, compound(principal, rate, n, 5.0));
}

async fn launch<V, R>(builder: Builder<V, R>) -> View<V>
where
    V: Sync + Send + 'static,
    R: Refresh<Value = V> + Sync + Send + 'static,
{
    let launch = match builder.load() {
        Ok(launch) => launch,
        Err(ConfigError::MissingRefresh) => panic!("no refresh source"),
        Err(ConfigError::MissingFrequency) => panic!("no refresh period"),
        Err(ConfigError::ZeroFrequency) => panic!("empty refresh period"),
    };
    let source = launch.refresh;
    let period = launch.frequency;
    let mut refresher = Refresher::start(source.refresh().await);
    let cell = refresher.share();
    let ticker = Task::spawn(async move {
        let mut tick = Ticker::new(period);
        let mut answer = refresher.on(Signal::Spawned);
        while answer != Action::Halt {
            let signal = match answer {
                Action::Invoke => Signal::Refreshed(source.refresh().await),
                _ => match tick.next().await {
                    Some(_) => Signal::Tick,
                    None => Signal::Closed,
                },
            };
            answer = refresher.on(signal);
        }
    });
    View::new(cell, ticker)
}

#[test]
fn test_clone_underlying() {
    smol::run(async {
        let start = Instant::now();

        let a = launch(view(|| async { Instant::now() }).frequency(Duration::from_millis(100)))
            .await;

        Timer::after(Duration::from_millis(1000)).await;

        let b = a.clone();

        assert_eq!(*b.read(), *a.read());
        assert!((*b.read()).elapsed().as_secs() < start.elapsed().as_secs());
    });
}

#[test]
fn test_view_increases() {
    let principal = 100_f64;
    let rate = 0.05;
    let n = 1_f64;

    let start = Instant::now();

    smol::run(async {
        let account = launch(
            view(move || {
                let elapsed = start.elapsed().as_millis() as f64;
                let v = compound(principal, rate, n, elapsed / 1000_f64);
                ready(v)
            })
            .frequency(Duration::from_millis(100)),
        )
        .await;

        let mut value = 0_f64;

        for _ in 0..10 {
            Timer::after(Duration::from_millis(500)).await;
            let curr = *account.read();
            assert!(curr > value);
            value = curr;
        }
    })
}

#[test]
fn background_loop_refreshes_until_last_handle_is_dropped() {
    smol::run(async {
        let calls = Arc::new(AtomicU64::new(0));
        let counter = calls.clone();
        let source = move || ready(counter.fetch_add(1, Ordering::SeqCst) + 1);
        let a = launch(view(source).frequency(Duration::from_millis(20))).await;
        assert_eq!(*a.read(), 1);
        let b = a.clone();
        Timer::after(Duration::from_millis(400)).await;
        let seen = *a.read();
        assert!(seen > 1);
        assert_eq!(*b.read(), seen);
        drop(a);
        Timer::after(Duration::from_millis(200)).await;
        assert!(*b.read() > seen);
        drop(b);
        Timer::after(Duration::from_millis(100)).await;
        let after_drop = calls.load(Ordering::SeqCst);
        Timer::after(Duration::from_millis(400)).await;
        assert_eq!(calls.load(Ordering::SeqCst), after_drop);
    });
}
