use std::sync::{Arc, Mutex};
use std::time::{Duration, Instant};

use autonomous_trading_system::agents::traits::{WorkerAction, WorkerEvent};
use autonomous_trading_system::config::SystemConfig;
use autonomous_trading_system::system::{AgentRole, LifecycleState, TradingSystem, WorkerExit};

const TICK_WORK: Duration = Duration::from_millis(200);
const POLL: Duration = Duration::from_millis(10);
/// What the scheduler of a busy machine may add.
const SLACK: Duration = Duration::from_millis(750);

fn local_system() -> TradingSystem {
    let mut config = SystemConfig::default();
    config.api.moomoo.base_url = "http://localhost:11111".to_string();
    let mut system = TradingSystem::new(config).unwrap();
    system.start().unwrap();
    system
}

/// A worker as the program runs it: woken by its tick and by its poll, it
/// does what the system says. Its unit of work takes `TICK_WORK`.
async fn worker(system: Arc<Mutex<TradingSystem>>, role: AgentRole, started: Arc<Mutex<Vec<Instant>>>) {
    let mut ticks = tokio::time::interval(Duration::from_secs(3600));
    loop {
        let event = match tokio::time::timeout(POLL, ticks.tick()).await {
            Ok(_) => WorkerEvent::Tick,
            Err(_) => WorkerEvent::ShutdownPoll,
        };
        let action = system.lock().unwrap().worker_event(role, event);
        match action {
            WorkerAction::Work => {
                started.lock().unwrap().push(Instant::now());
                tokio::time::sleep(TICK_WORK).await;
            }
            WorkerAction::Wait => {}
            WorkerAction::Stop => break,
        }
    }
}

#[test]
fn shutdown_waits_for_the_tick_and_not_much_longer() {
    let runtime = tokio::runtime::Builder::new_current_thread().enable_time().build().unwrap();
    runtime.block_on(async {
        let system = Arc::new(Mutex::new(local_system()));
        let roles = system.lock().unwrap().run();
        let started = Arc::new(Mutex::new(Vec::new()));
        let role = AgentRole::RiskManagement;
        assert!(roles.contains(&role));
        let task = tokio::spawn(worker(system.clone(), role, started.clone()));

        // the first tick is due at once; ask for the shutdown while it is being worked
        while started.lock().unwrap().is_empty() {
            tokio::time::sleep(Duration::from_millis(1)).await;
        }
        let tick_began = started.lock().unwrap()[0];
        system.lock().unwrap().request_shutdown(None);

        task.await.unwrap();
        let stopped_after = tick_began.elapsed();
        system.lock().unwrap().record_exit(role, WorkerExit::Returned);

        // not before the unit of work was done ...
        assert!(stopped_after >= TICK_WORK, "stopped after {:?}", stopped_after);
        // ... and at the first poll after it, with some slack for the scheduler
        assert!(
            stopped_after <= TICK_WORK + POLL + SLACK,
            "stopped after {:?}",
            stopped_after
        );
        assert_eq!(started.lock().unwrap().len(), 1);
        assert_eq!(system.lock().unwrap().agents.state(role), Some(LifecycleState::Stopped));
    });
}

#[test]
fn idle_worker_stops_within_a_poll() {
    let runtime = tokio::runtime::Builder::new_current_thread().enable_time().build().unwrap();
    runtime.block_on(async {
        let system = Arc::new(Mutex::new(local_system()));
        system.lock().unwrap().run();
        let started = Arc::new(Mutex::new(Vec::new()));
        let role = AgentRole::Coordinator;
        let task = tokio::spawn(worker(system.clone(), role, started.clone()));
        // let the first tick pass
        tokio::time::sleep(TICK_WORK + Duration::from_millis(50)).await;
        let asked = Instant::now();
        system.lock().unwrap().request_shutdown(Some(role));
        task.await.unwrap();
        assert!(asked.elapsed() <= POLL + SLACK);
    });
}
