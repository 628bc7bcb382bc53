use std::sync::atomic::{AtomicUsize, Ordering};
use std::sync::Arc;
use uniproc::lifecycle::{leaked_references, AppLifecycle, WindowLifecycle};

struct DropCheck(Arc<AtomicUsize>);

impl Drop for DropCheck {
    fn drop(&mut self) {
        self.0.fetch_add(1, Ordering::SeqCst);
    }
}

type Cleanup = Box<dyn FnOnce(&mut Vec<&'static str>)>;

#[test]
fn test_lifecycle_anchors_cleanup() {
    let mut lifecycle: AppLifecycle<Cleanup, DropCheck, ()> = AppLifecycle::new();
    let counter = Arc::new(AtomicUsize::new(0));

    lifecycle.track_loop(DropCheck(counter.clone()));
    assert_eq!(counter.load(Ordering::SeqCst), 0);

    lifecycle.shutdown();

    assert_eq!(counter.load(Ordering::SeqCst), 1);
}

#[test]
fn test_lifecycle_subs_drain() {
    let mut lifecycle: AppLifecycle<Cleanup, (), ()> = AppLifecycle::new();
    lifecycle.track_sub(1);
    lifecycle.track_sub(2);

    assert_eq!(lifecycle.subscription_count(), 2);

    lifecycle.shutdown();

    assert_eq!(lifecycle.subscription_count(), 0);
}

#[test]
fn cleanups_run_last_registered_first() {
    let mut lifecycle: AppLifecycle<Cleanup, (), ()> = AppLifecycle::new();
    lifecycle.on_cleanup(Box::new(|log| log.push("first")));
    lifecycle.on_cleanup(Box::new(|log| log.push("second")));
    lifecycle.on_cleanup(Box::new(|log| log.push("third")));
    let plan = lifecycle.shutdown();
    let mut log = Vec::new();
    for cleanup in plan.cleanups {
        cleanup(&mut log);
    }
    assert_eq!(log, vec!["third", "second", "first"]);
}

#[test]
fn shutdown_hands_back_everything_in_order_and_empties() {
    let mut lifecycle: WindowLifecycle<u8, &'static str, char> = WindowLifecycle::new();
    lifecycle.track_sub(7);
    lifecycle.track_loop("loop-a");
    lifecycle.track_actor('x');
    lifecycle.track_sub(9);
    lifecycle.track_loop("loop-b");
    lifecycle.on_cleanup(1);
    lifecycle.on_cleanup(2);
    let plan = lifecycle.shutdown();
    assert_eq!(plan.cleanups, vec![2, 1]);
    assert_eq!(plan.unsubscribe, vec![7, 9]);
    assert_eq!(plan.anchors, vec!["loop-a", "loop-b"]);
    assert_eq!(plan.actor_counters, vec!['x']);
    assert_eq!(lifecycle.subscription_count(), 0);

    let again = lifecycle.shutdown();
    assert!(again.cleanups.is_empty());
    assert!(again.unsubscribe.is_empty());
    assert!(again.anchors.is_empty());
    assert!(again.actor_counters.is_empty());
}

#[test]
fn leak_check_counts_extra_references() {
    assert_eq!(leaked_references(0), None);
    assert_eq!(leaked_references(1), None);
    assert_eq!(leaked_references(2), Some(1));
    assert_eq!(leaked_references(5), Some(4));
}

#[test]
fn leak_reports_list_actors_still_referenced() {
    let counts = vec![("Tabs".to_string(), 1), ("Sidebar".to_string(), 3), ("Window".to_string(), 2)];
    let reports = uniproc::lifecycle::leak_reports(&counts);
    let pairs: Vec<(String, usize)> = reports.into_iter().map(|r| (r.actor, r.extra_refs)).collect();
    assert_eq!(pairs, vec![("Sidebar".to_string(), 2), ("Window".to_string(), 1)]);
}
