use std::sync::Arc;

use deployment_router::{DeploymentId, Host, Router};
use rocket::tokio::runtime::Builder;
use rocket::tokio::sync::RwLock;

#[test]
fn concurrent_lookups_agree() {
    let runtime = Builder::new_multi_thread().worker_threads(4).build().unwrap();
    runtime.block_on(async {
        let shared = Arc::new(RwLock::new(Router::new()));
        shared.write().await.promote(Host::new("a.example.com"), DeploymentId::new("dep-1"));

        let mut readers = Vec::new();
        for _ in 0..16 {
            let shared = Arc::clone(&shared);
            readers.push(rocket::tokio::spawn(async move {
                let table = shared.read().await;
                let known = table.id_for_host(&Host::new("a.example.com"));
                let unknown = table.id_for_host(&Host::new("b.example.com"));
                (known, unknown)
            }));
        }
        for reader in readers {
            let (known, unknown) = reader.await.unwrap();
            assert_eq!(known, Some(DeploymentId::new("dep-1")));
            assert_eq!(unknown, None);
        }
    });
}

#[test]
fn promotion_is_seen_once_the_lock_is_released() {
    let runtime = Builder::new_multi_thread().worker_threads(4).build().unwrap();
    runtime.block_on(async {
        let shared = Arc::new(RwLock::new(Router::new()));
        let mut callers = Vec::new();
        for i in 0..8 {
            let shared = Arc::clone(&shared);
            callers.push(rocket::tokio::spawn(async move {
                let name = format!("host-{}.example.com", i);
                for round in 0..20 {
                    let id = format!("dep-{}-{}", i, round);
                    shared.write().await.promote(Host::new(&name), DeploymentId::new(&id));
                    let found = shared.read().await.id_for_host(&Host::new(&name));
                    assert_eq!(found, Some(DeploymentId::new(&id)));
                }
            }));
        }
        for caller in callers {
            caller.await.unwrap();
        }
    });
}

#[test]
fn racing_promotions_of_one_host_hand_each_deployment_on_once() {
    let runtime = Builder::new_multi_thread().worker_threads(4).build().unwrap();
    runtime.block_on(async {
        let shared = Arc::new(RwLock::new(Router::new()));
        let mut writers = Vec::new();
        for i in 0..16 {
            let shared = Arc::clone(&shared);
            writers.push(rocket::tokio::spawn(async move {
                let id = format!("dep-{}", i);
                shared.write().await.promote(Host::new("a.example.com"), DeploymentId::new(&id))
            }));
        }
        let mut seen = Vec::new();
        let mut firsts = 0;
        for writer in writers {
            match writer.await.unwrap() {
                Some(previous) => seen.push(previous.as_str().to_string()),
                None => firsts += 1,
            }
        }
        assert_eq!(firsts, 1);
        let last = shared.read().await.id_for_host(&Host::new("a.example.com")).unwrap();
        seen.push(last.as_str().to_string());
        seen.sort();
        let mut all = Vec::new();
        for i in 0..16 {
            all.push(format!("dep-{}", i));
        }
        all.sort();
        assert_eq!(seen, all);
    });
}
