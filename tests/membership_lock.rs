use std::sync::Arc;

use hiqlite_helpers::group::{select, AppState, RaftType};
use tokio::sync::Mutex;

type Log = Mutex<Vec<String>>;

async fn mutate(state: Arc<AppState<Log>>, caller: &'static str) {
    let log = select(&state, &RaftType::Sqlite).unwrap();
    let mut guard = log.lock().await;
    guard.push(format!("{caller} start"));
    tokio::task::yield_now().await;
    tokio::task::yield_now().await;
    guard.push(format!("{caller} end"));
}

#[test]
fn concurrent_changes_on_one_group_do_not_interleave() {
    let rt = tokio::runtime::Builder::new_current_thread().build().unwrap();
    let state = Arc::new(AppState::new(1, false, Some(Mutex::new(Vec::new())), None).unwrap());
    rt.block_on(async {
        let a = tokio::spawn(mutate(state.clone(), "a"));
        let b = tokio::spawn(mutate(state.clone(), "b"));
        a.await.unwrap();
        b.await.unwrap();
    });
    let log = select(&state, &RaftType::Sqlite).unwrap();
    let events = rt.block_on(async { log.lock().await.clone() });
    assert_eq!(events.len(), 4);
    assert_eq!(events[0].split(' ').next(), events[1].split(' ').next());
    assert_eq!(events[2].split(' ').next(), events[3].split(' ').next());
    assert!(events[0].ends_with("start") && events[1].ends_with("end"));
    assert!(events[2].ends_with("start") && events[3].ends_with("end"));
}
