use soapysdr_rx::lifecycle::{StreamState, WorkerOutcome};

/// A device handle that cannot be copied: its number tells which one it is.
#[derive(Debug, PartialEq)]
struct Token(u32);

/// A worker's control, standing for a started worker.
#[derive(Debug, PartialEq)]
struct Control(u32);

fn activate(
    s: &mut StreamState<Token, Control>,
    setup: impl FnOnce(Token) -> Result<Control, (Token, String)>,
) -> Result<(), String> {
    match s.begin_activate() {
        None => Ok(()),
        Some(h) => s.end_activate(setup(h)),
    }
}

fn deactivate(
    s: &mut StreamState<Token, Control>,
    join: impl FnOnce(Control) -> WorkerOutcome<Token, String>,
) -> Result<(), String> {
    match s.begin_deactivate() {
        None => Ok(()),
        Some(c) => s.end_deactivate(join(c)),
    }
}

#[test]
fn new_state_is_idle() {
    let s: StreamState<Token, Control> = StreamState::new(Token(1));
    assert!(s.is_idle());
    assert!(!s.is_active());
    assert!(s.is_valid());
}

#[test]
fn activate_twice_starts_one_worker() {
    let mut s: StreamState<Token, Control> = StreamState::new(Token(1));
    let mut started = 0;
    assert_eq!(activate(&mut s, |h| { started += 1; Ok(Control(h.0)) }), Ok(()));
    assert_eq!(activate(&mut s, |h| { started += 1; Ok(Control(h.0 + 100)) }), Ok(()));
    assert_eq!(started, 1);
    assert!(matches!(s, StreamState::Active(Control(1))));
}

#[test]
fn deactivate_twice_second_is_ok() {
    let mut s: StreamState<Token, Control> = StreamState::new(Token(3));
    assert_eq!(activate(&mut s, |h| Ok(Control(h.0))), Ok(()));
    let r = deactivate(&mut s, |c| WorkerOutcome { handle: Token(c.0), result: Err("read".to_string()) });
    assert_eq!(r, Err("read".to_string()));
    let mut joined = false;
    let r2 = deactivate(&mut s, |c| { joined = true; WorkerOutcome { handle: Token(c.0), result: Err("x".to_string()) } });
    assert_eq!(r2, Ok(()));
    assert!(!joined);
    assert!(matches!(s, StreamState::Idle(Token(3))));
}

#[test]
fn deactivate_on_idle_is_noop() {
    let mut s: StreamState<Token, Control> = StreamState::new(Token(4));
    assert_eq!(s.begin_deactivate(), None);
    assert!(matches!(s, StreamState::Idle(Token(4))));
}

#[test]
fn failed_activate_keeps_handle() {
    let mut s: StreamState<Token, Control> = StreamState::new(Token(5));
    let r = activate(&mut s, |h| Err((h, "mtu".to_string())));
    assert_eq!(r, Err("mtu".to_string()));
    assert!(matches!(s, StreamState::Idle(Token(5))));
    assert_eq!(activate(&mut s, |h| Ok(Control(h.0))), Ok(()));
    assert!(matches!(s, StreamState::Active(Control(5))));
}

#[test]
fn begin_leaves_placeholder_until_end() {
    let mut s: StreamState<Token, Control> = StreamState::new(Token(6));
    let h = s.begin_activate();
    assert_eq!(h, Some(Token(6)));
    assert!(matches!(s, StreamState::Invalid));
    assert!(!s.is_valid());
    assert_eq!(s.end_activate::<String>(Ok(Control(6))), Ok(()));
    assert!(s.is_active());
    let c = s.begin_deactivate();
    assert_eq!(c, Some(Control(6)));
    assert!(matches!(s, StreamState::Invalid));
    let r = s.end_deactivate(WorkerOutcome { handle: Token(6), result: Ok::<(), String>(()) });
    assert_eq!(r, Ok(()));
    assert!(matches!(s, StreamState::Idle(Token(6))));
}

#[test]
fn concurrent_transitions_stay_valid() {
    let rt = tokio::runtime::Builder::new_multi_thread().worker_threads(4).build().unwrap();
    rt.block_on(async {
        let state = std::sync::Arc::new(tokio::sync::Mutex::new(StreamState::<Token, Control>::new(Token(9))));
        let running = std::sync::Arc::new(std::sync::atomic::AtomicU32::new(0));
        let mut tasks = Vec::new();
        for i in 0..32u32 {
            let state = state.clone();
            let running = running.clone();
            tasks.push(tokio::spawn(async move {
                let mut guard = state.lock().await;
                assert!(!matches!(*guard, StreamState::Invalid));
                if i % 2 == 0 {
                    if let Some(h) = guard.begin_activate() {
                        tokio::task::yield_now().await;
                        let n = running.fetch_add(1, std::sync::atomic::Ordering::SeqCst);
                        assert_eq!(n, 0);
                        guard.end_activate::<String>(Ok(Control(h.0))).unwrap();
                    }
                } else if let Some(c) = guard.begin_deactivate() {
                    tokio::task::yield_now().await;
                    running.fetch_sub(1, std::sync::atomic::Ordering::SeqCst);
                    guard.end_deactivate(WorkerOutcome { handle: Token(c.0), result: Ok::<(), String>(()) }).unwrap();
                }
                assert!(!matches!(*guard, StreamState::Invalid));
            }));
        }
        for t in tasks {
            t.await.unwrap();
        }
        let guard = state.lock().await;
        let n = running.load(std::sync::atomic::Ordering::SeqCst);
        assert_eq!(guard.is_active(), n == 1);
        assert!(n <= 1);
    });
}
