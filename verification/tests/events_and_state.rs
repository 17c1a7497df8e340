use excel_deno_bridge::bridge::BridgeState;
use excel_deno_bridge::error::BridgeError;
use excel_deno_bridge::events::{
    CellMonitor, CellObservation, EventQueue, ExcelEvent, BUSY_RETRY_MS, EVENT_QUEUE_CAPACITY,
    POLL_INTERVAL_MS,
};

fn ev(i: usize) -> ExcelEvent {
    ExcelEvent { name: "cell_change".to_string(), data: i.to_string() }
}

#[test]
fn queue_is_first_in_first_out() {
    let mut q = EventQueue::new();
    assert_eq!(q.poll(), None);
    q.push(ev(1));
    q.push(ev(2));
    assert_eq!(q.len(), 2);
    assert_eq!(q.poll(), Some(ev(1)));
    assert_eq!(q.poll(), Some(ev(2)));
    assert_eq!(q.poll(), None);
    assert_eq!(q.len(), 0);
}

#[test]
fn queue_keeps_the_newest_events() {
    let mut q = EventQueue::new();
    for i in 0..130 {
        q.push(ev(i));
        assert!(q.len() <= EVENT_QUEUE_CAPACITY);
    }
    assert_eq!(q.len(), 128);
    assert_eq!(q.poll(), Some(ev(2)));
    let mut last = None;
    while let Some(e) = q.poll() {
        last = Some(e);
    }
    assert_eq!(last, Some(ev(129)));
}

#[test]
fn monitor_reports_changes_once() {
    let mut m = CellMonitor::new();
    let step = m.observe(CellObservation::CellText("5".to_string()));
    assert_eq!(step.event, Some(ExcelEvent { name: "cell_change".to_string(), data: "5".to_string() }));
    assert_eq!(step.sleep_ms, POLL_INTERVAL_MS);
    let step = m.observe(CellObservation::CellText("5".to_string()));
    assert_eq!(step.event, None);
    let step = m.observe(CellObservation::ExcelUnavailable);
    assert_eq!(step.event, None);
    assert_eq!(step.sleep_ms, BUSY_RETRY_MS);
    let step = m.observe(CellObservation::CellUnreadable);
    assert_eq!(step.event, None);
    assert_eq!(step.sleep_ms, 150);
    let step = m.observe(CellObservation::CellText("6".to_string()));
    assert_eq!(step.event.map(|e| e.data), Some("6".to_string()));
}

#[test]
fn monitor_ignores_an_empty_first_cell() {
    let mut m = CellMonitor::new();
    assert_eq!(m.observe(CellObservation::CellText(String::new())).event, None);
}

#[test]
fn workbook_directory() {
    let mut st = BridgeState::new();
    assert_eq!(st.workbook_file("a.js".to_string()).err(), Some(BridgeError::WorkbookPathNotSet));
    st.set_workbook_dir("C:\\Books".to_string());
    let f = st.workbook_file("a.js".to_string()).ok().unwrap();
    assert_eq!(f.dir, "C:\\Books");
    assert_eq!(f.file_name, "a.js");
    st.set_workbook_path(None);
    assert_eq!(st.workbook_file("b.js".to_string()).ok().unwrap().dir, "C:\\Books");
    let path: Vec<u16> = "D:\\Other".encode_utf16().collect();
    st.set_workbook_path(Some(&path));
    assert_eq!(st.workbook_file("b.js".to_string()).ok().unwrap().dir, "D:\\Other");
}

#[test]
fn monitor_starts_once() {
    let mut st = BridgeState::new();
    assert!(st.try_start_monitor());
    assert!(!st.try_start_monitor());
    assert!(!st.try_start_monitor());
}

#[test]
fn heartbeat_timer() {
    let mut st = BridgeState::new();
    assert_eq!(st.heartbeat_request(0), Some(100));
    assert_eq!(st.heartbeat_request(250), Some(250));
    st.record_timer(5);
    assert_eq!(st.heartbeat_request(250), None);
    st.record_timer(9);
    assert_eq!(st.stop_heartbeat(), Some(5));
    assert_eq!(st.stop_heartbeat(), None);
    assert_eq!(st.heartbeat_request(0), Some(100));
}

#[test]
fn heartbeat_created_minus_killed() {
    let mut st = BridgeState::new();
    let mut created = 0;
    let mut killed = 0;
    let mut next_id = 10usize;
    for step in [true, true, false, false, true, false, true, true] {
        if step {
            if let Some(_ms) = st.heartbeat_request(0) {
                created += 1;
                st.record_timer(next_id);
                next_id += 1;
            }
        } else if st.stop_heartbeat().is_some() {
            killed += 1;
        }
        let running = st.heartbeat_request(0).is_none();
        assert_eq!(created - killed, if running { 1 } else { 0 });
    }
}

#[test]
fn directory_setters_agree() {
    for dir in ["C:\\Books", "D:/books", "E:\\\u{1F4D8}\\Ü"] {
        let mut a = BridgeState::new();
        a.set_workbook_dir(dir.to_string());
        let mut b = BridgeState::new();
        let units: Vec<u16> = dir.encode_utf16().collect();
        b.set_workbook_path(Some(&units));
        let fa = a.workbook_file("x".to_string()).ok().unwrap();
        let fb = b.workbook_file("x".to_string()).ok().unwrap();
        assert_eq!(fa, fb);
    }
}
