use gennaker::registry::{JupyterProcess, Registry};

fn process(pid: u32, port: u16, token: &str) -> JupyterProcess {
    JupyterProcess {
        pid,
        port,
        token: String::from(token),
    }
}

#[test]
fn insert_and_list() {
    let mut r = Registry::new();
    assert_eq!(r.len(), 0);
    r.insert(process(10, 9000, "a"));
    r.insert(process(11, 9001, "b"));
    r.insert(process(12, 9002, "c"));
    assert_eq!(r.len(), 3);
    assert_eq!(r.list_ids(), vec![10, 11, 12]);
}

#[test]
fn remove_returns_the_owned_process() {
    let mut r = Registry::new();
    r.insert(process(10, 9000, "a"));
    r.insert(process(11, 9001, "b"));
    let removed = r.remove(11).expect("pid 11 is tracked");
    assert_eq!(removed.pid, 11);
    assert_eq!(removed.port, 9001);
    assert_eq!(removed.token, "b");
    assert_eq!(r.len(), 1);
    assert!(r.remove(11).is_none());
    assert!(r.remove(99).is_none());
    assert_eq!(r.len(), 1);
}

#[test]
fn removed_pid_can_be_reinserted() {
    let mut r = Registry::new();
    r.insert(process(10, 9000, "a"));
    let p = r.remove(10).unwrap();
    assert_eq!(r.len(), 0);
    r.insert(p);
    assert_eq!(r.list_ids(), vec![10]);
}

#[test]
fn stop_all_drains_every_process() {
    let mut r = Registry::new();
    r.insert(process(10, 9000, "a"));
    r.insert(process(11, 9001, "b"));
    r.insert(process(12, 9002, "c"));
    let requests = r.stop_all();
    assert_eq!(r.len(), 0);
    assert_eq!(requests.len(), 3);
    assert_eq!(requests[0].pid, 10);
    assert_eq!(requests[1].pid, 11);
    assert_eq!(requests[2].pid, 12);
    assert_eq!(requests[1].url, "http://localhost:9001/api/shutdown?_xsrf=b");
    let requests_again = r.stop_all();
    assert_eq!(requests_again.len(), 0);
    assert_eq!(r.len(), 0);
}

#[test]
fn stop_computes_authenticated_shutdown_request() {
    let req = process(77, 8888, "s3cret").stop();
    assert_eq!(req.pid, 77);
    assert_eq!(req.url, "http://localhost:8888/api/shutdown?_xsrf=s3cret");
    assert_eq!(req.auth_header, "token s3cret");
}
