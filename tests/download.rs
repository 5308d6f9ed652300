use xmu_downloader::download::{
    retry_error_tasks, set_num_threads, DownloadFile, DownloadQueue, DEFAULT_NUM_THREADS,
};

fn task(n: u32) -> DownloadFile {
    DownloadFile::new(&format!("https://host/{n}"), &format!("./download//{n}"))
}

#[test]
fn new_task_keeps_its_fields() {
    let t = DownloadFile::new("https://a/b", "./download//b");
    assert_eq!(t.url, "https://a/b");
    assert_eq!(t.file, "./download//b");
}

#[test]
fn tasks_are_dispatched_in_order_and_once() {
    let mut q = DownloadQueue::new();
    assert!(task(1).run(&mut q));
    assert!(task(2).run(&mut q));
    assert_eq!(q.pending_ids(), vec![0, 1]);
    let a = q.dispatch().unwrap();
    let b = q.dispatch().unwrap();
    assert_eq!((a.id, a.task.url.as_str()), (0, "https://host/1"));
    assert_eq!((b.id, b.task.url.as_str()), (1, "https://host/2"));
    assert!(q.dispatch().is_none());
    assert!(q.pending_ids().is_empty());
    assert_eq!(q.in_flight(), 2);
    assert!(q.report_success(a.id));
    assert!(!q.report_success(a.id));
    assert_eq!(q.in_flight(), 1);
}

#[test]
fn same_file_queued_twice_gets_two_numbers() {
    let mut q = DownloadQueue::new();
    assert!(task(1).run(&mut q));
    assert!(task(1).run(&mut q));
    let a = q.dispatch().unwrap();
    let b = q.dispatch().unwrap();
    assert_ne!(a.id, b.id);
}

#[test]
fn retry_with_nothing_failed_changes_nothing() {
    let mut q = DownloadQueue::new();
    retry_error_tasks(&mut q);
    assert!(q.pending_ids().is_empty());
    assert!(task(1).run(&mut q));
    retry_error_tasks(&mut q);
    assert_eq!(q.pending_ids(), vec![0]);
    assert!(q.failed_ids().is_empty());
}

#[test]
fn retry_keeps_failure_order_behind_pending() {
    let mut q = DownloadQueue::new();
    for n in 0..3 {
        assert!(task(n).run(&mut q));
    }
    let a = q.dispatch().unwrap();
    let b = q.dispatch().unwrap();
    let c = q.dispatch().unwrap();
    assert!(q.report_failure(a));
    assert!(q.report_failure(b));
    assert!(q.report_failure(c));
    assert!(task(9).run(&mut q));
    assert_eq!(q.failed_ids(), vec![0, 1, 2]);
    retry_error_tasks(&mut q);
    assert_eq!(q.pending_ids(), vec![3, 0, 1, 2]);
    assert!(q.failed_ids().is_empty());
}

#[test]
fn capacity_change_leaves_running_tasks_alone() {
    let mut q = DownloadQueue::new();
    assert_eq!(q.get_num_threads(), DEFAULT_NUM_THREADS);
    for n in 0..5 {
        assert!(task(n).run(&mut q));
    }
    let mut running = Vec::new();
    while let Some(t) = q.dispatch() {
        running.push(t);
    }
    assert_eq!(running.len(), 4);
    set_num_threads(&mut q, 1);
    assert_eq!(q.get_num_threads(), 1);
    assert_eq!(q.in_flight(), 4);
    assert!(q.dispatch().is_none());
    for t in running.drain(..3) {
        assert!(q.report_success(t.id));
    }
    assert!(q.dispatch().is_none());
    assert!(q.report_success(running[0].id));
    assert_eq!(q.dispatch().map(|t| t.id), Some(4));
    set_num_threads(&mut q, 3);
    assert_eq!(q.in_flight(), 1);
}

#[test]
fn failed_middle_task_is_retried() {
    let mut q = DownloadQueue::new();
    for n in 1..=3 {
        assert!(task(n).run(&mut q));
    }
    let t1 = q.dispatch().unwrap();
    let t2 = q.dispatch().unwrap();
    let t3 = q.dispatch().unwrap();
    assert!(q.report_success(t1.id));
    assert!(q.report_failure(t2));
    assert!(q.report_success(t3.id));
    assert_eq!(q.failed_ids(), vec![1]);
    assert_eq!(q.in_flight(), 0);
    retry_error_tasks(&mut q);
    assert!(q.failed_ids().is_empty());
    let again = q.dispatch().unwrap();
    assert_eq!(again.id, 1);
    assert_eq!(again.task.url, "https://host/2");
    assert_eq!(again.task.file, "./download//2");
}

#[test]
fn report_of_unknown_ticket_is_ignored() {
    let mut q = DownloadQueue::new();
    assert!(task(1).run(&mut q));
    let t = q.dispatch().unwrap();
    assert!(q.report_success(t.id));
    assert!(!q.report_failure(t));
    assert!(q.failed_ids().is_empty());
}
