use svgear::jobs::JobQueue;

#[test]
fn every_job_delivered_once_in_completion_order() {
    let mut q: JobQueue<&str, u32> = JobQueue::new();
    let a = q.submit("a");
    let b = q.submit("b");
    let c = q.submit("c");
    assert_eq!((a, b, c), (0, 1, 2));
    assert_eq!(q.pending_count(), 3);
    assert!(q.finish(c, 30));
    assert!(q.finish(a, 10));
    assert!(!q.finish(a, 11));
    assert!(!q.finish(99, 0));
    assert!(q.finish(b, 20));
    assert_eq!(q.pending_count(), 0);
    let all = q.resolve_all();
    assert_eq!(all, vec![("c", 30), ("a", 10), ("b", 20)]);
    assert!(q.is_empty());
    assert!(q.resolve_all().is_empty());
}

#[test]
fn resolve_one_takes_earliest_completion() {
    let mut q: JobQueue<String, Result<u8, String>> = JobQueue::new();
    assert_eq!(q.resolve_one(), None);
    let x = q.submit("x".to_string());
    let y = q.submit("y".to_string());
    assert!(q.finish(y, Err("failed".to_string())));
    assert_eq!(q.resolve_one(), Some(("y".to_string(), Err("failed".to_string()))));
    assert_eq!(q.resolve_one(), None);
    assert!(!q.is_empty());
    assert!(q.finish(x, Ok(1)));
    assert_eq!(q.resolve_one(), Some(("x".to_string(), Ok(1))));
    assert!(q.is_empty());
    assert!(q.can_submit());
}
