use echokit::mailbox::{plan_batch, LoopClosed, LoopEvent, Mailbox};

#[test]
fn drain_runs_posted_actions_in_order() {
    let mut m: Mailbox<u32> = Mailbox::new();
    for i in 0..5 {
        assert_eq!(m.invoke_from_event_loop(i), Ok(()));
    }
    assert_eq!(m.len(), 5);
    let (actions, quit) = m.drain();
    assert_eq!(actions, vec![0, 1, 2, 3, 4]);
    assert!(!quit);
    assert_eq!(m.len(), 0);
}

#[test]
fn posts_during_a_drain_wait_for_the_next() {
    let mut m: Mailbox<u32> = Mailbox::new();
    m.invoke_from_event_loop(1).unwrap();
    m.invoke_from_event_loop(2).unwrap();
    let (first, _) = m.drain();
    // running the first batch posts more work
    for a in first.iter() {
        m.invoke_from_event_loop(a * 10).unwrap();
    }
    assert_eq!(first, vec![1, 2]);
    let (second, _) = m.drain();
    assert_eq!(second, vec![10, 20]);
    let (third, _) = m.drain();
    assert!(third.is_empty());
}

#[test]
fn drain_runs_closures_once_each() {
    let log = std::rc::Rc::new(std::cell::RefCell::new(Vec::new()));
    let mut m: Mailbox<Box<dyn FnOnce()>> = Mailbox::new();
    for i in 0..3 {
        let l = log.clone();
        m.invoke_from_event_loop(Box::new(move || l.borrow_mut().push(i))).unwrap();
    }
    let (actions, _) = m.drain();
    for a in actions {
        a();
    }
    assert_eq!(*log.borrow(), vec![0, 1, 2]);
}

#[test]
fn quit_ends_the_pass_and_closes() {
    let mut m: Mailbox<u32> = Mailbox::new();
    m.invoke_from_event_loop(1).unwrap();
    m.quit_event_loop().unwrap();
    m.invoke_from_event_loop(2).unwrap();
    let (actions, quit) = m.drain();
    assert_eq!(actions, vec![1]);
    assert!(quit);
    assert!(m.is_closed());
    assert_eq!(m.invoke_from_event_loop(3), Err(LoopClosed));
    assert_eq!(m.quit_event_loop(), Err(LoopClosed));
    assert_eq!(m.len(), 0);
}

#[test]
fn take_all_empties_the_mailbox() {
    let mut m: Mailbox<u32> = Mailbox::new();
    m.invoke_from_event_loop(7).unwrap();
    m.quit_event_loop().unwrap();
    let batch = m.take_all();
    assert_eq!(batch.len(), 2);
    assert!(matches!(batch[0], LoopEvent::Invoke(7)));
    assert!(matches!(batch[1], LoopEvent::Quit));
    assert_eq!(m.len(), 0);
    assert!(!m.is_closed());
}

#[test]
fn plan_of_empty_and_quit_first_batches() {
    let (a, q) = plan_batch::<u32>(Vec::new());
    assert!(a.is_empty());
    assert!(!q);
    let (a, q) = plan_batch(vec![LoopEvent::Quit, LoopEvent::Invoke(5u32)]);
    assert!(a.is_empty());
    assert!(q);
}
