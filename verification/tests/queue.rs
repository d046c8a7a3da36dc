use vmdb::event::{Event, Key};
use vmdb::gdb::{Registers, QUEUE_CAPACITY};
use vmdb::options::OptionsGdbInterface;
use vmdb::queue::EventQueue;
use vmdb::session::{Action, Session};

fn hit(bp: usize) -> OptionsGdbInterface {
    OptionsGdbInterface::HitBreakpoint(bp)
}

fn listing(n: usize) -> Vec<String> {
    (0..n).map(|i| format!("  {:x}:\tab cd  \tmov r{}", 0x401000 + 2 * i, i)).collect()
}

#[test]
fn new_queue_is_empty_with_room_for_eight() {
    let q = EventQueue::new();
    assert_eq!(q.len(), 0);
    assert_eq!(q.capacity(), 8);
    assert_eq!(q.capacity(), QUEUE_CAPACITY);
    assert!(q.is_empty());
    assert!(!q.is_full());
    assert_eq!(q.front(), None);
}

#[test]
fn events_come_out_in_the_order_they_went_in() {
    let mut q = EventQueue::new();
    for bp in 1..=5 {
        assert!(q.try_send(hit(bp)));
    }
    assert_eq!(q.len(), 5);
    for bp in 1..=5 {
        assert_eq!(q.front(), Some(hit(bp)));
        assert_eq!(q.try_recv(), Some(hit(bp)));
    }
    assert_eq!(q.try_recv(), None);
    assert!(q.is_empty());
}

#[test]
fn full_queue_takes_no_more_and_drops_nothing() {
    let mut q = EventQueue::new();
    for bp in 0..8 {
        assert!(q.try_send(hit(bp)));
    }
    assert!(q.is_full());
    assert_eq!(q.len(), 8);
    assert!(!q.try_send(hit(100)));
    assert!(!q.try_send(hit(101)));
    assert_eq!(q.len(), 8);
    // room is made by taking
    assert_eq!(q.try_recv(), Some(hit(0)));
    assert!(!q.is_full());
    assert!(q.try_send(hit(100)));
    assert!(q.is_full());
    let mut out = Vec::new();
    while let Some(e) = q.try_recv() {
        out.push(e);
    }
    assert_eq!(
        out,
        vec![hit(1), hit(2), hit(3), hit(4), hit(5), hit(6), hit(7), hit(100)]
    );
}

#[test]
fn empty_queue_gives_nothing_and_does_not_wait() {
    let mut q = EventQueue::new();
    assert_eq!(q.try_recv(), None);
    assert_eq!(q.try_recv(), None);
    assert_eq!(q.len(), 0);
}

#[test]
fn what_goes_in_comes_out_once_and_in_order() {
    let mut q = EventQueue::new();
    let mut seed: u32 = 7;
    let mut next: usize = 0;
    let mut taken = Vec::new();
    let mut out = Vec::new();
    for _ in 0..5000 {
        seed = seed.wrapping_mul(1103515245).wrapping_add(12345);
        if (seed >> 16) % 5 < 3 {
            if q.try_send(hit(next)) {
                taken.push(hit(next));
            }
            next += 1;
        } else if let Some(e) = q.try_recv() {
            out.push(e);
        }
        assert!(q.len() <= q.capacity());
    }
    while let Some(e) = q.try_recv() {
        out.push(e);
    }
    assert_eq!(out, taken);
}

#[test]
fn events_of_two_producers_keep_their_own_order() {
    let mut q = EventQueue::new();
    let key = |c: char| OptionsGdbInterface::Event(Event::Key { key: Key::Char(c), control: false });
    q.try_send(hit(1));
    q.try_send(key('a'));
    q.try_send(key('b'));
    q.try_send(hit(2));
    q.try_send(key('c'));
    let mut hits = Vec::new();
    let mut keys = Vec::new();
    while let Some(e) = q.try_recv() {
        match e {
            OptionsGdbInterface::HitBreakpoint(_) => hits.push(e),
            OptionsGdbInterface::Event(_) => keys.push(e),
        }
    }
    assert_eq!(hits, vec![hit(1), hit(2)]);
    assert_eq!(keys, vec![key('a'), key('b'), key('c')]);
}

#[test]
fn tick_takes_one_event_at_a_time() {
    let mut s = Session::new(listing(40), 177, 17);
    s.record_breakpoint(1, 0x401000);
    let regs = Registers::new();
    let mut q = EventQueue::new();
    q.try_send(OptionsGdbInterface::Event(Event::FocusGained));
    q.try_send(OptionsGdbInterface::Event(Event::Key { key: Key::Char('d'), control: true }));
    q.try_send(hit(1));
    assert!(s.can_tick(&q));
    assert_eq!(s.tick(&mut q, &regs), Action::Idle);
    assert_eq!(q.len(), 2);
    assert!(s.can_tick(&q));
    assert_eq!(s.tick(&mut q, &regs), Action::Quit);
    assert_eq!(q.len(), 1);
    assert!(s.can_tick(&q));
    assert_eq!(s.tick(&mut q, &regs), Action::Idle);
    assert_eq!(q.len(), 0);
}

#[test]
fn tick_on_an_empty_queue_does_nothing() {
    let mut s = Session::new(listing(40), 177, 17);
    let regs = Registers::new();
    let mut q = EventQueue::new();
    let before = s.print(&regs);
    assert!(s.can_tick(&q));
    assert_eq!(s.tick(&mut q, &regs), Action::Idle);
    assert_eq!(s.tick(&mut q, &regs), Action::Idle);
    assert_eq!(s.print(&regs), before);
    assert!(q.is_empty());
}

#[test]
fn tick_cannot_take_an_unknown_breakpoint() {
    let s = Session::new(listing(40), 177, 17);
    let mut q = EventQueue::new();
    q.try_send(OptionsGdbInterface::Event(Event::Paste));
    q.try_send(hit(9));
    // the unknown breakpoint is not the oldest event yet
    assert!(s.can_tick(&q));
    q.try_recv();
    assert!(!s.can_tick(&q));
}
