use netbricks::sim_port::{batch_len, SimulatePort, SimulateQueue};

fn port_and_queue() -> (SimulatePort, SimulateQueue) {
    let port = SimulatePort::new(1).unwrap();
    let queue = port.new_simulate_queue(0).unwrap();
    (port, queue)
}

#[test]
fn new_port_counts_nothing() {
    let port = SimulatePort::new(4).unwrap();
    assert_eq!(port.stats(), (0, 0));
}

#[test]
fn new_queue_is_ok() {
    let port = SimulatePort::new(2).unwrap();
    assert!(port.new_simulate_queue(0).is_ok());
    assert!(port.new_simulate_queue(1).is_ok());
}

#[test]
fn send_counts_the_batch() {
    let (mut port, queue) = port_and_queue();
    assert_eq!(queue.send(&mut port, 32), Ok(32));
    assert_eq!(port.stats(), (0, 32));
    assert_eq!(queue.send(&mut port, 10), Ok(10));
    assert_eq!(port.stats(), (0, 42));
}

#[test]
fn send_of_empty_batch() {
    let (mut port, queue) = port_and_queue();
    assert_eq!(queue.send(&mut port, 0), Ok(0));
    assert_eq!(port.stats(), (0, 0));
}

#[test]
fn recv_counts_obtained_buffers() {
    let (mut port, queue) = port_and_queue();
    assert_eq!(queue.recv(&mut port, 32, 0), Ok(32));
    assert_eq!(port.stats(), (32, 0));
}

#[test]
fn recv_with_failed_allocation_counts_nothing() {
    let (mut port, queue) = port_and_queue();
    assert_eq!(queue.recv(&mut port, 32, -1), Ok(0));
    assert_eq!(queue.recv(&mut port, 32, 5), Ok(0));
    assert_eq!(port.stats(), (0, 0));
}

#[test]
fn queues_count_on_their_port() {
    let mut port = SimulatePort::new(2).unwrap();
    let q0 = port.new_simulate_queue(0).unwrap();
    let q1 = port.new_simulate_queue(1).unwrap();
    q0.send(&mut port, 3).unwrap();
    q1.send(&mut port, 4).unwrap();
    q0.recv(&mut port, 5, 0).unwrap();
    q1.recv(&mut port, 6, 0).unwrap();
    q1.recv(&mut port, 7, -12).unwrap();
    assert_eq!(port.stats(), (11, 7));
}

#[test]
fn send_and_recv_commute() {
    let (mut a, qa) = port_and_queue();
    qa.send(&mut a, 9).unwrap();
    qa.recv(&mut a, 4, 0).unwrap();
    let (mut b, qb) = port_and_queue();
    qb.recv(&mut b, 4, 0).unwrap();
    qb.send(&mut b, 9).unwrap();
    assert_eq!(a.stats(), b.stats());
    assert_eq!(a.stats(), (4, 9));
}

#[test]
fn sends_accumulate() {
    let (mut port, queue) = port_and_queue();
    let batches = [1usize, 32, 0, 7, 64];
    for n in batches {
        queue.send(&mut port, n).unwrap();
    }
    assert_eq!(port.stats(), (0, 104));
}

#[test]
fn recvs_accumulate() {
    let (mut port, queue) = port_and_queue();
    let batches = [(8usize, 0i32), (16, -1), (4, 0), (2, 3)];
    for (n, status) in batches {
        queue.recv(&mut port, n, status).unwrap();
    }
    assert_eq!(port.stats(), (12, 0));
}

#[test]
fn batch_len_of_small_batch() {
    assert_eq!(batch_len(0), 0);
    assert_eq!(batch_len(32), 32);
    assert_eq!(batch_len(i32::MAX as usize), i32::MAX);
}

#[test]
fn batch_len_truncates_to_i32() {
    assert_eq!(batch_len(1usize << 31), i32::MIN);
    if usize::BITS == 64 {
        assert_eq!(batch_len((1usize << 32) + 5), 5);
    }
}

#[test]
fn send_of_batch_past_i32_range() {
    let (mut port, queue) = port_and_queue();
    let n = 1usize << 31;
    assert_eq!(queue.send(&mut port, n), Ok(1u32 << 31));
    assert_eq!(port.stats(), (0, (i32::MIN as isize) as usize));
}

#[test]
fn queue_name() {
    let (_port, queue) = port_and_queue();
    assert_eq!(queue.to_string(), "Simulate queue");
    let copy = queue.clone();
    assert_eq!(copy.to_string(), "Simulate queue");
}
