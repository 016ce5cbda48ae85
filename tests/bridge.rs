use futures::channel::oneshot;
use futures::executor::{block_on, ThreadPool};
use heim_runtime::{deliver, settle, Delivery, Error};

#[test]
fn delivered_value_settles() {
    let (tx, rx) = oneshot::channel::<u32>();
    assert_eq!(deliver(tx, 7), Delivery::Delivered);
    assert_eq!(settle(block_on(rx)).unwrap(), 7);
}

#[test]
fn delivery_to_dropped_receiver_is_silent() {
    let (tx, rx) = oneshot::channel::<String>();
    drop(rx);
    assert_eq!(deliver(tx, "late".to_string()), Delivery::Discarded);
}

#[test]
fn dropped_sender_is_abandoned() {
    let (tx, rx) = oneshot::channel::<u32>();
    drop(tx);
    let r = settle(block_on(rx));
    assert!(matches!(r, Err(Error::Abandoned)));
}

#[test]
fn pool_survives_abandoned_operation() {
    let pool = ThreadPool::builder().pool_size(1).create().unwrap();
    let (tx, rx) = oneshot::channel::<u64>();
    drop(rx);
    let (done_tx, done_rx) = oneshot::channel::<Delivery>();
    pool.spawn_ok(async move {
        let d = deliver(tx, 1);
        let _ = done_tx.send(d);
    });
    assert_eq!(block_on(done_rx).unwrap(), Delivery::Discarded);

    let (tx2, rx2) = oneshot::channel::<u64>();
    pool.spawn_ok(async move {
        deliver(tx2, 2);
    });
    assert_eq!(settle(block_on(rx2)).unwrap(), 2);
}
