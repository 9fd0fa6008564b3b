//! The bounded block queue and the status task of an update, both of `tokio`.

use bytes::BytesMut;
use tokio::sync::mpsc::{Receiver, Sender};
use tokio::task::JoinHandle;
use vstd::prelude::*;

use crate::buffer::contents;
use crate::fault::IoError;

verus! {

/// `tokio::sync::mpsc::Sender`.
#[verifier::external_type_specification]
#[verifier::external_body]
#[verifier::reject_recursive_types(T)]
pub struct ExSender<T>(tokio::sync::mpsc::Sender<T>);

/// `tokio::sync::mpsc::Receiver`.
#[verifier::external_type_specification]
#[verifier::external_body]
#[verifier::reject_recursive_types(T)]
pub struct ExReceiver<T>(tokio::sync::mpsc::Receiver<T>);

/// `tokio::task::JoinHandle`.
#[verifier::external_type_specification]
#[verifier::external_body]
#[verifier::reject_recursive_types(T)]
pub struct ExJoinHandle<T>(tokio::task::JoinHandle<T>);

/// `tokio::task::JoinError`, which a `JoinHandle` may resolve to.
#[verifier::external_type_specification]
#[verifier::external_body]
pub struct ExJoinError(tokio::task::JoinError);

/// The blocks that the queue has accepted through this handle, oldest first.
pub uninterp spec fn accepted(tx: Sender<BytesMut>) -> Seq<Seq<u8>>;

/// The number of blocks that the queue was made to hold.
pub uninterp spec fn queue_limit(tx: Sender<BytesMut>) -> nat;

/// Whether the blocks that are put in through `tx` come out of `rx`.
pub uninterp spec fn connected(tx: Sender<BytesMut>, rx: Receiver<BytesMut>) -> bool;

/// Whether every block of the queue came in through `tx`, and no room in it is
/// held back for others.
pub uninterp spec fn sole_sender(tx: Sender<BytesMut>) -> bool;

/// Whether the end that blocks are taken from has been closed or dropped.
pub uninterp spec fn reader_gone(tx: Sender<BytesMut>) -> bool;

/// Whether a look at the queue of `tx` found that its reader is gone.
#[verifier::opaque]
pub open spec fn abandoned(tx: Sender<BytesMut>) -> bool {
    exists|last: Sender<BytesMut>| same_intake(tx, last) && #[trigger] reader_gone(last)
}

/// Whether what is put in through `after` comes out wherever what was put in
/// through `before` does.
#[verifier::opaque]
pub open spec fn same_intake(before: Sender<BytesMut>, after: Sender<BytesMut>) -> bool {
    forall|rx: Receiver<BytesMut>| #[trigger] connected(before, rx) ==> connected(after, rx)
}

/// Whether everything that came out of `before` comes out of `after`.
#[verifier::opaque]
pub open spec fn same_outlet(before: Receiver<BytesMut>, after: Receiver<BytesMut>) -> bool {
    forall|tx: Sender<BytesMut>| #[trigger] connected(tx, before) ==> connected(tx, after)
}

/// What the queue made of a block that was offered to it.
pub enum QueueReply {
    /// The block is in the queue.
    Queued,
    /// There was no room; the block is handed back.
    Full(BytesMut),
    /// Nobody takes blocks out of the queue any more.
    Closed,
}

/// `tokio::sync::mpsc::channel`: a new queue for `limit` blocks, with nothing
/// in it, and its two ends. It panics for a limit of zero and for one above
/// `usize::MAX >> 3`.
#[verifier::external_body]
pub(crate) fn new_queue(limit: usize) -> (ends: (Sender<BytesMut>, Receiver<BytesMut>))
    requires
        0 < limit <= usize::MAX / 8,
    ensures
        accepted(ends.0) == Seq::<Seq<u8>>::empty(),
        queue_limit(ends.0) == limit,
        connected(ends.0, ends.1),
        sole_sender(ends.0),
{
    tokio::sync::mpsc::channel(limit)
}

/// `tokio::sync::mpsc::Sender::try_send`: puts the block into the queue if
/// there is room and somebody takes blocks out of it; otherwise the queue
/// stays as it was. It is the same queue as before either way. There is always
/// room for as many blocks as the queue was made to hold, and more once blocks
/// are taken out; the queue takes none once its reader is gone. When either
/// happens is up to the other end.
#[verifier::external_body]
pub(crate) fn try_send(tx: &mut Sender<BytesMut>, block: BytesMut) -> (reply: QueueReply)
    ensures
        queue_limit(*final(tx)) == queue_limit(*old(tx)),
        same_intake(*old(tx), *final(tx)),
        sole_sender(*old(tx)) ==> sole_sender(*final(tx)),
        reply is Full && sole_sender(*old(tx)) ==> accepted(*old(tx)).len() >= queue_limit(
            *old(tx),
        ),
        reply is Closed ==> reader_gone(*final(tx)),
        reply is Queued ==> accepted(*final(tx)) == accepted(*old(tx)).push(contents(block)),
        !(reply is Queued) ==> accepted(*final(tx)) == accepted(*old(tx)),
        reply matches QueueReply::Full(back) ==> contents(back) == contents(block),
{
    match tx.try_send(block) {
        Ok(()) => QueueReply::Queued,
        Err(tokio::sync::mpsc::error::TrySendError::Full(block)) => QueueReply::Full(block),
        Err(tokio::sync::mpsc::error::TrySendError::Closed(_)) => QueueReply::Closed,
    }
}

/// `tokio::sync::mpsc::Receiver::try_recv`: a block from the queue, if one is
/// there; it is the same queue afterwards. Nothing is claimed of the block,
/// which comes from another task.
#[verifier::external_body]
pub(crate) fn try_recv(rx: &mut Receiver<BytesMut>) -> (block: Option<BytesMut>)
    ensures
        same_outlet(*old(rx), *final(rx)),
{
    rx.try_recv().ok()
}

/// How the task that watches an update ended.
#[derive(Debug)]
pub enum StatusReport {
    /// The update was installed.
    Finished,
    /// The update failed.
    Failed(IoError),
    /// The task itself was lost; the text says how.
    Lost(String),
}

/// What a look at the status task found.
pub enum StatusPoll {
    /// The task still runs.
    Running(JoinHandle<Result<(), IoError>>),
    /// The task has ended.
    Ended(StatusReport),
}

/// Whether the handle has not given the result of its task yet.
pub uninterp spec fn unread(task: JoinHandle<Result<(), IoError>>) -> bool;

/// Whether the task behind the handle was asked to stop.
pub uninterp spec fn asked_to_stop(task: JoinHandle<Result<(), IoError>>) -> bool;

/// The task behind the handle, by its number (`tokio::task::JoinHandle::id`).
pub uninterp spec fn task_id(task: JoinHandle<Result<(), IoError>>) -> nat;

/// Whether `stopping` is the handle `task` after its task was asked to stop.
pub open spec fn stops(
    task: JoinHandle<Result<(), IoError>>,
    stopping: JoinHandle<Result<(), IoError>>,
) -> bool {
    &&& asked_to_stop(stopping)
    &&& task_id(stopping) == task_id(task)
    &&& unread(stopping) == unread(task)
}

/// `tokio::task::JoinHandle`'s `poll`, with `futures_util::task::noop_waker`:
/// looks at the task without waiting. It panics on a handle that has given its
/// result already. What it finds is up to the task; one that still runs is
/// handed back, and its result is still to be given.
#[verifier::external_body]
pub(crate) fn poll_task(task: JoinHandle<Result<(), IoError>>) -> (poll: StatusPoll)
    requires
        unread(task),
    ensures
        poll matches StatusPoll::Running(t) ==> t == task && unread(t),
{
    let mut task = task;
    let waker = futures_util::task::noop_waker();
    let mut cx = std::task::Context::from_waker(&waker);
    match std::future::Future::poll(std::pin::Pin::new(&mut task), &mut cx) {
        std::task::Poll::Pending => StatusPoll::Running(task),
        std::task::Poll::Ready(Ok(Ok(()))) => StatusPoll::Ended(StatusReport::Finished),
        std::task::Poll::Ready(Ok(Err(err))) => StatusPoll::Ended(StatusReport::Failed(err)),
        std::task::Poll::Ready(Err(lost)) => StatusPoll::Ended(StatusReport::Lost(lost.to_string())),
    }
}

/// `tokio::task::JoinHandle::abort`: asks the task to stop, and leaves its
/// result to be given. When the task stops is up to the task.
#[verifier::external_body]
pub(crate) fn abort_task(task: JoinHandle<Result<(), IoError>>) -> (stopping: JoinHandle<
    Result<(), IoError>,
>)
    ensures
        asked_to_stop(stopping),
        task_id(stopping) == task_id(task),
        unread(stopping) == unread(task),
{
    task.abort();
    task
}

} // verus!
