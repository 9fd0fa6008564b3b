//! A SWUpdate transfer.
//!
//! Three independent concerns: feeding blocks into the queue and signalling
//! that no more will come; observing SWUpdate's verdict; and tearing
//! everything down. Connecting to SWUpdate, draining the queue into it and
//! waiting for the verdict happen in tasks that the caller runs from the
//! [`Launch`] that opening a session leaves behind.

use bytes::BytesMut;
use tokio::sync::mpsc::{Receiver, Sender};
use tokio::task::JoinHandle;
use vstd::prelude::*;

use crate::buffer::{self, contents};
use crate::fault::{ErrorKind, IoError};
use crate::queue::{
    self, abandoned, accepted, asked_to_stop, connected, queue_limit, reader_gone, same_intake,
    same_outlet, sole_sender, stops, unread, QueueReply, StatusPoll, StatusReport,
};
use crate::swupdate::config::{
    running_mode, update_kind, EffectiveUpdateType, SwupdateParams, UpdateHost,
};
use crate::swupdate::ipc::{self, requests};
use crate::swupdate::pipe::{self, arguments};
use crate::swupdate::restart::{on_update_success, reject_if_restart_pending, restart_message};
use crate::swupdate_ipc::codec::InstallRequest;
use crate::sysinfo::runtime::BootRootfsInfo;
use crate::text::{joined, texts};

verus! {

/// Target amount of firmware to keep buffered between the producer and
/// SWUpdate, in bytes.
pub const TARGET_QUEUE_BYTES: usize = 2097152;

/// The number of blocks of a given size that hold the target amount; at least
/// two, so that a block can be written while the next one waits.
pub open spec fn capacity_for(block_size: nat) -> nat {
    let size = if block_size == 0 {
        1
    } else {
        block_size
    };
    let blocks = (TARGET_QUEUE_BYTES + size - 1) as nat / size;
    if blocks < 2 {
        2
    } else {
        blocks
    }
}

/// Number of blocks to allow in the queue so that the buffered memory stays
/// near [`TARGET_QUEUE_BYTES`].
pub fn queue_capacity(block_size: usize) -> (capacity: usize)
    ensures
        capacity == capacity_for(block_size as nat),
        2 <= capacity <= TARGET_QUEUE_BYTES,
{
    let size: usize = if block_size == 0 {
        1
    } else {
        block_size
    };
    let whole: usize = TARGET_QUEUE_BYTES / size;
    let blocks: usize = if TARGET_QUEUE_BYTES % size > 0 {
        whole + 1
    } else {
        whole
    };
    proof {
        lemma_blocks(size as int);
    }
    if blocks < 2 {
        2
    } else {
        blocks
    }
}

proof fn lemma_blocks(size: int)
    requires
        size >= 1,
    ensures
        ({
            let whole = TARGET_QUEUE_BYTES as int / size;
            let rest = TARGET_QUEUE_BYTES as int % size;
            &&& (TARGET_QUEUE_BYTES + size - 1) / size == (if rest > 0 {
                whole + 1
            } else {
                whole
            })
            &&& (if rest > 0 {
                whole + 1
            } else {
                whole
            }) <= TARGET_QUEUE_BYTES
            &&& whole >= 0
        }),
{
    let n = TARGET_QUEUE_BYTES as int;
    let whole = n / size;
    let rest = n % size;
    vstd::arithmetic::div_mod::lemma_fundamental_div_mod(n, size);
    vstd::arithmetic::div_mod::lemma_mod_bound(n, size);
    if rest > 0 {
        assert(n + size - 1 == (whole + 1) * size + (rest - 1)) by (nonlinear_arith)
            requires
                n == size * whole + rest,
        ;
        vstd::arithmetic::div_mod::lemma_fundamental_div_mod_converse(
            n + size - 1,
            size,
            whole + 1,
            rest - 1,
        );
        assert(size >= 2);
        assert(whole + 1 <= n) by (nonlinear_arith)
            requires
                n == size * whole + rest,
                size >= 2,
                rest >= 1,
                n >= 2,
                whole >= 0,
        ;
    } else {
        assert(n + size - 1 == whole * size + (size - 1)) by (nonlinear_arith)
            requires
                n == size * whole + rest,
                rest == 0,
        ;
        vstd::arithmetic::div_mod::lemma_fundamental_div_mod_converse(
            n + size - 1,
            size,
            whole,
            size - 1,
        );
        assert(whole <= n) by (nonlinear_arith)
            requires
                n == size * whole + rest,
                size >= 1,
                rest == 0,
                whole >= 0,
        ;
    }
}

/// Result of feeding a firmware block into the queue.
pub enum Feed {
    /// Queued (its length in bytes).
    Queued(usize),
    /// The queue is full; the rejected block is handed back.
    Full(BytesMut),
    /// SWUpdate stopped consuming (it finished or failed). The data side is
    /// done; the verdict says which. This is not itself an error.
    Closed,
}

/// How to reach SWUpdate.
pub enum TransportPlan {
    /// Pipe the firmware into `fw_update`, run with these arguments.
    Pipe(Vec<String>),
    /// Send this request to the IPC socket, then the firmware.
    Ipc(InstallRequest),
}

/// The transport for these settings on a machine with this boot context.
pub open spec fn planned(
    plan: TransportPlan,
    params: SwupdateParams,
    boot: BootRootfsInfo,
) -> bool {
    let mode = running_mode(update_kind(params, boot));
    match plan {
        TransportPlan::Pipe(args) => boot.single_slot() && texts(args@) == arguments(mode),
        TransportPlan::Ipc(request) => !boot.single_slot() && requests(request, params, mode),
    }
}

/// What the caller needs to run the tasks of a transfer.
pub struct Launch {
    /// How to reach SWUpdate.
    pub plan: TransportPlan,
    /// Settings of the update.
    pub params: SwupdateParams,
    /// The end of the queue that blocks are taken from.
    pub blocks: Receiver<BytesMut>,
    /// Where written blocks are handed back for reuse.
    pub recycle: Sender<BytesMut>,
}

/// The task that watches an update.
pub enum StatusTask {
    /// It has not been started yet.
    Starting,
    /// It runs.
    Running(JoinHandle<Result<(), IoError>>),
}

/// A SWUpdate transfer.
pub struct SwupdateSession {
    /// Settings of the update.
    pub params: SwupdateParams,
    /// Largest block the producer will send; sets the queue capacity.
    pub max_block_size: usize,
    /// The kind of update, once it has been opened.
    pub update_type: Option<EffectiveUpdateType>,
    /// The end of the queue that blocks are put into, while feeding.
    pub tx: Option<Sender<BytesMut>>,
    /// Where written blocks come back for reuse.
    pub recycle_rx: Option<Receiver<BytesMut>>,
    /// The task that watches the update.
    pub status: Option<StatusTask>,
    /// The verdict, once it is known.
    pub terminal: Option<Result<(), String>>,
    /// What the caller has to run.
    pub launch: Option<Launch>,
    /// A restart is due.
    pub restart_due: bool,
    /// The blocks that the queue has accepted since the transfer was opened.
    pub sent: Ghost<Seq<Seq<u8>>>,
}

/// The bytes of a list of blocks, one after the other.
pub open spec fn flat(blocks: Seq<Seq<u8>>) -> Seq<u8>
    decreases blocks.len(),
{
    if blocks.len() == 0 {
        Seq::empty()
    } else {
        flat(blocks.drop_last()) + blocks.last()
    }
}

/// The queue has room for the target amount, and for less than one block more
/// unless it holds only the two blocks that it needs.
pub proof fn law_queue_near_target(block_size: nat)
    requires
        block_size > 0,
    ensures
        capacity_for(block_size) >= 2,
        capacity_for(block_size) * block_size >= TARGET_QUEUE_BYTES,
        capacity_for(block_size) > 2 ==> (capacity_for(block_size) - 1) * block_size
            < TARGET_QUEUE_BYTES,
{
    let n = TARGET_QUEUE_BYTES as int;
    let size = block_size as int;
    let blocks = (n + size - 1) / size;
    vstd::arithmetic::div_mod::lemma_fundamental_div_mod(n + size - 1, size);
    vstd::arithmetic::div_mod::lemma_mod_bound(n + size - 1, size);
    let rest = (n + size - 1) % size;
    assert(blocks * size == size * blocks) by (nonlinear_arith);
    assert((blocks - 1) * size == blocks * size - size) by (nonlinear_arith);
    if blocks < 2 {
        assert(2 * size >= blocks * size) by (nonlinear_arith)
            requires
                blocks < 2,
                size > 0,
        ;
    }
}

/// What is fed into a transfer goes into the one queue that it was opened with:
/// what comes out at the other end, which the caller was given to run, is what
/// was fed, from the opening until no more is taken.
pub proof fn law_fed_blocks_come_out(
    after: SwupdateSession,
    before: SwupdateSession,
    host: UpdateHost,
    block: Seq<u8>,
    feed: Feed,
    blocks: Receiver<BytesMut>,
)
    requires
        before.wf(),
        after.wf(),
        after.after_feed(before, host, block, feed),
    ensures
        before.tx is Some && before.drained_by(blocks) ==> after.drained_by(blocks),
        before.idle() && !(feed is Closed) ==> (after.launch matches Some(launch)
            && after.tx matches Some(tx) && connected(tx, launch.blocks)),
        after.tx matches Some(tx) ==> accepted(tx) == after.sent@,
{
    reveal(same_intake);
}

/// A transfer takes the target amount of data without waiting for SWUpdate to
/// read any of it: a block is only handed back once as many blocks have been
/// fed as hold that amount.
pub proof fn law_target_amount_taken_at_once(
    after: SwupdateSession,
    before: SwupdateSession,
    host: UpdateHost,
    block: Seq<u8>,
    feed: Feed,
)
    requires
        before.wf(),
        before.max_block_size > 0,
        before.sent@.len() * before.max_block_size < TARGET_QUEUE_BYTES,
        after.after_feed(before, host, block, feed),
    ensures
        !(feed is Full),
{
    let size = before.max_block_size as nat;
    law_queue_near_target(size);
    if before.sent@.len() >= capacity_for(size) {
        assert(before.sent@.len() * size >= capacity_for(size) * size) by (nonlinear_arith)
            requires
                before.sent@.len() >= capacity_for(size),
        ;
    }
}

/// Tearing a transfer down leaves nothing of it: no queue to feed or to get
/// buffers from, nothing to run and no verdict to come. A task that watches it
/// was asked to stop and can be waited for. The settings and a restart that was
/// due stay.
pub proof fn law_torn_down_at_once(
    after: SwupdateSession,
    before: SwupdateSession,
    task: Option<JoinHandle<Result<(), IoError>>>,
)
    requires
        before.wf(),
        after.torn_down(before, task),
    ensures
        after.idle(),
        after.recycle_rx is None,
        after.launch is None,
        after.fed() == Seq::<u8>::empty(),
        task is Some <==> before.status matches Some(StatusTask::Running(_)),
        task matches Some(t) ==> asked_to_stop(t) && unread(t),
        after.params == before.params,
        after.max_block_size == before.max_block_size,
        after.restart_due == before.restart_due,
{
}

/// A transfer continues itself, and what continues a transfer that continued
/// another one continues that one.
pub(crate) proof fn lemma_continues(after: SwupdateSession, mid: SwupdateSession, before: SwupdateSession)
    ensures
        before.continues(before),
        after.continues(mid) && mid.continues(before) && mid.tx is Some ==> after.continues(before),
{
    reveal(same_intake);
}

/// One more block adds its bytes at the end.
pub proof fn lemma_flat_push(blocks: Seq<Seq<u8>>, block: Seq<u8>)
    ensures
        flat(blocks.push(block)) == flat(blocks) + block,
{
    assert(blocks.push(block).drop_last() =~= blocks);
}

impl SwupdateSession {
    /// What the queue has accepted is what was fed into it, the queue has the
    /// capacity for its blocks and holds nothing else, and what the caller has
    /// to run is given the other ends of the queues.
    pub open spec fn queue_wf(self) -> bool {
        &&& self.tx matches Some(tx) ==> accepted(tx) == self.sent@ && queue_limit(tx)
            == capacity_for(self.max_block_size as nat) && sole_sender(tx)
        &&& self.launch matches Some(launch) ==> self.drained_by(launch.blocks)
            && self.refilled_by(launch.recycle)
    }

    /// The queue is in order, whoever feeds has a verdict coming or there, a
    /// task that runs has not given its verdict, and nothing is fed before
    /// anything has happened.
    pub open spec fn wf(self) -> bool {
        &&& self.queue_wf()
        &&& self.tx is Some ==> self.status is Some || self.terminal is Some
        &&& self.status matches Some(StatusTask::Running(task)) ==> unread(task)
        &&& self.idle() ==> self.sent@ == Seq::<Seq<u8>>::empty()
    }

    /// What is fed comes out of `blocks`.
    pub open spec fn drained_by(self, blocks: Receiver<BytesMut>) -> bool {
        self.tx matches Some(tx) ==> connected(tx, blocks)
    }

    /// What is put into `recycle` comes back for reuse.
    pub open spec fn refilled_by(self, recycle: Sender<BytesMut>) -> bool {
        self.recycle_rx matches Some(rx) ==> connected(recycle, rx)
    }

    /// What is fed goes where what was fed into `before` went.
    pub open spec fn continues(self, before: SwupdateSession) -> bool {
        before.tx is Some && self.tx is Some ==> same_intake(before.tx->0, self.tx->0)
    }

    /// Whether `self` is `before` with another buffer taken out of those that
    /// came back.
    pub open spec fn lent(self, before: SwupdateSession) -> bool {
        &&& self == (SwupdateSession { recycle_rx: self.recycle_rx, ..before })
        &&& match before.recycle_rx {
            Some(earlier) => self.recycle_rx matches Some(rx) && same_outlet(earlier, rx),
            None => self.recycle_rx is None,
        }
    }

    /// Whether tearing `before` down at once gives `self` and the task that has
    /// to be waited for: the one that runs, asked to stop.
    pub open spec fn torn_down(
        self,
        before: SwupdateSession,
        task: Option<JoinHandle<Result<(), IoError>>>,
    ) -> bool {
        &&& self.wf()
        &&& self == (SwupdateSession {
            tx: None,
            recycle_rx: None,
            status: None,
            terminal: None,
            launch: None,
            sent: self.sent,
            ..before
        })
        &&& match before.status {
            Some(StatusTask::Running(running)) => task matches Some(stopping) && stops(
                running,
                stopping,
            ),
            _ => task is None,
        }
    }

    /// The bytes fed since the transfer was opened.
    pub open spec fn fed(self) -> Seq<u8> {
        flat(self.sent@)
    }

    /// Feeding, or waiting for the verdict.
    pub open spec fn opened(self) -> bool {
        self.tx is Some || self.status is Some
    }

    /// Nothing has happened yet.
    pub open spec fn idle(self) -> bool {
        !self.opened() && self.terminal is None
    }

    /// A session for these settings in which nothing has happened yet.
    pub open spec fn fresh(self, params: SwupdateParams, max_block_size: usize) -> bool {
        &&& self.params == params
        &&& self.max_block_size == max_block_size
        &&& self.update_type is None
        &&& self.tx is None
        &&& self.recycle_rx is None
        &&& self.status is None
        &&& self.terminal is None
        &&& self.launch is None
        &&& !self.restart_due
        &&& self.sent@ == Seq::<Seq<u8>>::empty()
    }

    /// The session that opening `before` on this machine gives.
    pub open spec fn newly_opened(self, before: SwupdateSession, boot: BootRootfsInfo) -> bool {
        &&& self.wf()
        &&& self.params == before.params
        &&& self.max_block_size == before.max_block_size
        &&& self.update_type matches Some(kind) && kind@ == update_kind(before.params, boot)
        &&& self.tx is Some
        &&& self.recycle_rx is Some
        &&& self.status == Some(StatusTask::Starting)
        &&& self.terminal is None
        &&& self.launch matches Some(launch) && launch.params == before.params && planned(
            launch.plan,
            before.params,
            boot,
        )
        &&& connected(self.tx->0, self.launch->0.blocks)
        &&& connected(self.launch->0.recycle, self.recycle_rx->0)
        &&& self.restart_due == before.restart_due
        &&& self.sent@ == Seq::<Seq<u8>>::empty()
    }

    /// Creates a session in which nothing has happened yet.
    pub fn new(params: SwupdateParams, max_block_size: usize) -> (session: SwupdateSession)
        ensures
            session.wf(),
            session.fresh(params, max_block_size),
    {
        SwupdateSession {
            params,
            max_block_size,
            update_type: None,
            tx: None,
            recycle_rx: None,
            status: None,
            terminal: None,
            launch: None,
            restart_due: false,
            sent: Ghost(Seq::empty()),
        }
    }

    /// Whether a transfer is currently active (feeding or awaiting its verdict).
    pub fn is_open(&self) -> (r: bool)
        ensures
            r == self.opened(),
    {
        self.tx.is_some() || self.status.is_some()
    }

    /// An empty buffer: one that came back from the drain task, or a new one.
    pub fn buffer(&mut self, capacity: usize) -> (buf: BytesMut)
        requires
            capacity <= isize::MAX,
        ensures
            old(self).wf() ==> final(self).wf(),
            contents(buf) == Seq::<u8>::empty(),
            final(self).lent(*old(self)),
    {
        reveal(same_outlet);
        let recycled = match self.recycle_rx.as_mut() {
            Some(rx) => queue::try_recv(rx),
            None => None,
        };
        let mut buf = match recycled {
            Some(buf) => buf,
            None => buffer::with_capacity(capacity),
        };
        let room: usize = buffer::capacity(&buf);
        if room < capacity {
            buffer::reserve(&mut buf, capacity - room);
        }
        buffer::clear(&mut buf);
        buf
    }

    /// Opens the transfer: decides how to reach SWUpdate, makes the queue and
    /// leaves the rest to the tasks that the caller runs. A transfer that is
    /// open stays as it is. While a restart is due no transfer is opened.
    pub fn open(&mut self, host: &UpdateHost) -> (result: Result<(), IoError>)
        requires
            old(self).wf(),
        ensures
            final(self).wf(),
            result is Ok <==> old(self).opened() || !host.restart_pending,
            old(self).opened() ==> *final(self) == *old(self),
            !old(self).opened() && result is Ok ==> final(self).newly_opened(
                *old(self),
                host.boot,
            ),
            result matches Err(e) ==> e.says(ErrorKind::Other, restart_message()) && *final(self)
                == (SwupdateSession { terminal: None, sent: final(self).sent, ..*old(self) })
                && final(self).sent@ == Seq::<Seq<u8>>::empty(),
    {
        if self.is_open() {
            return Ok(());
        }
        self.terminal = None;
        self.sent = Ghost(Seq::empty());
        match reject_if_restart_pending(host.restart_pending) {
            Ok(()) => {},
            Err(err) => {
                return Err(err);
            },
        }
        let kind = EffectiveUpdateType::resolve(&self.params, &host.boot);
        let mode = kind.mode_text();
        self.update_type = Some(kind);
        let plan = if host.boot.use_pipe_mode() {
            TransportPlan::Pipe(pipe::begin(mode.as_str()))
        } else {
            TransportPlan::Ipc(ipc::begin(&self.params, mode.as_str()))
        };
        let limit: usize = queue_capacity(self.max_block_size);
        let (tx, blocks) = queue::new_queue(limit);
        let (recycle, recycle_rx) = queue::new_queue(limit);
        self.tx = Some(tx);
        self.recycle_rx = Some(recycle_rx);
        self.status = Some(StatusTask::Starting);
        self.launch = Some(Launch { plan, params: self.params.clone(), blocks, recycle });
        Ok(())
    }

    /// Opens the transfer unless something has happened already.
    fn ensure_open(&mut self, host: &UpdateHost) -> (result: Result<(), IoError>)
        requires
            old(self).wf(),
        ensures
            final(self).wf(),
            result is Ok <==> !old(self).idle() || !host.restart_pending,
            !old(self).idle() ==> *final(self) == *old(self),
            old(self).idle() && result is Ok ==> final(self).newly_opened(*old(self), host.boot),
            result matches Err(e) ==> e.says(ErrorKind::Other, restart_message()) && *final(self)
                == *old(self),
    {
        if self.tx.is_some() || self.status.is_some() || self.terminal.is_some() {
            return Ok(());
        }
        self.open(host)
    }

    /// Whether feeding `block` into `before` can give `self` and `feed`. A block
    /// is only handed back once as many as the queue holds have been fed, and
    /// only refused once nobody reads the queue.
    pub open spec fn after_feed(
        self,
        before: SwupdateSession,
        host: UpdateHost,
        block: Seq<u8>,
        feed: Feed,
    ) -> bool {
        let ready = if before.idle() {
            Seq::<Seq<u8>>::empty()
        } else {
            before.sent@
        };
        &&& before.idle() || before.tx is Some || feed is Closed
        &&& match feed {
            Feed::Queued(len) => len == block.len() && self.tx is Some && self.sent@ == ready.push(
                block,
            ),
            Feed::Full(back) => contents(back) == block && self.tx is Some && self.sent@ == ready
                && ready.len() >= capacity_for(before.max_block_size as nat),
            Feed::Closed => self.tx is None && self.sent@ == ready && (before.tx matches Some(tx)
                ==> abandoned(tx)),
        }
        &&& if before.idle() {
            exists|opened: SwupdateSession| #[trigger]
                opened.newly_opened(before, host.boot) && self == (SwupdateSession {
                    tx: self.tx,
                    sent: self.sent,
                    ..opened
                }) && self.continues(opened) && (feed is Closed ==> abandoned(opened.tx->0))
        } else {
            self == (SwupdateSession { tx: self.tx, sent: self.sent, ..before })
                && self.continues(before)
        }
    }

    /// Takes in what the queue made of a block of `len` bytes. A queue that
    /// nobody reads any more is given up.
    pub fn take_reply(&mut self, len: usize, reply: QueueReply) -> (feed: Feed)
        ensures
            match reply {
                QueueReply::Queued => feed == Feed::Queued(len) && *final(self) == *old(self),
                QueueReply::Full(back) => feed == Feed::Full(back) && *final(self) == *old(self),
                QueueReply::Closed => feed == Feed::Closed && *final(self) == (SwupdateSession {
                    tx: None,
                    ..*old(self)
                }),
            },
    {
        match reply {
            QueueReply::Queued => Feed::Queued(len),
            QueueReply::Full(block) => Feed::Full(block),
            QueueReply::Closed => {
                self.tx = None;
                Feed::Closed
            },
        }
    }

    /// Tries to enqueue a block without blocking, opening the transfer first if
    /// nothing has happened yet.
    pub fn try_send(&mut self, host: &UpdateHost, block: BytesMut) -> (result: Result<
        Feed,
        IoError,
    >)
        requires
            old(self).wf(),
        ensures
            final(self).wf(),
            result is Ok <==> !old(self).idle() || !host.restart_pending,
            result matches Ok(feed) ==> final(self).after_feed(
                *old(self),
                *host,
                contents(block),
                feed,
            ),
            result matches Err(e) ==> e.says(ErrorKind::Other, restart_message()) && *final(self)
                == *old(self),
    {
        match self.ensure_open(host) {
            Ok(()) => {},
            Err(err) => {
                return Err(err);
            },
        }
        reveal(same_intake);
        let ghost opened = *self;
        let ghost data = contents(block);
        let len: usize = buffer::as_slice(&block).len();
        let reply = match self.tx.as_mut() {
            Some(tx) => queue::try_send(tx, block),
            None => {
                assert(*self == (SwupdateSession { tx: self.tx, sent: self.sent, ..*old(self) }));
                return Ok(Feed::Closed);
            },
        };
        assert(reply is Closed ==> abandoned(opened.tx->0)) by {
            reveal(abandoned);
            assert(reply is Closed ==> reader_gone(self.tx->0));
        }
        if matches!(reply, QueueReply::Queued) {
            self.sent = Ghost(self.sent@.push(data));
        }
        let feed = self.take_reply(len, reply);
        proof {
            if old(self).idle() {
                assert(opened.newly_opened(*old(self), host.boot));
            }
        }
        Ok(feed)
    }

    /// Signals that no more data will be sent: closes the queue, so that the
    /// drain task closes the transport. Independent of the verdict.
    pub fn eof(&mut self)
        ensures
            old(self).wf() ==> final(self).wf(),
            *final(self) == (SwupdateSession { tx: None, ..*old(self) }),
    {
        self.tx = None;
    }

    /// Takes what the caller has to run, if anything.
    pub fn take_launch(&mut self) -> (launch: Option<Launch>)
        ensures
            old(self).wf() ==> final(self).wf(),
            launch == old(self).launch,
            *final(self) == (SwupdateSession { launch: None, ..*old(self) }),
    {
        self.launch.take()
    }

    /// Hands over the task that watches the update, if the session still waits
    /// for one; otherwise it is handed back. The handle must not have given the
    /// result of the task.
    pub fn attach_status(&mut self, task: JoinHandle<Result<(), IoError>>) -> (back: Option<
        JoinHandle<Result<(), IoError>>,
    >)
        requires
            unread(task),
        ensures
            old(self).wf() ==> final(self).wf(),
            back is None <==> old(self).status == Some(StatusTask::Starting),
            back is None ==> *final(self) == (SwupdateSession {
                status: Some(StatusTask::Running(task)),
                ..*old(self)
            }),
            back matches Some(t) ==> t == task && *final(self) == *old(self),
    {
        match &self.status {
            Some(StatusTask::Starting) => {},
            _ => {
                return Some(task);
            },
        }
        self.status = Some(StatusTask::Running(task));
        None
    }

    /// The verdict that is known without looking at the status task: one that
    /// was cached, or that no update is in progress.
    pub open spec fn known_verdict(self, verdict: Result<(), IoError>) -> bool {
        match self.terminal {
            Some(Ok(_)) => verdict is Ok,
            Some(Err(text)) => verdict matches Err(e) && e.says(ErrorKind::Other, text@),
            None => self.status is None && (verdict matches Err(e) && e.says(
                ErrorKind::NotConnected,
                "no update in progress"@,
            )),
        }
    }

    /// Whether `verdict` is what the session `self` has cached from `before`,
    /// whose status task has ended.
    pub open spec fn settled(self, before: SwupdateSession, verdict: Result<(), IoError>) -> bool {
        &&& self == (SwupdateSession {
            status: None,
            terminal: self.terminal,
            restart_due: self.restart_due,
            ..before
        })
        &&& match verdict {
            Ok(_) => self.terminal == Some(Ok::<(), String>(())),
            Err(e) => self.terminal matches Some(Err(text)) && text@ == e.message@,
        }
        &&& self.restart_due == (before.restart_due || (verdict is Ok && (
        before.update_type matches Some(kind) && kind@ is Slot)))
    }

    /// Whether a look at the verdict of `before` can give `self` and `verdict`:
    /// a verdict that is known is given again; otherwise it is up to the status
    /// task.
    pub open spec fn after_look(
        self,
        before: SwupdateSession,
        verdict: Option<Result<(), IoError>>,
    ) -> bool {
        if before.terminal is Some || before.status is None {
            (verdict matches Some(v) && before.known_verdict(v)) && self == before
        } else if before.status == Some(StatusTask::Starting) {
            verdict is None && self == before
        } else {
            match verdict {
                None => self == before,
                Some(v) => self.settled(before, v),
            }
        }
    }

    /// Looks at the verdict without waiting. `None`: SWUpdate is still working.
    pub fn try_finished(&mut self) -> (verdict: Option<Result<(), IoError>>)
        requires
            old(self).wf(),
        ensures
            final(self).wf(),
            final(self).after_look(*old(self), verdict),
    {
        match &self.terminal {
            Some(terminal) => {
                return match terminal {
                    Ok(()) => Some(Ok(())),
                    Err(text) => Some(Err(IoError::other(text.as_str()))),
                };
            },
            None => {},
        }
        let task = match self.status.take() {
            None => {
                return Some(
                    Err(IoError::new(ErrorKind::NotConnected, "no update in progress")),
                );
            },
            Some(StatusTask::Starting) => {
                self.status = Some(StatusTask::Starting);
                return None;
            },
            Some(StatusTask::Running(task)) => task,
        };
        match queue::poll_task(task) {
            StatusPoll::Running(task) => {
                self.status = Some(StatusTask::Running(task));
                None
            },
            StatusPoll::Ended(report) => Some(self.settle(report)),
        }
    }

    /// Whether a report gives this verdict.
    pub open spec fn report_verdict(report: StatusReport, verdict: Result<(), IoError>) -> bool {
        match report {
            StatusReport::Finished => verdict is Ok,
            StatusReport::Failed(err) => verdict == Err::<(), IoError>(err),
            StatusReport::Lost(text) => verdict matches Err(e) && e.says(
                ErrorKind::Other,
                "SWUpdate status task failed: "@ + text@,
            ),
        }
    }

    /// Takes in how the status task ended: the verdict is cached, and a restart
    /// falls due after a successful update of a slot.
    pub fn settle(&mut self, report: StatusReport) -> (verdict: Result<(), IoError>)
        requires
            old(self).queue_wf(),
        ensures
            final(self).wf(),
            Self::report_verdict(report, verdict),
            final(self).settled(*old(self), verdict),
    {
        self.status = None;
        match report {
            StatusReport::Finished => {
                self.terminal = Some(Ok(()));
                match &self.update_type {
                    Some(kind) => {
                        if on_update_success(kind) {
                            self.restart_due = true;
                        }
                    },
                    None => {},
                }
                Ok(())
            },
            StatusReport::Failed(err) => {
                self.terminal = Some(Err(err.message.clone()));
                Err(err)
            },
            StatusReport::Lost(text) => {
                let message = joined("SWUpdate status task failed: ", text.as_str());
                let err = IoError::other(message.as_str());
                self.terminal = Some(Err(message));
                Err(err)
            },
        }
    }

    /// Tears the transfer down at once. The status task, if one runs, is asked
    /// to stop and handed to the caller, who waits for it.
    pub fn abort(&mut self) -> (task: Option<JoinHandle<Result<(), IoError>>>)
        ensures
            final(self).wf(),
            final(self).torn_down(*old(self), task),
    {
        self.tx = None;
        self.recycle_rx = None;
        self.launch = None;
        self.terminal = None;
        self.sent = Ghost(Seq::empty());
        match self.status.take() {
            Some(StatusTask::Running(task)) => Some(queue::abort_task(task)),
            _ => None,
        }
    }
}

// ---------------------------------------------------------------------------
// Laws
// ---------------------------------------------------------------------------

/// A queue of blocks holds two mebibytes, and less than a block more unless it
/// holds two blocks.
pub proof fn law_queue_capacity(block_size: usize, capacity: usize)
    requires
        call_ensures(queue_capacity, (block_size,), capacity),
    ensures
        capacity >= 2,
        block_size > 0 ==> capacity * block_size >= 2097152,
        block_size > 0 && capacity > 2 ==> (capacity - 1) * block_size < 2097152,
        block_size == 0 ==> capacity == 2097152,
{
    if block_size > 0 {
        law_queue_near_target(block_size as nat);
    }
}

/// What opening a transfer plans. A machine that runs from an SD card or an
/// initramfs gets the image piped into a program, which is asked for a complete
/// update. Any other one is asked over the socket, as a local source, for a dry
/// run exactly where the settings say so, for the software set of the settings or
/// `stable`, and for the side that does not run.
pub proof fn law_plan(session: &mut SwupdateSession, host: UpdateHost)
    requires
        old(session).wf(),
        !old(session).opened(),
        call_ensures(SwupdateSession::open, (session, &host), Ok(())),
    ensures
        ({
            let params = old(session).params;
            let root = host.boot.root_dev_type@;
            let single = root == "SD"@ || root == "initramfs"@;
            let prefix = match params.image_mode {
                Some(m) => m@,
                None => "full"@,
            };
            &&& final(session).launch is Some
            &&& single ==> (final(session).launch->0.plan matches TransportPlan::Pipe(args)
                && args@.len() == 5 && args@[0]@ == "-x"@ && args@[1]@ == "r"@ && args@[2]@ == "-m"@
                && args@[3]@ == "complete"@ && args@[4]@ == "-"@)
            &&& !single ==> (final(session).launch->0.plan matches TransportPlan::Ipc(request) && {
                &&& request.mode is DryRun <==> params.dry_run
                &&& request.mode is Install <==> !params.dry_run
                &&& request.source is Local
                &&& request.disable_store_swu == params.disable_store_swu
                &&& request.software_set@ == (match params.software_set {
                    Some(set) => set@,
                    None => "stable"@,
                })
                &&& host.boot.current_side@ == "b"@ ==> request.running_mode@ == prefix + "-"@
                    + "a"@
                &&& host.boot.current_side@ != "b"@ ==> request.running_mode@ == prefix + "-"@
                    + "b"@
            })
        }),
{
    reveal_strlit("a");
    reveal_strlit("b");
    assert("a"@[0] != "b"@[0]);
    if let TransportPlan::Pipe(args) = final(session).launch->0.plan {
        let list = texts(args@);
        assert(list.len() == 5);
        assert(list[0] == args@[0]@ && list[1] == args@[1]@ && list[2] == args@[2]@ && list[3]
            == args@[3]@ && list[4] == args@[4]@);
    }
}

/// What opening a transfer leaves behind: a queue to feed and one to get buffers
/// from, whose other ends the caller has to run, a status task that is to be
/// started, no verdict, and nothing fed.
pub proof fn law_opened(session: &mut SwupdateSession, host: UpdateHost)
    requires
        old(session).wf(),
        !old(session).opened(),
        call_ensures(SwupdateSession::open, (session, &host), Ok(())),
    ensures
        final(session).tx is Some && final(session).recycle_rx is Some,
        final(session).status == Some(StatusTask::Starting),
        final(session).terminal is None,
        final(session).launch matches Some(launch) && connected(final(session).tx->0, launch.blocks)
            && connected(launch.recycle, final(session).recycle_rx->0)
                && launch.params == old(session).params,
        final(session).fed().len() == 0,
        final(session).params == old(session).params,
        final(session).restart_due == old(session).restart_due,
        queue_limit(final(session).tx->0) * old(session).max_block_size >= 2097152
            || old(session).max_block_size == 0,
{
    if old(session).max_block_size > 0 {
        law_queue_near_target(old(session).max_block_size as nat);
    }
}

/// A transfer is opened unless a restart is due; one that is open stays as it is.
pub proof fn law_opening(
    session: &mut SwupdateSession,
    host: UpdateHost,
    result: Result<(), IoError>,
)
    requires
        old(session).wf(),
        call_ensures(SwupdateSession::open, (session, &host), result),
    ensures
        old(session).tx is Some || old(session).status is Some ==> result is Ok && *final(session)
            == *old(session),
        old(session).tx is None && old(session).status is None && host.restart_pending ==> {
            &&& result matches Err(e) && e.kind == ErrorKind::Other && e.message@
                == "restart pending after successful SWUpdate; rejecting new update"@
            &&& final(session).tx is None && final(session).status is None && final(session).launch
                == old(session).launch
        },
        !host.restart_pending ==> result is Ok,
{
}

/// A block that was taken comes behind those before it; one that there was no room
/// for is handed back; and once nobody reads, no block is taken.
pub proof fn law_fed_in_order(
    session: &mut SwupdateSession,
    host: UpdateHost,
    block: BytesMut,
    result: Result<Feed, IoError>,
)
    requires
        old(session).wf(),
        call_ensures(SwupdateSession::try_send, (session, &host, block), result),
    ensures
        result matches Ok(Feed::Queued(len)) ==> len == contents(block).len()
            && final(session).fed() == old(session).fed() + contents(block),
        result matches Ok(Feed::Full(back)) ==> contents(back) == contents(block)
            && final(session).fed() == old(session).fed(),
        result matches Ok(Feed::Closed) ==> final(session).tx is None && final(session).fed()
            == old(session).fed(),
        result is Err <==> host.restart_pending && old(session).tx is None && old(session).status
            is None && old(session).terminal is None,
        result is Err ==> *final(session) == *old(session),
        final(session).params == old(session).params,
        final(session).restart_due == old(session).restart_due,
{
    lemma_flat_push(old(session).sent@, contents(block));
}

/// The end of the data closes the queue and changes nothing else.
pub proof fn law_eof(session: &mut SwupdateSession)
    requires
        call_ensures(SwupdateSession::eof, (session,), ()),
    ensures
        final(session).tx is None,
        *final(session) == (SwupdateSession { tx: None, ..*old(session) }),
{
}

/// How the status task ended decides the verdict, which is kept: a failure with its
/// reason, a lost task as a failure. A restart falls due after the success of an
/// update of a slot only.
pub proof fn law_settled(
    session: &mut SwupdateSession,
    report: StatusReport,
    verdict: Result<(), IoError>,
)
    requires
        old(session).queue_wf(),
        call_ensures(SwupdateSession::settle, (session, report), verdict),
    ensures
        report is Finished ==> verdict is Ok && final(session).terminal == Some(
            Ok::<(), String>(()),
        ),
        report matches StatusReport::Failed(err) ==> verdict == Err::<(), IoError>(err) && (
        final(session).terminal matches Some(Err(text)) && text@ == err.message@),
        report matches StatusReport::Lost(text) ==> (verdict matches Err(e) && e.kind
            == ErrorKind::Other && e.message@ == "SWUpdate status task failed: "@ + text@) && (
        final(session).terminal matches Some(Err(kept)) && kept@ == verdict->Err_0.message@),
        final(session).status is None,
        final(session).restart_due <==> old(session).restart_due || (report is Finished
            && (old(session).update_type matches Some(kind) && kind is Slot)),
        *final(session) == (SwupdateSession {
            status: None,
            terminal: final(session).terminal,
            restart_due: final(session).restart_due,
            ..*old(session)
        }),
{
}

/// A verdict that is known is given again. Without an update there is none to
/// come, and while its task is to be started none is there yet.
pub proof fn law_known_verdicts(
    session: &mut SwupdateSession,
    verdict: Option<Result<(), IoError>>,
)
    requires
        old(session).wf(),
        call_ensures(SwupdateSession::try_finished, (session,), verdict),
    ensures
        old(session).terminal matches Some(Ok(_)) ==> (verdict matches Some(Ok(_)))
            && *final(session) == *old(session),
        old(session).terminal matches Some(Err(text)) ==> (verdict matches Some(Err(e)) && e.kind
            == ErrorKind::Other && e.message@ == text@) && *final(session) == *old(session),
        old(session).terminal is None && old(session).status is None ==> (verdict matches Some(
            Err(e),
        ) && e.kind == ErrorKind::NotConnected && e.message@ == "no update in progress"@)
            && *final(session) == *old(session),
        old(session).terminal is None && old(session).status == Some(StatusTask::Starting)
            ==> verdict is None && *final(session) == *old(session),
        verdict is None ==> *final(session) == *old(session),
        verdict matches Some(Ok(_)) ==> final(session).terminal matches Some(Ok(_)),
        final(session).fed() == old(session).fed(),
{
}

/// The task of an update is taken over where one is waited for, and handed back
/// otherwise.
pub proof fn law_attached(
    session: &mut SwupdateSession,
    task: JoinHandle<Result<(), IoError>>,
    back: Option<JoinHandle<Result<(), IoError>>>,
)
    requires
        unread(task),
        call_ensures(SwupdateSession::attach_status, (session, task), back),
    ensures
        old(session).status == Some(StatusTask::Starting) ==> back is None && *final(session) == (
        SwupdateSession { status: Some(StatusTask::Running(task)), ..*old(session) }),
        old(session).status != Some(StatusTask::Starting) ==> back == Some(task) && *final(session)
            == *old(session),
{
}

/// What the caller has to run is handed out once.
pub proof fn law_launched(session: &mut SwupdateSession, launch: Option<Launch>)
    requires
        call_ensures(SwupdateSession::take_launch, (session,), launch),
    ensures
        launch == old(session).launch,
        final(session).launch is None,
        *final(session) == (SwupdateSession { launch: None, ..*old(session) }),
{
}

/// Tearing down leaves no queue, no task, no verdict and nothing to run; the task
/// that ran is handed out, asked to stop.
pub proof fn law_aborted(
    session: &mut SwupdateSession,
    task: Option<JoinHandle<Result<(), IoError>>>,
)
    requires
        call_ensures(SwupdateSession::abort, (session,), task),
    ensures
        final(session).tx is None && final(session).recycle_rx is None,
        final(session).status is None && final(session).terminal is None,
        final(session).launch is None,
        final(session).fed().len() == 0,
        final(session).params == old(session).params,
        final(session).restart_due == old(session).restart_due,
        final(session).max_block_size == old(session).max_block_size && final(session).update_type
            == old(session).update_type,
        old(session).status matches Some(StatusTask::Running(running)) ==> (task matches Some(t)
            && asked_to_stop(t) && queue::task_id(t) == queue::task_id(running)),
        task is Some ==> old(session).status matches Some(StatusTask::Running(_)),
{
}

/// A block is handed back for want of room only once two mebibytes have been fed.
pub proof fn law_full(
    session: &mut SwupdateSession,
    host: UpdateHost,
    block: BytesMut,
    result: Result<Feed, IoError>,
)
    requires
        old(session).wf(),
        old(session).max_block_size > 0,
        old(session).sent@.len() * old(session).max_block_size < 2097152,
        call_ensures(SwupdateSession::try_send, (session, &host, block), result),
    ensures
        result matches Ok(feed) ==> !(feed is Full),
{
    if let Ok(feed) = result {
        law_target_amount_taken_at_once(
            *final(session),
            *old(session),
            host,
            contents(block),
            feed,
        );
    }
}

/// What the queue made of a block is told as it is; a queue that nobody reads is
/// given up, and nothing else changes.
pub proof fn law_replies_of_the_queue(
    session: &mut SwupdateSession,
    len: usize,
    reply: QueueReply,
    feed: Feed,
    open: bool,
)
    requires
        call_ensures(SwupdateSession::take_reply, (session, len, reply), feed),
        call_ensures(SwupdateSession::is_open, (&*old(session),), open),
    ensures
        reply is Queued ==> feed == Feed::Queued(len) && *final(session) == *old(session),
        reply matches QueueReply::Full(back) ==> feed == Feed::Full(back) && *final(session)
            == *old(session),
        reply is Closed ==> feed is Closed && final(session).tx is None && *final(session) == (
        SwupdateSession { tx: None, ..*old(session) }),
        open <==> old(session).tx is Some || old(session).status is Some,
{
}

/// A buffer that is lent is empty, and changes nothing but what comes back for reuse.
pub proof fn law_lent_buffer(session: &mut SwupdateSession, capacity: usize, buf: BytesMut)
    requires
        capacity <= isize::MAX,
        call_ensures(SwupdateSession::buffer, (session, capacity), buf),
    ensures
        contents(buf).len() == 0,
        final(session).tx == old(session).tx && final(session).status == old(session).status
            && final(session).terminal == old(session).terminal,
        final(session).fed() == old(session).fed(),
        final(session).recycle_rx is Some <==> old(session).recycle_rx is Some,
{
}

/// In a new transfer nothing has happened.
pub proof fn law_new_transfer(
    params: SwupdateParams,
    max_block_size: usize,
    session: SwupdateSession,
)
    requires
        call_ensures(SwupdateSession::new, (params, max_block_size), session),
    ensures
        session.params == params && session.max_block_size == max_block_size,
        session.tx is None && session.recycle_rx is None && session.status is None
            && session.terminal is None && session.launch is None && session.update_type is None,
        !session.restart_due && session.fed().len() == 0,
{
}

} // verus!
