//! Routing of what comes in on the bulk OUT endpoint.

use bytes::BytesMut;
use vstd::prelude::*;

use crate::buffer::{self, contents};
use crate::fastboot_proto::{DownloadKind, FAIL_BADSIZE, OKAY};
use crate::fastboot_usb::commands::CommandStep;
use crate::fastboot_usb::state::{
    acts, only, push_reply, Act, ChunkStep, FastbootUsbState, RxStep, UsbAction,
};
use crate::fault::{ErrorKind, IoError};
use crate::swupdate::config::UpdateHost;
use crate::swupdate::session::{
    flat, lemma_continues, lemma_flat_push, Feed, SwupdateSession,
};
use crate::sysinfo::runtime::Machine;
use crate::usb::functionfs::{bulk_closed, is_bulk_closed};
use vstd::string::StringSliceAdditionalSpecFns;

verus! {

impl FastbootUsbState {
    /// The state in which a download of `len` bytes has been announced. Only a
    /// plain download within an FBK session is not meant to be flashed.
    pub open spec fn announced(self, len: usize, kind: DownloadKind) -> FastbootUsbState {
        FastbootUsbState {
            download_size: len,
            downloaded_size: 0,
            fastboot_pending_flash: kind == DownloadKind::Fastboot
                || !self.fastboot_usb_session_open,
            ..self
        }
    }

    /// Whether `self` can follow `before` once the data phase has been
    /// announced, or could not be. A download of nothing is complete at once;
    /// otherwise what came after the command is the start of the data.
    pub open spec fn header_reported(
        self,
        before: FastbootUsbState,
        host: UpdateHost,
        len: usize,
        kind: DownloadKind,
        rest: Seq<u8>,
        sent: bool,
        step: RxStep,
        actions: Seq<Act>,
    ) -> bool {
        if !sent {
            step == RxStep::Done(true) && self.started_over(before) && actions
                == before.reset_acts(None)
        } else if len == 0 {
            step == RxStep::Done(true) && self == before.announced(len, kind) && actions == only(
                OKAY,
            )
        } else {
            exists|first: ChunkStep| #[trigger]
                self.chunk_taken(before.announced(len, kind), host, rest, first, actions)
                    && Self::same_step(first, step)
        }
    }

    /// The data phase of a download command has been announced, or could not
    /// be.
    pub fn header_sent(
        &mut self,
        len: usize,
        kind: DownloadKind,
        rest: BytesMut,
        sent: bool,
        host: &UpdateHost,
        out: &mut Vec<UsbAction>,
    ) -> (step: RxStep)
        requires
            old(self).wf(),
        ensures
            final(self).wf(),
            exists|actions: Seq<Act>| #[trigger]
                final(self).header_reported(
                    *old(self),
                    *host,
                    len,
                    kind,
                    contents(rest),
                    sent,
                    step,
                    actions,
                ) && acts(final(out)@) == acts(old(out)@) + actions,
    {
        let ghost before = *self;
        let ghost data = contents(rest);
        if !sent {
            self.reset(None, out);
            let step = RxStep::Done(true);
            assert(self.header_reported(
                before,
                *host,
                len,
                kind,
                data,
                sent,
                step,
                before.reset_acts(None),
            ));
            return step;
        }
        let pending = match kind {
            DownloadKind::Fastboot => true,
            DownloadKind::Plain => !self.fastboot_usb_session_open,
        };
        self.download_size = len;
        self.downloaded_size = 0;
        self.fastboot_pending_flash = pending;
        let ghost announced = *self;
        assert(announced == before.announced(len, kind));
        if len == 0 {
            push_reply(out, OKAY);
            assert(acts(out@) =~= acts(old(out)@) + only(OKAY));
            let step = RxStep::Done(true);
            assert(self.header_reported(before, *host, len, kind, data, sent, step, only(OKAY)));
            return step;
        }
        let first = self.handle_download_chunk(rest, host, out);
        let ghost actions = choose|actions: Seq<Act>| #[trigger]
            self.chunk_taken(announced, *host, data, first, actions) && acts(out@) == acts(
                old(out)@,
            ) + actions;
        let step = match first {
            ChunkStep::Done(keep) => RxStep::Done(keep),
            ChunkStep::Blocked(block) => RxStep::Blocked { block, trailing: None },
        };
        assert(self.chunk_taken(announced, *host, data, first, actions));
        assert(self.header_reported(before, *host, len, kind, data, sent, step, actions));
        step
    }

    /// Whether received data can turn `before` into `self`. Outside a download
    /// it is a command; within one it goes into the download up to its end.
    pub open spec fn received(
        self,
        before: FastbootUsbState,
        host: UpdateHost,
        machine: Machine,
        data: Seq<u8>,
        step: RxStep,
        actions: Seq<Act>,
    ) -> bool {
        if !before.active() {
            exists|left: Seq<u8>, command: CommandStep|
                {
                    &&& #[trigger] self.interpreted(
                        before,
                        host,
                        machine,
                        data,
                        left,
                        command,
                        actions,
                    )
                    &&& match command {
                        CommandStep::Done(_) => step == RxStep::Done(true),
                        CommandStep::SendHeader { len, kind } => step matches RxStep::SendHeader {
                            len: n,
                            kind: k,
                            rest,
                        } && n == len && k == kind && contents(rest) == left,
                    }
                }
        } else if data.len() <= before.remaining() {
            self.routed(before, host, data, None, step, actions)
        } else {
            exists|trailing: BytesMut| #[trigger]
                contents(trailing) == data.skip(before.remaining() as int) && self.routed(
                    before,
                    host,
                    data.take(before.remaining() as int),
                    Some(trailing),
                    step,
                    actions,
                )
        }
    }

    /// Routes received data.
    pub fn handle_rx_chunk(
        &mut self,
        chunk: BytesMut,
        host: &UpdateHost,
        machine: &Machine,
        out: &mut Vec<UsbAction>,
    ) -> (step: RxStep)
        requires
            old(self).wf(),
        ensures
            final(self).wf(),
            exists|actions: Seq<Act>| #[trigger]
                final(self).received(
                    *old(self),
                    *host,
                    *machine,
                    contents(chunk),
                    step,
                    actions,
                ) && acts(final(out)@) == acts(old(out)@) + actions,
    {
        let mut chunk = chunk;
        let ghost before = *self;
        let ghost data = contents(chunk);
        if !self.download_active() {
            let command = self.handle_command_chunk(&mut chunk, host, machine, out);
            let ghost left = contents(chunk);
            let ghost actions = choose|actions: Seq<Act>| #[trigger]
                self.interpreted(before, *host, *machine, data, left, command, actions) && acts(
                    out@,
                ) == acts(old(out)@) + actions;
            let step = match command {
                CommandStep::Done(_handled) => RxStep::Done(true),
                CommandStep::SendHeader { len, kind } => RxStep::SendHeader {
                    len,
                    kind,
                    rest: chunk,
                },
            };
            assert(self.interpreted(before, *host, *machine, data, left, command, actions));
            assert(self.received(before, *host, *machine, data, step, actions));
            return step;
        }
        let left: usize = self.download_size - self.downloaded_size;
        let len: usize = buffer::as_slice(&chunk).len();
        if len > left {
            let trailing = buffer::split_off(&mut chunk, left);
            let ghost after_end = trailing;
            let ghost part = contents(chunk);
            let step = self.route(chunk, Some(trailing), host, out);
            let ghost actions = choose|actions: Seq<Act>| #[trigger]
                self.routed(before, *host, part, Some(after_end), step, actions) && acts(out@)
                    == acts(old(out)@) + actions;
            assert(contents(after_end) == data.skip(before.remaining() as int));
            assert(self.received(before, *host, *machine, data, step, actions));
            step
        } else {
            let step = self.route(chunk, None, host, out);
            let ghost actions = choose|actions: Seq<Act>| #[trigger]
                self.routed(before, *host, data, None, step, actions) && acts(out@) == acts(
                    old(out)@,
                ) + actions;
            assert(self.received(before, *host, *machine, data, step, actions));
            step
        }
    }

    /// Whether a completed read can turn `before` into `self`. A stall only
    /// matters while something is under way; an endpoint that is gone is gone
    /// for good, and there is nobody to tell; and after any other fault nothing
    /// is retried.
    pub open spec fn read_completed(
        self,
        before: FastbootUsbState,
        host: UpdateHost,
        machine: Machine,
        result: Result<Option<BytesMut>, IoError>,
        step: RxStep,
        actions: Seq<Act>,
    ) -> bool {
        match result {
            Ok(Some(chunk)) => self.received(
                before,
                host,
                machine,
                contents(chunk),
                step,
                actions,
            ),
            Ok(None) => step == RxStep::Done(true) && self == before && actions == Seq::<
                Act,
            >::empty(),
            Err(e) => if e.kind == ErrorKind::TimedOut && !before.under_way() {
                step == RxStep::Done(true) && self == before && actions == Seq::<Act>::empty()
            } else if e.kind != ErrorKind::TimedOut && bulk_closed(
                before.function,
                e,
                host.errnos,
            ) {
                &&& step == RxStep::Done(false)
                &&& self.started_over(FastbootUsbState { gadget_torn_down: true, ..before })
                &&& actions == before.reset_acts(None)
            } else {
                &&& step == RxStep::Done(false)
                &&& self.started_over(before)
                &&& actions == before.reset_acts(Some(FAIL_BADSIZE.spec_bytes()))
            },
        }
    }

    /// Takes in one completed read, or the fault that it ended with.
    pub fn on_recv(
        &mut self,
        result: Result<Option<BytesMut>, IoError>,
        host: &UpdateHost,
        machine: &Machine,
        out: &mut Vec<UsbAction>,
    ) -> (step: RxStep)
        requires
            old(self).wf(),
        ensures
            final(self).wf(),
            exists|actions: Seq<Act>| #[trigger]
                final(self).read_completed(
                    *old(self),
                    *host,
                    *machine,
                    result,
                    step,
                    actions,
                ) && acts(final(out)@) == acts(old(out)@) + actions,
    {
        let ghost before = *self;
        let ghost nothing = Seq::<Act>::empty();
        assert(acts(out@) + nothing =~= acts(out@));
        match result {
            Ok(Some(chunk)) => {
                let step = self.handle_rx_chunk(chunk, host, machine, out);
                let ghost actions = choose|actions: Seq<Act>| #[trigger]
                    self.received(before, *host, *machine, contents(chunk), step, actions) && acts(
                        out@,
                    ) == acts(old(out)@) + actions;
                assert(self.read_completed(before, *host, *machine, result, step, actions));
                step
            },
            Ok(None) => {
                let step = RxStep::Done(true);
                assert(self.read_completed(before, *host, *machine, result, step, nothing));
                step
            },
            Err(err) => {
                if err.kind == ErrorKind::TimedOut {
                    if !self.in_flight() {
                        let step = RxStep::Done(true);
                        assert(self.read_completed(
                            before,
                            *host,
                            *machine,
                            result,
                            step,
                            nothing,
                        ));
                        return step;
                    }
                } else if is_bulk_closed(self.function, &err, &host.errnos) {
                    self.gadget_torn_down = true;
                    self.reset(None, out);
                    let step = RxStep::Done(false);
                    assert(self.read_completed(
                        before,
                        *host,
                        *machine,
                        result,
                        step,
                        before.reset_acts(None),
                    ));
                    return step;
                }
                self.reset(Some(FAIL_BADSIZE), out);
                let step = RxStep::Done(false);
                assert(self.read_completed(
                    before,
                    *host,
                    *machine,
                    result,
                    step,
                    before.reset_acts(Some(FAIL_BADSIZE.spec_bytes())),
                ));
                step
            },
        }
    }
}

// ---------------------------------------------------------------------------
// Laws
// ---------------------------------------------------------------------------

/// What is fed goes where what was fed into `before` went.
pub open spec fn feeds_on(after: FastbootUsbState, before: FastbootUsbState) -> bool {
    before.download is Some && after.download is Some ==> after.download->0.continues(
        before.download->0,
    )
}

/// A piece of the download that was dealt with is fed to SWUpdate as it is,
/// behind what was fed before and into the same queue, unless SWUpdate has
/// stopped taking data; and it is counted either way. A piece that SWUpdate had no room for is handed back
/// whole, neither fed nor counted.
pub proof fn law_chunk_fed(
    after: FastbootUsbState,
    before: FastbootUsbState,
    host: UpdateHost,
    data: Seq<u8>,
    step: ChunkStep,
    actions: Seq<Act>,
)
    requires
        before.wf(),
        after.chunk_taken(before, host, data, step, actions),
    ensures
        step == ChunkStep::Done(true) && before.downloaded_size + data.len() <= usize::MAX
            ==> after.downloaded_size == before.downloaded_size + data.len(),
        step == ChunkStep::Done(true) ==> after.fed() == before.fed() + data || (
        after.download matches Some(s) && s.tx is None && after.fed() == before.fed()),
        step matches ChunkStep::Blocked(back) ==> contents(back) == data && after.fed()
            == before.fed() && after.downloaded_size == before.downloaded_size,
        step == ChunkStep::Done(false) ==> after.fed() == Seq::<u8>::empty() && !after.under_way(),
        step != ChunkStep::Done(false) ==> feeds_on(after, before),
{
    if data.len() == 0 {
        assert(before.fed() + data =~= before.fed());
        if let Some(s) = before.download {
            lemma_continues(s, s, s);
        }
    } else if before.download is Some && !(before.download->0.idle() && host.restart_pending) {
        let session = before.download->0;
        let (fed, feed) = choose|fed: SwupdateSession, feed: Feed|
            {
                &&& #[trigger] fed.after_feed(session, host, data, feed)
                &&& fed.wf()
                &&& match feed {
                    Feed::Full(back) => {
                        &&& step == ChunkStep::Blocked(back)
                        &&& after == (FastbootUsbState { download: Some(fed), ..before })
                        &&& actions == Seq::<Act>::empty()
                    },
                    _ => {
                        &&& step == ChunkStep::Done(true)
                        &&& after == (FastbootUsbState {
                            download: Some(fed),
                            downloaded_size: crate::fastboot_usb::state::capped_sum(
                                before.downloaded_size,
                                data.len(),
                            ),
                            ..before
                        })
                        &&& actions == (if after.active() {
                            Seq::<Act>::empty()
                        } else {
                            only(OKAY)
                        })
                    },
                }
            };
        lemma_flat_push(session.sent@, data);
        if session.idle() {
            assert(session.sent@ =~= Seq::empty());
        }
    }
}

/// A transfer is open and takes data.
pub open spec fn feeding(state: FastbootUsbState) -> bool {
    state.download matches Some(s) && s.tx is Some
}

/// SWUpdate has stopped taking the data of a transfer that was opened.
pub open spec fn cut_off(state: FastbootUsbState) -> bool {
    state.download matches Some(s) && s.tx is None && !s.idle()
}

proof fn lemma_chunk_fed_or_cut_off(
    after: FastbootUsbState,
    before: FastbootUsbState,
    host: UpdateHost,
    data: Seq<u8>,
    actions: Seq<Act>,
)
    requires
        before.wf(),
        after.chunk_taken(before, host, data, ChunkStep::Done(true), actions),
    ensures
        cut_off(before) ==> cut_off(after),
        cut_off(after) || after.fed() == before.fed() + data,
        feeding(before) ==> feeding(after) || cut_off(after),
{
    law_chunk_fed(after, before, host, data, ChunkStep::Done(true), actions);
    if data.len() == 0 {
        assert(before.fed() + data =~= before.fed());
    } else {
        let session = before.download->0;
        let (fed, feed) = choose|fed: SwupdateSession, feed: Feed|
            {
                &&& #[trigger] fed.after_feed(session, host, data, feed)
                &&& fed.wf()
                &&& match feed {
                    Feed::Full(back) => false,
                    _ => after.download == Some(fed),
                }
            };
        assert(feed is Closed || fed.sent@.len() > 0);
    }
}

/// A download that comes in pieces, all of which are dealt with, arrives whole
/// and in order through one queue, unless SWUpdate stops taking data in between;
/// and it is counted in full either way.
pub proof fn law_download_arrives_whole(
    states: Seq<FastbootUsbState>,
    host: UpdateHost,
    pieces: Seq<Seq<u8>>,
    actions: Seq<Seq<Act>>,
)
    requires
        states.len() == pieces.len() + 1,
        actions.len() == pieces.len(),
        forall|i: int| 0 <= i < states.len() ==> (#[trigger] states[i]).wf(),
        forall|i: int|
            0 <= i < pieces.len() ==> states[i + 1].chunk_taken(
                states[i],
                host,
                #[trigger] pieces[i],
                ChunkStep::Done(true),
                actions[i],
            ),
        states[0].downloaded_size + flat(pieces).len() <= usize::MAX,
    ensures
        cut_off(states.last()) || states.last().fed() == states[0].fed() + flat(pieces),
        cut_off(states.last()) || feeds_on(states.last(), states[0]),
        feeding(states[0]) ==> feeding(states.last()) || cut_off(states.last()),
        states.last().downloaded_size == states[0].downloaded_size + flat(pieces).len(),
    decreases pieces.len(),
{
    if pieces.len() == 0 {
        assert(states[0].fed() + flat(pieces) =~= states[0].fed());
        if let Some(s) = states[0].download {
            lemma_continues(s, s, s);
        }
    } else {
        let n = pieces.len() - 1;
        let earlier = states.drop_last();
        let first = pieces.drop_last();
        let last = pieces[n];
        assert forall|i: int| 0 <= i < first.len() implies earlier[i + 1].chunk_taken(
            earlier[i],
            host,
            #[trigger] first[i],
            ChunkStep::Done(true),
            actions.drop_last()[i],
        ) by {
            assert(first[i] == pieces[i]);
            assert(earlier[i] == states[i] && earlier[i + 1] == states[i + 1]);
        }
        assert forall|i: int| 0 <= i < earlier.len() implies (#[trigger] earlier[i]).wf() by {
            assert(earlier[i] == states[i]);
        }
        assert(flat(pieces) == flat(first) + last);
        law_download_arrives_whole(earlier, host, first, actions.drop_last());
        assert(earlier.last() == states[n]);
        assert(states[n + 1].chunk_taken(
            states[n],
            host,
            last,
            ChunkStep::Done(true),
            actions[n],
        ));
        lemma_chunk_fed_or_cut_off(states[n + 1], states[n], host, last, actions[n]);
        law_chunk_fed(states[n + 1], states[n], host, last, ChunkStep::Done(true), actions[n]);
        if states[n + 1].download is Some && states[n].download is Some
            && states[0].download is Some {
            lemma_continues(
                states[n + 1].download->0,
                states[n].download->0,
                states[0].download->0,
            );
        }
        assert(states[0].fed() + flat(first) + last =~= states[0].fed() + flat(pieces));
    }
}

/// The host is acknowledged when the last byte of a download arrives, and not
/// before.
pub proof fn law_acknowledged_at_the_end(
    after: FastbootUsbState,
    before: FastbootUsbState,
    host: UpdateHost,
    data: Seq<u8>,
    actions: Seq<Act>,
)
    requires
        before.active(),
        0 < data.len() <= before.remaining(),
        after.chunk_taken(before, host, data, ChunkStep::Done(true), actions),
    ensures
        data.len() == before.remaining() ==> actions == only(OKAY) && !after.active(),
        data.len() < before.remaining() ==> actions == Seq::<Act>::empty() && after.remaining()
            == before.remaining() - data.len(),
{
}

/// An endpoint that is gone stays gone, whatever is received, found or started
/// over.
pub proof fn law_torn_down_for_good(
    after: FastbootUsbState,
    before: FastbootUsbState,
    host: UpdateHost,
    machine: Machine,
    result: Result<Option<BytesMut>, IoError>,
    step: RxStep,
    stop: bool,
    actions: Seq<Act>,
)
    requires
        before.gadget_torn_down,
        after.read_completed(before, host, machine, result, step, actions) || after.looked(
            before,
            stop,
            actions,
        ) || after.started_over(before),
    ensures
        after.gadget_torn_down,
{
}

/// Nothing is under way after a session has ended, and the next download
/// starts from nothing.
pub proof fn law_end_starts_over(
    after: FastbootUsbState,
    before: FastbootUsbState,
    host: UpdateHost,
    machine: Machine,
    result: Result<Option<BytesMut>, IoError>,
    actions: Seq<Act>,
)
    requires
        before.wf(),
        after.read_completed(before, host, machine, result, RxStep::Done(false), actions),
    ensures
        !after.under_way(),
        !after.fastboot_usb_session_open,
        after.fed() == Seq::<u8>::empty(),
        after.download matches Some(s) && s.idle(),
{
}

/// Announcing a download sets its size and what has come of it; only a plain one
/// within an FBK session is not meant to be flashed. One of no bytes is told `OKAY`
/// at once.
pub proof fn law_announced(
    state: &mut FastbootUsbState,
    len: usize,
    kind: DownloadKind,
    rest: BytesMut,
    host: UpdateHost,
    out: &mut Vec<UsbAction>,
    step: RxStep,
)
    requires
        old(state).wf(),
        len == 0 || contents(rest).len() == 0,
        call_ensures(
            FastbootUsbState::header_sent,
            (state, len, kind, rest, true, &host, out),
            step,
        ),
    ensures
        step == RxStep::Done(true),
        final(state).download_size == len && final(state).downloaded_size == 0,
        final(state).fastboot_pending_flash <==> kind is Fastboot
            || !old(state).fastboot_usb_session_open,
        final(state).fed() == old(state).fed(),
        len == 0 ==> acts(final(out)@).skip(old(out)@.len() as int) == seq![
            Act::Reply("OKAY".spec_bytes()),
        ],
        len > 0 ==> acts(final(out)@).skip(old(out)@.len() as int).len() == 0,
        *final(state) == (FastbootUsbState {
            download_size: len,
            downloaded_size: 0,
            fastboot_pending_flash: final(state).fastboot_pending_flash,
            ..*old(state)
        }),
{
    let actions = choose|actions: Seq<Act>| #[trigger]
        final(state).header_reported(
            *old(state),
            host,
            len,
            kind,
            contents(rest),
            true,
            step,
            actions,
        ) && acts(final(out)@) == acts(old(out)@) + actions;
    assert(acts(final(out)@).skip(old(out)@.len() as int) =~= actions);
    if len > 0 {
        let first = choose|first: ChunkStep| #[trigger]
            final(state).chunk_taken(
                old(state).announced(len, kind),
                host,
                contents(rest),
                first,
                actions,
            ) && FastbootUsbState::same_step(first, step);
    }
}

/// What came with the command that announced a download is the start of its data:
/// it counts, and the host is told `OKAY` where it is all of it.
pub proof fn law_data_with_the_command(
    state: &mut FastbootUsbState,
    len: usize,
    kind: DownloadKind,
    rest: BytesMut,
    host: UpdateHost,
    out: &mut Vec<UsbAction>,
)
    requires
        old(state).wf(),
        len > 0,
        0 < contents(rest).len() <= len,
        call_ensures(
            FastbootUsbState::header_sent,
            (state, len, kind, rest, true, &host, out),
            RxStep::Done(true),
        ),
    ensures
        final(state).download_size == len && final(state).downloaded_size == contents(rest).len(),
        contents(rest).len() == len ==> acts(final(out)@).skip(old(out)@.len() as int) == seq![
            Act::Reply("OKAY".spec_bytes()),
        ],
        contents(rest).len() < len ==> acts(final(out)@).skip(old(out)@.len() as int).len() == 0,
        final(state).fed() == old(state).fed() + contents(rest) || final(state).download->0.tx
            is None,
{
    let actions = choose|actions: Seq<Act>| #[trigger]
        final(state).header_reported(
            *old(state),
            host,
            len,
            kind,
            contents(rest),
            true,
            RxStep::Done(true),
            actions,
        ) && acts(final(out)@) == acts(old(out)@) + actions;
    assert(acts(final(out)@).skip(old(out)@.len() as int) =~= actions);
    let announced = old(state).announced(len, kind);
    let first = choose|first: ChunkStep| #[trigger]
        final(state).chunk_taken(announced, host, contents(rest), first, actions)
            && FastbootUsbState::same_step(first, RxStep::Done(true));
    law_chunk_fed(*final(state), announced, host, contents(rest), first, actions);
}

/// A download that could not be announced starts everything over, without a reply.
pub proof fn law_not_announced(
    state: &mut FastbootUsbState,
    len: usize,
    kind: DownloadKind,
    rest: BytesMut,
    host: UpdateHost,
    out: &mut Vec<UsbAction>,
    step: RxStep,
)
    requires
        old(state).wf(),
        call_ensures(
            FastbootUsbState::header_sent,
            (state, len, kind, rest, false, &host, out),
            step,
        ),
    ensures
        step == RxStep::Done(true),
        final(state).download_size == 0 && !final(state).fastboot_pending_flash
            && !final(state).fastboot_usb_session_open,
        acts(final(out)@)[old(out)@.len() as int] == Act::CancelReceive,
        forall|i: int|
            old(out)@.len() <= i < final(out)@.len()
                ==> !(#[trigger] acts(final(out)@)[i] is Reply),
{
    let actions = choose|actions: Seq<Act>| #[trigger]
        final(state).header_reported(
            *old(state),
            host,
            len,
            kind,
            contents(rest),
            false,
            step,
            actions,
        ) && acts(final(out)@) == acts(old(out)@) + actions;
    assert forall|i: int| old(out)@.len() <= i < final(out)@.len() implies !(#[trigger] acts(
        final(out)@,
    )[i] is Reply) by {
        assert(acts(final(out)@).len() == final(out)@.len());
        assert(acts(old(out)@).len() == old(out)@.len());
        assert(acts(final(out)@)[i] == actions[i - old(out)@.len()]);
    }
}

/// What a read that failed means: a stall does not matter while nothing is under
/// way; an endpoint that is gone ends the session without a word and for good; any
/// other fault ends it and is told as `FAILbad size`. A read of nothing changes
/// nothing.
pub proof fn law_failed_reads(
    state: &mut FastbootUsbState,
    err: IoError,
    host: UpdateHost,
    machine: Machine,
    out: &mut Vec<UsbAction>,
    gone: bool,
    step: RxStep,
)
    requires
        old(state).wf(),
        call_ensures(is_bulk_closed, (old(state).function, &err, &host.errnos), gone),
        call_ensures(FastbootUsbState::on_recv, (state, Err(err), &host, &machine, out), step),
    ensures
        ({
            let sent = acts(final(out)@).skip(old(out)@.len() as int);
            let flight = old(state).downloaded_size < old(state).download_size
                || old(state).fastboot_pending_flash || old(state).finish_pending;
            let stall = err.kind == ErrorKind::TimedOut;
            &&& stall && !flight ==> step == RxStep::Done(true) && *final(state) == *old(state)
                && sent.len() == 0
            &&& stall && flight ==> step == RxStep::Done(false) && sent[0] == Act::CancelReceive
                && sent.last() == Act::Reply("FAILbad size".spec_bytes())
            &&& !stall && gone ==> step == RxStep::Done(false) && final(state).gadget_torn_down
                && sent[0] == Act::CancelReceive && !(sent.last() is Reply)
            &&& !stall && !gone ==> step == RxStep::Done(false) && sent[0] == Act::CancelReceive
                && sent.last() == Act::Reply("FAILbad size".spec_bytes())
            &&& step == RxStep::Done(false) ==> final(state).download_size == 0
                && !final(state).fastboot_pending_flash && !final(state).finish_pending
                    && final(state).fed().len()
                == 0
            &&& !gone || stall ==> final(state).gadget_torn_down == old(state).gadget_torn_down
        }),
{
    let actions = choose|actions: Seq<Act>| #[trigger]
        final(state).read_completed(*old(state), host, machine, Err(err), step, actions) && acts(
            final(out)@,
        ) == acts(old(out)@) + actions;
    assert(acts(final(out)@).skip(old(out)@.len() as int) =~= actions);
}

/// A read of nothing changes nothing.
pub proof fn law_empty_read(
    state: &mut FastbootUsbState,
    host: UpdateHost,
    machine: Machine,
    out: &mut Vec<UsbAction>,
    step: RxStep,
)
    requires
        old(state).wf(),
        call_ensures(FastbootUsbState::on_recv, (state, Ok(None), &host, &machine, out), step),
    ensures
        step == RxStep::Done(true),
        *final(state) == *old(state),
        acts(final(out)@) == acts(old(out)@),
{
    assert(acts(old(out)@) + Seq::<Act>::empty() =~= acts(old(out)@));
}

/// Data within a download goes into the download: what was dealt with counts, and
/// the host is told `OKAY` where it is the last of it.
pub proof fn law_data_within_a_download(
    state: &mut FastbootUsbState,
    chunk: BytesMut,
    host: UpdateHost,
    machine: Machine,
    out: &mut Vec<UsbAction>,
)
    requires
        old(state).wf(),
        0 < contents(chunk).len() <= old(state).download_size - old(state).downloaded_size,
        call_ensures(
            FastbootUsbState::on_recv,
            (state, Ok(Some(chunk)), &host, &machine, out),
            RxStep::Done(true),
        ),
    ensures
        final(state).downloaded_size == old(state).downloaded_size + contents(chunk).len(),
        final(state).download_size == old(state).download_size,
        final(state).fed() == old(state).fed() + contents(chunk) || final(state).download->0.tx
            is None,
        final(state).downloaded_size == final(state).download_size ==> acts(final(out)@).skip(
            old(out)@.len() as int,
        ) == seq![Act::Reply("OKAY".spec_bytes())],
        final(state).downloaded_size < final(state).download_size ==> acts(final(out)@).skip(
            old(out)@.len() as int,
        ).len() == 0,
{
    let data = contents(chunk);
    let step = RxStep::Done(true);
    let actions = choose|actions: Seq<Act>| #[trigger]
        final(state).read_completed(
            *old(state),
            host,
            machine,
            Ok(Some(chunk)),
            step,
            actions,
        ) && acts(final(out)@) == acts(old(out)@) + actions;
    assert(acts(final(out)@).skip(old(out)@.len() as int) =~= actions);
    assert(final(state).routed(*old(state), host, data, None, step, actions));
    let (mid, first, before_rest) = choose|
        mid: FastbootUsbState,
        first: ChunkStep,
        before_rest: Seq<Act>,
    |
        {
            &&& #[trigger] mid.chunk_taken(*old(state), host, data, first, before_rest)
            &&& mid.wf()
            &&& match first {
                ChunkStep::Blocked(block) => *final(state) == mid && actions == before_rest && step
                    == (RxStep::Blocked { block, trailing: None }),
                ChunkStep::Done(keep) => *final(state) == mid && actions == before_rest && step
                    == RxStep::Done(keep),
            }
        };
    law_chunk_fed(mid, *old(state), host, data, first, before_rest);
}

/// Data that comes while no download is active is a command: a download command has
/// its data phase announced, with what follows the command kept, and any other one
/// is dealt with.
pub proof fn law_command_read(
    state: &mut FastbootUsbState,
    chunk: BytesMut,
    host: UpdateHost,
    machine: Machine,
    out: &mut Vec<UsbAction>,
    data: &[u8],
    command: crate::fastboot_proto::ParsedCommand,
    used: usize,
    step: RxStep,
)
    requires
        old(state).wf(),
        old(state).downloaded_size >= old(state).download_size,
        data@ == contents(chunk),
        call_ensures(crate::fastboot_proto::parse_command, (data,), Some((command, used))),
        call_ensures(FastbootUsbState::handle_rx_chunk, (state, chunk, &host, &machine, out), step),
    ensures
        !(command is Download) ==> step == RxStep::Done(true),
        command matches crate::fastboot_proto::ParsedCommand::Download { len, kind } ==> {
            let can_open = old(state).download is Some && (old(state).download->0.opened()
                || !host.restart_pending);
            &&& can_open ==> (step matches RxStep::SendHeader { len: n, kind: k, rest } && n == len
                && k == kind && contents(rest) == data@.skip(used as int))
            &&& !can_open ==> step == RxStep::Done(true)
        },
{
    let actions = choose|actions: Seq<Act>| #[trigger]
        final(state).received(*old(state), host, machine, contents(chunk), step, actions) && acts(
            final(out)@,
        ) == acts(old(out)@) + actions;
    let (left, inner) = choose|left: Seq<u8>, inner: CommandStep|
        {
            &&& #[trigger] final(state).interpreted(
                *old(state),
                host,
                machine,
                contents(chunk),
                left,
                inner,
                actions,
            )
            &&& match inner {
                CommandStep::Done(_) => step == RxStep::Done(true),
                CommandStep::SendHeader { len, kind } => step matches RxStep::SendHeader {
                    len: n,
                    kind: k,
                    rest,
                } && n == len && k == kind && contents(rest) == left,
            }
        };
    assert(final(state).interpreted(
        *old(state),
        host,
        machine,
        contents(chunk),
        left,
        inner,
        actions,
    ));
    if command is Download {
        let begun = choose|begun: bool| #[trigger]
            final(state).begun(*old(state), host, begun, actions);
        assert(final(state).begun(*old(state), host, begun, actions));
    }
}

/// A piece of a download that is offered again, with nothing behind it, is dealt with
/// like any other piece.
pub proof fn law_route(
    state: &mut FastbootUsbState,
    block: BytesMut,
    host: UpdateHost,
    out: &mut Vec<UsbAction>,
    step: RxStep,
)
    requires
        old(state).wf(),
        contents(block).len() > 0,
        old(state).downloaded_size + contents(block).len() <= usize::MAX,
        call_ensures(FastbootUsbState::route, (state, block, None, &host, out), step),
    ensures
        step == RxStep::Done(true) ==> final(state).downloaded_size == old(state).downloaded_size
            + contents(block).len() && (final(state).fed() == old(state).fed() + contents(block)
            || final(state).download->0.tx is None),
        step == RxStep::Done(true) && final(state).downloaded_size >= final(state).download_size
            ==> acts(final(out)@).skip(old(out)@.len() as int) == seq![
            Act::Reply("OKAY".spec_bytes()),
        ],
        step matches RxStep::Blocked { block: back, trailing } ==> contents(back) == contents(block)
            && trailing is None && final(state).downloaded_size == old(state).downloaded_size,
{
    let data = contents(block);
    let actions = choose|actions: Seq<Act>| #[trigger]
        final(state).routed(*old(state), host, data, None, step, actions) && acts(final(out)@)
            == acts(old(out)@) + actions;
    assert(acts(final(out)@).skip(old(out)@.len() as int) =~= actions);
    let (mid, first, before_rest) = choose|
        mid: FastbootUsbState,
        first: ChunkStep,
        before_rest: Seq<Act>,
    |
        {
            &&& #[trigger] mid.chunk_taken(*old(state), host, data, first, before_rest)
            &&& mid.wf()
            &&& match first {
                ChunkStep::Blocked(b) => *final(state) == mid && actions == before_rest && step == (
                RxStep::Blocked { block: b, trailing: None }),
                ChunkStep::Done(keep) => *final(state) == mid && actions == before_rest && step
                    == RxStep::Done(keep),
            }
        };
    law_chunk_fed(mid, *old(state), host, data, first, before_rest);
}

proof fn lemma_routed_past_the_end(
    after: FastbootUsbState,
    before: FastbootUsbState,
    host: UpdateHost,
    data: Seq<u8>,
    trailing: BytesMut,
    step: RxStep,
    actions: Seq<Act>,
)
    requires
        before.wf(),
        data.len() > 0,
        data.len() == before.download_size - before.downloaded_size,
        contents(trailing).len() > 0,
        before.download_size + contents(trailing).len() <= usize::MAX,
        after.routed(before, host, data, Some(trailing), step, actions),
    ensures
        step == RxStep::Done(true) ==> after.downloaded_size == before.download_size + contents(
            trailing,
        ).len() && (after.fed() == before.fed() + data + contents(trailing)
            || after.download->0.tx is None),
        step matches RxStep::Blocked { block, trailing: rest } ==> {
            ||| rest == Some(trailing) && contents(block) == data && after.downloaded_size
                == before.downloaded_size && after.fed() == before.fed()
            ||| rest is None && contents(block) == contents(trailing) && after.downloaded_size
                == before.download_size
        },
{
    let (mid, first, before_rest) = choose|
        mid: FastbootUsbState,
        first: ChunkStep,
        before_rest: Seq<Act>,
    |
        {
            &&& #[trigger] mid.chunk_taken(before, host, data, first, before_rest)
            &&& mid.wf()
            &&& match first {
                ChunkStep::Blocked(block) => after == mid && actions == before_rest && step == (
                RxStep::Blocked { block, trailing: Some(trailing) }),
                ChunkStep::Done(keep) => if !keep || mid.active() {
                    after == mid && actions == before_rest && step == RxStep::Done(keep)
                } else {
                    exists|second: ChunkStep, more: Seq<Act>| #[trigger]
                        after.chunk_taken(mid, host, contents(trailing), second, more)
                            && FastbootUsbState::same_step(second, step) && actions == before_rest
                            + more
                },
            }
        };
    law_chunk_fed(mid, before, host, data, first, before_rest);
    if first == ChunkStep::Done(true) {
        assert(!mid.active());
        let (second, more) = choose|second: ChunkStep, more: Seq<Act>| #[trigger]
            after.chunk_taken(mid, host, contents(trailing), second, more)
                && FastbootUsbState::same_step(second, step) && actions == before_rest + more;
        law_chunk_fed(after, mid, host, contents(trailing), second, more);
        lemma_chunk_fed_or_cut_off(mid, before, host, data, before_rest);
        if second == ChunkStep::Done(true) {
            lemma_chunk_fed_or_cut_off(after, mid, host, contents(trailing), more);
        }
    }
}

/// Data past the end of a download completes it first, and is offered as well where
/// that was dealt with: all of it counts. Where there is no room, what is left is
/// handed back: both parts, or the one past the end.
pub proof fn law_data_past_the_end(
    state: &mut FastbootUsbState,
    block: BytesMut,
    trailing: BytesMut,
    host: UpdateHost,
    out: &mut Vec<UsbAction>,
    step: RxStep,
)
    requires
        old(state).wf(),
        contents(block).len() > 0,
        contents(block).len() == old(state).download_size - old(state).downloaded_size,
        contents(trailing).len() > 0,
        old(state).download_size + contents(trailing).len() <= usize::MAX,
        call_ensures(FastbootUsbState::route, (state, block, Some(trailing), &host, out), step),
    ensures
        step == RxStep::Done(true) ==> final(state).downloaded_size == old(state).download_size
            + contents(trailing).len() && (final(state).fed() == old(state).fed() + contents(block)
            + contents(trailing) || final(state).download->0.tx is None),
        step matches RxStep::Blocked { block: back, trailing: rest } ==> {
            ||| rest == Some(trailing) && contents(back) == contents(block)
                && final(state).downloaded_size == old(state).downloaded_size
            ||| rest is None && contents(back) == contents(trailing)
                && final(state).downloaded_size == old(state).download_size
        },
{
    let actions = choose|actions: Seq<Act>| #[trigger]
        final(state).routed(
            *old(state),
            host,
            contents(block),
            Some(trailing),
            step,
            actions,
        ) && acts(final(out)@) == acts(old(out)@) + actions;
    lemma_routed_past_the_end(
        *final(state),
        *old(state),
        host,
        contents(block),
        trailing,
        step,
        actions,
    );
}

/// A read that holds more than is left of the download is cut at its end.
pub proof fn law_read_past_the_end(
    state: &mut FastbootUsbState,
    chunk: BytesMut,
    host: UpdateHost,
    machine: Machine,
    out: &mut Vec<UsbAction>,
    step: RxStep,
)
    requires
        old(state).wf(),
        old(state).downloaded_size < old(state).download_size,
        contents(chunk).len() > old(state).download_size - old(state).downloaded_size,
        old(state).downloaded_size + contents(chunk).len() <= usize::MAX,
        call_ensures(FastbootUsbState::handle_rx_chunk, (state, chunk, &host, &machine, out), step),
    ensures
        step == RxStep::Done(true) ==> final(state).downloaded_size == old(state).downloaded_size
            + contents(chunk).len() && (final(state).fed() == old(state).fed() + contents(chunk)
            || final(state).download->0.tx is None),
        step matches RxStep::Blocked { block, trailing } ==> ({
            let left = old(state).download_size - old(state).downloaded_size;
            ||| trailing is Some && contents(block) == contents(chunk).take(left) && contents(
                trailing->0,
            ) == contents(chunk).skip(left)
            ||| trailing is None && contents(block) == contents(chunk).skip(left)
        }),
{
    let data = contents(chunk);
    let left = old(state).download_size - old(state).downloaded_size;
    let actions = choose|actions: Seq<Act>| #[trigger]
        final(state).received(*old(state), host, machine, data, step, actions) && acts(final(out)@)
            == acts(old(out)@) + actions;
    let trailing = choose|trailing: BytesMut| #[trigger]
        contents(trailing) == data.skip(left) && final(state).routed(
            *old(state),
            host,
            data.take(left),
            Some(trailing),
            step,
            actions,
        );
    lemma_routed_past_the_end(
        *final(state),
        *old(state),
        host,
        data.take(left),
        trailing,
        step,
        actions,
    );
    assert(old(state).fed() + data.take(left) + data.skip(left) =~= old(state).fed() + data);
}

/// Data that came with the command that announced a download, and for which there is
/// no room, is handed back whole.
pub proof fn law_no_room_at_the_start(
    state: &mut FastbootUsbState,
    len: usize,
    kind: DownloadKind,
    rest: BytesMut,
    host: UpdateHost,
    out: &mut Vec<UsbAction>,
    block: BytesMut,
    trailing: Option<BytesMut>,
)
    requires
        old(state).wf(),
        call_ensures(
            FastbootUsbState::header_sent,
            (state, len, kind, rest, true, &host, out),
            RxStep::Blocked { block, trailing },
        ),
    ensures
        len > 0 && trailing is None && contents(block) == contents(rest),
        final(state).download_size == len && final(state).downloaded_size == 0,
        final(state).fed() == old(state).fed(),
{
    let step = RxStep::Blocked { block, trailing };
    let actions = choose|actions: Seq<Act>| #[trigger]
        final(state).header_reported(
            *old(state),
            host,
            len,
            kind,
            contents(rest),
            true,
            step,
            actions,
        ) && acts(final(out)@) == acts(old(out)@) + actions;
    let announced = old(state).announced(len, kind);
    let first = choose|first: ChunkStep| #[trigger]
        final(state).chunk_taken(announced, host, contents(rest), first, actions)
            && FastbootUsbState::same_step(first, step);
    law_chunk_fed(*final(state), announced, host, contents(rest), first, actions);
}

} // verus!
