//! Moving blocks from a source into an update, one at a time.

use bytes::BytesMut;
use vstd::prelude::*;

use crate::buffer::contents;
use crate::fault::{ErrorKind, IoError};
use crate::swupdate::config::UpdateHost;
use crate::swupdate::restart::restart_message;
use crate::swupdate::session::{lemma_continues, lemma_flat_push, Feed, SwupdateSession};

verus! {

/// How pumping ended.
#[derive(Debug)]
pub enum PumpToSwupdateEnd {
    /// The source has no more blocks.
    InputClosed,
    /// SWUpdate has come to its verdict, or takes no more data.
    SwupdateFinished(Result<(), IoError>),
}

/// What became of a block.
pub enum PumpStep {
    /// It was taken; go on with the next one.
    Next,
    /// There is no room for it; offer it again with [`offer_block`] once there
    /// is.
    Blocked(BytesMut),
    /// Pumping has ended.
    End(PumpToSwupdateEnd),
    /// The update could not be opened.
    Failed(IoError),
}

/// Whether offering a block to `before` can give `after`.
pub open spec fn offered(
    after: SwupdateSession,
    before: SwupdateSession,
    host: UpdateHost,
    data: Seq<u8>,
    step: PumpStep,
) -> bool {
    if before.idle() && host.restart_pending {
        (step matches PumpStep::Failed(e) && e.says(ErrorKind::Other, restart_message())) && after
            == before
    } else {
        exists|feed: Feed| #[trigger]
            after.after_feed(before, host, data, feed) && (match feed {
                Feed::Queued(_) => step == PumpStep::Next,
                Feed::Full(back) => step == PumpStep::Blocked(back),
                Feed::Closed => step == PumpStep::End(
                    PumpToSwupdateEnd::SwupdateFinished(Ok(())),
                ),
            })
    }
}

/// Offers a block to SWUpdate.
pub fn offer_block(sink: &mut SwupdateSession, block: BytesMut, host: &UpdateHost) -> (step:
    PumpStep)
    requires
        old(sink).wf(),
    ensures
        final(sink).wf(),
        offered(*final(sink), *old(sink), *host, contents(block), step),
{
    let ghost data = contents(block);
    match sink.try_send(host, block) {
        Ok(feed) => {
            assert(sink.after_feed(*old(sink), *host, data, feed));
            match feed {
                Feed::Queued(_len) => PumpStep::Next,
                Feed::Full(back) => PumpStep::Blocked(back),
                Feed::Closed => PumpStep::End(PumpToSwupdateEnd::SwupdateFinished(Ok(()))),
            }
        },
        Err(err) => PumpStep::Failed(err),
    }
}

/// Whether pumping a block into `before` can give `after`: a verdict that is
/// there ends the pumping, and the block is not offered any more.
pub open spec fn pumped(
    after: SwupdateSession,
    before: SwupdateSession,
    host: UpdateHost,
    data: Seq<u8>,
    step: PumpStep,
) -> bool {
    if !before.opened() {
        offered(after, before, host, data, step)
    } else {
        exists|looked: SwupdateSession, verdict: Option<Result<(), IoError>>|
            {
                &&& #[trigger] looked.after_look(before, verdict)
                &&& looked.wf()
                &&& match verdict {
                    Some(v) => after == looked && step == PumpStep::End(
                        PumpToSwupdateEnd::SwupdateFinished(v),
                    ),
                    None => offered(after, looked, host, data, step),
                }
            }
    }
}

/// Pumps a block into SWUpdate, unless it has come to its verdict.
pub fn pump_block(sink: &mut SwupdateSession, block: BytesMut, host: &UpdateHost) -> (step:
    PumpStep)
    requires
        old(sink).wf(),
    ensures
        final(sink).wf(),
        pumped(*final(sink), *old(sink), *host, contents(block), step),
{
    if !sink.is_open() {
        return offer_block(sink, block, host);
    }
    let verdict = sink.try_finished();
    assert(sink.after_look(*old(sink), verdict));
    match verdict {
        Some(v) => PumpStep::End(PumpToSwupdateEnd::SwupdateFinished(v)),
        None => offer_block(sink, block, host),
    }
}

/// Pumps the next block of a source into SWUpdate, or ends the pumping where
/// there is none.
pub fn pump_to_swupdate(
    sink: &mut SwupdateSession,
    block: Option<BytesMut>,
    host: &UpdateHost,
) -> (step: PumpStep)
    requires
        old(sink).wf(),
    ensures
        final(sink).wf(),
        match block {
            Some(b) => pumped(*final(sink), *old(sink), *host, contents(b), step),
            None => step == PumpStep::End(PumpToSwupdateEnd::InputClosed)
                && *final(sink) == *old(sink),
        },
{
    match block {
        Some(block) => pump_block(sink, block, host),
        None => PumpStep::End(PumpToSwupdateEnd::InputClosed),
    }
}

/// A block that was pumped in is fed to SWUpdate as it is, behind what was fed
/// before and into the same queue; one that it had no room for is handed back
/// whole.
pub proof fn law_pumped_in_order(
    after: SwupdateSession,
    before: SwupdateSession,
    host: UpdateHost,
    data: Seq<u8>,
    step: PumpStep,
)
    requires
        before.wf(),
        pumped(after, before, host, data, step),
    ensures
        step == PumpStep::Next ==> after.fed() == before.fed() + data,
        step matches PumpStep::Blocked(back) ==> contents(back) == data && after.fed()
            == before.fed(),
        step == PumpStep::Next || step is Blocked ==> after.tx is Some && after.continues(before),
{
    if !before.opened() {
        law_offered_in_order(after, before, host, data, step);
    } else {
        let (looked, verdict) = choose|
            looked: SwupdateSession,
            verdict: Option<Result<(), IoError>>,
        |
            {
                &&& #[trigger] looked.after_look(before, verdict)
                &&& looked.wf()
                &&& match verdict {
                    Some(v) => after == looked && step == PumpStep::End(
                        PumpToSwupdateEnd::SwupdateFinished(v),
                    ),
                    None => offered(after, looked, host, data, step),
                }
            };
        if verdict is None {
            law_offered_in_order(after, looked, host, data, step);
            assert(looked.tx == before.tx);
        }
    }
}

/// A block that was offered and taken is fed to SWUpdate as it is, behind what
/// was fed before and into the same queue; one that it had no room for is handed
/// back whole.
pub proof fn law_offered_in_order(
    after: SwupdateSession,
    before: SwupdateSession,
    host: UpdateHost,
    data: Seq<u8>,
    step: PumpStep,
)
    requires
        before.wf(),
        offered(after, before, host, data, step),
    ensures
        step == PumpStep::Next ==> after.fed() == before.fed() + data,
        step matches PumpStep::Blocked(back) ==> contents(back) == data && after.fed()
            == before.fed(),
        step == PumpStep::Next || step is Blocked ==> after.tx is Some && after.continues(before),
{
    lemma_flat_push(before.sent@, data);
    if before.idle() {
        assert(before.sent@ =~= Seq::empty());
    }
}

/// The blocks among `blocks` that were taken, put together; the others had to
/// be offered again.
pub open spec fn taken(blocks: Seq<Seq<u8>>, steps: Seq<PumpStep>) -> Seq<u8>
    decreases blocks.len(),
{
    if blocks.len() == 0 {
        Seq::empty()
    } else {
        taken(blocks.drop_last(), steps.drop_last()) + (if steps.last() == PumpStep::Next {
            blocks.last()
        } else {
            Seq::empty()
        })
    }
}

/// However a source is cut into blocks, and however often one of them has to
/// wait for room, SWUpdate is fed exactly the blocks that were taken, whole and
/// in order, through one queue.
pub proof fn law_source_arrives_whole(
    sessions: Seq<SwupdateSession>,
    host: UpdateHost,
    blocks: Seq<Seq<u8>>,
    steps: Seq<PumpStep>,
)
    requires
        sessions.len() == blocks.len() + 1,
        steps.len() == blocks.len(),
        forall|i: int| 0 <= i < sessions.len() ==> (#[trigger] sessions[i]).wf(),
        forall|i: int|
            0 <= i < blocks.len() ==> (pumped(
                sessions[i + 1],
                sessions[i],
                host,
                #[trigger] blocks[i],
                steps[i],
            ) || offered(sessions[i + 1], sessions[i], host, blocks[i], steps[i])),
        forall|i: int|
            0 <= i < steps.len() ==> (#[trigger] steps[i] == PumpStep::Next || steps[i] is Blocked),
    ensures
        sessions.last().fed() == sessions[0].fed() + taken(blocks, steps),
        sessions.last().continues(sessions[0]),
        blocks.len() > 0 ==> sessions.last().tx is Some,
    decreases blocks.len(),
{
    if blocks.len() == 0 {
        assert(sessions[0].fed() + taken(blocks, steps) =~= sessions[0].fed());
        lemma_continues(sessions[0], sessions[0], sessions[0]);
    } else {
        let n = blocks.len() - 1;
        let earlier = sessions.drop_last();
        let first = blocks.drop_last();
        let before = steps.drop_last();
        assert forall|i: int| 0 <= i < first.len() implies (pumped(
            earlier[i + 1],
            earlier[i],
            host,
            #[trigger] first[i],
            before[i],
        ) || offered(earlier[i + 1], earlier[i], host, first[i], before[i])) by {
            assert(first[i] == blocks[i] && before[i] == steps[i]);
            assert(earlier[i] == sessions[i] && earlier[i + 1] == sessions[i + 1]);
        }
        assert forall|i: int| 0 <= i < earlier.len() implies (#[trigger] earlier[i]).wf() by {
            assert(earlier[i] == sessions[i]);
        }
        assert forall|i: int| 0 <= i < before.len() implies (#[trigger] before[i] == PumpStep::Next
            || before[i] is Blocked) by {
            assert(before[i] == steps[i]);
        }
        law_source_arrives_whole(earlier, host, first, before);
        assert(earlier.last() == sessions[n]);
        let block = blocks[n];
        if pumped(sessions[n + 1], sessions[n], host, block, steps[n]) {
            law_pumped_in_order(sessions[n + 1], sessions[n], host, block, steps[n]);
        } else {
            law_offered_in_order(sessions[n + 1], sessions[n], host, block, steps[n]);
        }
        assert(steps[n] == PumpStep::Next || steps[n] is Blocked);
        lemma_continues(sessions[n + 1], sessions[n], sessions[0]);
        assert(sessions[0].fed() + taken(first, before) + block =~= sessions[0].fed() + (taken(
            first,
            before,
        ) + block));
        assert(taken(first, before) + Seq::<u8>::empty() =~= taken(first, before));
    }
}

/// What became of a block of a source: without one the source has ended; where no
/// transfer is open and a restart is due the update cannot be opened; a block that
/// was taken has been fed, and one without room comes back whole.
pub proof fn law_pump(
    sink: &mut SwupdateSession,
    block: Option<BytesMut>,
    host: UpdateHost,
    step: PumpStep,
)
    requires
        old(sink).wf(),
        call_ensures(pump_to_swupdate, (sink, block, &host), step),
    ensures
        block is None ==> step == PumpStep::End(PumpToSwupdateEnd::InputClosed) && *final(sink)
            == *old(sink),
        block is Some ==> step != PumpStep::End(PumpToSwupdateEnd::InputClosed),
        block matches Some(b) ==> (step is Next ==> final(sink).fed() == old(sink).fed()
            + contents(b)),
        block matches Some(b) ==> (step matches PumpStep::Blocked(back) ==> contents(back)
            == contents(b) && final(sink).fed() == old(sink).fed()),
        step is Failed ==> host.restart_pending && old(sink).tx is None && old(sink).status is None
            && old(sink).terminal is None,
        block is Some && host.restart_pending && old(sink).tx is None && old(sink).status is None
            && old(sink).terminal is None ==> (step matches PumpStep::Failed(e) && e.kind
            == ErrorKind::Other && e.message@
            == "restart pending after successful SWUpdate; rejecting new update"@),
        block is Some && old(sink).opened() ==> (old(sink).terminal matches Some(Err(text)) ==> (
        step matches PumpStep::End(PumpToSwupdateEnd::SwupdateFinished(Err(e))) && e.message@
            == text@)),
        block is Some && old(sink).opened() ==> (old(sink).terminal matches Some(Ok(_)) ==> (
        step matches PumpStep::End(PumpToSwupdateEnd::SwupdateFinished(Ok(_))))),
{
    if let Some(b) = block {
        law_pumped_in_order(*final(sink), *old(sink), host, contents(b), step);
    }
}

/// A block that is offered again is either taken, or comes back whole, or is not
/// wanted any more, or cannot be taken while a restart is due.
pub proof fn law_offer(
    sink: &mut SwupdateSession,
    block: BytesMut,
    host: UpdateHost,
    step: PumpStep,
)
    requires
        old(sink).wf(),
        call_ensures(offer_block, (sink, block, &host), step),
    ensures
        step is Next ==> final(sink).fed() == old(sink).fed() + contents(block) && final(sink).tx
            is Some,
        step matches PumpStep::Blocked(back) ==> contents(back) == contents(block)
            && final(sink).fed() == old(sink).fed(),
        step matches PumpStep::End(end) ==> end == PumpToSwupdateEnd::SwupdateFinished(Ok(()))
            && final(sink).tx is None,
        step is Failed <==> host.restart_pending && old(sink).tx is None && old(sink).status is None
            && old(sink).terminal is None,
{
    law_offered_in_order(*final(sink), *old(sink), host, contents(block), step);
}

/// Pumping a block is pumping the next one of a source.
pub proof fn law_pump_block(
    sink: &mut SwupdateSession,
    block: BytesMut,
    host: UpdateHost,
    step: PumpStep,
)
    requires
        old(sink).wf(),
        call_ensures(pump_block, (sink, block, &host), step),
    ensures
        step is Next ==> final(sink).fed() == old(sink).fed() + contents(block),
        step matches PumpStep::Blocked(back) ==> contents(back) == contents(block)
            && final(sink).fed() == old(sink).fed(),
        step != PumpStep::End(PumpToSwupdateEnd::InputClosed),
        old(sink).opened() ==> (old(sink).terminal matches Some(Err(text)) ==> (
        step matches PumpStep::End(PumpToSwupdateEnd::SwupdateFinished(Err(e))) && e.message@
            == text@)),
        step is Failed <==> host.restart_pending && old(sink).idle(),
{
    law_pumped_in_order(*final(sink), *old(sink), host, contents(block), step);
}

} // verus!
