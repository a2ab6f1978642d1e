//! The update poller's offset cursor: initialization from the most recent
//! update, advancement over a batch, and the laws that make the cursor an
//! acknowledgment mechanism — it never drops an update and never delivers
//! one twice.

use vstd::prelude::*;
use crate::types::{Message, Update, UpdateContent};

verus! {

/// The cursor a fresh poller starts from: one past the most recent update
/// identifier, or zero when none exists yet.
pub open spec fn initial_offset_of(latest_update_id: Option<i64>) -> int {
    match latest_update_id {
        Some(id) => id + 1,
        None => 0,
    }
}

/// Computes the starting offset from the identifier of the most recent
/// update, if any.
pub fn initial_offset(latest_update_id: Option<i64>) -> (off: i64)
    requires
        latest_update_id matches Some(id) ==> id < i64::MAX,
    ensures
        off == initial_offset_of(latest_update_id),
{
    match latest_update_id {
        Some(id) => id + 1,
        None => 0,
    }
}

/// Where the cursor stands after a batch is processed in order: unchanged
/// by an empty batch, and one past the last update's identifier otherwise.
pub open spec fn advanced_offset(start: int, batch: Seq<Update>) -> int {
    if batch.len() == 0 {
        start
    } else {
        batch.last().update_id + 1
    }
}

/// The messages a batch yields to the dispatcher, in batch order; updates
/// of any other content kind yield nothing (but still advance the cursor).
pub open spec fn messages_of(batch: Seq<Update>) -> Seq<Message>
    decreases batch.len(),
{
    if batch.len() == 0 {
        Seq::empty()
    } else {
        messages_of(batch.drop_last()) + (match batch.last().content {
            UpdateContent::Message(m) => seq![m],
            UpdateContent::Other => Seq::empty(),
        })
    }
}

/// Processes one poll batch: advances the cursor past every update,
/// handled or not, and collects exactly the message-bearing updates, in
/// order. Advancing on unhandled updates is what prevents their infinite
/// redelivery.
pub fn process_batch(offset: i64, batch: Vec<Update>) -> (r: (i64, Vec<Message>))
    requires
        forall|i: int| 0 <= i < batch@.len() ==> #[trigger] batch@[i].update_id < i64::MAX,
    ensures
        r.0 == advanced_offset(offset as int, batch@),
        r.1@ == messages_of(batch@),
{
    let ghost orig = batch@;
    let mut rest = batch;
    let mut cur: i64 = offset;
    let mut msgs: Vec<Message> = Vec::new();
    let ghost mut k: int = 0;
    while rest.len() > 0
        invariant
            0 <= k <= orig.len(),
            rest@ == orig.skip(k),
            cur == advanced_offset(offset as int, orig.take(k)),
            msgs@ == messages_of(orig.take(k)),
            forall|i: int| 0 <= i < orig.len() ==> #[trigger] orig[i].update_id < i64::MAX,
        decreases rest@.len(),
    {
        let u = rest.remove(0);
        assert(u == orig[k]);
        assert(orig.take(k + 1).drop_last() =~= orig.take(k));
        assert(orig.take(k + 1).last() == orig[k]);
        assert(rest@ =~= orig.skip(k + 1));
        cur = u.update_id + 1;
        match u.content {
            UpdateContent::Message(m) => {
                msgs.push(m);
            },
            UpdateContent::Other => {},
        }
        proof {
            k = k + 1;
        }
    }
    assert(orig.take(k) =~= orig);
    (cur, msgs)
}

/// Handles the raw bytes of one long-poll response end to end: decodes
/// them by the client's two-step fallback, then advances the cursor over
/// the decoded batch and collects its messages. Any decode outcome other
/// than the typed success shape is handed back as the error it decoded to;
/// the caller treats every such error as fatal — this crate never retries
/// a poll.
pub fn handle_poll_response(offset: i64, body: &Vec<u8>) -> (r: Result<
    (i64, Vec<Message>),
    crate::api::EspBotError,
>)
    ensures
        crate::api::updates_of_json(body@) matches Some(us) ==> (r matches Ok(p) && p.0
            == advanced_offset(offset as int, us) && p.1@ == messages_of(us)),
        crate::api::updates_of_json(body@) is None ==> (crate::api::api_error_of_json(body@)
            matches Some(info) ==> r == Err::<(i64, Vec<Message>), crate::api::EspBotError>(
            crate::api::EspBotError::Api(info),
        )),
        crate::api::updates_of_json(body@) is None && crate::api::api_error_of_json(body@) is None
            ==> (r matches Err(e) && e is Serde),
{
    match crate::api::decode_updates(body) {
        Ok(us) => {
            let (off, msgs) = process_batch(offset, us);
            Ok((off, msgs))
        },
        Err(e) => Err(e),
    }
}

/// A batch as a long poll at cursor `off` returns it: every identifier is
/// at least the cursor, and identifiers are strictly increasing within the
/// batch.
pub open spec fn well_formed_batch(off: int, batch: Seq<Update>) -> bool {
    (forall|i: int| 0 <= i < batch.len() ==> #[trigger] batch[i].update_id >= off)
        && (forall|i: int, j: int|
        0 <= i < j < batch.len() ==> #[trigger] batch[i].update_id < #[trigger] batch[j].update_id)
}

/// Where the cursor stands after a whole sequence of batches, each
/// processed in turn.
pub open spec fn folded_offset(off: int, batches: Seq<Seq<Update>>) -> int
    decreases batches.len(),
{
    if batches.len() == 0 {
        off
    } else {
        advanced_offset(folded_offset(off, batches.drop_last()), batches.last())
    }
}

/// Every batch in the sequence is well formed with respect to the cursor
/// that stood when it was polled.
pub open spec fn well_formed_batches(off: int, batches: Seq<Seq<Update>>) -> bool
    decreases batches.len(),
{
    batches.len() == 0 || (well_formed_batches(off, batches.drop_last()) && well_formed_batch(
        folded_offset(off, batches.drop_last()),
        batches.last(),
    ))
}

/// Law: over any sequence of successful poll batches, the cursor never
/// moves backwards; it ends strictly past every update identifier seen, so
/// no update is ever delivered twice; and as soon as any update was seen
/// at all, the cursor equals the greatest identifier seen plus one —
/// `folded_offset - 1` is itself one of the identifiers, and none exceeds
/// it.
pub proof fn lemma_offset_tracks_batches(off: int, batches: Seq<Seq<Update>>)
    requires
        well_formed_batches(off, batches),
    ensures
        folded_offset(off, batches) >= off,
        forall|b: int, i: int|
            0 <= b < batches.len() && 0 <= i < batches[b].len() ==> #[trigger] batches[b][i].update_id
                < folded_offset(off, batches),
        (exists|b: int| 0 <= b < batches.len() && #[trigger] batches[b].len() > 0) ==> (exists|
            b: int,
            i: int,
        |
            0 <= b < batches.len() && 0 <= i < batches[b].len() && #[trigger] batches[b][i].update_id
                == folded_offset(off, batches) - 1),
    decreases batches.len(),
{
    if batches.len() == 0 {
    } else {
        let prefix = batches.drop_last();
        let last = batches.last();
        lemma_offset_tracks_batches(off, prefix);
        let mid = folded_offset(off, prefix);
        let fin = folded_offset(off, batches);
        assert(forall|b: int| 0 <= b < prefix.len() ==> batches[b] == #[trigger] prefix[b]);
        assert(batches[batches.len() - 1] == last);
        if last.len() == 0 {
            assert(fin == mid);
            assert forall|b: int, i: int|
                0 <= b < batches.len() && 0 <= i < batches[b].len() implies #[trigger] batches[b][i].update_id
                < fin by {
                assert(b < prefix.len());
                assert(batches[b] == prefix[b]);
                assert(prefix[b][i].update_id < mid);
            }
            if exists|b: int| 0 <= b < batches.len() && #[trigger] batches[b].len() > 0 {
                let b0 = choose|b: int| 0 <= b < batches.len() && #[trigger] batches[b].len() > 0;
                assert(b0 < prefix.len());
                assert(prefix[b0].len() > 0);
            }
        } else {
            assert(fin == last.last().update_id + 1);
            assert(last.last() == last[last.len() - 1]);
            assert(last.last().update_id >= mid);
            assert(forall|i: int|
                0 <= i < last.len() ==> #[trigger] last[i].update_id <= last.last().update_id);
            assert forall|b: int, i: int|
                0 <= b < batches.len() && 0 <= i < batches[b].len() implies #[trigger] batches[b][i].update_id
                < fin by {
                if b < prefix.len() {
                    assert(batches[b] == prefix[b]);
                    assert(prefix[b][i].update_id < mid);
                    assert(mid <= fin);
                } else {
                    assert(batches[b] == last);
                    assert(last[i].update_id <= last.last().update_id);
                }
            }
            assert(batches[batches.len() - 1][last.len() - 1].update_id == fin - 1);
        }
    }
}

/// Law: one well-formed batch alone already moves the cursor past each of
/// its updates, and never backwards.
pub proof fn lemma_batch_advances_cursor(off: int, batch: Seq<Update>)
    requires
        well_formed_batch(off, batch),
    ensures
        advanced_offset(off, batch) >= off,
        forall|i: int|
            0 <= i < batch.len() ==> #[trigger] batch[i].update_id < advanced_offset(off, batch),
{
    if batch.len() > 0 {
        assert(batch.last() == batch[batch.len() - 1]);
        assert(forall|i: int|
            0 <= i < batch.len() ==> #[trigger] batch[i].update_id <= batch.last().update_id);
    }
}

} // verus!

