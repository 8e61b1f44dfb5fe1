//! What holds of a whole drain: the bytes of the controller are read,
//! decoded and handed out in the order in which the controller gives them,
//! and the drain ends when a read times out.

use vstd::prelude::*;
use crate::decoder::{feed_model, Us104Keyboard};
use crate::driver::{is_ready, DriverView, Job, Task};
use crate::driver_laws::{never_ready, status_replies};
use crate::interrupt::{
    character_in, drain_model, handler_model, queue_model, DrainStep, DrainView,
};
use crate::protocol::{Access, Reply, Request, TIMEOUT};

verus! {

/// How far a drain has come: its three parts, the characters handed to the
/// sink so far, and the access that it asks for next, if it is not over.
pub struct Drained {
    pub parts: DrainView,
    pub emitted: Seq<char>,
    pub next: Option<Request>,
}

/// The characters that one step hands to the sink: one or none.
pub open spec fn emitted_by(step: DrainStep) -> Seq<char> {
    match step.emit {
        Some(c) => seq![c],
        None => Seq::empty(),
    }
}

/// A drain as the handler begins it on these parts.
pub open spec fn drain_begun(parts: DrainView) -> Drained {
    let (driver, step) = handler_model(parts.driver);
    Drained {
        parts: DrainView { driver, keyboard: parts.keyboard, queued: parts.queued },
        emitted: Seq::empty(),
        next: step.next,
    }
}

/// The drain after the host has reported each of `replies` in turn.
pub open spec fn drain_run(start: Drained, replies: Seq<Reply>) -> Drained
    decreases replies.len(),
{
    if replies.len() == 0 {
        start
    } else {
        let before = drain_run(start, replies.drop_last());
        let (parts, step) = drain_model(before.parts, replies.last());
        Drained { parts, emitted: before.emitted + emitted_by(step), next: step.next }
    }
}

/// What the host reports while the controller gives `bytes`: for each byte
/// the status `ready`, then the byte.
pub open spec fn fifo_replies(bytes: Seq<u8>, ready: u8) -> Seq<Reply>
    decreases bytes.len(),
{
    if bytes.len() == 0 {
        Seq::empty()
    } else {
        fifo_replies(bytes.drop_last(), ready).push(Reply::Status(ready)).push(
            Reply::Data(bytes.last()),
        )
    }
}

/// The keyboard after `bytes` have gone through the decoder one by one, and
/// the characters that they came to, in their order.
pub open spec fn decode_all(keyboard: Us104Keyboard, bytes: Seq<u8>) -> (Us104Keyboard, Seq<char>)
    decreases bytes.len(),
{
    if bytes.len() == 0 {
        (keyboard, Seq::empty())
    } else {
        let (before, characters) = decode_all(keyboard, bytes.drop_last());
        let (after, key) = feed_model(before, bytes.last());
        (
            after,
            match character_in(key) {
                Some(c) => characters.push(c),
                None => characters,
            },
        )
    }
}

/// What the key buffer holds after `characters` were offered to it one by
/// one.
pub open spec fn queue_all(queued: Seq<u8>, characters: Seq<char>) -> Seq<u8>
    decreases characters.len(),
{
    if characters.len() == 0 {
        queued
    } else {
        queue_model(queue_all(queued, characters.drop_last()), Some(characters.last()))
    }
}

/// The driver in the middle of a drain: a read has just been begun.
pub open spec fn reading(d: DriverView) -> DriverView {
    DriverView {
        state: d.state,
        job: Job::Waiting { task: Task::Read, access: Access::ReadData, polls: 0 },
    }
}

/// A run over two stretches of replies is the run over the second, begun
/// where the run over the first ended.
pub proof fn lemma_drain_run_splits(start: Drained, first: Seq<Reply>, second: Seq<Reply>)
    ensures
        drain_run(start, first + second) == drain_run(drain_run(start, first), second),
    decreases second.len(),
{
    if second.len() == 0 {
        assert(first + second =~= first);
    } else {
        lemma_drain_run_splits(start, first, second.drop_last());
        assert((first + second).drop_last() =~= first + second.drop_last());
        assert((first + second).last() == second.last());
    }
}

/// While the controller gives bytes, the drain takes each of them: it goes
/// through the decoder, the character that it comes to, if any, goes to the
/// sink and to the key buffer, all in the order of the bytes, and the next
/// read is begun. A drain does not end while bytes come.
pub proof fn lemma_drain_takes_bytes_in_order(parts: DrainView, bytes: Seq<u8>, ready: u8)
    requires
        !(parts.driver.state is Faulted),
        is_ready(ready),
    ensures
        drain_run(drain_begun(parts), fifo_replies(bytes, ready)) == (Drained {
            parts: DrainView {
                driver: reading(parts.driver),
                keyboard: decode_all(parts.keyboard, bytes).0,
                queued: queue_all(parts.queued, decode_all(parts.keyboard, bytes).1),
            },
            emitted: decode_all(parts.keyboard, bytes).1,
            next: Some(Request::ReadStatus),
        }),
    decreases bytes.len(),
{
    if bytes.len() > 0 {
        let earlier = bytes.drop_last();
        lemma_drain_takes_bytes_in_order(parts, earlier, ready);
        let begun = drain_begun(parts);
        let polled = fifo_replies(earlier, ready).push(Reply::Status(ready));
        let whole = fifo_replies(bytes, ready);
        assert(polled.drop_last() =~= fifo_replies(earlier, ready));
        assert(whole.drop_last() =~= polled);
        let at_poll = drain_run(begun, polled);
        assert(at_poll.emitted =~= decode_all(parts.keyboard, earlier).1);
        let (keyboard, characters) = decode_all(parts.keyboard, earlier);
        let key = feed_model(keyboard, bytes.last()).1;
        match character_in(key) {
            Some(c) => {
                assert(characters + seq![c] =~= characters.push(c));
                assert(characters.push(c).drop_last() =~= characters);
            },
            None => {
                assert(characters + Seq::<char>::empty() =~= characters);
            },
        }
    }
}

/// While the controller has nothing, the drain polls on, hands out nothing
/// and changes neither the decoder nor the key buffer; at the `TIMEOUT`-th
/// poll the read is given up, and the drain is over with the driver idle.
pub proof fn lemma_drain_ends_at_timeout(parts: DrainView, statuses: Seq<u8>)
    requires
        parts.driver == reading(parts.driver),
        !(parts.driver.state is Faulted),
        never_ready(statuses),
        statuses.len() <= TIMEOUT,
    ensures
        statuses.len() < TIMEOUT ==> drain_run(
            Drained { parts, emitted: Seq::empty(), next: Some(Request::ReadStatus) },
            status_replies(statuses),
        ) == (Drained {
            parts: DrainView {
                driver: DriverView {
                    state: parts.driver.state,
                    job: Job::Waiting {
                        task: Task::Read,
                        access: Access::ReadData,
                        polls: statuses.len() as usize,
                    },
                },
                keyboard: parts.keyboard,
                queued: parts.queued,
            },
            emitted: Seq::empty(),
            next: Some(Request::ReadStatus),
        }),
        statuses.len() == TIMEOUT ==> drain_run(
            Drained { parts, emitted: Seq::empty(), next: Some(Request::ReadStatus) },
            status_replies(statuses),
        ) == (Drained {
            parts: DrainView {
                driver: DriverView { state: parts.driver.state, job: Job::Idle },
                keyboard: parts.keyboard,
                queued: parts.queued,
            },
            emitted: Seq::empty(),
            next: None,
        }),
    decreases statuses.len(),
{
    let replies = status_replies(statuses);
    if statuses.len() > 0 {
        let earlier = statuses.drop_last();
        assert(never_ready(earlier)) by {
            assert forall|i: int| 0 <= i < earlier.len() implies !is_ready(
                #[trigger] earlier[i],
            ) by {
                assert(earlier[i] == statuses[i]);
            }
        }
        lemma_drain_ends_at_timeout(parts, earlier);
        assert(replies.drop_last() =~= status_replies(earlier));
        assert(replies.last() == Reply::Status(statuses.last()));
        assert(!is_ready(statuses[statuses.len() - 1]));
        assert(Seq::<char>::empty() + Seq::<char>::empty() =~= Seq::<char>::empty());
    }
}

/// A whole interrupt: when the controller gives `bytes` and then nothing,
/// the drain takes exactly these bytes. The sink gets the characters that
/// they come to, in their order, the key buffer is offered the same, the
/// decoder has seen every byte, and the driver is idle in the state it had.
pub proof fn lemma_drain_to_empty(parts: DrainView, bytes: Seq<u8>, ready: u8, empties: Seq<u8>)
    requires
        !(parts.driver.state is Faulted),
        is_ready(ready),
        never_ready(empties),
        empties.len() == TIMEOUT,
    ensures
        drain_run(drain_begun(parts), fifo_replies(bytes, ready) + status_replies(empties)) == (
            Drained {
                parts: DrainView {
                    driver: DriverView { state: parts.driver.state, job: Job::Idle },
                    keyboard: decode_all(parts.keyboard, bytes).0,
                    queued: queue_all(parts.queued, decode_all(parts.keyboard, bytes).1),
                },
                emitted: decode_all(parts.keyboard, bytes).1,
                next: None,
            }
        ),
{
    let begun = drain_begun(parts);
    lemma_drain_takes_bytes_in_order(parts, bytes, ready);
    lemma_drain_run_splits(begun, fifo_replies(bytes, ready), status_replies(empties));
    let fed = drain_run(begun, fifo_replies(bytes, ready));
    lemma_drain_continues(fed, status_replies(empties));
    lemma_drain_ends_at_timeout(fed.parts, empties);
    assert(fed.emitted + Seq::<char>::empty() =~= fed.emitted);
}

/// What a run hands out does not depend on what was handed out before it:
/// the earlier characters stay in front.
pub proof fn lemma_drain_continues(start: Drained, replies: Seq<Reply>)
    ensures
        drain_run(start, replies).parts == drain_run(
            Drained { parts: start.parts, emitted: Seq::empty(), next: start.next },
            replies,
        ).parts,
        drain_run(start, replies).emitted == start.emitted + drain_run(
            Drained { parts: start.parts, emitted: Seq::empty(), next: start.next },
            replies,
        ).emitted,
        replies.len() > 0 ==> drain_run(start, replies).next == drain_run(
            Drained { parts: start.parts, emitted: Seq::empty(), next: start.next },
            replies,
        ).next,
    decreases replies.len(),
{
    let fresh = Drained { parts: start.parts, emitted: Seq::empty(), next: start.next };
    if replies.len() == 0 {
        assert(start.emitted + Seq::<char>::empty() =~= start.emitted);
    } else {
        lemma_drain_continues(start, replies.drop_last());
        let before = drain_run(start, replies.drop_last());
        let fresh_before = drain_run(fresh, replies.drop_last());
        let step = drain_model(before.parts, replies.last()).1;
        assert(before.emitted + emitted_by(step) =~= start.emitted + (fresh_before.emitted
            + emitted_by(step)));
    }
}

} // verus!
