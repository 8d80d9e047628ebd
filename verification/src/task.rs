//! Rules of the task loops that run processors and sinks.
use crate::channel::{sent, SendError, TrySend};
use crate::pad::PadSender;
use vstd::prelude::*;

verus! {

/// Milliseconds that a processor sleeps while nothing wants its output.
pub const IDLE_SLEEP_MS: u64 = 50;

/// What a processor loop does next.
#[derive(Clone, Copy, Debug, PartialEq, Eq, Structural)]
pub enum LoopAction {
    /// Pull the next packet.
    Pull,
    /// Sleep this many milliseconds, then ask again. Packets are left where they
    /// are.
    Sleep(u64),
}

/// Decides whether a processor pulls a packet: only where it is wanted, so that
/// nothing is consumed to be dropped.
pub fn before_pull(should_process: bool) -> (r: LoopAction)
    ensures
        r == if should_process {
            LoopAction::Pull
        } else {
            LoopAction::Sleep(50)
        },
{
    if should_process {
        LoopAction::Pull
    } else {
        LoopAction::Sleep(IDLE_SLEEP_MS)
    }
}

/// Whether delivery of an item goes on to the next pad: a full pad drops its copy
/// only, a closed pad ends the delivery of this item.
pub open spec fn goes_on(result: Result<(), SendError>) -> bool {
    result != Err::<(), SendError>(SendError::Closed)
}

/// Whether delivery of an item goes on to the next pad.
pub fn keeps_delivering(result: Result<(), SendError>) -> (r: bool)
    ensures
        r == goes_on(result),
{
    match result {
        Ok(_) => true,
        Err(SendError::Full) => true,
        Err(SendError::Closed) => false,
    }
}

/// Whether a pad may be sent copies of an item: a direct pad's handler must take
/// them.
pub open spec fn takes_copies<T: Clone + 'static, H: Fn(T)>(pad: PadSender<T, H>, item: T) -> bool {
    pad.is_direct() ==> forall|copy: T| #[trigger]
        cloned(item, copy) ==> call_requires(pad.handler(), (copy,))
}

/// Whether a pad gave an answer to a copy of an item: a direct pad's handler was
/// called with one, or it went into the pad's channel.
pub open spec fn was_offered<T: Clone + 'static, H: Fn(T)>(
    pad: PadSender<T, H>,
    item: T,
    answer: Result<(), SendError>,
) -> bool {
    exists|copy: T| #[trigger]
        cloned(item, copy) && (if pad.is_direct() {
            answer is Ok && call_ensures(pad.handler(), (copy,), ())
        } else {
            exists|a: TrySend| #[trigger] pad.channel().may_answer(copy, a) && answer == sent(a)
        })
}

/// Sends a copy of an item to one pad.
pub fn deliver_to_pad<T: Clone + 'static, H: Fn(T)>(pad: &PadSender<T, H>, item: &T) -> (r: Result<
    (),
    SendError,
>)
    requires
        takes_copies(*pad, *item),
    ensures
        was_offered(*pad, *item, r),
{
    let copy: T = item.clone();
    assert(cloned(*item, copy));
    pad.send(copy)
}

/// Whether these are the answers of the pads that one item was offered to: pads in
/// order, up to the first that is closed.
pub open spec fn is_delivery<T: Clone + 'static, H: Fn(T)>(
    pads: Seq<PadSender<T, H>>,
    item: T,
    answers: Seq<Result<(), SendError>>,
) -> bool {
    &&& answers.len() <= pads.len()
    &&& forall|j: int| 0 <= j < answers.len() ==> was_offered(pads[j], item, #[trigger] answers[j])
    &&& forall|j: int| 0 <= j < answers.len() - 1 ==> goes_on(#[trigger] answers[j])
    &&& answers.len() < pads.len() ==> answers.len() > 0 && !goes_on(answers.last())
}

/// Delivers one item to the pads in order. A full pad drops its copy without
/// affecting the others; a closed pad ends the delivery. Returns what the pads
/// answered.
pub fn deliver<T: Clone + 'static, H: Fn(T)>(pads: &[PadSender<T, H>], item: &T) -> (r: Vec<
    Result<(), SendError>,
>)
    requires
        forall|j: int| 0 <= j < pads@.len() ==> takes_copies(#[trigger] pads@[j], *item),
    ensures
        is_delivery(pads@, *item, r@),
{
    let mut answers: Vec<Result<(), SendError>> = Vec::new();
    let mut i: usize = 0;
    while i < pads.len()
        invariant
            i <= pads@.len(),
            answers@.len() == i,
            forall|j: int| 0 <= j < pads@.len() ==> takes_copies(#[trigger] pads@[j], *item),
            forall|j: int|
                0 <= j < i ==> was_offered(pads@[j], *item, #[trigger] answers@[j]) && goes_on(
                    answers@[j],
                ),
        decreases pads@.len() - i,
    {
        assert(takes_copies(pads@[i as int], *item));
        let answer = deliver_to_pad(&pads[i], item);
        answers.push(answer);
        if !keeps_delivering(answer) {
            return answers;
        }
        i = i + 1;
    }
    answers
}

/// Delivers a batch of items to every pad, one item after the other. Returns what
/// the pads answered to each.
pub fn fan_out<T: Clone + 'static, H: Fn(T)>(pads: &[PadSender<T, H>], items: &[T]) -> (r: Vec<
    Vec<Result<(), SendError>>,
>)
    requires
        forall|i: int, j: int|
            0 <= i < items@.len() && 0 <= j < pads@.len() ==> takes_copies(
                #[trigger] pads@[j],
                #[trigger] items@[i],
            ),
    ensures
        r@.len() == items@.len(),
        forall|i: int|
            0 <= i < items@.len() ==> is_delivery(pads@, items@[i], (#[trigger] r@[i])@),
{
    let mut all: Vec<Vec<Result<(), SendError>>> = Vec::new();
    let mut i: usize = 0;
    while i < items.len()
        invariant
            i <= items@.len(),
            all@.len() == i,
            forall|i: int, j: int|
                0 <= i < items@.len() && 0 <= j < pads@.len() ==> takes_copies(
                    #[trigger] pads@[j],
                    #[trigger] items@[i],
                ),
            forall|k: int| 0 <= k < i ==> is_delivery(pads@, items@[k], (#[trigger] all@[k])@),
        decreases items@.len() - i,
    {
        let item: &T = &items[i];
        assert(*item == items@[i as int]);
        all.push(deliver(pads, item));
        i = i + 1;
    }
    all
}

/// A pad that is full costs no other pad its copy: where no pad is closed, every
/// pad is offered the item.
pub proof fn law_full_pads_do_not_stop_delivery<T: Clone + 'static, H: Fn(T)>(
    pads: Seq<PadSender<T, H>>,
    item: T,
    answers: Seq<Result<(), SendError>>,
)
    requires
        is_delivery(pads, item, answers),
        forall|j: int| 0 <= j < answers.len() ==> goes_on(#[trigger] answers[j]),
    ensures
        answers.len() == pads.len(),
{
    if answers.len() < pads.len() {
        assert(goes_on(answers[answers.len() - 1]));
    }
}

/// Only a closed pad ends the delivery of an item.
pub proof fn law_only_closed_pads_end_delivery(result: Result<(), SendError>)
    ensures
        result is Ok ==> goes_on(result),
        result == Err::<(), SendError>(SendError::Full) ==> goes_on(result),
        result == Err::<(), SendError>(SendError::Closed) ==> !goes_on(result),
{
}

/// A processor pulls exactly where its output is wanted.
pub proof fn law_processors_pull_what_is_wanted(should_process: bool, r: LoopAction)
    requires
        call_ensures(before_pull, (should_process,), r),
    ensures
        r == LoopAction::Pull <==> should_process,
        r is Sleep <==> !should_process,
{
}

/// A closed pad is the last one that an item is offered to.
pub proof fn law_closed_pad_is_the_last<T: Clone + 'static, H: Fn(T)>(
    pads: Seq<PadSender<T, H>>,
    item: T,
    answers: Seq<Result<(), SendError>>,
    j: int,
)
    requires
        is_delivery(pads, item, answers),
        0 <= j < answers.len(),
        answers[j] == Err::<(), SendError>(SendError::Closed),
    ensures
        j == answers.len() - 1,
{
    if j < answers.len() - 1 {
        assert(goes_on(answers[j]));
    }
}

} // verus!
