//! The selective waiter: a queue of received frames, read in the order of
//! their arrival until an answer of the kind waited for comes up.
//!
//! The protocol has no id that ties an answer to the message that caused it,
//! and the game sends answers of its own accord. So a caller that waits for
//! one kind of answer reads every frame that arrived before it and drops it:
//! a dropped frame is gone, and no later call sees it.

use crate::answers::{
    Answer, AnswerCustomMessage, AnswerError, AnswerGameSaved, AnswerKind, AnswerNewObject,
    AnswerObjectCreated, AnswerPrint, AnswerReload, AnswerReturn, AnswerView,
};
use crate::decode::viewed;
use crate::error::DecodeError;
use std::collections::VecDeque;
use vstd::prelude::*;

verus! {

/// A type that holds the answers of one kind, and so can be waited for.
pub trait Awaited: View<V = AnswerView> + Sized {
    /// The kind of answer that the type holds.
    spec fn awaited() -> AnswerKind;

    /// The kind of answer that the type holds.
    fn kind() -> (kind: AnswerKind)
        ensures
            kind == Self::awaited(),
    ;

    /// The answer as a value of this type, if it is of this type's kind.
    fn narrow(answer: Answer) -> (narrowed: Option<Self>)
        ensures
            narrowed is Some <==> answer@.kind() == Self::awaited(),
            narrowed matches Some(a) ==> a@ == answer@,
    ;
}

impl Awaited for AnswerNewObject {
    open spec fn awaited() -> AnswerKind {
        AnswerKind::NewObject
    }

    fn kind() -> AnswerKind {
        AnswerKind::NewObject
    }

    fn narrow(answer: Answer) -> Option<Self> {
        match Self::try_from(answer) {
            Ok(narrowed) => Some(narrowed),
            Err(_) => None,
        }
    }
}

impl Awaited for AnswerReload {
    open spec fn awaited() -> AnswerKind {
        AnswerKind::Reload
    }

    fn kind() -> AnswerKind {
        AnswerKind::Reload
    }

    fn narrow(answer: Answer) -> Option<Self> {
        match Self::try_from(answer) {
            Ok(narrowed) => Some(narrowed),
            Err(_) => None,
        }
    }
}

impl Awaited for AnswerPrint {
    open spec fn awaited() -> AnswerKind {
        AnswerKind::Print
    }

    fn kind() -> AnswerKind {
        AnswerKind::Print
    }

    fn narrow(answer: Answer) -> Option<Self> {
        match Self::try_from(answer) {
            Ok(narrowed) => Some(narrowed),
            Err(_) => None,
        }
    }
}

impl Awaited for AnswerError {
    open spec fn awaited() -> AnswerKind {
        AnswerKind::Error
    }

    fn kind() -> AnswerKind {
        AnswerKind::Error
    }

    fn narrow(answer: Answer) -> Option<Self> {
        match Self::try_from(answer) {
            Ok(narrowed) => Some(narrowed),
            Err(_) => None,
        }
    }
}

impl Awaited for AnswerCustomMessage {
    open spec fn awaited() -> AnswerKind {
        AnswerKind::CustomMessage
    }

    fn kind() -> AnswerKind {
        AnswerKind::CustomMessage
    }

    fn narrow(answer: Answer) -> Option<Self> {
        match Self::try_from(answer) {
            Ok(narrowed) => Some(narrowed),
            Err(_) => None,
        }
    }
}

impl Awaited for AnswerReturn {
    open spec fn awaited() -> AnswerKind {
        AnswerKind::Return
    }

    fn kind() -> AnswerKind {
        AnswerKind::Return
    }

    fn narrow(answer: Answer) -> Option<Self> {
        match Self::try_from(answer) {
            Ok(narrowed) => Some(narrowed),
            Err(_) => None,
        }
    }
}

impl Awaited for AnswerGameSaved {
    open spec fn awaited() -> AnswerKind {
        AnswerKind::GameSaved
    }

    fn kind() -> AnswerKind {
        AnswerKind::GameSaved
    }

    fn narrow(answer: Answer) -> Option<Self> {
        match Self::try_from(answer) {
            Ok(narrowed) => Some(narrowed),
            Err(_) => None,
        }
    }
}

impl Awaited for AnswerObjectCreated {
    open spec fn awaited() -> AnswerKind {
        AnswerKind::ObjectCreated
    }

    fn kind() -> AnswerKind {
        AnswerKind::ObjectCreated
    }

    fn narrow(answer: Answer) -> Option<Self> {
        match Self::try_from(answer) {
            Ok(narrowed) => Some(narrowed),
            Err(_) => None,
        }
    }
}

/// Whether a caller that waits for `wanted` stops reading at a frame with this
/// text: it stops at an answer of that kind, and at a frame that is no answer.
pub open spec fn stops_at(wanted: AnswerKind, text: Seq<char>) -> bool {
    match AnswerView::of_text(text) {
        Ok(answer) => answer.kind() == wanted,
        Err(_) => true,
    }
}

/// How many frames a caller that waits for `wanted` drops from the head of
/// `frames`: the place of the first frame that it stops at, or the number of
/// frames where it stops at none.
pub open spec fn dropped(wanted: AnswerKind, frames: Seq<Seq<char>>) -> nat
    decreases frames.len(),
{
    if frames.len() == 0 || stops_at(wanted, frames[0]) {
        0
    } else {
        1 + dropped(wanted, frames.skip(1))
    }
}

/// The number of dropped frames is the one place `at` up to which the caller
/// stops at no frame, and which is the end of the queue or a frame that it
/// stops at.
pub proof fn lemma_dropped(wanted: AnswerKind, frames: Seq<Seq<char>>, at: int)
    requires
        0 <= at <= frames.len(),
        forall|i: int| 0 <= i < at ==> !stops_at(wanted, #[trigger] frames[i]),
        at < frames.len() ==> stops_at(wanted, frames[at]),
    ensures
        dropped(wanted, frames) == at,
    decreases frames.len(),
{
    if frames.len() == 0 || stops_at(wanted, frames[0]) {
    } else {
        let rest = frames.skip(1);
        assert forall|i: int| 0 <= i < at - 1 implies !stops_at(wanted, #[trigger] rest[i]) by {
            assert(rest[i] == frames[i + 1]);
        }
        lemma_dropped(wanted, rest, at - 1);
    }
}

/// The caller stops at none of the frames that it drops, and stops at the frame
/// behind them, if there is one.
pub proof fn lemma_dropped_then_stops(wanted: AnswerKind, frames: Seq<Seq<char>>)
    ensures
        dropped(wanted, frames) <= frames.len(),
        forall|i: int|
            0 <= i < dropped(wanted, frames) ==> !stops_at(wanted, #[trigger] frames[i]),
        dropped(wanted, frames) < frames.len() ==> stops_at(
            wanted,
            frames[dropped(wanted, frames) as int],
        ),
    decreases frames.len(),
{
    if frames.len() == 0 || stops_at(wanted, frames[0]) {
    } else {
        let rest = frames.skip(1);
        lemma_dropped_then_stops(wanted, rest);
        assert forall|i: int| 0 <= i < dropped(wanted, frames) implies !stops_at(
            wanted,
            #[trigger] frames[i],
        ) by {
            if i > 0 {
                assert(frames[i] == rest[i - 1]);
            }
        }
        if dropped(wanted, rest) < rest.len() {
            assert(rest[dropped(wanted, rest) as int] == frames[dropped(wanted, frames) as int]);
        }
    }
}

/// Frames that arrive before the answer waited for are dropped for good: where
/// the caller stops at none of the frames `before` and stops at `hit`, it
/// drops exactly the frames `before`, reads `hit`, and leaves exactly the
/// frames `behind`.
pub proof fn lemma_wait_skips(
    wanted: AnswerKind,
    before: Seq<Seq<char>>,
    hit: Seq<char>,
    behind: Seq<Seq<char>>,
)
    requires
        forall|i: int| 0 <= i < before.len() ==> !stops_at(wanted, #[trigger] before[i]),
        stops_at(wanted, hit),
    ensures
        dropped(wanted, before.push(hit) + behind) == before.len(),
        (before.push(hit) + behind)[before.len() as int] == hit,
        (before.push(hit) + behind).skip(before.len() as int + 1) == behind,
{
    let frames = before.push(hit) + behind;
    assert forall|i: int| 0 <= i < before.len() implies !stops_at(wanted, #[trigger] frames[i]) by {
        assert(frames[i] == before[i]);
    }
    lemma_dropped(wanted, frames, before.len() as int);
    assert(frames.skip(before.len() as int + 1) =~= behind);
}

/// Answers are handed out in the order of their arrival: of two frames that
/// the caller stops at, with none between them and none before the first, a
/// first wait reads the first and a second wait, on what the first left, reads
/// the second.
pub proof fn lemma_waits_in_order(
    wanted: AnswerKind,
    before: Seq<Seq<char>>,
    first: Seq<char>,
    between: Seq<Seq<char>>,
    second: Seq<char>,
    behind: Seq<Seq<char>>,
)
    requires
        forall|i: int| 0 <= i < before.len() ==> !stops_at(wanted, #[trigger] before[i]),
        forall|i: int| 0 <= i < between.len() ==> !stops_at(wanted, #[trigger] between[i]),
        stops_at(wanted, first),
        stops_at(wanted, second),
    ensures
        ({
            let frames = before.push(first) + (between.push(second) + behind);
            let left = frames.skip(dropped(wanted, frames) as int + 1);
            &&& frames[dropped(wanted, frames) as int] == first
            &&& left == between.push(second) + behind
            &&& left[dropped(wanted, left) as int] == second
            &&& left.skip(dropped(wanted, left) as int + 1) == behind
        }),
{
    lemma_wait_skips(wanted, before, first, between.push(second) + behind);
    lemma_wait_skips(wanted, between, second, behind);
}

/// The received frames that no caller has read yet, oldest first.
#[derive(Debug, Clone, PartialEq, Eq)]
pub struct Inbox {
    frames: VecDeque<String>,
}

impl View for Inbox {
    type V = Seq<Seq<char>>;

    closed spec fn view(&self) -> Seq<Seq<char>> {
        Seq::new(self.frames@.len(), |i: int| self.frames@[i]@)
    }
}

impl Inbox {
    /// An inbox without frames.
    pub fn new() -> (inbox: Self)
        ensures
            inbox@ == Seq::<Seq<char>>::empty(),
    {
        let inbox = Inbox { frames: VecDeque::new() };
        assert(inbox@ =~= Seq::<Seq<char>>::empty());
        inbox
    }

    /// The number of frames that wait to be read.
    pub fn len(&self) -> (len: usize)
        ensures
            len == self@.len(),
    {
        self.frames.len()
    }

    /// Whether no frame waits to be read.
    pub fn is_empty(&self) -> (empty: bool)
        ensures
            empty == (self@.len() == 0),
    {
        self.frames.len() == 0
    }

    /// Puts a frame that was received behind those that wait.
    pub fn push(&mut self, frame: String)
        ensures
            final(self)@ == old(self)@.push(frame@),
    {
        self.frames.push_back(frame);
        assert(self@ =~= old(self)@.push(frame@));
    }

    /// Takes the oldest frame as it was received.
    pub fn read_string(&mut self) -> (frame: Option<String>)
        ensures
            match frame {
                Some(text) => old(self)@.len() > 0 && text@ == old(self)@[0] && final(self)@
                    == old(self)@.skip(1),
                None => old(self)@.len() == 0 && final(self)@ == old(self)@,
            },
    {
        let frame = self.frames.pop_front();
        proof {
            if frame is Some {
                assert(self@ =~= old(self)@.skip(1));
            } else {
                assert(self@ =~= old(self)@);
            }
        }
        frame
    }

    /// Takes the oldest frame and reads the answer in it.
    pub fn read(&mut self) -> (answer: Option<Result<Answer, DecodeError>>)
        ensures
            match answer {
                Some(outcome) => old(self)@.len() > 0 && viewed(outcome) == AnswerView::of_text(
                    old(self)@[0],
                ) && final(self)@ == old(self)@.skip(1),
                None => old(self)@.len() == 0 && final(self)@ == old(self)@,
            },
    {
        match self.read_string() {
            Some(frame) => Some(Answer::decode(frame.as_str())),
            None => None,
        }
    }

    /// Reads frames, oldest first, up to the first that holds an answer of the
    /// kind `wanted` or that is no answer, and returns what that frame holds.
    /// The frames before it are dropped, and the frames behind it stay. Where
    /// the caller stops at none of the frames, all are dropped and the result
    /// is `None`: the answer has not arrived yet.
    pub fn wait_for(&mut self, wanted: AnswerKind) -> (answer: Option<Result<Answer, DecodeError>>)
        ensures
            match answer {
                Some(outcome) => {
                    let at = dropped(wanted, old(self)@) as int;
                    &&& at < old(self)@.len()
                    &&& viewed(outcome) == AnswerView::of_text(old(self)@[at])
                    &&& final(self)@ == old(self)@.skip(at + 1)
                },
                None => {
                    &&& dropped(wanted, old(self)@) == old(self)@.len()
                    &&& final(self)@ == Seq::<Seq<char>>::empty()
                },
            },
    {
        let ghost mut read: int = 0;
        loop
            invariant
                0 <= read <= old(self)@.len(),
                self@ == old(self)@.skip(read),
                forall|i: int| 0 <= i < read ==> !stops_at(wanted, #[trigger] old(self)@[i]),
            decreases self@.len(),
        {
            let ghost before = self@;
            match self.read() {
                None => {
                    proof {
                        lemma_dropped(wanted, old(self)@, read);
                        assert(self@ =~= Seq::<Seq<char>>::empty());
                    }
                    return None;
                },
                Some(Err(fault)) => {
                    proof {
                        assert(before[0] == old(self)@[read]);
                        lemma_dropped(wanted, old(self)@, read);
                        assert(self@ =~= old(self)@.skip(read + 1));
                    }
                    return Some(Err(fault));
                },
                Some(Ok(found)) => {
                    proof {
                        assert(before[0] == old(self)@[read]);
                        assert(self@ =~= old(self)@.skip(read + 1));
                    }
                    if found.kind() == wanted {
                        proof {
                            lemma_dropped(wanted, old(self)@, read);
                        }
                        return Some(Ok(found));
                    }
                    proof {
                        read = read + 1;
                    }
                },
            }
        }
    }

    /// Waits as [`Inbox::wait_for`] does, for the kind that `T` holds, and
    /// returns the answer as a `T`.
    pub fn wait<T: Awaited>(&mut self) -> (answer: Option<Result<T, DecodeError>>)
        ensures
            match answer {
                Some(outcome) => {
                    let at = dropped(T::awaited(), old(self)@) as int;
                    &&& at < old(self)@.len()
                    &&& viewed(outcome) == AnswerView::of_text(old(self)@[at])
                    &&& final(self)@ == old(self)@.skip(at + 1)
                },
                None => {
                    &&& dropped(T::awaited(), old(self)@) == old(self)@.len()
                    &&& final(self)@ == Seq::<Seq<char>>::empty()
                },
            },
    {
        match self.wait_for(T::kind()) {
            None => None,
            Some(Err(fault)) => Some(Err(fault)),
            Some(Ok(found)) => {
                proof {
                    lemma_dropped_then_stops(T::awaited(), old(self)@);
                }
                let narrowed = T::narrow(found);
                Some(Ok(narrowed.unwrap()))
            },
        }
    }
}

} // verus!
