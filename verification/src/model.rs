//! The registry as a mathematical state, and what holds of every run of it.

use crate::error::Error;
use crate::roles::PowerLevel;
use vstd::prelude::*;

verus! {

/// A stored question: its prompt and the digest of its answer.
pub struct QuestionView {
    pub prompt: Seq<char>,
    pub digest: Seq<u8>,
}

/// The state of a registry.
pub struct QuizView {
    /// The identity that created the registry.
    pub owner: Seq<u8>,
    /// The questions in the order in which they were added.
    pub questions: Seq<QuestionView>,
    /// The role of each identity that has one.
    pub actors: Map<Seq<u8>, PowerLevel>,
}

/// One mutating call on a registry.
pub enum Call {
    /// `caller` submits a question.
    AddQuestion { caller: Seq<u8>, question: QuestionView },
    /// `caller` names `target` as an educator.
    AddEducator { caller: Seq<u8>, target: Seq<u8> },
}

impl QuizView {
    /// The state right after `caller` created the registry.
    pub open spec fn created(caller: Seq<u8>) -> QuizView {
        QuizView {
            owner: caller,
            questions: Seq::empty(),
            actors: Map::empty().insert(caller, PowerLevel::Educator),
        }
    }

    /// The owner holds the educator role.
    pub open spec fn valid(self) -> bool {
        self.actors.contains_key(self.owner) && self.actors[self.owner] == PowerLevel::Educator
    }

    /// Whether `id` holds exactly the role `level`.
    pub open spec fn check_role(self, id: Seq<u8>, level: PowerLevel) -> Result<(), Error> {
        if !self.actors.contains_key(id) {
            Err(Error::InvalidCaller)
        } else if self.actors[id] != level {
            Err(Error::InvalidPowerLevel)
        } else {
            Ok(())
        }
    }

    /// Whether `id` is the owner.
    pub open spec fn check_owner(self, id: Seq<u8>) -> Result<(), Error> {
        if id == self.owner {
            Ok(())
        } else {
            Err(Error::InvalidCaller)
        }
    }

    /// The state after `caller` submitted `question`: appended for an educator,
    /// unchanged for anybody else.
    pub open spec fn add_question(self, caller: Seq<u8>, question: QuestionView) -> QuizView {
        if self.check_role(caller, PowerLevel::Educator) is Ok {
            QuizView { questions: self.questions.push(question), ..self }
        } else {
            self
        }
    }

    /// The state after `caller` named `target` as an educator: granted when
    /// the owner calls, unchanged for anybody else.
    pub open spec fn add_educator(self, caller: Seq<u8>, target: Seq<u8>) -> QuizView {
        if self.check_owner(caller) is Ok {
            QuizView { actors: self.actors.insert(target, PowerLevel::Educator), ..self }
        } else {
            self
        }
    }

    /// The question at `index`.
    pub open spec fn get(self, index: int) -> Result<QuestionView, Error> {
        if 0 <= index < self.questions.len() {
            Ok(self.questions[index])
        } else {
            Err(Error::QuestionDoesntExist)
        }
    }

    /// The verdict on an attempt with digest `digest` at the question at `index`.
    /// A wrong attempt is an error, never `Ok(false)`.
    pub open spec fn check_digest(self, index: int, digest: Seq<u8>) -> Result<bool, Error> {
        match self.get(index) {
            Err(e) => Err(e),
            Ok(question) => if question.digest == digest {
                Ok(true)
            } else {
                Err(Error::WrongAnswer)
            },
        }
    }

    /// The state after one call.
    pub open spec fn step(self, call: Call) -> QuizView {
        match call {
            Call::AddQuestion { caller, question } => self.add_question(caller, question),
            Call::AddEducator { caller, target } => self.add_educator(caller, target),
        }
    }

    /// The state after a sequence of calls, made in order.
    pub open spec fn run(self, calls: Seq<Call>) -> QuizView
        decreases calls.len(),
    {
        if calls.len() == 0 {
            self
        } else {
            self.run(calls.drop_last()).step(calls.last())
        }
    }
}

/// A new registry has its creator as owner and as educator, and no question.
pub proof fn lemma_created(caller: Seq<u8>)
    ensures
        QuizView::created(caller).valid(),
        QuizView::created(caller).owner == caller,
        QuizView::created(caller).check_role(caller, PowerLevel::Educator) is Ok,
        forall|index: int| #[trigger]
            QuizView::created(caller).get(index) == Err::<QuestionView, Error>(
                Error::QuestionDoesntExist,
            ),
{
}

/// The owner never changes and never loses the educator role, whatever calls are made.
pub proof fn lemma_owner_stays_educator(state: QuizView, calls: Seq<Call>)
    requires
        state.valid(),
    ensures
        state.run(calls).valid(),
        state.run(calls).owner == state.owner,
    decreases calls.len(),
{
    if calls.len() > 0 {
        lemma_owner_stays_educator(state, calls.drop_last());
    }
}

/// A role once granted is never taken away, whatever calls are made.
pub proof fn lemma_roles_are_kept(state: QuizView, calls: Seq<Call>, id: Seq<u8>)
    requires
        state.actors.contains_key(id),
    ensures
        state.run(calls).actors.contains_key(id),
        state.run(calls).actors[id] == state.actors[id] || state.run(calls).actors[id]
            == PowerLevel::Educator,
    decreases calls.len(),
{
    if calls.len() > 0 {
        lemma_roles_are_kept(state, calls.drop_last(), id);
    }
}

/// The ledger only grows: whatever calls are made, every position that held a
/// question still holds the same question.
pub proof fn lemma_questions_are_kept(state: QuizView, calls: Seq<Call>, index: int)
    requires
        0 <= index < state.questions.len(),
    ensures
        index < state.run(calls).questions.len(),
        state.run(calls).questions[index] == state.questions[index],
        state.run(calls).get(index) == state.get(index),
    decreases calls.len(),
{
    if calls.len() > 0 {
        lemma_questions_are_kept(state, calls.drop_last(), index);
    }
}

/// A submission by somebody who is no educator is refused and changes nothing:
/// with `InvalidCaller` for an identity without a role, with
/// `InvalidPowerLevel` for one with another role.
pub proof fn lemma_refused_submission(state: QuizView, caller: Seq<u8>, question: QuestionView)
    requires
        !state.actors.contains_key(caller) || state.actors[caller] != PowerLevel::Educator,
    ensures
        state.add_question(caller, question) == state,
        !state.actors.contains_key(caller) ==> state.check_role(caller, PowerLevel::Educator)
            == Err::<(), Error>(Error::InvalidCaller),
        state.actors.contains_key(caller) ==> state.check_role(caller, PowerLevel::Educator)
            == Err::<(), Error>(Error::InvalidPowerLevel),
{
}

/// An educator's submission lands at the first free position and changes
/// nothing else; an attempt at it is accepted exactly when its digest is the
/// stored one.
pub proof fn lemma_accepted_submission(
    state: QuizView,
    caller: Seq<u8>,
    question: QuestionView,
    attempt: Seq<u8>,
)
    requires
        state.check_role(caller, PowerLevel::Educator) is Ok,
    ensures
        ({
            let after = state.add_question(caller, question);
            let at = state.questions.len() as int;
            &&& after.questions.len() == at + 1
            &&& after.get(at) == Ok::<QuestionView, Error>(question)
            &&& after.owner == state.owner
            &&& after.actors == state.actors
            &&& attempt == question.digest ==> after.check_digest(at, attempt) == Ok::<
                bool,
                Error,
            >(true)
            &&& attempt != question.digest ==> after.check_digest(at, attempt) == Err::<
                bool,
                Error,
            >(Error::WrongAnswer)
        }),
{
}

/// Beyond the last question there is nothing to get and nothing to grade.
pub proof fn lemma_nothing_past_the_end(state: QuizView, index: int, digest: Seq<u8>)
    requires
        index >= state.questions.len(),
    ensures
        state.get(index) == Err::<QuestionView, Error>(Error::QuestionDoesntExist),
        state.check_digest(index, digest) == Err::<bool, Error>(Error::QuestionDoesntExist),
{
}

} // verus!
