use crate::digest::{answer_digest, encodable, hash};
use crate::error::Error;
use crate::identity::{bytes_equal, AccountId};
use crate::model::{QuestionView, QuizView};
use crate::roles::{PowerLevel, RoleTable};
use vstd::prelude::*;

verus! {

/// A question as it is stored and handed out: the prompt verbatim, the answer
/// only as its digest.
#[derive(Debug)]
pub struct Question {
    pub question: String,
    pub answer: [u8; 32],
}

impl View for Question {
    type V = QuestionView;

    open spec fn view(&self) -> QuestionView {
        QuestionView { prompt: self.question@, digest: self.answer@ }
    }
}

impl Clone for Question {
    fn clone(&self) -> (copy: Self)
        ensures
            copy@ == self@,
    {
        Question { question: self.question.clone(), answer: self.answer }
    }
}

impl Default for Question {
    fn default() -> (question: Self)
        ensures
            question@.prompt == Seq::<char>::empty(),
            question@.digest == Seq::new(32, |i: int| 0u8),
    {
        let question = Question { question: String::new(), answer: [0u8; 32] };
        assert(question@.digest =~= Seq::new(32, |i: int| 0u8));
        question
    }
}

/// The registry: its owner, the ledger of questions and the roles granted.
pub struct Quiz {
    owner: AccountId,
    questions: Vec<Question>,
    actors: RoleTable,
}

impl View for Quiz {
    type V = QuizView;

    closed spec fn view(&self) -> QuizView {
        QuizView {
            owner: self.owner@,
            questions: self.questions@.map_values(|question: Question| question@),
            actors: self.actors@,
        }
    }
}

impl Quiz {
    /// Creates a registry owned by `caller`, who becomes its first educator.
    pub fn new(caller: AccountId) -> (quiz: Self)
        ensures
            quiz@ == QuizView::created(caller@),
            quiz@.valid(),
    {
        let mut actors = RoleTable::new();
        actors.insert(caller, PowerLevel::Educator);
        let quiz = Quiz { owner: caller, questions: Vec::new(), actors };
        assert(quiz@.questions =~= Seq::<QuestionView>::empty());
        quiz
    }

    /// The identity that created the registry.
    pub fn owner(&self) -> (owner: AccountId)
        ensures
            owner@ == self@.owner,
    {
        self.owner
    }

    /// The role of `id`, if it has one.
    pub fn power_level(&self, id: AccountId) -> (level: Option<PowerLevel>)
        ensures
            level == (if self@.actors.contains_key(id@) {
                Some(self@.actors[id@])
            } else {
                None
            }),
    {
        self.actors.get(&id)
    }

    /// The number of questions stored.
    pub fn question_count(&self) -> (count: usize)
        ensures
            count == self@.questions.len(),
    {
        self.questions.len()
    }

    /// Succeeds iff `id` holds exactly the role `level`: `InvalidCaller` for an
    /// identity without a role, `InvalidPowerLevel` for one with another role.
    pub fn ensure_powerlevel(&self, id: AccountId, level: PowerLevel) -> (res: Result<(), Error>)
        ensures
            res == self@.check_role(id@, level),
    {
        match self.actors.get(&id) {
            Some(power_level) => {
                if power_level == level {
                    Ok(())
                } else {
                    Err(Error::InvalidPowerLevel)
                }
            },
            None => Err(Error::InvalidCaller),
        }
    }

    /// Succeeds iff `id` is the owner; fails with `InvalidCaller` otherwise.
    pub fn ensure_contract_owner(&self, id: AccountId) -> (res: Result<(), Error>)
        ensures
            res == self@.check_owner(id@),
    {
        if id != self.owner {
            return Err(Error::InvalidCaller);
        }
        Ok(())
    }

    /// Appends a question to the ledger.
    fn append(&mut self, question: String, answer: [u8; 32])
        ensures
            final(self)@ == (QuizView {
                questions: old(self)@.questions.push(
                    QuestionView { prompt: question@, digest: answer@ },
                ),
                ..old(self)@
            }),
    {
        self.questions.push(Question { question, answer });
        assert(self@.questions =~= old(self)@.questions.push(
            QuestionView { prompt: question@, digest: answer@ },
        ));
    }

    /// Appends a question whose answer is already hashed, if `caller` is an
    /// educator. A refused call changes nothing.
    pub fn add_question_with_digest(
        &mut self,
        caller: AccountId,
        question: String,
        answer: [u8; 32],
    ) -> (res: Result<(), Error>)
        ensures
            res == old(self)@.check_role(caller@, PowerLevel::Educator),
            final(self)@ == old(self)@.add_question(
                caller@,
                QuestionView { prompt: question@, digest: answer@ },
            ),
            old(self)@.valid() ==> final(self)@.valid(),
    {
        match self.ensure_powerlevel(caller, PowerLevel::Educator) {
            Err(e) => Err(e),
            Ok(()) => {
                self.append(question, answer);
                Ok(())
            },
        }
    }

    /// Appends a question with the digest of `answer`, if `caller` is an
    /// educator. A refused call changes nothing, and its answer is not hashed.
    pub fn add_question(&mut self, caller: AccountId, question: String, answer: String) -> (res:
        Result<(), Error>)
        requires
            old(self)@.check_role(caller@, PowerLevel::Educator) is Ok ==> encodable(answer@),
        ensures
            res == old(self)@.check_role(caller@, PowerLevel::Educator),
            final(self)@ == old(self)@.add_question(
                caller@,
                QuestionView { prompt: question@, digest: answer_digest(answer@) },
            ),
            old(self)@.valid() ==> final(self)@.valid(),
    {
        match self.ensure_powerlevel(caller, PowerLevel::Educator) {
            Err(e) => Err(e),
            Ok(()) => {
                let answer_hash = hash(&answer);
                self.append(question, answer_hash);
                Ok(())
            },
        }
    }

    /// Grants the educator role to `educator` when the owner calls.
    ///
    /// The result is `Err(InvalidCaller)` in every case, also after the
    /// owner's grant has been made: it tells nothing about whether the role
    /// was granted. Read the role back with `power_level` instead.
    pub fn add_educator(&mut self, caller: AccountId, educator: AccountId) -> (res: Result<
        (),
        Error,
    >)
        ensures
            res == Err::<(), Error>(Error::InvalidCaller),
            final(self)@ == old(self)@.add_educator(caller@, educator@),
            old(self)@.valid() ==> final(self)@.valid(),
    {
        match self.ensure_contract_owner(caller) {
            Err(e) => Err(e),
            Ok(()) => {
                self.actors.insert(educator, PowerLevel::Educator);
                Err(Error::InvalidCaller)
            },
        }
    }

    /// A copy of the question at `index`; `QuestionDoesntExist` iff there is none.
    pub fn get(&self, index: u32) -> (res: Result<Question, Error>)
        ensures
            match res {
                Ok(question) => self@.get(index as int) == Ok::<QuestionView, Error>(question@),
                Err(e) => self@.get(index as int) == Err::<QuestionView, Error>(e),
            },
    {
        let at = index as usize;
        if at < self.questions.len() {
            Ok(self.questions[at].clone())
        } else {
            Err(Error::QuestionDoesntExist)
        }
    }

    /// Grades an attempt that is already hashed: `Ok(true)` iff `digest` is
    /// the one stored at `index`, `WrongAnswer` iff it is another,
    /// `QuestionDoesntExist` iff nothing is stored there.
    pub fn check_digest(&self, index: u32, digest: &[u8; 32]) -> (res: Result<bool, Error>)
        ensures
            res == self@.check_digest(index as int, digest@),
    {
        match self.get(index) {
            Err(e) => Err(e),
            Ok(question) => {
                if bytes_equal(&question.answer, digest) {
                    Ok(true)
                } else {
                    Err(Error::WrongAnswer)
                }
            },
        }
    }

    /// Grades an attempt: `Ok(true)` iff it hashes to the digest stored at
    /// `index`, `WrongAnswer` iff it hashes to another, `QuestionDoesntExist`
    /// iff nothing is stored there. The attempt is hashed only when there is a
    /// question to grade it against.
    pub fn check_answer(&self, index: u32, attempt: String) -> (res: Result<bool, Error>)
        requires
            index < self@.questions.len() ==> encodable(attempt@),
        ensures
            res == self@.check_digest(index as int, answer_digest(attempt@)),
    {
        match self.get(index) {
            Err(e) => Err(e),
            Ok(question) => {
                let answer_hash = hash(&attempt);
                if bytes_equal(&question.answer, &answer_hash) {
                    Ok(true)
                } else {
                    Err(Error::WrongAnswer)
                }
            },
        }
    }
}

} // verus!
