use quiz::{AccountId, Error, PowerLevel, Quiz};

fn alice() -> AccountId {
    AccountId([1u8; 32])
}

fn bob() -> AccountId {
    AccountId([2u8; 32])
}

fn sky_quiz() -> Quiz {
    let mut quiz = Quiz::new(alice());
    quiz.add_question(alice(), String::from("What color is the sky?"), String::from("Blue"))
        .unwrap();
    quiz
}

#[test]
fn default_works() {
    let quiz = Quiz::new(alice());
    assert!(quiz.get(0).is_err());
}

#[test]
fn add_questions() {
    let mut quiz = Quiz::new(alice());
    quiz.add_question(alice(), String::from("What color is the sky?"), String::from("Blue"))
        .unwrap();
    assert!(quiz.get(0).is_ok());
    assert_eq!(
        quiz.get(0).unwrap().question,
        String::from("What color is the sky?")
    );
}

#[test]
fn correct_answer_works() {
    let answer = String::from("Blue");
    let mut quiz = Quiz::new(alice());
    quiz.add_question(alice(), String::from("What color is the sky?"), answer.clone())
        .unwrap();
    assert!(quiz.check_answer(0, answer.clone()).is_ok());
    assert_eq!(quiz.check_answer(0, answer).unwrap(), true);
}

#[test]
fn wrong_answer_should_fail() {
    let wrong_answer = String::from("Green XD");
    let mut quiz = Quiz::new(alice());
    quiz.add_question(alice(), String::from("What color is the sky?"), String::from("Blue"))
        .unwrap();
    assert!(quiz.get(0).is_ok());
    assert!(quiz.check_answer(0, wrong_answer).is_err());
}

#[test]
fn new_registry_has_no_question() {
    let quiz = Quiz::new(alice());
    assert_eq!(quiz.question_count(), 0);
    assert_eq!(quiz.get(0).err(), Some(Error::QuestionDoesntExist));
    assert_eq!(quiz.check_answer(0, String::from("Blue")), Err(Error::QuestionDoesntExist));
}

#[test]
fn creator_is_owner_and_educator() {
    let quiz = Quiz::new(alice());
    assert_eq!(quiz.owner(), alice());
    assert_eq!(quiz.power_level(alice()), Some(PowerLevel::Educator));
    assert_eq!(quiz.ensure_powerlevel(alice(), PowerLevel::Educator), Ok(()));
    assert_eq!(quiz.ensure_contract_owner(alice()), Ok(()));
    assert_eq!(quiz.power_level(bob()), None);
}

#[test]
fn wrong_answer_is_an_error_not_false() {
    let quiz = sky_quiz();
    assert_eq!(quiz.check_answer(0, String::from("Blue")), Ok(true));
    assert_eq!(quiz.check_answer(0, String::from("Green XD")), Err(Error::WrongAnswer));
    assert_eq!(quiz.check_answer(0, String::from("blue")), Err(Error::WrongAnswer));
    assert_eq!(quiz.check_answer(0, String::from("")), Err(Error::WrongAnswer));
}

#[test]
fn stored_answer_is_a_digest() {
    let quiz = sky_quiz();
    let stored = quiz.get(0).unwrap();
    assert_eq!(stored.question, "What color is the sky?");
    assert_eq!(
        stored.answer,
        [
            0x71, 0x8b, 0xf0, 0x20, 0x56, 0x94, 0xbe, 0x80, 0xe5, 0x3a, 0x11, 0x53, 0xb7, 0x9f,
            0xf3, 0x27, 0xe7, 0x1f, 0x9a, 0xdb, 0xb9, 0x09, 0xa1, 0x69, 0x34, 0xdd, 0xbf, 0x25,
            0x90, 0x0c, 0x3b, 0x71
        ]
    );
}

#[test]
fn caller_without_role_cannot_add() {
    let mut quiz = sky_quiz();
    let refused = quiz.add_question(bob(), String::from("Who goes there?"), String::from("Bob"));
    assert_eq!(refused, Err(Error::InvalidCaller));
    assert_eq!(quiz.question_count(), 1);
    assert_eq!(quiz.get(1).err(), Some(Error::QuestionDoesntExist));
    assert_eq!(quiz.get(0).unwrap().question, "What color is the sky?");
    let refused = quiz.add_question_with_digest(bob(), String::from("Who?"), [0u8; 32]);
    assert_eq!(refused, Err(Error::InvalidCaller));
    assert_eq!(quiz.question_count(), 1);
}

#[test]
fn role_check_is_exact() {
    let quiz = Quiz::new(alice());
    assert_eq!(quiz.ensure_powerlevel(alice(), PowerLevel::Educator), Ok(()));
    assert_eq!(
        quiz.ensure_powerlevel(alice(), PowerLevel::User),
        Err(Error::InvalidPowerLevel)
    );
    assert_eq!(quiz.ensure_powerlevel(bob(), PowerLevel::User), Err(Error::InvalidCaller));
    assert_eq!(quiz.ensure_powerlevel(bob(), PowerLevel::Educator), Err(Error::InvalidCaller));
}

#[test]
fn only_the_owner_passes_the_owner_check() {
    let mut quiz = Quiz::new(alice());
    let _ = quiz.add_educator(alice(), bob());
    assert_eq!(quiz.ensure_contract_owner(alice()), Ok(()));
    assert_eq!(quiz.ensure_contract_owner(bob()), Err(Error::InvalidCaller));
    assert_eq!(quiz.owner(), alice());
}

/// The owner's grant takes effect, and the call still reports `InvalidCaller`.
/// This is the behaviour the registry keeps on purpose: the result of
/// `add_educator` never says whether the role was granted.
#[test]
fn owner_grant_takes_effect_but_reports_invalid_caller() {
    let mut quiz = Quiz::new(alice());
    assert_eq!(quiz.power_level(bob()), None);
    assert_eq!(quiz.add_educator(alice(), bob()), Err(Error::InvalidCaller));
    assert_eq!(quiz.power_level(bob()), Some(PowerLevel::Educator));
    assert_eq!(
        quiz.add_question(bob(), String::from("Two plus two?"), String::from("4")),
        Ok(())
    );
    assert_eq!(quiz.check_answer(0, String::from("4")), Ok(true));
}

#[test]
fn grant_by_anybody_else_is_refused_and_changes_nothing() {
    let carol = AccountId([3u8; 32]);
    let mut quiz = Quiz::new(alice());
    assert_eq!(quiz.add_educator(bob(), carol), Err(Error::InvalidCaller));
    assert_eq!(quiz.power_level(carol), None);
    assert_eq!(quiz.add_educator(bob(), bob()), Err(Error::InvalidCaller));
    assert_eq!(quiz.power_level(bob()), None);
    let _ = quiz.add_educator(alice(), bob());
    assert_eq!(quiz.add_educator(bob(), carol), Err(Error::InvalidCaller));
    assert_eq!(quiz.power_level(carol), None);
}

#[test]
fn granting_twice_is_the_same_as_once() {
    let mut quiz = Quiz::new(alice());
    let _ = quiz.add_educator(alice(), bob());
    let _ = quiz.add_educator(alice(), bob());
    let _ = quiz.add_educator(alice(), alice());
    assert_eq!(quiz.power_level(bob()), Some(PowerLevel::Educator));
    assert_eq!(quiz.power_level(alice()), Some(PowerLevel::Educator));
    assert_eq!(quiz.owner(), alice());
}

#[test]
fn earlier_questions_keep_their_place() {
    let mut quiz = Quiz::new(alice());
    let _ = quiz.add_educator(alice(), bob());
    let prompts = ["one", "two", "three", "four"];
    for (n, prompt) in prompts.iter().enumerate() {
        let caller = if n % 2 == 0 { alice() } else { bob() };
        assert_eq!(quiz.add_question(caller, String::from(*prompt), format!("answer {n}")), Ok(()));
        assert_eq!(quiz.question_count(), n + 1);
        for (earlier, expected) in prompts.iter().enumerate().take(n + 1) {
            assert_eq!(quiz.get(earlier as u32).unwrap().question, *expected);
            assert_eq!(quiz.check_answer(earlier as u32, format!("answer {earlier}")), Ok(true));
        }
        assert_eq!(quiz.get(n as u32 + 1).err(), Some(Error::QuestionDoesntExist));
    }
}

#[test]
fn nothing_past_the_end() {
    let quiz = sky_quiz();
    for index in [1u32, 2, 3, 1000, u32::MAX] {
        assert_eq!(quiz.get(index).err(), Some(Error::QuestionDoesntExist));
        assert_eq!(
            quiz.check_answer(index, String::from("Blue")),
            Err(Error::QuestionDoesntExist)
        );
        assert_eq!(quiz.check_digest(index, &[0u8; 32]), Err(Error::QuestionDoesntExist));
    }
}

#[test]
fn digest_given_directly_is_stored_and_graded() {
    let mut quiz = Quiz::new(alice());
    let mut digest = [0u8; 32];
    digest[31] = 7;
    assert_eq!(quiz.add_question_with_digest(alice(), String::from("Lucky?"), digest), Ok(()));
    assert_eq!(quiz.get(0).unwrap().answer, digest);
    assert_eq!(quiz.check_digest(0, &digest), Ok(true));
    let mut other = digest;
    other[31] = 8;
    assert_eq!(quiz.check_digest(0, &other), Err(Error::WrongAnswer));
    other = digest;
    other[0] = 1;
    assert_eq!(quiz.check_digest(0, &other), Err(Error::WrongAnswer));
}

#[test]
fn hashed_and_plain_submissions_agree() {
    let mut quiz = Quiz::new(alice());
    let digest = quiz::digest::hash(&String::from("Blue"));
    assert_eq!(quiz.add_question_with_digest(alice(), String::from("Sky?"), digest), Ok(()));
    assert_eq!(quiz.check_answer(0, String::from("Blue")), Ok(true));
    assert_eq!(quiz.add_question(alice(), String::from("Sea?"), String::from("Blue")), Ok(()));
    assert_eq!(quiz.check_digest(1, &digest), Ok(true));
    assert_eq!(quiz.get(0).unwrap().answer, quiz.get(1).unwrap().answer);
}
