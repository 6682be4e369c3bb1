//! The decisions of the Doctor Who trivia bot: how a chat message changes
//! the trivia state and what the bot should do about it, how a new question
//! is posed, and the texts of its replies.

use vstd::prelude::*;
use crate::chance::choose_from;
use crate::chars::ascii_lower;
use rand::rngs::StdRng;
use crate::textops::{
    ascii_case_eq, chars_of, eq_ignore_case_at, has_prefix, int_text, push_int_text,
    starts_with_at, string_of, trim_bounds, trimmed,
};

verus! {

/// The trivia state: the question waiting for an answer, with its answer,
/// and whether the last question was answered.
pub struct TriviaData {
    pub current_question: Option<(String, String)>,
    pub last_correct: bool,
}

/// The trivia state as character sequences.
pub struct TriviaView {
    pub question: Option<(Seq<char>, Seq<char>)>,
    pub last_correct: bool,
}

impl View for TriviaData {
    type V = TriviaView;

    open spec fn view(&self) -> TriviaView {
        TriviaView {
            question: match self.current_question {
                Some(qa) => Some((qa.0@, qa.1@)),
                None => None,
            },
            last_correct: self.last_correct,
        }
    }
}

/// A question is pending exactly when the last one has not been answered.
pub open spec fn trivia_wf(t: TriviaView) -> bool {
    t.last_correct <==> t.question is None
}

impl TriviaData {
    /// The state before any question: none pending, ready to ask.
    pub fn new() -> (r: TriviaData)
        ensures
            r@.question is None,
            r@.last_correct,
            trivia_wf(r@),
    {
        TriviaData { current_question: None, last_correct: true }
    }
}

/// A `String` holding `prefix`, then `v[lo..hi]`, then `suffix`.
fn framed(prefix: &str, v: &Vec<char>, lo: usize, hi: usize, suffix: &str) -> (r: String)
    requires
        lo <= hi <= v.len(),
    ensures
        r@ == prefix@ + v@.subrange(lo as int, hi as int) + suffix@,
{
    let mut r = String::from_str(prefix);
    let mid = string_of(v, lo, hi);
    r.append(mid.as_str());
    r.append(suffix);
    r
}

/// The reply to a correct answer.
pub open spec fn correct_text(name: Seq<char>) -> Seq<char> {
    "Correct! "@ + name + " earned a point!"@
}

/// The reply to a correct answer by `name`: "Correct! {name} earned a point!".
pub fn correct_reply(name: &str) -> (r: String)
    ensures
        r@ == correct_text(name@),
{
    let mut r = String::from_str("Correct! ");
    r.append(name);
    r.append(" earned a point!");
    r
}

/// The reply to a score request.
pub open spec fn score_text(name: Seq<char>, score: int) -> Seq<char> {
    name + "'s score: "@ + int_text(score)
}

/// The reply to a score request: "{name}'s score: {score}".
pub fn score_reply(name: &str, score: i32) -> (r: String)
    ensures
        r@ == score_text(name@, score as int),
{
    let mut r = String::from_str(name);
    r.append("'s score: ");
    push_int_text(&mut r, score);
    r
}

/// The path of the picture of the doctor named by `number`.
pub open spec fn doctor_path_text(number: Seq<char>) -> Seq<char> {
    "doctors_img/"@ + number + "-doctor.jpg"@
}

/// The caption sent with the picture of a doctor.
pub open spec fn doctor_found_text(number: Seq<char>) -> Seq<char> {
    "Here is Doctor "@ + number + "!"@
}

/// The reply when there is no picture of the doctor.
pub open spec fn doctor_missing_text(number: Seq<char>) -> Seq<char> {
    "I couldn't find an image for doctor "@ + number + "."@
}

/// The reply to an episode request without a search text.
pub open spec fn missing_query_text() -> Seq<char> {
    "Please provide a slice of the title's episode."@
}

/// The SQL `LIKE` pattern that matches every title containing `query`.
pub open spec fn like_pattern(query: Seq<char>) -> Seq<char> {
    "%"@ + query + "%"@
}

/// What the bot does about a message, its character-sequence view.
pub enum Reaction {
    /// Award a point to the author and send `reply`.
    AwardPoint { reply: Seq<char> },
    /// Look up the author's score and report it.
    ReportScore,
    /// Send a random quote.
    SendQuote,
    /// Send the picture at `image_path` with `found_reply`, or, when it does
    /// not exist, send `missing_reply`.
    SendDoctor { image_path: Seq<char>, found_reply: Seq<char>, missing_reply: Seq<char> },
    /// Send `reply`.
    Say { reply: Seq<char> },
    /// Search the episode titles with the `LIKE` pattern `pattern`.
    SearchEpisode { pattern: Seq<char> },
    /// Nothing to do.
    Ignore,
}

/// What the bot does about a message.
pub enum BotAction {
    AwardPoint { reply: String },
    ReportScore,
    SendQuote,
    SendDoctor { image_path: String, found_reply: String, missing_reply: String },
    Say { reply: String },
    SearchEpisode { pattern: String },
    Ignore,
}

impl View for BotAction {
    type V = Reaction;

    open spec fn view(&self) -> Reaction {
        match self {
            BotAction::AwardPoint { reply } => Reaction::AwardPoint { reply: reply@ },
            BotAction::ReportScore => Reaction::ReportScore,
            BotAction::SendQuote => Reaction::SendQuote,
            BotAction::SendDoctor { image_path, found_reply, missing_reply } => Reaction::SendDoctor {
                image_path: image_path@,
                found_reply: found_reply@,
                missing_reply: missing_reply@,
            },
            BotAction::Say { reply } => Reaction::Say { reply: reply@ },
            BotAction::SearchEpisode { pattern } => Reaction::SearchEpisode { pattern: pattern@ },
            BotAction::Ignore => Reaction::Ignore,
        }
    }
}

/// The message answers the pending question: once trimmed, it equals the
/// answer up to ASCII case.
pub open spec fn answers(t: TriviaView, content: Seq<char>) -> bool {
    t.question matches Some(qa) && ascii_case_eq(trimmed(content), qa.1)
}

/// The trivia state after a message: a correct answer clears the question
/// and makes the bot ready to ask again; any other message changes nothing.
pub open spec fn state_after_message(t: TriviaView, content: Seq<char>) -> TriviaView {
    if answers(t, content) {
        TriviaView { question: None, last_correct: true }
    } else {
        t
    }
}

/// What the bot does about a message `content` from `name` in state `t`.
pub open spec fn reaction(t: TriviaView, content: Seq<char>, name: Seq<char>) -> Reaction {
    if answers(t, content) {
        Reaction::AwardPoint { reply: correct_text(name) }
    } else if content == "!score"@ {
        Reaction::ReportScore
    } else if content == "!quote"@ {
        Reaction::SendQuote
    } else if has_prefix(content, "!doctor"@) {
        let number = content.subrange("!doctor"@.len() as int, content.len() as int);
        Reaction::SendDoctor {
            image_path: doctor_path_text(number),
            found_reply: doctor_found_text(number),
            missing_reply: doctor_missing_text(number),
        }
    } else if has_prefix(content, "!episode"@) {
        let query = trimmed(content.subrange("!episode"@.len() as int, content.len() as int));
        if query.len() == 0 {
            Reaction::Say { reply: missing_query_text() }
        } else {
            Reaction::SearchEpisode { pattern: like_pattern(query) }
        }
    } else {
        Reaction::Ignore
    }
}

/// Whether `v` holds exactly the characters of `lit`.
fn is_exactly(v: &Vec<char>, lit: &str) -> (r: bool)
    ensures
        r == (v@ == lit@),
{
    let w = chars_of(lit);
    if v.len() != w.len() {
        return false;
    }
    let b = starts_with_at(v, 0, v.len(), &w);
    assert(v@.subrange(0, v.len() as int) =~= v@);
    proof {
        if b {
            assert(v@.subrange(0, w.len() as int) =~= v@);
        }
    }
    b
}

/// Decides what to do about the message `content` written by `author`, and
/// updates the trivia state: a message that answers the pending question
/// (trimmed, equal to the answer up to ASCII case) earns a point and clears
/// the question; otherwise the commands "!score", "!quote", "!doctor<n>" and
/// "!episode <text>" are recognised.
pub fn handle_message(trivia: &mut TriviaData, content: &str, author: &str) -> (r: BotAction)
    ensures
        final(trivia)@ == state_after_message(old(trivia)@, content@),
        r@ == reaction(old(trivia)@, content@, author@),
        trivia_wf(old(trivia)@) ==> trivia_wf(final(trivia)@),
{
    let v = chars_of(content);
    assert(v@.subrange(0, v.len() as int) =~= v@);
    let mut correct = false;
    match &trivia.current_question {
        Some(qa) => {
            let (a, b) = trim_bounds(&v, 0, v.len());
            let answer = chars_of(qa.1.as_str());
            correct = eq_ignore_case_at(&v, a, b, &answer);
        },
        None => {},
    }
    if correct {
        trivia.last_correct = true;
        trivia.current_question = None;
        return BotAction::AwardPoint { reply: correct_reply(author) };
    }
    if is_exactly(&v, "!score") {
        return BotAction::ReportScore;
    }
    if is_exactly(&v, "!quote") {
        return BotAction::SendQuote;
    }
    let doctor = chars_of("!doctor");
    if starts_with_at(&v, 0, v.len(), &doctor) {
        let n = doctor.len();
        return BotAction::SendDoctor {
            image_path: framed("doctors_img/", &v, n, v.len(), "-doctor.jpg"),
            found_reply: framed("Here is Doctor ", &v, n, v.len(), "!"),
            missing_reply: framed("I couldn't find an image for doctor ", &v, n, v.len(), "."),
        };
    }
    let episode = chars_of("!episode");
    if starts_with_at(&v, 0, v.len(), &episode) {
        let (a, b) = trim_bounds(&v, episode.len(), v.len());
        if a == b {
            return BotAction::Say {
                reply: String::from_str("Please provide a slice of the title's episode."),
            };
        }
        return BotAction::SearchEpisode { pattern: framed("%", &v, a, b, "%") };
    }
    BotAction::Ignore
}


/// The announcement of a new question.
pub open spec fn question_text(question: Seq<char>) -> Seq<char> {
    "Trivia time! "@ + question
}

/// Makes `chosen` (a question and its answer) the pending question and
/// returns its announcement, "Trivia time! {question}".
pub fn pose_question(trivia: &mut TriviaData, chosen: &(String, String)) -> (r: String)
    ensures
        final(trivia)@ == (TriviaView {
            question: Some((chosen.0@, chosen.1@)),
            last_correct: false,
        }),
        r@ == question_text(chosen.0@),
        trivia_wf(final(trivia)@),
{
    trivia.current_question = Some((chosen.0.clone(), chosen.1.clone()));
    trivia.last_correct = false;
    let mut r = String::from_str("Trivia time! ");
    r.append(chosen.0.as_str());
    r
}

/// When the last question was answered, poses one of `questions` picked at
/// random with `rng` and returns its announcement; otherwise, or when there
/// are no questions, changes nothing and returns `None`.
pub fn ask_question(
    trivia: &mut TriviaData,
    questions: &Vec<(String, String)>,
    rng: &mut StdRng,
) -> (r: Option<String>)
    ensures
        old(trivia)@.last_correct && questions.len() > 0 ==> exists|i: int|
            0 <= i < questions.len() && final(trivia)@ == (TriviaView {
                question: Some((questions@[i].0@, questions@[i].1@)),
                last_correct: false,
            }) && (r matches Some(text) && text@ == question_text(questions@[i].0@)),
        !(old(trivia)@.last_correct && questions.len() > 0) ==> r is None && final(trivia)@
            == old(trivia)@,
        trivia_wf(old(trivia)@) ==> trivia_wf(final(trivia)@),
{
    if !trivia.last_correct {
        return None;
    }
    match choose_from(questions.as_slice(), rng) {
        Some(chosen) => {
            let ghost i = choose|i: int| 0 <= i < questions@.len() && questions@[i] == *chosen;
            let text = pose_question(trivia, chosen);
            assert(0 <= i < questions.len() && final(trivia)@ == (TriviaView {
                question: Some((questions@[i].0@, questions@[i].1@)),
                last_correct: false,
            }));
            Some(text)
        },
        None => None,
    }
}

/// The error text when there are no quotes to pick from.
pub open spec fn no_quotes_text() -> Seq<char> {
    "No quotes found"@
}

/// The quote to send for a pick: the picked quote, or the error
/// "No quotes found" when nothing was picked.
pub fn quote_from_choice(choice: Option<&String>) -> (r: Result<String, &'static str>)
    ensures
        match choice {
            Some(q) => r matches Ok(s) && s@ == q@,
            None => r matches Err(e) && e@ == no_quotes_text(),
        },
{
    match choice {
        Some(q) => Ok(q.clone()),
        None => Err("No quotes found"),
    }
}

/// One of `quotes` picked at random with `rng`, or the error
/// "No quotes found" when there are none.
pub fn random_quote(quotes: &Vec<String>, rng: &mut StdRng) -> (r: Result<String, &'static str>)
    ensures
        quotes.len() == 0 <==> r is Err,
        r matches Ok(s) ==> exists|i: int| 0 <= i < quotes.len() && quotes@[i]@ == s@,
        r matches Err(e) ==> e@ == no_quotes_text(),
{
    let choice = choose_from(quotes.as_slice(), rng);
    proof {
        if let Some(q) = choice {
            let i = choose|i: int| 0 <= i < quotes@.len() && quotes@[i] == *q;
            assert(quotes@[i]@ == q@);
        }
    }
    quote_from_choice(choice)
}

/// What to do about a score request, given the stored score if any.
pub struct ScoreLookup {
    /// The score to report.
    pub score: i32,
    /// Whether the user must be stored, with a score of 0.
    pub register: bool,
}

/// The decision on a score request: a stored score is reported as it is;
/// without one, 0 is reported and the user is stored with it.
pub open spec fn score_lookup_spec(found: Option<i32>) -> ScoreLookup {
    match found {
        Some(s) => ScoreLookup { score: s, register: false },
        None => ScoreLookup { score: 0, register: true },
    }
}

/// A known user's score is reported as stored; an unknown user is stored
/// with a score of 0 and 0 is reported.
pub fn score_lookup(found: Option<i32>) -> (r: ScoreLookup)
    ensures
        r == score_lookup_spec(found),
        match found {
            Some(s) => r.score == s && !r.register,
            None => r.score == 0 && r.register,
        },
{
    match found {
        Some(s) => ScoreLookup { score: s, register: false },
        None => ScoreLookup { score: 0, register: true },
    }
}


/// A question is won once: after a message answers it, no message answers
/// anything until a new question is posed.
pub proof fn lemma_answer_counts_once(t: TriviaView, first: Seq<char>, second: Seq<char>)
    requires
        answers(t, first),
    ensures
        !answers(state_after_message(t, first), second),
        state_after_message(t, first).last_correct,
{
}

/// A message that does not answer the pending question leaves the trivia
/// state as it was, whatever command it holds.
pub proof fn lemma_other_messages_keep_state(t: TriviaView, content: Seq<char>)
    requires
        !answers(t, content),
    ensures
        state_after_message(t, content) == t,
{
}

/// Both ways the state changes keep a question pending exactly while the
/// last one is unanswered: a message, and a newly posed question.
pub proof fn lemma_state_changes_keep_wf(t: TriviaView, content: Seq<char>, q: Seq<char>, a: Seq<char>)
    requires
        trivia_wf(t),
    ensures
        trivia_wf(state_after_message(t, content)),
        trivia_wf(TriviaView { question: Some((q, a)), last_correct: false }),
{
}


/// Asking for a score twice reports the same score and stores nothing the
/// second time, provided the table keeps what the first request stored: the
/// second lookup then finds the score the first one reported.
pub proof fn lemma_score_lookup_stable(found: Option<i32>)
    ensures
        ({
            let first = score_lookup_spec(found);
            let second = score_lookup_spec(Some(first.score));
            second.score == first.score && !second.register
        }),
{
}


/// The answer of the pending question (empty when none is pending).
pub open spec fn pending_answer(t: TriviaView) -> Seq<char> {
    match t.question {
        Some(qa) => qa.1,
        None => seq![],
    }
}

/// The trimmed message matches `a` character by character up to ASCII case.
pub open spec fn matches_up_to_case(m: Seq<char>, a: Seq<char>) -> bool {
    &&& m.len() == a.len()
    &&& forall|i: int| 0 <= i < m.len() ==> ascii_lower(#[trigger] m[i]) == ascii_lower(a[i])
}

/// A message earns the point exactly when a question is pending and the
/// message, once trimmed, has the answer's length and matches it character
/// by character up to ASCII case. In particular the exact answer always
/// earns the point, and a text shorter or longer than the answer never
/// does and changes nothing.
pub proof fn lemma_award_iff_whole_answer(t: TriviaView, content: Seq<char>, name: Seq<char>)
    ensures
        (reaction(t, content, name) is AwardPoint) <==> (t.question is Some && matches_up_to_case(
            trimmed(content),
            pending_answer(t),
        )),
        t.question is Some && trimmed(content) == pending_answer(t) ==> (reaction(t, content, name)
            == (Reaction::AwardPoint { reply: correct_text(name) })),
        trimmed(content).len() != pending_answer(t).len() ==> (!(reaction(t, content, name) is AwardPoint)
            && state_after_message(t, content) == t),
{
}

} // verus!
