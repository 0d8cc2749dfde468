//! The round controller: it sequences greeting, previews, banners and
//! questions, and emits rendering commands; a renderer outside the library
//! draws them and feeds the decoded input back in.
//!
//! The controller is a small state machine. Between two waits it only emits
//! commands: `print_greeting` opens the game, `on_reply` resolves the
//! confirmation, `on_any_key` leaves a preview or a banner, and `on_line`
//! judges one typed answer. `run` plays a whole scripted game through those
//! same steps and returns a full record of it.

use vstd::prelude::*;
use crate::decimal::{dec_digits, u64_to_decimal};
use crate::game_rules::Rules;
use crate::io::Reply;
use rand::seq::SliceRandom;
use rand::Rng;

verus! {

/// One rendering command: clear the screen, write a full line, or write text
/// inline before input.
#[derive(Debug, PartialEq, Eq)]
pub enum Cmd {
    Clear,
    Line(String),
    Inline(String),
}

/// What the controller waits for next.
#[derive(Clone, Copy, Debug, PartialEq, Eq)]
pub enum Await {
    Confirm,
    AnyKey,
    LineInput,
    Finished,
}

/// One question of a round: the pair it came from, the side shown as the
/// prompt, and the side expected as the answer.
#[derive(Debug)]
pub struct Question {
    pub pair: (String, String),
    pub prompt: String,
    pub expected: String,
}

/// A question as it was answered.
#[derive(Debug)]
pub struct Answered {
    pub pair: (String, String),
    pub prompt: String,
    pub expected: String,
    pub given: String,
    pub correct: bool,
}

/// One finished round: the preview lines shown once, and every question in
/// the order asked.
#[derive(Debug)]
pub struct RoundRecord {
    pub preview: Vec<String>,
    pub answered: Vec<Answered>,
}

/// A finished scripted game.
#[derive(Debug)]
pub struct GameRun {
    pub played: bool,
    pub rounds: Vec<RoundRecord>,
}

/// Where the controller stands between two waits.
pub enum Phase {
    Greeting,
    Confirming,
    PreviewWait { round: u32 },
    BannerWait { round: u32 },
    Asking { round: u32, queue: Vec<Question>, index: usize },
    Finished { played: bool },
}

/// The round controller.
pub struct Game {
    pub rules: Rules,
    pub words: Vec<(String, String)>,
    pub phase: Phase,
}

/// Whether prompt and expected side are the two sides of `pair`, in either
/// order.
pub open spec fn oriented_sides(pair: (String, String), prompt: String, expected: String) -> bool {
    ||| (prompt == pair.0 && expected == pair.1)
    ||| (prompt == pair.1 && expected == pair.0)
}

pub open spec fn oriented(q: Question) -> bool {
    oriented_sides(q.pair, q.prompt, q.expected)
}

pub open spec fn spec_pairs(queue: Seq<Question>) -> Seq<(String, String)> {
    queue.map_values(|q: Question| q.pair)
}

pub open spec fn answered_pairs(answered: Seq<Answered>) -> Seq<(String, String)> {
    answered.map_values(|a: Answered| a.pair)
}

/// A round's question list: one question per word pair, each in a coin-flip
/// orientation, the whole a permutation of the word list.
pub open spec fn round_questions_wf(queue: Seq<Question>, words: Seq<(String, String)>) -> bool {
    &&& queue.len() == words.len()
    &&& spec_pairs(queue).to_multiset() == words.to_multiset()
    &&& forall|i: int| 0 <= i < queue.len() ==> oriented(#[trigger] queue[i])
}

/// The preview line of one pair, verbatim.
pub open spec fn pair_text(w: (String, String)) -> Seq<char> {
    w.0@ + " - "@ + w.1@
}

/// The inline prompt of one question.
pub open spec fn prompt_text(q: Question) -> Seq<char> {
    q.prompt@ + " - "@
}

/// The verdict line for a wrong answer.
pub open spec fn wrong_text(expected: Seq<char>) -> Seq<char> {
    "Wrong! Correct answer is \""@ + expected + "\""@
}

/// The rule summary of the greeting.
pub open spec fn summary_text(rules: Rules, count: nat) -> Seq<char> {
    "We are playing "@ + dec_digits(rules.amount_of_rounds as nat) + " rounds. There are "@
        + dec_digits(count) + " word pairs in file \""@ + rules.file_name@ + "\""@
}

pub open spec fn is_line(c: Cmd, text: Seq<char>) -> bool {
    c matches Cmd::Line(s) && s@ == text
}

pub open spec fn is_inline(c: Cmd, text: Seq<char>) -> bool {
    c matches Cmd::Inline(s) && s@ == text
}

/// The greeting: clear, greeting line, rule summary, and the confirmation
/// prompt with its fixed Y/n line.
pub open spec fn greeting_cmds(cmds: Seq<Cmd>, rules: Rules, count: nat) -> bool {
    &&& cmds.len() == 5
    &&& cmds[0] is Clear
    &&& is_line(cmds[1], "Greetings!"@)
    &&& is_line(cmds[2], summary_text(rules, count))
    &&& is_line(cmds[3], "Start playing?"@)
    &&& is_line(cmds[4], "Y/n"@)
}

/// A round preview: clear, header, one line per pair in input order, and the
/// any-key prompt.
pub open spec fn preview_cmds(cmds: Seq<Cmd>, words: Seq<(String, String)>) -> bool {
    &&& cmds.len() == words.len() + 3
    &&& cmds[0] is Clear
    &&& is_line(cmds[1], "Today's words are"@)
    &&& forall|i: int| 0 <= i < words.len() ==> is_line(#[trigger] cmds[2 + i], pair_text(words[i]))
    &&& is_line(cmds[cmds.len() - 1], "Press any key"@)
}

/// A round banner: clear, "Round N!" (1-indexed), and the any-key prompt.
pub open spec fn banner_cmds(cmds: Seq<Cmd>, round: u32) -> bool {
    &&& cmds.len() == 3
    &&& cmds[0] is Clear
    &&& is_line(cmds[1], "Round "@ + dec_digits((round + 1) as nat) + "!"@)
    &&& is_line(cmds[2], "Press any key"@)
}

/// The scripted answer for the `k`-th question overall: an exhausted script
/// answers with the empty string, as an ended key stream leaves an empty
/// buffer.
pub open spec fn answer_at(answers: Seq<String>, k: int) -> Seq<char> {
    if 0 <= k < answers.len() {
        answers[k]@
    } else {
        Seq::empty()
    }
}

/// One answered question, as recorded: a coin-flip orientation of its pair,
/// the scripted answer it drew, and an exact-match verdict.
pub open spec fn answered_wf(a: Answered, answers: Seq<String>, k: int) -> bool {
    &&& oriented_sides(a.pair, a.prompt, a.expected)
    &&& a.given@ == answer_at(answers, k)
    &&& a.correct == (a.given@ == a.expected@)
}

/// One finished round, whose first question overall was the `k0`-th: the
/// full preview shown once, and each pair asked exactly once.
pub open spec fn round_record_wf(
    rr: RoundRecord,
    words: Seq<(String, String)>,
    answers: Seq<String>,
    k0: int,
) -> bool {
    &&& rr.preview@.len() == words.len()
    &&& (forall|i: int| 0 <= i < words.len() ==> #[trigger] rr.preview@[i]@ == pair_text(words[i]))
    &&& rr.answered@.len() == words.len()
    &&& answered_pairs(rr.answered@).to_multiset() == words.to_multiset()
    &&& (forall|j: int|
        0 <= j < rr.answered@.len() ==> answered_wf(#[trigger] rr.answered@[j], answers, k0 + j))
}

/// A finished game's rounds: exactly one record per configured round.
pub open spec fn game_rounds_wf(
    rounds: Seq<RoundRecord>,
    rules: Rules,
    words: Seq<(String, String)>,
    answers: Seq<String>,
) -> bool {
    &&& rounds.len() == rules.amount_of_rounds
    &&& forall|i: int|
        0 <= i < rounds.len() ==> round_record_wf(
            #[trigger] rounds[i],
            words,
            answers,
            i * words.len(),
        )
}

/// Everything a whole scripted game guarantees: the greeting always comes
/// first; declining leaves nothing but the greeting; playing leaves one
/// well-formed record per round.
pub open spec fn run_post(
    rules: Rules,
    words: Seq<(String, String)>,
    reply: Reply,
    answers: Seq<String>,
    run: GameRun,
    cmds: Seq<Cmd>,
) -> bool {
    &&& run.played == (reply is Yes)
    &&& cmds.len() >= 5
    &&& greeting_cmds(cmds.take(5), rules, words.len())
    &&& (reply is No ==> cmds.len() == 5 && run.rounds@.len() == 0)
    &&& (reply is Yes && rules.amount_of_rounds == 0 ==> cmds.len() == 5)
    &&& (reply is Yes ==> game_rounds_wf(run.rounds@, rules, words, answers))
}

/// Relies on `rand::seq::SliceRandom::shuffle`: a uniformly random in-place
/// permutation, so the contents as a multiset are unchanged.
#[verifier::external_body]
fn shuffle_pairs(pairs: &mut Vec<(String, String)>)
    ensures
        final(pairs)@.to_multiset() == old(pairs)@.to_multiset(),
        final(pairs)@.len() == old(pairs)@.len(),
{
    pairs.shuffle(&mut rand::thread_rng());
}

/// Relies on `rand::Rng::gen_range`: a uniform draw from the half-open
/// range, here always 0 or 1.
#[verifier::external_body]
fn flip_coin() -> (r: u32)
    ensures
        r < 2,
{
    rand::thread_rng().gen_range(0..2)
}

fn clone_pair(p: &(String, String)) -> (r: (String, String))
    ensures
        r == *p,
{
    (p.0.clone(), p.1.clone())
}

fn clone_pairs(words: &Vec<(String, String)>) -> (r: Vec<(String, String)>)
    ensures
        r@ == words@,
{
    let mut r: Vec<(String, String)> = Vec::new();
    let mut i: usize = 0;
    while i < words.len()
        invariant
            i <= words@.len(),
            r@ == words@.take(i as int),
        decreases words@.len() - i,
    {
        r.push(clone_pair(&words[i]));
        proof {
            assert(r@ =~= words@.take(i as int + 1));
        }
        i += 1;
    }
    proof {
        assert(words@.take(words@.len() as int) =~= words@);
    }
    r
}

/// With probability one half the pair is kept — term as prompt, translation
/// as expected — and otherwise the sides are swapped.
pub fn generate_question(data: (String, String)) -> (q: (String, String))
    ensures
        oriented_sides(data, q.0, q.1),
{
    let coin: u32 = flip_coin();
    if coin == 0 {
        data
    } else {
        (data.1, data.0)
    }
}

/// Builds one round: a fresh shuffle of the full word list, each pair's
/// prompt side chosen by an independent coin flip.
fn make_round(words: &Vec<(String, String)>) -> (queue: Vec<Question>)
    ensures
        round_questions_wf(queue@, words@),
{
    let mut shuffled = clone_pairs(words);
    shuffle_pairs(&mut shuffled);
    let mut queue: Vec<Question> = Vec::new();
    let mut i: usize = 0;
    while i < shuffled.len()
        invariant
            i <= shuffled@.len(),
            shuffled@.to_multiset() == words@.to_multiset(),
            shuffled@.len() == words@.len(),
            queue@.len() == i,
            spec_pairs(queue@) == shuffled@.take(i as int),
            forall|j: int| 0 <= j < queue@.len() ==> oriented(#[trigger] queue@[j]),
        decreases shuffled@.len() - i,
    {
        let pair = clone_pair(&shuffled[i]);
        let keep = clone_pair(&pair);
        let (prompt, expected) = generate_question(pair);
        let q = Question { pair: keep, prompt, expected };
        queue.push(q);
        proof {
            assert(spec_pairs(queue@) =~= shuffled@.take(i as int + 1));
        }
        i += 1;
    }
    proof {
        assert(shuffled@.take(shuffled@.len() as int) =~= shuffled@);
    }
    queue
}

/// The preview lines: each pair verbatim, term " - " translation, in input
/// order.
pub fn preview_lines(words: &Vec<(String, String)>) -> (lines: Vec<String>)
    ensures
        lines@.len() == words@.len(),
        forall|i: int| 0 <= i < words@.len() ==> #[trigger] lines@[i]@ == pair_text(words@[i]),
{
    let mut lines: Vec<String> = Vec::new();
    let mut i: usize = 0;
    while i < words.len()
        invariant
            i <= words@.len(),
            lines@.len() == i,
            forall|j: int| 0 <= j < i ==> #[trigger] lines@[j]@ == pair_text(words@[j]),
        decreases words@.len() - i,
    {
        let mut s = words[i].0.clone();
        s.append(" - ");
        s.append(words[i].1.as_str());
        lines.push(s);
        i += 1;
    }
    lines
}

fn preview_commands(words: &Vec<(String, String)>) -> (cmds: Vec<Cmd>)
    ensures
        preview_cmds(cmds@, words@),
{
    let mut cmds: Vec<Cmd> = Vec::new();
    cmds.push(Cmd::Clear);
    cmds.push(Cmd::Line(String::from_str("Today's words are")));
    let lines = preview_lines(words);
    let mut i: usize = 0;
    while i < lines.len()
        invariant
            i <= lines@.len(),
            lines@.len() == words@.len(),
            forall|j: int| 0 <= j < words@.len() ==> #[trigger] lines@[j]@ == pair_text(words@[j]),
            cmds@.len() == 2 + i,
            cmds@[0] is Clear,
            is_line(cmds@[1], "Today's words are"@),
            forall|j: int| 0 <= j < i ==> is_line(#[trigger] cmds@[2 + j], pair_text(words@[j])),
        decreases lines@.len() - i,
    {
        cmds.push(Cmd::Line(lines[i].clone()));
        i += 1;
    }
    cmds.push(Cmd::Line(String::from_str("Press any key")));
    cmds
}

fn banner_commands(round: u32) -> (cmds: Vec<Cmd>)
    requires
        round < u32::MAX,
    ensures
        banner_cmds(cmds@, round),
{
    let mut cmds: Vec<Cmd> = Vec::new();
    cmds.push(Cmd::Clear);
    let mut s = String::from_str("Round ");
    let num = u64_to_decimal(round as u64 + 1);
    s.append(num.as_str());
    s.append("!");
    cmds.push(Cmd::Line(s));
    cmds.push(Cmd::Line(String::from_str("Press any key")));
    cmds
}

fn summary_string(rules: &Rules, count: usize) -> (s: String)
    ensures
        s@ == summary_text(*rules, count as nat),
{
    let mut s = String::from_str("We are playing ");
    let rounds_txt = u64_to_decimal(rules.amount_of_rounds as u64);
    s.append(rounds_txt.as_str());
    s.append(" rounds. There are ");
    let count_txt = u64_to_decimal(count as u64);
    s.append(count_txt.as_str());
    s.append(" word pairs in file \"");
    s.append(rules.file_name.as_str());
    s.append("\"");
    s
}

/// The inline prompt of a question: its prompt side and " - ".
fn prompt_string(q: &Question) -> (s: String)
    ensures
        s@ == prompt_text(*q),
{
    let mut s = q.prompt.clone();
    s.append(" - ");
    s
}

/// Exact comparison of an answer: case- and whitespace-sensitive, nothing
/// stripped.
pub fn check_answer(given: &String, expected: &String) -> (r: bool)
    ensures
        r == (given@ == expected@),
{
    *given == *expected
}

/// The verdict line after one answer.
pub fn feedback_line(correct: bool, expected: &String) -> (s: String)
    ensures
        correct ==> s@ == "Correct!"@,
        !correct ==> s@ == wrong_text(expected@),
{
    if correct {
        String::from_str("Correct!")
    } else {
        let mut s = String::from_str("Wrong! Correct answer is \"");
        s.append(expected.as_str());
        s.append("\"");
        s
    }
}

impl Game {
    /// Whether the controller is still sound where it stands.
    pub open spec fn wf(self) -> bool {
        match self.phase {
            Phase::PreviewWait { round } => round < self.rules.amount_of_rounds,
            Phase::BannerWait { round } => round < self.rules.amount_of_rounds,
            Phase::Asking { round, queue, index } => {
                &&& round < self.rules.amount_of_rounds
                &&& index < queue@.len()
                &&& round_questions_wf(queue@, self.words@)
            },
            _ => true,
        }
    }

    /// Holds everything the controller needs; play starts at the greeting.
    pub fn new(rules: Rules, words: Vec<(String, String)>) -> (g: Game)
        ensures
            g.rules == rules,
            g.words == words,
            g.phase is Greeting,
            g.wf(),
    {
        Game { rules, words, phase: Phase::Greeting }
    }

    /// What the controller waits for in its current phase.
    pub fn awaiting(&self) -> (a: Await)
        ensures
            (self.phase is Greeting || self.phase is Confirming) ==> a is Confirm,
            (self.phase matches Phase::PreviewWait { .. } || self.phase matches Phase::BannerWait {
                ..
            }) ==> a is AnyKey,
            self.phase matches Phase::Asking { .. } ==> a is LineInput,
            self.phase matches Phase::Finished { .. } ==> a is Finished,
    {
        match &self.phase {
            Phase::Greeting => Await::Confirm,
            Phase::Confirming => Await::Confirm,
            Phase::PreviewWait { .. } => Await::AnyKey,
            Phase::BannerWait { .. } => Await::AnyKey,
            Phase::Asking { .. } => Await::LineInput,
            Phase::Finished { .. } => Await::Finished,
        }
    }

    pub fn is_finished(&self) -> (b: bool)
        ensures
            b == (self.phase matches Phase::Finished { .. }),
    {
        match &self.phase {
            Phase::Finished { .. } => true,
            _ => false,
        }
    }

    pub fn is_asking(&self) -> (b: bool)
        ensures
            b == (self.phase matches Phase::Asking { .. }),
    {
        match &self.phase {
            Phase::Asking { .. } => true,
            _ => false,
        }
    }

    /// Clears the screen, greets, summarizes the rules, and asks to start.
    pub fn print_greeting(&mut self) -> (cmds: Vec<Cmd>)
        requires
            old(self).phase is Greeting,
        ensures
            final(self).rules == old(self).rules,
            final(self).words == old(self).words,
            final(self).phase is Confirming,
            final(self).wf(),
            greeting_cmds(cmds@, old(self).rules, old(self).words@.len()),
    {
        let summary = summary_string(&self.rules, self.words.len());
        let mut cmds: Vec<Cmd> = Vec::new();
        cmds.push(Cmd::Clear);
        cmds.push(Cmd::Line(String::from_str("Greetings!")));
        cmds.push(Cmd::Line(summary));
        cmds.push(Cmd::Line(String::from_str("Start playing?")));
        cmds.push(Cmd::Line(String::from_str("Y/n")));
        self.phase = Phase::Confirming;
        cmds
    }

    /// Resolves the confirmation: declining finishes at once with no round
    /// rendering at all; an affirmative reply opens the first round's
    /// preview, unless there are no rounds, in which case play completes
    /// immediately.
    pub fn on_reply(&mut self, reply: Reply) -> (cmds: Vec<Cmd>)
        requires
            old(self).phase is Confirming,
        ensures
            final(self).rules == old(self).rules,
            final(self).words == old(self).words,
            final(self).wf(),
            reply is No ==> final(self).phase == (Phase::Finished { played: false })
                && cmds@.len() == 0,
            reply is Yes && old(self).rules.amount_of_rounds == 0 ==> final(self).phase == (
            Phase::Finished { played: true }) && cmds@.len() == 0,
            reply is Yes && old(self).rules.amount_of_rounds > 0 ==> (final(self).phase matches
                Phase::PreviewWait { round } && round == 0) && preview_cmds(
                cmds@,
                old(self).words@,
            ),
    {
        match reply {
            Reply::No => {
                self.phase = Phase::Finished { played: false };
                Vec::new()
            },
            Reply::Yes => {
                if self.rules.amount_of_rounds == 0 {
                    self.phase = Phase::Finished { played: true };
                    Vec::new()
                } else {
                    self.phase = Phase::PreviewWait { round: 0 };
                    preview_commands(&self.words)
                }
            },
        }
    }

    /// An any-key wait ends: after a preview the round banner follows; after
    /// a banner the round's questions begin — or, with no word pairs at all,
    /// the round is over as soon as it began.
    pub fn on_any_key(&mut self) -> (cmds: Vec<Cmd>)
        requires
            old(self).wf(),
            old(self).phase matches Phase::PreviewWait { .. } || old(self).phase matches
                Phase::BannerWait { .. },
        ensures
            final(self).rules == old(self).rules,
            final(self).words == old(self).words,
            final(self).wf(),
            old(self).phase matches Phase::PreviewWait { round } ==> (final(self).phase matches
                Phase::BannerWait { round: r2 } && r2 == round) && banner_cmds(cmds@, round),
            old(self).phase matches Phase::BannerWait { round } ==> {
                &&& old(self).words@.len() > 0 ==> (final(self).phase matches Phase::Asking {
                    round: r2,
                    queue,
                    index,
                } && r2 == round && index == 0 && round_questions_wf(queue@, old(self).words@)
                    && cmds@.len() == 1 && is_inline(cmds@[0], prompt_text(queue@[0])))
                &&& old(self).words@.len() == 0 && round + 1 < old(self).rules.amount_of_rounds
                    ==> (final(self).phase matches Phase::PreviewWait { round: r2 } && r2 == round
                    + 1) && preview_cmds(cmds@, old(self).words@)
                &&& old(self).words@.len() == 0 && round + 1 >= old(self).rules.amount_of_rounds
                    ==> final(self).phase == (Phase::Finished { played: true }) && cmds@.len()
                    == 0
            },
    {
        let is_preview: bool;
        let round: u32;
        match &self.phase {
            Phase::PreviewWait { round: r } => {
                is_preview = true;
                round = *r;
            },
            Phase::BannerWait { round: r } => {
                is_preview = false;
                round = *r;
            },
            _ => {
                proof {
                    assert(false);
                }
                is_preview = false;
                round = 0;
            },
        }
        if is_preview {
            self.phase = Phase::BannerWait { round };
            banner_commands(round)
        } else if self.words.len() > 0 {
            let queue = make_round(&self.words);
            let mut cmds: Vec<Cmd> = Vec::new();
            cmds.push(Cmd::Inline(prompt_string(&queue[0])));
            self.phase = Phase::Asking { round, queue, index: 0 };
            cmds
        } else if round + 1 < self.rules.amount_of_rounds {
            self.phase = Phase::PreviewWait { round: round + 1 };
            preview_commands(&self.words)
        } else {
            self.phase = Phase::Finished { played: true };
            Vec::new()
        }
    }

    /// Judges one typed answer by exact match, reports the verdict line, and
    /// moves on: to the next prompt, to the next round's preview, or to the
    /// end of play.
    pub fn on_line(&mut self, given: String) -> (r: (Answered, Vec<Cmd>))
        requires
            old(self).wf(),
            old(self).phase matches Phase::Asking { .. },
        ensures
            final(self).rules == old(self).rules,
            final(self).words == old(self).words,
            final(self).wf(),
            old(self).phase matches Phase::Asking { round, queue, index } ==> {
                &&& r.0.pair == queue@[index as int].pair
                &&& r.0.prompt == queue@[index as int].prompt
                &&& r.0.expected == queue@[index as int].expected
                &&& r.0.given == given
                &&& r.0.correct == (given@ == queue@[index as int].expected@)
                &&& r.1@.len() >= 1
                &&& is_line(
                    r.1@[0],
                    if r.0.correct {
                        "Correct!"@
                    } else {
                        wrong_text(queue@[index as int].expected@)
                    },
                )
                &&& index + 1 < queue@.len() ==> (final(self).phase matches Phase::Asking {
                    round: r2,
                    queue: q2,
                    index: i2,
                } && r2 == round && q2@ == queue@ && i2 == index + 1) && r.1@.len() == 2
                    && is_inline(r.1@[1], prompt_text(queue@[index as int + 1]))
                &&& index + 1 == queue@.len() && round + 1 < old(self).rules.amount_of_rounds
                    ==> (final(self).phase matches Phase::PreviewWait { round: r2 } && r2 == round
                    + 1) && r.1@.len() == old(self).words@.len() + 4 && preview_cmds(
                    r.1@.skip(1),
                    old(self).words@,
                )
                &&& index + 1 == queue@.len() && round + 1 >= old(self).rules.amount_of_rounds
                    ==> final(self).phase == (Phase::Finished { played: true }) && r.1@.len() == 1
            },
    {
        let round: u32;
        let idx: usize;
        let qlen: usize;
        let prompt: String;
        let expected: String;
        let pair: (String, String);
        match &self.phase {
            Phase::Asking { round: r, queue, index } => {
                round = *r;
                idx = *index;
                qlen = queue.len();
                let q = &queue[idx];
                prompt = q.prompt.clone();
                expected = q.expected.clone();
                pair = clone_pair(&q.pair);
            },
            _ => {
                proof {
                    assert(false);
                }
                round = 0;
                idx = 0;
                qlen = 0;
                prompt = String::new();
                expected = String::new();
                pair = (String::new(), String::new());
            },
        }
        let correct = check_answer(&given, &expected);
        let mut cmds: Vec<Cmd> = Vec::new();
        cmds.push(Cmd::Line(feedback_line(correct, &expected)));
        let ans = Answered { pair, prompt, expected, given, correct };
        if idx + 1 < qlen {
            match &mut self.phase {
                Phase::Asking { queue, index, .. } => {
                    *index = idx + 1;
                    cmds.push(Cmd::Inline(prompt_string(&queue[idx + 1])));
                },
                _ => {
                    proof {
                        assert(false);
                    }
                },
            }
        } else if round + 1 < self.rules.amount_of_rounds {
            self.phase = Phase::PreviewWait { round: round + 1 };
            let mut pv = preview_commands(&self.words);
            cmds.append(&mut pv);
        } else {
            self.phase = Phase::Finished { played: true };
        }
        (ans, cmds)
    }

    /// The phase right after a round ends, seen from that round's index.
    spec fn end_of_round_phase(self, round_idx: u32) -> bool {
        ||| (self.phase matches Phase::PreviewWait { round } && round == round_idx + 1 && round_idx
            + 1 < self.rules.amount_of_rounds)
        ||| (self.phase == (Phase::Finished { played: true }) && round_idx + 1
            == self.rules.amount_of_rounds)
    }

    /// Plays every round: for each, the full preview once, the banner, and
    /// one question per word pair in a freshly shuffled order, the `k`-th
    /// question overall drawing the `k`-th scripted answer (an exhausted
    /// script answers with the empty string).
    pub fn play_game(&mut self, answers: &Vec<String>) -> (r: (Vec<RoundRecord>, Vec<Cmd>))
        requires
            old(self).wf(),
            old(self).phase matches Phase::PreviewWait { round } && round == 0,
            old(self).rules.amount_of_rounds * old(self).words@.len() <= usize::MAX,
        ensures
            final(self).rules == old(self).rules,
            final(self).words == old(self).words,
            final(self).phase == (Phase::Finished { played: true }),
            game_rounds_wf(r.0@, old(self).rules, old(self).words@, answers@),
    {
        let mut rounds_vec: Vec<RoundRecord> = Vec::new();
        let mut cmds: Vec<Cmd> = Vec::new();
        let mut k: usize = 0;
        let mut round_idx: u32 = 0;
        let total: u32 = self.rules.amount_of_rounds;
        let wlen: usize = self.words.len();
        let mut finished = self.is_finished();
        while !finished
            invariant
                self.rules == old(self).rules,
                self.words == old(self).words,
                self.wf(),
                finished == (self.phase matches Phase::Finished { .. }),
                total == self.rules.amount_of_rounds,
                wlen == self.words@.len(),
                total * wlen <= usize::MAX,
                rounds_vec@.len() == round_idx,
                round_idx <= total,
                k == round_idx * wlen,
                !finished ==> (self.phase matches Phase::PreviewWait { round } && round
                    == round_idx && round_idx < total),
                finished ==> self.phase == (Phase::Finished { played: true }) && round_idx
                    == total,
                forall|i: int|
                    0 <= i < rounds_vec@.len() ==> round_record_wf(
                        #[trigger] rounds_vec@[i],
                        old(self).words@,
                        answers@,
                        i * wlen,
                    ),
            decreases total - round_idx,
        {
            let mut c1 = self.on_any_key();
            cmds.append(&mut c1);
            let preview = preview_lines(&self.words);
            let mut c2 = self.on_any_key();
            cmds.append(&mut c2);
            let ghost q_snapshot: Seq<Question> = match &self.phase {
                Phase::Asking { queue, .. } => queue@,
                _ => Seq::<Question>::empty(),
            };
            let mut answered: Vec<Answered> = Vec::new();
            proof {
                assert(answered_pairs(answered@) =~= spec_pairs(q_snapshot).take(0));
            }
            let mut asking = self.is_asking();
            while asking
                invariant
                    self.rules == old(self).rules,
                    self.words == old(self).words,
                    self.wf(),
                    asking == (self.phase matches Phase::Asking { .. }),
                    total == self.rules.amount_of_rounds,
                    wlen == self.words@.len(),
                    total * wlen <= usize::MAX,
                    round_idx < total,
                    answered@.len() <= wlen,
                    k == round_idx * wlen + answered@.len(),
                    forall|j: int|
                        0 <= j < answered@.len() ==> answered_wf(
                            #[trigger] answered@[j],
                            answers@,
                            round_idx * wlen + j,
                        ),
                    answered_pairs(answered@) == spec_pairs(q_snapshot).take(
                        answered@.len() as int,
                    ),
                    wlen > 0 ==> round_questions_wf(q_snapshot, self.words@),
                    wlen == 0 ==> q_snapshot == Seq::<Question>::empty(),
                    self.phase matches Phase::Asking { round, queue, index } ==> (round
                        == round_idx && queue@ == q_snapshot && index == answered@.len()),
                    !asking ==> (answered@.len() == wlen && self.end_of_round_phase(round_idx)),
                decreases wlen - answered@.len(),
            {
                proof {
                    assert(round_idx * wlen + wlen == (round_idx + 1) * wlen) by (nonlinear_arith);
                    assert((round_idx + 1) * wlen <= total * wlen) by (nonlinear_arith)
                        requires
                            round_idx + 1 <= total,
                            wlen >= 0,
                    ;
                    assert(k + 1 <= total * wlen);
                }
                let given = if k < answers.len() {
                    answers[k].clone()
                } else {
                    String::new()
                };
                let (ans, mut c3) = self.on_line(given);
                cmds.append(&mut c3);
                answered.push(ans);
                k = k + 1;
                proof {
                    assert(answered_pairs(answered@) =~= spec_pairs(q_snapshot).take(
                        answered@.len() as int,
                    ));
                }
                asking = self.is_asking();
            }
            proof {
                assert(spec_pairs(q_snapshot).take(wlen as int) =~= spec_pairs(q_snapshot));
                if wlen == 0 {
                    assert(spec_pairs(q_snapshot) =~= self.words@);
                }
                assert(answered_pairs(answered@).to_multiset() == self.words@.to_multiset());
            }
            let rr = RoundRecord { preview, answered };
            rounds_vec.push(rr);
            proof {
                assert((round_idx + 1) * wlen == round_idx * wlen + wlen) by (nonlinear_arith);
            }
            round_idx = round_idx + 1;
            finished = self.is_finished();
        }
        (rounds_vec, cmds)
    }

    /// One whole scripted game: greeting, confirmation, and — on an
    /// affirmative reply — every round, drawing answers from the script in
    /// order.
    pub fn run(&mut self, reply: Reply, answers: &Vec<String>) -> (r: (GameRun, Vec<Cmd>))
        requires
            old(self).phase is Greeting,
            old(self).rules.amount_of_rounds * old(self).words@.len() <= usize::MAX,
        ensures
            final(self).rules == old(self).rules,
            final(self).words == old(self).words,
            final(self).phase matches Phase::Finished { played } && played == (reply is Yes),
            run_post(old(self).rules, old(self).words@, reply, answers@, r.0, r.1@),
    {
        let mut cmds = self.print_greeting();
        let ghost greet = cmds@;
        let mut c2 = self.on_reply(reply);
        cmds.append(&mut c2);
        let finished = self.is_finished();
        if finished {
            let played = match &self.phase {
                Phase::Finished { played } => *played,
                _ => {
                    proof {
                        assert(false);
                    }
                    false
                },
            };
            proof {
                assert(cmds@ =~= greet);
                assert(cmds@.take(5) =~= greet);
            }
            return (GameRun { played, rounds: Vec::new() }, cmds);
        }
        proof {
            assert(cmds@.take(5) =~= greet);
        }
        let (rounds, mut c3) = self.play_game(answers);
        cmds.append(&mut c3);
        proof {
            assert(cmds@.take(5) =~= greet);
        }
        (GameRun { played: true, rounds }, cmds)
    }
}

/// Builds the controller and plays one whole scripted game.
pub fn create_game(
    rules: Rules,
    words: Vec<(String, String)>,
    reply: Reply,
    answers: &Vec<String>,
) -> (r: (GameRun, Vec<Cmd>))
    requires
        rules.amount_of_rounds * words@.len() <= usize::MAX,
    ensures
        run_post(rules, words@, reply, answers@, r.0, r.1@),
{
    let mut game = Game::new(rules, words);
    game.run(reply, answers)
}

} // verus!
