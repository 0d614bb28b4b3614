//! Classification of one inbound text into a bot command.

use vstd::prelude::*;
use crate::text::{chars_of, is_white_space, trim, trimmed};

verus! {

/// A command as the bot understands it.
#[derive(Debug, Clone, PartialEq, Eq)]
pub enum BotCommand {
    Start,
    Stop,
    /// `/add <name>`: the trimmed channel name.
    Add(String),
    List,
    /// `/remove <name>`: the trimmed channel name.
    Remove(String),
    Invalid,
}

/// The mathematical value of a [`BotCommand`].
pub enum Command {
    Start,
    Stop,
    AddChannel(Seq<char>),
    RemoveChannel(Seq<char>),
    ListChannels,
    Invalid,
}

impl View for BotCommand {
    type V = Command;

    open spec fn view(&self) -> Command {
        match self {
            BotCommand::Start => Command::Start,
            BotCommand::Stop => Command::Stop,
            BotCommand::Add(name) => Command::AddChannel(name@),
            BotCommand::List => Command::ListChannels,
            BotCommand::Remove(name) => Command::RemoveChannel(name@),
            BotCommand::Invalid => Command::Invalid,
        }
    }
}

/// `t` starts with the command word `w`, followed by white space or nothing.
pub open spec fn is_command_word(t: Seq<char>, w: Seq<char>) -> bool {
    &&& w.is_prefix_of(t)
    &&& (t.len() == w.len() || is_white_space(t[w.len() as int]))
}

/// What follows the command word `w` in `t`, without surrounding white space.
pub open spec fn argument(t: Seq<char>, w: Seq<char>) -> Seq<char> {
    trimmed(t.subrange(w.len() as int, t.len() as int))
}

/// The command that a text stands for; only a text marked as a command can be one.
pub open spec fn classify_spec(t: Seq<char>, is_command_marked: bool) -> Command {
    if !is_command_marked {
        Command::Invalid
    } else if is_command_word(t, "/add"@) {
        Command::AddChannel(argument(t, "/add"@))
    } else if is_command_word(t, "/remove"@) {
        Command::RemoveChannel(argument(t, "/remove"@))
    } else if is_command_word(t, "/list"@) {
        Command::ListChannels
    } else if is_command_word(t, "/start"@) {
        Command::Start
    } else if is_command_word(t, "/stop"@) {
        Command::Stop
    } else {
        Command::Invalid
    }
}

fn starts_with_command_word(t: &Vec<char>, w: &str) -> (r: bool)
    ensures
        r == is_command_word(t@, w@),
{
    let wc = chars_of(w);
    let m = wc.len();
    let n = t.len();
    if m > n {
        return false;
    }
    let mut i: usize = 0;
    while i < m
        invariant
            m <= n,
            n == t@.len(),
            m == w@.len(),
            wc@ == w@,
            i <= m,
            forall|k: int| 0 <= k < i ==> t@[k] == w@[k],
        decreases m - i,
    {
        if t[i] != wc[i] {
            return false;
        }
        i = i + 1;
    }
    assert(w@ =~= t@.subrange(0, m as int));
    m == n || crate::text::is_whitespace(t[m])
}

fn command_argument(raw_text: &str, w: &str) -> (r: String)
    requires
        w@.len() <= raw_text@.len(),
    ensures
        r@ == argument(raw_text@, w@),
{
    let cs = chars_of(w);
    let all = chars_of(raw_text);
    trim(raw_text.substring_char(cs.len(), all.len()))
}

/// Classifies one inbound text. Only a text marked as a command can be a
/// command; then its first word must be one of `/add`, `/remove`, `/list`,
/// `/start`, `/stop` exactly (so `/stopword` is no command), and for `/add`
/// and `/remove` the rest of the text, trimmed, is the channel name.
pub fn classify(raw_text: &str, is_command_marked: bool) -> (r: BotCommand)
    ensures
        r@ == classify_spec(raw_text@, is_command_marked),
        !is_command_marked ==> r@ is Invalid,
{
    if !is_command_marked {
        return BotCommand::Invalid;
    }
    let t = chars_of(raw_text);
    if starts_with_command_word(&t, "/add") {
        BotCommand::Add(command_argument(raw_text, "/add"))
    } else if starts_with_command_word(&t, "/remove") {
        BotCommand::Remove(command_argument(raw_text, "/remove"))
    } else if starts_with_command_word(&t, "/list") {
        BotCommand::List
    } else if starts_with_command_word(&t, "/start") {
        BotCommand::Start
    } else if starts_with_command_word(&t, "/stop") {
        BotCommand::Stop
    } else {
        BotCommand::Invalid
    }
}

/// How many of the five command words `t` begins with.
pub open spec fn command_word_count(t: Seq<char>) -> int {
    (if is_command_word(t, "/add"@) { 1int } else { 0 }) + (if is_command_word(t, "/remove"@) {
        1int
    } else {
        0
    }) + (if is_command_word(t, "/list"@) { 1int } else { 0 }) + (if is_command_word(
        t,
        "/start"@,
    ) {
        1int
    } else {
        0
    }) + (if is_command_word(t, "/stop"@) { 1int } else { 0 })
}

proof fn lemma_shared_char(t: Seq<char>, w1: Seq<char>, w2: Seq<char>, k: int)
    requires
        w1.is_prefix_of(t),
        w2.is_prefix_of(t),
        0 <= k < w1.len(),
        k < w2.len(),
    ensures
        w1[k] == w2[k],
{
    assert(w1[k] == t.subrange(0, w1.len() as int)[k]);
    assert(w2[k] == t.subrange(0, w2.len() as int)[k]);
}

/// A text begins with at most one of the command words: none of them is
/// mistaken for another that shares its first letters (`/start`, `/stop`).
pub proof fn lemma_command_words_exclusive(t: Seq<char>)
    ensures
        command_word_count(t) <= 1,
{
    reveal_strlit("/add");
    reveal_strlit("/remove");
    reveal_strlit("/list");
    reveal_strlit("/start");
    reveal_strlit("/stop");
    let ws = seq!["/add"@, "/remove"@, "/list"@, "/start"@, "/stop"@];
    assert forall|i: int, j: int|
        0 <= i < j < 5 && (#[trigger] ws[i]).is_prefix_of(t) implies !(#[trigger] ws[j]).is_prefix_of(t) by {
        if ws[j].is_prefix_of(t) {
            let k: int = if i == 3 && j == 4 { 3 } else { 1 };
            lemma_shared_char(t, ws[i], ws[j], k);
        }
    }
    assert(ws[0] == "/add"@);
    assert(ws[1] == "/remove"@);
    assert(ws[2] == "/list"@);
    assert(ws[3] == "/start"@);
    assert(ws[4] == "/stop"@);
}

/// A marked text is classified as a command exactly when its first word is
/// that command's word, and as invalid exactly when it is none of them.
pub proof fn lemma_classify_exact(t: Seq<char>)
    ensures
        classify_spec(t, true) is AddChannel <==> is_command_word(t, "/add"@),
        classify_spec(t, true) is RemoveChannel <==> is_command_word(t, "/remove"@),
        classify_spec(t, true) is ListChannels <==> is_command_word(t, "/list"@),
        classify_spec(t, true) is Start <==> is_command_word(t, "/start"@),
        classify_spec(t, true) is Stop <==> is_command_word(t, "/stop"@),
        classify_spec(t, true) is Invalid <==> command_word_count(t) == 0,
{
    lemma_command_words_exclusive(t);
}

} // verus!
