use vstd::prelude::*;
use vstd::string::*;
use crate::registry::Action;

verus! {

/// A command that a chat sends to the bot.
#[derive(Clone, Copy, Debug, PartialEq, Eq, Structural)]
pub enum Command {
    /// `/start`: receive the daily content from now on.
    Subscribe,
    /// `/stop`: receive it no more.
    Unsubscribe,
}

/// The first index from `from` on at which `s` holds `c`, or the length of
/// `s` where there is none.
pub open spec fn find_char(s: Seq<char>, c: char, from: int) -> int
    decreases s.len() - from,
{
    if from >= s.len() {
        s.len() as int
    } else if s[from] == c {
        from
    } else {
        find_char(s, c, from + 1)
    }
}

pub open spec fn is_ascii_upper(c: char) -> bool {
    'A' <= c <= 'Z'
}

/// Whether two characters are equal when ASCII letters are compared
/// without regard to case.
pub open spec fn same_ignoring_case(a: char, b: char) -> bool {
    a == b || (is_ascii_upper(a) && a as u32 + 32 == b as u32) || (is_ascii_upper(b) && b as u32
        + 32 == a as u32)
}

pub open spec fn eq_ignoring_case(a: Seq<char>, b: Seq<char>) -> bool {
    a.len() == b.len() && forall|i: int| 0 <= i < a.len() ==> same_ignoring_case(a[i], b[i])
}

/// The command that `text` gives to the bot named `bot_name`. The first word
/// of the text, up to the first space, is the command, optionally followed by
/// `@` and the bot's name in any case; the rest of the text is ignored.
pub open spec fn command_of(text: Seq<char>, bot_name: Seq<char>) -> Option<Command> {
    let word = text.take(find_char(text, ' ', 0));
    let at = find_char(word, '@', 0);
    let name = word.take(at);
    let addressed = at == word.len() || eq_ignoring_case(
        word.subrange(at + 1, find_char(word, '@', at + 1)),
        bot_name,
    );
    if !addressed {
        None
    } else if name == seq!['/', 's', 't', 'a', 'r', 't'] {
        Some(Command::Subscribe)
    } else if name == seq!['/', 's', 't', 'o', 'p'] {
        Some(Command::Unsubscribe)
    } else {
        None
    }
}

/// The first index from `from` on at which `s` holds `c`, or the length.
fn find(s: &str, n: usize, c: char, from: usize) -> (r: usize)
    requires
        n == s@.len(),
        from <= n,
    ensures
        r == find_char(s@, c, from as int),
        from <= r <= n,
{
    let mut i = from;
    while i < n
        invariant
            n == s@.len(),
            from <= i <= n,
            find_char(s@, c, from as int) == find_char(s@, c, i as int),
        decreases n - i,
    {
        if s.get_char(i) == c {
            return i;
        }
        i = i + 1;
    }
    i
}

fn same_char_ignoring_case(a: char, b: char) -> (r: bool)
    ensures
        r == same_ignoring_case(a, b),
{
    let x = a as u32;
    let y = b as u32;
    x == y || ('A' <= a && a <= 'Z' && x + 32 == y) || ('A' <= b && b <= 'Z' && y + 32 == x)
}

/// Whether `s` from `start` to `end` equals `other` without regard to case.
fn span_eq_ignoring_case(s: &str, start: usize, end: usize, other: &str) -> (r: bool)
    requires
        start <= end <= s@.len(),
    ensures
        r == eq_ignoring_case(s@.subrange(start as int, end as int), other@),
{
    let m = other.unicode_len();
    if end - start != m {
        return false;
    }
    let ghost span = s@.subrange(start as int, end as int);
    let mut i: usize = 0;
    while i < m
        invariant
            m == other@.len(),
            span == s@.subrange(start as int, end as int),
            end - start == m,
            start <= end <= s@.len(),
            0 <= i <= m,
            forall|j: int| 0 <= j < i ==> same_ignoring_case(span[j], other@[j]),
        decreases m - i,
    {
        if !same_char_ignoring_case(s.get_char(start + i), other.get_char(i)) {
            return false;
        }
        i = i + 1;
    }
    true
}

/// Whether `s` from 0 to `end` is exactly `word`.
fn prefix_is(s: &str, end: usize, word: &str) -> (r: bool)
    requires
        end <= s@.len(),
    ensures
        r == (s@.take(end as int) == word@),
{
    let m = word.unicode_len();
    if end != m {
        return false;
    }
    let mut i: usize = 0;
    while i < m
        invariant
            m == word@.len(),
            end == m,
            end <= s@.len(),
            0 <= i <= m,
            forall|j: int| 0 <= j < i ==> s@[j] == word@[j],
        decreases m - i,
    {
        if s.get_char(i) != word.get_char(i) {
            return false;
        }
        i = i + 1;
    }
    assert(s@.take(end as int) =~= word@);
    true
}

proof fn lemma_find_in_prefix(s: Seq<char>, k: int, c: char, from: int)
    requires
        0 <= from <= k <= s.len(),
    ensures
        find_char(s.take(k), c, from) == (if find_char(s, c, from) < k {
            find_char(s, c, from)
        } else {
            k
        }),
    decreases k - from,
{
    lemma_find_bounds(s, c, from);
    if from < k {
        assert(s.take(k)[from] == s[from]);
        lemma_find_in_prefix(s, k, c, from + 1);
    }
}

proof fn lemma_find_bounds(s: Seq<char>, c: char, from: int)
    requires
        0 <= from <= s.len(),
    ensures
        from <= find_char(s, c, from) <= s.len(),
    decreases s.len() - from,
{
    if from < s.len() {
        lemma_find_bounds(s, c, from + 1);
    }
}

/// The command that `text` gives to the bot named `bot_name`, if any.
pub fn parse_command(text: &str, bot_name: &str) -> (r: Option<Command>)
    ensures
        r == command_of(text@, bot_name@),
{
    let n = text.unicode_len();
    let word_end = find(text, n, ' ', 0);
    let at_raw = find(text, n, '@', 0);
    let at = if at_raw < word_end {
        at_raw
    } else {
        word_end
    };
    let ghost word = text@.take(word_end as int);
    proof {
        lemma_find_in_prefix(text@, word_end as int, '@', 0);
        assert(word.take(at as int) =~= text@.take(at as int));
    }
    if at < word_end {
        let next_raw = find(text, n, '@', at + 1);
        let next = if next_raw < word_end {
            next_raw
        } else {
            word_end
        };
        proof {
            lemma_find_in_prefix(text@, word_end as int, '@', at + 1);
            assert(word.subrange(at + 1, next as int) =~= text@.subrange(at + 1, next as int));
        }
        if !span_eq_ignoring_case(text, at + 1, next, bot_name) {
            return None;
        }
    }
    proof {
        reveal_strlit("/start");
        reveal_strlit("/stop");
        assert("/start"@ =~= seq!['/', 's', 't', 'a', 'r', 't']);
        assert("/stop"@ =~= seq!['/', 's', 't', 'o', 'p']);
    }
    if prefix_is(text, at, "/start") {
        Some(Command::Subscribe)
    } else if prefix_is(text, at, "/stop") {
        Some(Command::Unsubscribe)
    } else {
        None
    }
}

/// The change of the subscriber set that `command` from `chat` asks for.
pub fn action_for(command: Command, chat: i64) -> (r: Action)
    ensures
        r == (match command {
            Command::Subscribe => Action::Add(chat),
            Command::Unsubscribe => Action::Remove(chat),
        }),
{
    match command {
        Command::Subscribe => Action::Add(chat),
        Command::Unsubscribe => Action::Remove(chat),
    }
}

/// What the bot does in answer to a command.
#[derive(Clone, Debug)]
pub struct Response {
    /// The text sent back to the chat.
    pub text: String,
    /// Whether the bot then leaves the chat.
    pub leave_chat: bool,
    /// Whether today's content is sent to the chat right away.
    pub send_content: bool,
}

pub open spec fn welcome_text() -> Seq<char> {
    "Hallo!"@
}

pub open spec fn already_subscribed_text() -> Seq<char> {
    "Hallo! Du bekommst den Comic schon jeden Tag."@
}

pub open spec fn subscribe_failed_text() -> Seq<char> {
    "Das hat leider nicht geklappt. Bitte versuch es gleich noch einmal."@
}

pub open spec fn farewell_text() -> Seq<char> {
    "Ciao!"@
}

/// The answer to `/start`, given what the registry reported: `Some(true)`
/// where the chat was newly added, `Some(false)` where it was subscribed
/// already, `None` where the registry could not be reached. Today's content
/// is sent in every case.
pub fn start_response(added: Option<bool>) -> (r: Response)
    ensures
        r.text@ == (match added {
            Some(true) => welcome_text(),
            Some(false) => already_subscribed_text(),
            None => subscribe_failed_text(),
        }),
        !r.leave_chat,
        r.send_content,
{
    let text = match added {
        Some(true) => String::from_str("Hallo!"),
        Some(false) => String::from_str("Hallo! Du bekommst den Comic schon jeden Tag."),
        None => String::from_str(
            "Das hat leider nicht geklappt. Bitte versuch es gleich noch einmal.",
        ),
    };
    Response { text, leave_chat: false, send_content: true }
}

/// The answer to `/stop`: a farewell, and leaving the chat unless it is a
/// private one.
pub fn stop_response(private_chat: bool) -> (r: Response)
    ensures
        r.text@ == farewell_text(),
        r.leave_chat == !private_chat,
        !r.send_content,
{
    Response { text: String::from_str("Ciao!"), leave_chat: !private_chat, send_content: false }
}

} // verus!
