//! Parsing of chat messages into bot commands.
//!
//! A message starting with `!` names a command (`!joke`, `!quit`); one
//! starting with `$` reads or writes a user setting: `$<var> [<cmd> [<value>]]`,
//! with the words separated by single spaces.

use vstd::prelude::*;
use crate::text::{chars_of, chars_eq, string_of};
use crate::user::UserVar;

verus! {

/// What a chat message asks of the bot.
#[derive(Clone, Debug, PartialEq, Eq)]
pub enum Action {
    /// Post the given text in the channel the message came from.
    SendMessage(String),
    /// Stop the bot.
    Quit,
    /// Read (no command) or write (`set`) a setting of the author.
    ChangeVariable(UserVar, Option<String>, Option<String>),
    /// Nothing to do.
    Ignore,
    /// Post the first joke of the joke file in the channel the message came from.
    TellJoke,
}

/// An [`Action`] with every string read as its characters.
pub enum ActionView {
    SendMessage(Seq<char>),
    Quit,
    ChangeVariable(UserVar, Option<Seq<char>>, Option<Seq<char>>),
    Ignore,
    TellJoke,
}

impl View for Action {
    type V = ActionView;

    open spec fn view(&self) -> ActionView {
        match self {
            Action::SendMessage(m) => ActionView::SendMessage(m@),
            Action::Quit => ActionView::Quit,
            Action::ChangeVariable(v, c, x) => ActionView::ChangeVariable(
                *v,
                crate::user::opt_chars(*c),
                crate::user::opt_chars(*x),
            ),
            Action::Ignore => ActionView::Ignore,
            Action::TellJoke => ActionView::TellJoke,
        }
    }
}

/// The pieces of `s` between single spaces, as `str::split(' ')` yields them:
/// always at least one piece, and an empty piece for each space that starts
/// `s`, ends it or follows another space.
pub open spec fn split_spaces(s: Seq<char>) -> Seq<Seq<char>>
    decreases s.len(),
{
    if s.len() == 0 {
        seq![Seq::<char>::empty()]
    } else {
        let r = split_spaces(s.drop_last());
        if s.last() == ' ' {
            r.push(Seq::<char>::empty())
        } else {
            r.update(r.len() - 1, r.last().push(s.last()))
        }
    }
}

/// Splitting always yields at least one piece.
pub proof fn lemma_split_spaces_nonempty(s: Seq<char>)
    ensures
        split_spaces(s).len() >= 1,
    decreases s.len(),
{
    if s.len() > 0 {
        lemma_split_spaces_nonempty(s.drop_last());
    }
}

/// Splitting at a space splits each side separately.
pub proof fn lemma_split_spaces_concat(a: Seq<char>, b: Seq<char>)
    ensures
        split_spaces(a + seq![' '] + b) == split_spaces(a) + split_spaces(b),
    decreases b.len(),
{
    let x = a + seq![' '] + b;
    if b.len() == 0 {
        assert(x.drop_last() =~= a);
        assert(split_spaces(b) =~= seq![Seq::<char>::empty()]);
        assert(split_spaces(x) =~= split_spaces(a) + split_spaces(b));
    } else {
        lemma_split_spaces_concat(a, b.drop_last());
        lemma_split_spaces_nonempty(b.drop_last());
        assert(x.drop_last() =~= a + seq![' '] + b.drop_last());
        assert(x.last() == b.last());
        let p = split_spaces(a);
        let q = split_spaces(b.drop_last());
        if b.last() == ' ' {
            assert((p + q).push(Seq::<char>::empty()) =~= p + q.push(Seq::<char>::empty()));
        } else {
            assert((p + q).update((p + q).len() - 1, (p + q).last().push(b.last())) =~= p + q.update(
                q.len() - 1,
                q.last().push(b.last()),
            ));
        }
    }
}

/// A word without spaces is a single piece.
pub proof fn lemma_split_spaces_word(w: Seq<char>)
    requires
        forall|i: int| 0 <= i < w.len() ==> w[i] != ' ',
    ensures
        split_spaces(w) == seq![w],
    decreases w.len(),
{
    if w.len() > 0 {
        lemma_split_spaces_word(w.drop_last());
        assert(w.drop_last().push(w.last()) =~= w);
        assert(seq![w.drop_last()].update(0, w) =~= seq![w]);
    } else {
        assert(w =~= Seq::<char>::empty());
    }
}

pub open spec fn word_joke() -> Seq<char> {
    seq!['j', 'o', 'k', 'e']
}

pub open spec fn word_quit() -> Seq<char> {
    seq!['q', 'u', 'i', 't']
}

pub open spec fn word_favfood() -> Seq<char> {
    seq!['f', 'a', 'v', 'f', 'o', 'o', 'd']
}

pub open spec fn word_nick() -> Seq<char> {
    seq!['n', 'i', 'c', 'k']
}

pub open spec fn word_notif() -> Seq<char> {
    seq!['n', 'o', 't', 'i', 'f']
}

/// The setting a `$` command names by its first word.
pub open spec fn user_var_of(word: Seq<char>) -> UserVar {
    if word == word_favfood() {
        UserVar::FavFood
    } else if word == word_nick() {
        UserVar::Nick
    } else if word == word_notif() {
        UserVar::Notif
    } else {
        UserVar::Unknown
    }
}

/// What the message with characters `m` asks of the bot.
pub open spec fn parse_spec(m: Seq<char>) -> ActionView {
    if m.len() == 0 {
        ActionView::Ignore
    } else if m[0] == '!' {
        let rest = m.skip(1);
        if rest == word_joke() {
            ActionView::TellJoke
        } else if rest == word_quit() {
            ActionView::Quit
        } else {
            ActionView::Ignore
        }
    } else if m[0] == '$' {
        let args = split_spaces(m.skip(1));
        ActionView::ChangeVariable(
            user_var_of(args[0]),
            if args.len() > 1 { Some(args[1]) } else { None },
            if args.len() > 2 { Some(args[2]) } else { None },
        )
    } else {
        ActionView::Ignore
    }
}

/// The characters of each piece.
pub open spec fn pieces_view(v: Seq<Vec<char>>) -> Seq<Seq<char>> {
    v.map_values(|p: Vec<char>| p@)
}

/// Splits `s` at every space, as `str::split(' ')` does.
fn split_at_spaces(s: &[char]) -> (res: Vec<Vec<char>>)
    ensures
        pieces_view(res@) == split_spaces(s@),
{
    let mut pieces: Vec<Vec<char>> = Vec::new();
    let mut cur: Vec<char> = Vec::new();
    let mut i: usize = 0;
    assert(s@.take(0) =~= Seq::<char>::empty());
    assert(pieces_view(pieces@).push(cur@) =~= split_spaces(s@.take(0)));
    while i < s.len()
        invariant
            i <= s@.len(),
            pieces_view(pieces@).push(cur@) == split_spaces(s@.take(i as int)),
        decreases s@.len() - i,
    {
        let c = s[i];
        let ghost before = pieces_view(pieces@).push(cur@);
        assert(s@.take(i + 1).drop_last() =~= s@.take(i as int));
        assert(s@.take(i + 1).last() == c);
        if c == ' ' {
            let done = cur;
            pieces.push(done);
            cur = Vec::new();
            assert(pieces_view(pieces@) =~= before);
        } else {
            cur.push(c);
            assert(pieces_view(pieces@).push(cur@) =~= before.update(
                before.len() - 1,
                before.last().push(c),
            ));
        }
        i = i + 1;
    }
    assert(s@.take(s@.len() as int) =~= s@);
    let ghost before = pieces_view(pieces@).push(cur@);
    pieces.push(cur);
    assert(pieces_view(pieces@) =~= before);
    pieces
}

/// Which setting a `$` command names.
fn user_var_from(word: &[char]) -> (res: UserVar)
    ensures
        res == user_var_of(word@),
{
    let favfood = chars_of("favfood");
    let nick = chars_of("nick");
    let notif = chars_of("notif");
    proof {
        reveal_strlit("favfood");
        reveal_strlit("nick");
        reveal_strlit("notif");
    }
    assert(favfood@ =~= word_favfood());
    assert(nick@ =~= word_nick());
    assert(notif@ =~= word_notif());
    if chars_eq(word, favfood.as_slice()) {
        UserVar::FavFood
    } else if chars_eq(word, nick.as_slice()) {
        UserVar::Nick
    } else if chars_eq(word, notif.as_slice()) {
        UserVar::Notif
    } else {
        UserVar::Unknown
    }
}

/// Reads what a chat message asks of the bot.
pub fn parse_message(message: String) -> (res: Action)
    ensures
        res@ == parse_spec(message@),
{
    let chars = chars_of(message.as_str());
    if chars.len() == 0 {
        return Action::Ignore;
    }
    let rest: Vec<char> = chars_from(&chars, 1);
    assert(rest@ =~= message@.skip(1));
    if chars[0] == '!' {
        let joke = chars_of("joke");
        let quit = chars_of("quit");
        proof {
            reveal_strlit("joke");
            reveal_strlit("quit");
        }
        assert(joke@ =~= word_joke());
        assert(quit@ =~= word_quit());
        if chars_eq(rest.as_slice(), joke.as_slice()) {
            Action::TellJoke
        } else if chars_eq(rest.as_slice(), quit.as_slice()) {
            Action::Quit
        } else {
            Action::Ignore
        }
    } else if chars[0] == '$' {
        let args = split_at_spaces(rest.as_slice());
        proof {
            lemma_split_spaces_nonempty(rest@);
        }
        assert(args@[0]@ == pieces_view(args@)[0]);
        let var = user_var_from(args[0].as_slice());
        let cmd = if args.len() > 1 {
            assert(args@[1]@ == pieces_view(args@)[1]);
            Some(string_of(args[1].as_slice()))
        } else {
            None
        };
        let value = if args.len() > 2 {
            assert(args@[2]@ == pieces_view(args@)[2]);
            Some(string_of(args[2].as_slice()))
        } else {
            None
        };
        Action::ChangeVariable(var, cmd, value)
    } else {
        Action::Ignore
    }
}

/// The characters of `v` from index `start` on.
fn chars_from(v: &Vec<char>, start: usize) -> (res: Vec<char>)
    requires
        start <= v@.len(),
    ensures
        res@ == v@.skip(start as int),
{
    let mut res: Vec<char> = Vec::new();
    let mut i: usize = start;
    while i < v.len()
        invariant
            start <= i <= v@.len(),
            res@ == v@.subrange(start as int, i as int),
        decreases v@.len() - i,
    {
        res.push(v[i]);
        assert(v@.subrange(start as int, i + 1) =~= v@.subrange(start as int, i as int).push(v@[i as int]));
        i = i + 1;
    }
    assert(v@.subrange(start as int, v@.len() as int) =~= v@.skip(start as int));
    res
}

/// The text of the joke file once every two-character sequence `\n`
/// (a backslash and an `n`) is replaced by a line break, scanning from the
/// left as `str::replace` does.
pub open spec fn unescape_newlines(s: Seq<char>) -> Seq<char>
    decreases s.len(),
{
    if s.len() == 0 {
        s
    } else if s.len() >= 2 && s[0] == '\\' && s[1] == 'n' {
        seq!['\n'] + unescape_newlines(s.skip(2))
    } else {
        seq![s[0]] + unescape_newlines(s.skip(1))
    }
}

/// The index of the first line break in `t`, or its length if it has none.
pub open spec fn line_end(t: Seq<char>) -> int
    decreases t.len(),
{
    if t.len() == 0 {
        0
    } else if t[0] == '\n' {
        0
    } else {
        1 + line_end(t.skip(1))
    }
}

/// The first line of `t`, as the first item of `str::lines` gives it: the
/// characters before the first line break, without the carriage return that
/// ends them if that break is `\r\n`.
pub open spec fn first_line(t: Seq<char>) -> Seq<char> {
    let k = line_end(t);
    if k < t.len() && k > 0 && t[k - 1] == '\r' {
        t.take(k - 1)
    } else {
        t.take(k)
    }
}

/// The first line ends inside the text, at a line break, or at its end.
proof fn lemma_line_end_bounds(t: Seq<char>)
    ensures
        0 <= line_end(t) <= t.len(),
        line_end(t) < t.len() ==> t[line_end(t)] == '\n',
    decreases t.len(),
{
    if t.len() > 0 && t[0] != '\n' {
        lemma_line_end_bounds(t.skip(1));
    }
}

/// The joke that `!joke` posts: the first line of the joke file once its
/// escaped line breaks are unescaped. An empty file has no first line.
pub fn first_joke(contents: &str) -> (res: String)
    requires
        contents@.len() > 0,
    ensures
        res@ == first_line(unescape_newlines(contents@)),
{
    let s = chars_of(contents);
    let mut t: Vec<char> = Vec::new();
    let mut i: usize = 0;
    assert(s@.skip(0) =~= s@);
    while i < s.len()
        invariant
            i <= s@.len(),
            unescape_newlines(s@) == t@ + unescape_newlines(s@.skip(i as int)),
        decreases s@.len() - i,
    {
        let ghost rest = s@.skip(i as int);
        if i + 1 < s.len() && s[i] == '\\' && s[i + 1] == 'n' {
            assert(rest.skip(2) =~= s@.skip(i + 2));
            t.push('\n');
            i = i + 2;
        } else {
            assert(rest.skip(1) =~= s@.skip(i + 1));
            t.push(s[i]);
            i = i + 1;
        }
        assert(unescape_newlines(s@) =~= t@ + unescape_newlines(s@.skip(i as int)));
    }
    assert(s@.skip(i as int) =~= Seq::<char>::empty());
    assert(t@ =~= unescape_newlines(s@));
    let ghost u = t@;
    let mut k: usize = 0;
    assert(u.skip(0) =~= u);
    while k < t.len() && t[k] != '\n'
        invariant
            k <= u.len(),
            t@ == u,
            line_end(u) == k + line_end(u.skip(k as int)),
        decreases u.len() - k,
    {
        assert(u.skip(k as int).skip(1) =~= u.skip(k + 1));
        k = k + 1;
    }
    proof {
        lemma_line_end_bounds(u);
    }
    assert(line_end(u) == k);
    let end = if k < t.len() && k > 0 && t[k - 1] == '\r' { k - 1 } else { k };
    let line = string_of(prefix(&t, end).as_slice());
    line
}

/// The first `n` characters of `v`.
fn prefix(v: &Vec<char>, n: usize) -> (res: Vec<char>)
    requires
        n <= v@.len(),
    ensures
        res@ == v@.take(n as int),
{
    let mut res: Vec<char> = Vec::new();
    let mut i: usize = 0;
    while i < n
        invariant
            i <= n <= v@.len(),
            res@ == v@.take(i as int),
        decreases n - i,
    {
        res.push(v[i]);
        assert(v@.take(i + 1) =~= v@.take(i as int).push(v@[i as int]));
        i = i + 1;
    }
    res
}

} // verus!
