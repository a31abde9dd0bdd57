//! Words for a remote POSIX shell: each argument is quoted so that the shell
//! reads it back unchanged.
use crate::text::{alphanumeric, chars_of};
use vstd::prelude::*;

verus! {

/// Whether the shell takes a character for itself wherever it stands.
pub open spec fn is_plain(c: char) -> bool {
    crate::text::is_alphanumeric(c) || c == '_' || c == '@' || c == '%' || c == '+' || c == '='
        || c == ':' || c == ',' || c == '.' || c == '/' || c == '-'
}

fn plain(c: char) -> (found: bool)
    ensures
        found == is_plain(c),
{
    alphanumeric(c) || c == '_' || c == '@' || c == '%' || c == '+' || c == '=' || c == ':' || c
        == ',' || c == '.' || c == '/' || c == '-'
}

/// Whether a word needs no quoting.
pub open spec fn is_plain_word(word: Seq<char>) -> bool {
    word.len() > 0 && forall|i: int| 0 <= i < word.len() ==> is_plain(#[trigger] word[i])
}

/// A single quote, for inside a quoted word: the quotes are closed, the quote
/// stands in double quotes, and the quotes are opened again.
pub open spec fn escaped_quote() -> Seq<char> {
    seq!['\'', '"', '\'', '"', '\'']
}

/// The inside of a quoted word.
pub open spec fn escaped(word: Seq<char>) -> Seq<char>
    decreases word.len(),
{
    if word.len() == 0 {
        Seq::empty()
    } else if word.last() == '\'' {
        escaped(word.drop_last()) + escaped_quote()
    } else {
        escaped(word.drop_last()).push(word.last())
    }
}

/// A word as it is written for the shell.
pub open spec fn quoted(word: Seq<char>) -> Seq<char> {
    if is_plain_word(word) {
        word
    } else {
        seq!['\''] + escaped(word) + seq!['\'']
    }
}

/// Writes a word for the shell.
pub fn shell_word(word: &str) -> (text: String)
    ensures
        text@ == quoted(word@),
{
    let chars = chars_of(word);
    let mut safe = chars.len() > 0;
    let mut i: usize = 0;
    while i < chars.len()
        invariant
            i <= chars@.len(),
            safe == (chars@.len() > 0 && forall|j: int|
                0 <= j < i ==> is_plain(#[trigger] chars@[j])),
        decreases chars@.len() - i,
    {
        if !plain(chars[i]) {
            safe = false;
        }
        i = i + 1;
    }
    if safe {
        return word.to_owned();
    }
    let mut text = String::new();
    text.push('\'');
    let mut k: usize = 0;
    assert(text@ =~= seq!['\''] + escaped(chars@.take(0)));
    while k < chars.len()
        invariant
            k <= chars@.len(),
            text@ == seq!['\''] + escaped(chars@.take(k as int)),
        decreases chars@.len() - k,
    {
        proof {
            assert(chars@.take(k + 1).drop_last() =~= chars@.take(k as int));
        }
        let ghost before = text@;
        if chars[k] == '\'' {
            text.push('\'');
            text.push('"');
            text.push('\'');
            text.push('"');
            text.push('\'');
            assert(text@ =~= before + escaped_quote());
        } else {
            text.push(chars[k]);
        }
        assert(text@ =~= seq!['\''] + escaped(chars@.take(k + 1)));
        k = k + 1;
    }
    assert(chars@.take(k as int) =~= chars@);
    text.push('\'');
    assert(text@ =~= quoted(word@));
    text
}

/// Words as they are written for the shell, with a space between each two.
pub open spec fn quoted_all(words: Seq<Seq<char>>) -> Seq<char>
    decreases words.len(),
{
    if words.len() == 0 {
        Seq::empty()
    } else if words.len() == 1 {
        quoted(words[0])
    } else {
        quoted_all(words.drop_last()) + seq![' '] + quoted(words.last())
    }
}

/// Writes words for the shell, with a space between each two.
pub fn shell_words(words: &Vec<String>) -> (text: String)
    ensures
        text@ == quoted_all(crate::text::texts(words@)),
{
    let ghost all = crate::text::texts(words@);
    if words.len() == 0 {
        let text = String::new();
        assert(text@ =~= quoted_all(all));
        return text;
    }
    let mut text = shell_word(words[0].as_str());
    let mut i: usize = 1;
    assert(all.take(1).len() == 1 && all.take(1)[0] == words@[0]@);
    while i < words.len()
        invariant
            1 <= i <= words@.len(),
            all == crate::text::texts(words@),
            text@ == quoted_all(all.take(i as int)),
        decreases words@.len() - i,
    {
        proof {
            assert(all.take(i + 1).drop_last() =~= all.take(i as int));
            assert(all.take(i + 1).last() == words@[i as int]@);
        }
        let ghost before = text@;
        text.push(' ');
        let word = shell_word(words[i].as_str());
        vstd::string::StringExecFns::append(&mut text, word.as_str());
        assert(text@ =~= before + seq![' '] + quoted(words@[i as int]@));
        i = i + 1;
    }
    assert(all.take(i as int) =~= all);
    text
}

/// How a shell reads the next character.
#[derive(Clone, Copy, Debug, PartialEq, Eq, Structural)]
pub enum Quoting {
    Bare,
    Single,
    Double,
}

/// A shell that reads a line: the words it has read, and the one it is in. It
/// takes no character for itself that it might make something else of: one
/// that stands bare and is not plain, or one that means something in double
/// quotes.
pub struct Reading {
    pub words: Seq<Seq<char>>,
    pub word: Option<Seq<char>>,
    pub quoting: Quoting,
    /// There was such a character.
    pub refused: bool,
}

/// Whether a character means something in double quotes.
pub open spec fn is_expanded(c: char) -> bool {
    c == '$' || c == '`' || c == '\\' || c == '!'
}

/// A shell that has read nothing.
pub open spec fn fresh() -> Reading {
    Reading { words: Seq::empty(), word: None, quoting: Quoting::Bare, refused: false }
}

impl Reading {
    /// The word it is in, which begins here if none has begun.
    pub open spec fn begun(self) -> Seq<char> {
        match self.word {
            Some(word) => word,
            None => Seq::empty(),
        }
    }

    /// The shell after one more character.
    pub open spec fn read(self, c: char) -> Reading {
        match self.quoting {
            Quoting::Bare => if c == ' ' {
                match self.word {
                    Some(word) => Reading { words: self.words.push(word), word: None, ..self },
                    None => self,
                }
            } else if c == '\'' {
                Reading { word: Some(self.begun()), quoting: Quoting::Single, ..self }
            } else if c == '"' {
                Reading { word: Some(self.begun()), quoting: Quoting::Double, ..self }
            } else if is_plain(c) {
                Reading { word: Some(self.begun().push(c)), ..self }
            } else {
                Reading { refused: true, ..self }
            },
            Quoting::Single => if c == '\'' {
                Reading { quoting: Quoting::Bare, ..self }
            } else {
                Reading { word: Some(self.begun().push(c)), ..self }
            },
            Quoting::Double => if c == '"' {
                Reading { quoting: Quoting::Bare, ..self }
            } else if is_expanded(c) {
                Reading { refused: true, ..self }
            } else {
                Reading { word: Some(self.begun().push(c)), ..self }
            },
        }
    }

    /// The shell after a text.
    pub open spec fn read_all(self, text: Seq<char>) -> Reading
        decreases text.len(),
    {
        if text.len() == 0 {
            self
        } else {
            self.read_all(text.drop_last()).read(text.last())
        }
    }
}

/// The words of a line. None where the shell would make something else of it, or
/// a quote is left open.
pub open spec fn words_read(text: Seq<char>) -> Option<Seq<Seq<char>>> {
    let end = fresh().read_all(text);
    if end.refused || end.quoting != Quoting::Bare {
        None
    } else {
        match end.word {
            Some(word) => Some(end.words.push(word)),
            None => Some(end.words),
        }
    }
}

proof fn reads_in_a_row(shell: Reading, a: Seq<char>, b: Seq<char>)
    ensures
        shell.read_all(a + b) == shell.read_all(a).read_all(b),
    decreases b.len(),
{
    if b.len() == 0 {
        assert(a + b =~= a);
    } else {
        assert((a + b).drop_last() =~= a + b.drop_last());
        reads_in_a_row(shell, a, b.drop_last());
    }
}

proof fn reads_plain(shell: Reading, word: Seq<char>)
    requires
        shell.quoting == Quoting::Bare,
        forall|i: int| 0 <= i < word.len() ==> is_plain(#[trigger] word[i]),
        word.len() > 0 || shell.word is Some,
    ensures
        shell.read_all(word) == (Reading { word: Some(shell.begun() + word), ..shell }),
    decreases word.len(),
{
    if word.len() == 0 {
        assert(shell.begun() + word =~= shell.begun());
    } else if word.len() == 1 && shell.word is None {
        assert(word.drop_last().len() == 0);
        assert(is_plain(word[0]));
        assert(shell.begun().push(word[0]) =~= shell.begun() + word);
    } else {
        let rest = word.drop_last();
        assert(forall|i: int| 0 <= i < rest.len() ==> rest[i] == word[i]);
        reads_plain(shell, rest);
        assert(is_plain(word[word.len() - 1]));
        assert((shell.begun() + rest).push(word.last()) =~= shell.begun() + word);
    }
}

proof fn reads_escaped(shell: Reading, word: Seq<char>)
    requires
        shell.quoting == Quoting::Single,
        shell.word is Some,
    ensures
        shell.read_all(escaped(word)) == (Reading { word: Some(shell.begun() + word), ..shell }),
    decreases word.len(),
{
    if word.len() == 0 {
        assert(shell.begun() + word =~= shell.begun());
    } else {
        let rest = word.drop_last();
        reads_escaped(shell, rest);
        let inside = shell.read_all(escaped(rest));
        assert((shell.begun() + rest).push(word.last()) =~= shell.begun() + word);
        if word.last() == '\'' {
            reads_in_a_row(shell, escaped(rest), escaped_quote());
            let q = escaped_quote();
            reveal_with_fuel(Reading::read_all, 6);
            assert(q.drop_last() =~= seq!['\'', '"', '\'', '"']);
            assert(q.drop_last().drop_last() =~= seq!['\'', '"', '\'']);
            assert(q.drop_last().drop_last().drop_last() =~= seq!['\'', '"']);
            assert(q.drop_last().drop_last().drop_last().drop_last() =~= seq!['\'']);
            assert(q.drop_last().drop_last().drop_last().drop_last().drop_last().len() == 0);
        } else {
            assert(escaped(word).drop_last() =~= escaped(rest));
        }
    }
}

proof fn reads_one(shell: Reading, c: char)
    ensures
        shell.read_all(seq![c]) == shell.read(c),
{
    reveal_with_fuel(Reading::read_all, 2);
    assert(seq![c].drop_last() =~= Seq::<char>::empty());
    assert(seq![c].last() == c);
}

proof fn reads_quoted(words: Seq<Seq<char>>, word: Seq<char>)
    ensures
        ({
            let shell = Reading { words, ..fresh() };
            shell.read_all(quoted(word)) == (Reading { word: Some(word), ..shell })
        }),
{
    let shell = Reading { words, ..fresh() };
    if is_plain_word(word) {
        reads_plain(shell, word);
        assert(shell.begun() + word =~= word);
    } else {
        let open = seq!['\''];
        reads_in_a_row(shell, open + escaped(word), seq!['\'']);
        reads_in_a_row(shell, open, escaped(word));
        reads_one(shell, '\'');
        let inside = shell.read_all(open);
        reads_escaped(inside, word);
        assert(inside.begun() + word =~= word);
        reads_one(shell.read_all(open + escaped(word)), '\'');
    }
}

/// The shell reads back exactly the words that were written for it, whatever
/// they hold, and makes nothing else of them.
pub proof fn the_shell_reads_every_word_back(words: Seq<Seq<char>>)
    ensures
        words_read(quoted_all(words)) == Some(words),
{
    if words.len() > 0 {
        all_words_are_read(words);
        assert(words.drop_last().push(words.last()) =~= words);
    }
}

proof fn all_words_are_read(words: Seq<Seq<char>>)
    requires
        words.len() > 0,
    ensures
        ({
            fresh().read_all(quoted_all(words)) == (Reading {
                words: words.drop_last(),
                word: Some(words.last()),
                ..fresh()
            })
        }),
    decreases words.len(),
{
    let shell = fresh();
    if words.len() == 1 {
        reads_quoted(Seq::empty(), words[0]);
        assert(words.drop_last() =~= Seq::<Seq<char>>::empty());
    } else {
        let rest = words.drop_last();
        all_words_are_read(rest);
        let line = quoted_all(rest);
        reads_in_a_row(shell, line + seq![' '], quoted(words.last()));
        reads_in_a_row(shell, line, seq![' ']);
        let after = shell.read_all(line);
        reads_one(after, ' ');
        assert(rest.drop_last().push(rest.last()) =~= rest);
        reads_quoted(rest, words.last());
    }
}

} // verus!
