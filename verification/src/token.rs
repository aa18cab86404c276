//! Tokens as text: how a cursor travels between the catalog and its callers.

use vstd::prelude::*;
use vstd::std_specs::iter::IteratorSpec;
use crate::cursor::Key;
use crate::cursor::Mark;
use crate::cursor::Token;
use crate::text::text_equal;

verus! {

/// The token that asks for the top of a listing: a date later than any
/// record's.
pub const MAX_DATE: &'static str = "9999-12-31T23:59:59.999Z";

/// The symbol that stands between timestamp and identifier in a token.
pub const SEPARATOR: char = '|';

/// The text of a token: `MAX_DATE` for the top of the listing, else the
/// timestamp, the separator and the identifier of the record to resume
/// behind.
pub open spec fn token_text(mark: Mark) -> Seq<char> {
    match mark {
        Mark::Start => MAX_DATE@,
        Mark::After(key) => key.stamp.push(SEPARATOR) + key.id,
    }
}

/// The position of the last separator in `text`, or -1 where it has none.
pub open spec fn last_separator(text: Seq<char>) -> int
    decreases text.len(),
{
    if text.len() == 0 {
        -1
    } else if text.last() == SEPARATOR {
        text.len() - 1
    } else {
        last_separator(text.drop_last())
    }
}

/// The token that a text stands for. `MAX_DATE` is the top of the listing.
/// Any other text resumes behind a record: what precedes its last separator
/// is the timestamp and what follows is the identifier; a text without a
/// separator is a timestamp alone, and resumes behind every record of that
/// time.
pub open spec fn token_of(text: Seq<char>) -> Mark {
    if text == MAX_DATE@ {
        Mark::Start
    } else if last_separator(text) < 0 {
        Mark::After(Key { stamp: text, id: Seq::empty() })
    } else {
        Mark::After(
            Key {
                stamp: text.subrange(0, last_separator(text)),
                id: text.subrange(last_separator(text) + 1, text.len() as int),
            },
        )
    }
}

/// The last separator lies within the text, and no separator follows it.
pub proof fn lemma_last_separator(text: Seq<char>)
    ensures
        -1 <= last_separator(text) < text.len(),
        last_separator(text) >= 0 ==> text[last_separator(text)] == SEPARATOR,
        forall|i: int| last_separator(text) < i < text.len() ==> text[i] != SEPARATOR,
    decreases text.len(),
{
    if text.len() > 0 && text.last() != SEPARATOR {
        lemma_last_separator(text.drop_last());
        assert forall|i: int| last_separator(text) < i < text.len() implies text[i]
            != SEPARATOR by {
            if i < text.len() - 1 {
                assert(text.drop_last()[i] == text[i]);
            }
        }
    }
}

/// Where a text holds a separator at `at` and none behind it, `at` is its
/// last separator.
pub proof fn lemma_last_separator_is(text: Seq<char>, at: int)
    requires
        0 <= at < text.len(),
        text[at] == SEPARATOR,
        forall|i: int| at < i < text.len() ==> text[i] != SEPARATOR,
    ensures
        last_separator(text) == at,
    decreases text.len(),
{
    if text.last() != SEPARATOR {
        assert forall|i: int| at < i < text.drop_last().len() implies text.drop_last()[i]
            != SEPARATOR by {
            assert(text.drop_last()[i] == text[i]);
        }
        lemma_last_separator_is(text.drop_last(), at);
    }
}

/// A token is read back from its own text, provided the identifier it
/// resumes behind holds no separator. The identifiers that the catalog
/// derives from URLs hold none: their alphabet has no such symbol.
pub proof fn token_round_trip(mark: Mark)
    requires
        mark matches Mark::After(key) ==> !key.id.contains(SEPARATOR),
    ensures
        token_of(token_text(mark)) == mark,
{
    reveal_strlit("9999-12-31T23:59:59.999Z");
    match mark {
        Mark::Start => {},
        Mark::After(key) => {
            let text = token_text(mark);
            let at = key.stamp.len() as int;
            assert(text[at] == SEPARATOR);
            assert(text != MAX_DATE@) by {
                if text.len() == 24 {
                    assert(MAX_DATE@[at] != SEPARATOR);
                }
            }
            assert forall|i: int| at < i < text.len() implies text[i] != SEPARATOR by {
                assert(text[i] == key.id[i - at - 1]);
                assert(key.id.contains(key.id[i - at - 1]));
            }
            lemma_last_separator_is(text, at);
            assert(text.subrange(0, at) =~= key.stamp);
            assert(text.subrange(at + 1, text.len() as int) =~= key.id);
        },
    }
}

impl Token {
    /// The text of the token.
    pub fn to_string(&self) -> (text: String)
        ensures
            text@ == token_text(self@),
    {
        match self {
            Token::Start => String::from_str(MAX_DATE),
            Token::After { stamp, id } => {
                proof {
                    reveal_strlit("|");
                    assert("|"@ =~= seq![SEPARATOR]);
                }
                let text = stamp.clone().concat("|").concat(id.as_str());
                assert(text@ =~= stamp@.push(SEPARATOR) + id@);
                text
            },
        }
    }

    /// Reads a token from its text. Every text is a token: one that is not
    /// `MAX_DATE` resumes behind the timestamp, and the identifier if there
    /// is one, that it holds.
    pub fn from_str(text: &str) -> (token: Token)
        ensures
            token@ == token_of(text@),
    {
        if text_equal(text, MAX_DATE) {
            return Token::Start;
        }
        let length = text.unicode_len();
        let mut found: Option<usize> = None;
        let mut at: usize = 0;
        let mut left = text.chars();
        let ghost mut done: Seq<char> = Seq::empty();
        loop
            invariant_except_break
                text@ == done + left.remaining(),
                done.len() == at,
                length == text@.len(),
                left.decrease() is Some,
                match found {
                    Some(position) => last_separator(done) == position,
                    None => last_separator(done) == -1,
                },
            ensures
                at == text@.len(),
                match found {
                    Some(position) => last_separator(text@) == position,
                    None => last_separator(text@) == -1,
                },
            decreases left.decrease()->0,
        {
            match left.next() {
                None => {
                    assert(text@ =~= done);
                    break ;
                },
                Some(symbol) => {
                    proof {
                        lemma_last_separator(done);
                        assert(done.push(symbol).drop_last() =~= done);
                    }
                    if symbol == SEPARATOR {
                        found = Some(at);
                    }
                    proof {
                        done = done.push(symbol);
                        assert(text@ =~= done + left.remaining());
                    }
                    at = at + 1;
                },
            }
        }
        proof {
            lemma_last_separator(text@);
        }
        match found {
            None => Token::After { stamp: String::from_str(text), id: String::new() },
            Some(position) => {
                let stamp = text.substring_char(0, position);
                let id = text.substring_char(position + 1, length);
                Token::After { stamp: String::from_str(stamp), id: String::from_str(id) }
            },
        }
    }
}

} // verus!
