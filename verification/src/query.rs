//! The query buffer: the text being edited and the height of the pane that shows it.

use vstd::prelude::*;

verus! {

/// Number of line feeds in `text`.
pub open spec fn newlines(text: Seq<char>) -> nat
    decreases text.len(),
{
    if text.len() == 0 {
        0
    } else if text.last() == '\n' {
        newlines(text.drop_last()) + 1
    } else {
        newlines(text.drop_last())
    }
}

/// A text in which no character is a line feed has none to count.
pub proof fn lemma_newlines_absent(text: Seq<char>)
    requires
        forall|i: int| 0 <= i < text.len() ==> text[i] != '\n',
    ensures
        newlines(text) == 0,
    decreases text.len(),
{
    if text.len() > 0 {
        lemma_newlines_absent(text.drop_last());
    }
}

/// Appending a character adds one to the count where it is a line feed,
/// and nothing where it is not.
pub proof fn lemma_newlines_push(text: Seq<char>, ch: char)
    ensures
        newlines(text.push(ch)) == newlines(text) + if ch == '\n' {
            1nat
        } else {
            0nat
        },
{
    assert(text.push(ch).drop_last() == text);
}

/// Rows that a pane needs besides one row per line feed: the top border,
/// the first line of text and the bottom border.
pub const BASE_HEIGHT: u16 = 3;

/// The query that a session starts with: it selects every triple of the dataset.
pub const DEFAULT_QUERY: &'static str = "SELECT ?s ?p ?o WHERE { ?s ?p ?o }";

/// `String::push` appends one character and touches nothing else.
pub assume_specification[ String::push ](text: &mut String, ch: char)
    ensures
        final(text)@ == old(text)@.push(ch),
;

/// `String::pop` removes the last character and returns it; on an empty
/// string it returns `None` and leaves the string empty.
pub assume_specification[ String::pop ](text: &mut String) -> (last: Option<char>)
    ensures
        old(text)@.len() == 0 ==> last is None && final(text)@ == old(text)@,
        old(text)@.len() > 0 ==> last == Some(old(text)@.last()) && final(text)@ == old(
            text,
        )@.drop_last(),
;

/// Editable query text together with the height of the pane that shows it.
///
/// The height is kept up to date on every edit, so that reading it costs
/// nothing however long the text is.
pub struct Query {
    string: String,
    height: u16,
}

impl View for Query {
    type V = Seq<char>;

    /// The text, character by character.
    closed spec fn view(&self) -> Seq<char> {
        self.string@
    }
}

impl Query {
    /// The height as it is stored.
    pub closed spec fn spec_height(&self) -> u16 {
        self.height
    }

    /// The stored height is three rows plus one per line feed in the text.
    pub open spec fn wf(&self) -> bool {
        self.spec_height() == BASE_HEIGHT + newlines(self@)
    }

    /// Whether one more line feed can be appended without the height leaving `u16`.
    pub open spec fn has_room(&self) -> bool {
        self.spec_height() < u16::MAX
    }

    /// The buffer a session starts with: a query that selects every triple.
    pub fn new() -> (query: Query)
        ensures
            query.wf(),
            query@ == DEFAULT_QUERY@,
            query@.len() > 0,
            query.spec_height() == BASE_HEIGHT,
    {
        let string = DEFAULT_QUERY.to_owned();
        proof {
            reveal_strlit("SELECT ?s ?p ?o WHERE { ?s ?p ?o }");
            lemma_newlines_absent(string@);
        }
        Query { string, height: BASE_HEIGHT }
    }

    /// Appends `ch`; a line feed makes the pane one row higher.
    pub fn push(&mut self, ch: char)
        requires
            old(self).wf(),
            ch == '\n' ==> old(self).has_room(),
        ensures
            final(self).wf(),
            final(self)@ == old(self)@.push(ch),
            final(self).spec_height() == old(self).spec_height() + if ch == '\n' {
                1int
            } else {
                0int
            },
    {
        proof {
            lemma_newlines_push(self.string@, ch);
        }
        self.string.push(ch);
        if ch == '\n' {
            self.height = self.height + 1;
        }
    }

    /// Appends `ch` where the height can follow, and says whether it did: a
    /// line feed that would take the height out of `u16` is left out, and the
    /// buffer stays as it is.
    pub fn try_push(&mut self, ch: char) -> (pushed: bool)
        requires
            old(self).wf(),
        ensures
            final(self).wf(),
            pushed == (ch != '\n' || old(self).has_room()),
            pushed ==> final(self)@ == old(self)@.push(ch) && final(self).spec_height() == old(
                self,
            ).spec_height() + if ch == '\n' {
                1int
            } else {
                0int
            },
            !pushed ==> final(self)@ == old(self)@ && final(self).spec_height() == old(
                self,
            ).spec_height(),
    {
        if ch == '\n' && self.height == u16::MAX {
            false
        } else {
            self.push(ch);
            true
        }
    }

    /// Removes the last character and returns it; a line feed leaving makes
    /// the pane one row lower. An empty buffer stays as it is.
    pub fn pop(&mut self) -> (last: Option<char>)
        requires
            old(self).wf(),
        ensures
            final(self).wf(),
            old(self)@.len() == 0 ==> last is None && final(self)@ == old(self)@
                && final(self).spec_height() == old(self).spec_height(),
            old(self)@.len() > 0 ==> last == Some(old(self)@.last()) && final(self)@ == old(
                self,
            )@.drop_last() && final(self).spec_height() == old(self).spec_height() - if old(
                self,
            )@.last() == '\n' {
                1int
            } else {
                0int
            },
    {
        let ch = self.string.pop();
        if let Some('\n') = ch {
            self.height = self.height - 1;
        }
        ch
    }

    /// Rows of the pane that shows the text.
    #[verifier::when_used_as_spec(spec_height)]
    pub fn height(&self) -> (rows: u16)
        ensures
            rows == self.spec_height(),
    {
        self.height
    }

    /// The text as it stands.
    pub fn as_str(&self) -> (text: &str)
        ensures
            text@ == self@,
    {
        self.string.as_str()
    }
}

} // verus!
