//! A page that shows a placeholder until its content has come.

use crate::pages::rows::{render_lines, rows_of, rows_text, Row, RowText};
use crate::text::lines_of;
use vstd::prelude::*;

verus! {

/// What a page shows: the placeholder, or the rows that came.
#[derive(Debug, PartialEq, Eq)]
pub enum Content {
    Placeholder(String),
    Rows(Vec<Row>),
}

/// What a page shows, as text.
pub enum ContentText {
    Placeholder(Seq<char>),
    Rows(Seq<RowText>),
}

impl View for Content {
    type V = ContentText;

    open spec fn view(&self) -> ContentText {
        match self {
            Content::Placeholder(text) => ContentText::Placeholder(text@),
            Content::Rows(rows) => ContentText::Rows(rows_text(rows@)),
        }
    }
}

/// The text of the placeholder of the page called `title`.
pub open spec fn loading_text(title: Seq<char>) -> Seq<char> {
    "Loading "@ + title + "..."@
}

/// The state of a page, as text.
pub struct PageState {
    pub title: Seq<char>,
    pub content: ContentText,
    pub completed: bool,
}

impl PageState {
    /// The page called `title` before anything has come.
    pub open spec fn loading(title: Seq<char>) -> PageState {
        PageState {
            title,
            content: ContentText::Placeholder(loading_text(title)),
            completed: false,
        }
    }

    /// What every page keeps to: a placeholder is the loading text of the
    /// page's title, and rows are shown only once the task has completed.
    pub open spec fn valid(self) -> bool {
        match self.content {
            ContentText::Placeholder(text) => text == loading_text(self.title),
            ContentText::Rows(_) => self.completed,
        }
    }

    /// The page once the task has ended with `envelope`: the lines it
    /// returned, or nothing. Only the first envelope counts.
    pub open spec fn delivered(self, envelope: Option<Seq<Seq<char>>>) -> PageState {
        if self.completed {
            self
        } else {
            match envelope {
                Some(lines) => PageState {
                    title: self.title,
                    content: ContentText::Rows(rows_of(lines)),
                    completed: true,
                },
                None => PageState { title: self.title, content: self.content, completed: true },
            }
        }
    }

    /// The page once each of `envelopes` has come for it, in their order.
    pub open spec fn after_all(self, envelopes: Seq<Option<Seq<Seq<char>>>>) -> PageState
        decreases envelopes.len(),
    {
        if envelopes.len() == 0 {
            self
        } else {
            self.after_all(envelopes.drop_last()).delivered(envelopes.last())
        }
    }

    /// A page that has not completed shows its placeholder, and a page
    /// shows either its placeholder or rows, never both and never neither.
    pub proof fn lemma_shows_one(self)
        requires
            self.valid(),
        ensures
            !self.completed ==> self.content == ContentText::Placeholder(loading_text(self.title)),
            (self.content == ContentText::Placeholder(loading_text(self.title))) != (self.content
                is Rows),
    {
    }

    /// An envelope keeps a page valid and its title; it changes what the
    /// page shows only if it is the first and holds lines, and then the
    /// page shows one row for each line, in the order of the lines.
    pub proof fn lemma_delivered(self, envelope: Option<Seq<Seq<char>>>)
        requires
            self.valid(),
        ensures
            self.delivered(envelope).valid(),
            self.delivered(envelope).completed,
            self.delivered(envelope).title == self.title,
            !self.completed && envelope is Some ==> self.delivered(envelope).content
                == ContentText::Rows(rows_of(envelope->0)) && rows_of(envelope->0).len()
                == envelope->0.len(),
            self.completed || envelope is None ==> self.delivered(envelope).content == self.content,
            self.delivered(envelope).delivered(envelope) == self.delivered(envelope),
    {
    }

    /// Whatever envelopes come for a page that started with its placeholder,
    /// and however many: the page is valid after each, and what it shows is
    /// settled by the first alone. It shows the rows of the first envelope's
    /// lines, or its placeholder where the first envelope holds none or
    /// none has come yet.
    pub proof fn lemma_history(title: Seq<char>, envelopes: Seq<Option<Seq<Seq<char>>>>)
        ensures
            PageState::loading(title).after_all(envelopes).valid(),
            PageState::loading(title).after_all(envelopes).title == title,
            PageState::loading(title).after_all(envelopes).completed == (envelopes.len() > 0),
            PageState::loading(title).after_all(envelopes).content == if envelopes.len() > 0
                && envelopes[0] is Some {
                ContentText::Rows(rows_of(envelopes[0]->0))
            } else {
                ContentText::Placeholder(loading_text(title))
            },
        decreases envelopes.len(),
    {
        if envelopes.len() > 0 {
            let before = envelopes.drop_last();
            PageState::lemma_history(title, before);
        }
    }
}

/// The envelope of a task as text: the lines that the probe returned, or
/// nothing where it returned none.
pub open spec fn envelope_text(envelope: Option<Vec<String>>) -> Option<Seq<Seq<char>>> {
    match envelope {
        Some(lines) => Some(lines_of(lines@)),
        None => None,
    }
}

/// A page that loads its content in the background.
#[derive(Debug, PartialEq, Eq)]
pub struct AsyncPage {
    title: String,
    content: Content,
    completed: bool,
}

impl View for AsyncPage {
    type V = PageState;

    closed spec fn view(&self) -> PageState {
        PageState { title: self.title@, content: self.content@, completed: self.completed }
    }
}

impl AsyncPage {
    #[verifier::type_invariant]
    spec fn well_formed(&self) -> bool {
        self@.valid()
    }

    /// A page called `title`, which shows its placeholder.
    pub fn new(title: &str) -> (page: AsyncPage)
        ensures
            page@ == PageState::loading(title@),
    {
        let mut text = String::from_str("Loading ");
        text.append(title);
        text.append("...");
        AsyncPage { title: title.to_owned(), content: Content::Placeholder(text), completed: false }
    }

    /// The title of the page.
    pub fn title(&self) -> (title: &str)
        ensures
            title@ == self@.title,
    {
        self.title.as_str()
    }

    /// What the page shows.
    pub fn content(&self) -> (content: &Content)
        ensures
            content@ == self@.content,
            self@.valid(),
    {
        proof {
            use_type_invariant(self);
        }
        &self.content
    }

    /// Whether the page shows its placeholder.
    pub fn is_loading(&self) -> (loading: bool)
        ensures
            loading == (self@.content == ContentText::Placeholder(loading_text(self@.title))),
            loading == !(self@.content is Rows),
            !self@.completed ==> loading,
    {
        proof {
            use_type_invariant(self);
        }
        match &self.content {
            Content::Placeholder(_) => true,
            Content::Rows(_) => false,
        }
    }

    /// Whether the task of the page has ended, with lines or without.
    pub fn is_completed(&self) -> (completed: bool)
        ensures
            completed == self@.completed,
    {
        self.completed
    }

    /// Hands the page the envelope of its task: the lines that the probe
    /// returned, or nothing where it returned none. With lines, the page
    /// shows their rows from then on; with nothing, it keeps its
    /// placeholder. Only the first envelope counts. Tells whether the page
    /// changed what it shows.
    pub fn deliver(&mut self, envelope: Option<Vec<String>>) -> (changed: bool)
        ensures
            old(self)@.valid(),
            final(self)@.valid(),
            final(self)@ == old(self)@.delivered(envelope_text(envelope)),
            changed == (!old(self)@.completed && envelope is Some),
    {
        proof {
            use_type_invariant(&*self);
        }
        if self.completed {
            return false;
        }
        self.completed = true;
        match envelope {
            Some(lines) => {
                self.content = Content::Rows(render_lines(&lines));
                true
            },
            None => false,
        }
    }
}

} // verus!
