//! The navigation stack: the pages of the panel by their ids, in the order
//! in which they were registered, and which of them is shown.

use crate::pages::async_page::{envelope_text, AsyncPage, PageState};
use crate::pages::power::{PowerPage, PowerPageText};
use crate::text::{lemma_position, lemma_position_is, option_text, position, same_text};
use vstd::prelude::*;

verus! {

/// Why the stack refused a request.
#[derive(Debug, Clone, Copy, PartialEq, Eq, Structural)]
pub enum NavigationError {
    /// The id names no page where one was asked for, or names one already
    /// where a new one was to be registered.
    InvalidPageId,
}

/// What a page displays.
#[derive(Debug, PartialEq, Eq)]
pub enum Widget {
    /// A line of text.
    Label(String),
    /// The power page.
    Power(PowerPage),
    /// A page that loads its content in the background.
    Async(AsyncPage),
}

/// What a page displays, as text.
pub enum WidgetText {
    Label(Seq<char>),
    Power(PowerPageText),
    Async(PageState),
}

impl View for Widget {
    type V = WidgetText;

    open spec fn view(&self) -> WidgetText {
        match self {
            Widget::Label(text) => WidgetText::Label(text@),
            Widget::Power(page) => WidgetText::Power(page@),
            Widget::Async(page) => WidgetText::Async(page@),
        }
    }
}

impl WidgetText {
    /// The widget once the envelope of a task has come for it: a page that
    /// loads in the background takes it, any other widget stays as it is.
    pub open spec fn delivered(self, envelope: Option<Seq<Seq<char>>>) -> WidgetText {
        match self {
            WidgetText::Async(page) => WidgetText::Async(page.delivered(envelope)),
            _ => self,
        }
    }
}

/// A page of the panel: its id, its title, its icon and what it displays.
#[derive(Debug, PartialEq, Eq)]
pub struct PageDescriptor {
    pub id: String,
    pub title: String,
    pub icon: Option<String>,
    pub widget: Widget,
}

/// A page of the panel, as text.
pub struct PageText {
    pub id: Seq<char>,
    pub title: Seq<char>,
    pub icon: Option<Seq<char>>,
    pub widget: WidgetText,
}

impl View for PageDescriptor {
    type V = PageText;

    open spec fn view(&self) -> PageText {
        PageText {
            id: self.id@,
            title: self.title@,
            icon: option_text(self.icon),
            widget: self.widget@,
        }
    }
}

/// The pages of `v` as text.
pub open spec fn pages_text(v: Seq<PageDescriptor>) -> Seq<PageText> {
    Seq::new(v.len(), |i: int| v[i]@)
}

/// The state of a navigation stack: its pages in the order of their
/// registration, and the place of the page that is shown.
pub struct StackState {
    pub pages: Seq<PageText>,
    pub selected: Option<int>,
}

impl StackState {
    /// The stack without pages.
    pub open spec fn empty() -> StackState {
        StackState { pages: Seq::empty(), selected: None }
    }

    /// The ids of the pages, in the order of the pages.
    pub open spec fn ids(self) -> Seq<Seq<char>> {
        Seq::new(self.pages.len(), |i: int| self.pages[i].id)
    }

    /// Whether a page is registered under `id`.
    pub open spec fn registered(self, id: Seq<char>) -> bool {
        self.ids().contains(id)
    }

    /// The place of the page registered under `id`; the number of pages
    /// where there is none.
    pub open spec fn index_of(self, id: Seq<char>) -> int {
        position(self.ids(), id)
    }

    /// What every stack keeps to: no two pages share an id, and a page is
    /// shown exactly when there is any, which is then one of the stack's.
    pub open spec fn valid(self) -> bool {
        &&& self.ids().no_duplicates()
        &&& match self.selected {
            Some(i) => 0 <= i < self.pages.len(),
            None => self.pages.len() == 0,
        }
    }

    /// The id of the page that is shown.
    pub open spec fn selected_id(self) -> Option<Seq<char>> {
        match self.selected {
            Some(i) => Some(self.pages[i].id),
            None => None,
        }
    }

    /// Whether the page at place `i` is the one shown.
    pub open spec fn shows(self, i: int) -> bool {
        self.selected == Some(i)
    }

    /// The stack once `page` was to be registered: with the page after the
    /// others where its id was free, and as it was where the id was taken.
    /// The first page to be registered is shown; later ones leave the shown
    /// page as it is.
    pub open spec fn with_page(self, page: PageText) -> StackState {
        if self.registered(page.id) {
            self
        } else {
            StackState {
                pages: self.pages.push(page),
                selected: if self.pages.len() == 0 {
                    Some(0)
                } else {
                    self.selected
                },
            }
        }
    }

    /// The stack once the page registered under `id` was to be shown: with
    /// that page shown, and as it was where there is no such page.
    pub open spec fn selecting(self, id: Seq<char>) -> StackState {
        if self.registered(id) {
            StackState { pages: self.pages, selected: Some(self.index_of(id)) }
        } else {
            self
        }
    }

    /// The stack once the envelope of a task has come for the page
    /// registered under `id`: that page's widget takes it, all else stays.
    /// Where there is no such page, the stack stays as it was.
    pub open spec fn delivered(
        self,
        id: Seq<char>,
        envelope: Option<Seq<Seq<char>>>,
    ) -> StackState {
        let i = self.index_of(id);
        if self.registered(id) {
            StackState {
                pages: self.pages.update(
                    i,
                    PageText {
                        id: self.pages[i].id,
                        title: self.pages[i].title,
                        icon: self.pages[i].icon,
                        widget: self.pages[i].widget.delivered(envelope),
                    },
                ),
                selected: self.selected,
            }
        } else {
            self
        }
    }

    /// A registered id stands at one place of the stack, and only there.
    pub proof fn lemma_index_of(self, id: Seq<char>)
        requires
            self.registered(id),
        ensures
            0 <= self.index_of(id) < self.pages.len(),
            self.pages[self.index_of(id)].id == id,
            self.ids().no_duplicates() ==> forall|i: int|
                0 <= i < self.pages.len() && #[trigger] self.pages[i].id == id ==> i
                    == self.index_of(id),
    {
        lemma_position(self.ids(), id);
        let p = self.index_of(id);
        if self.ids().no_duplicates() {
            assert forall|i: int|
                0 <= i < self.pages.len() && #[trigger] self.pages[i].id == id implies i == p by {
                assert(self.ids()[i] == self.ids()[p]);
            }
        }
    }

    /// Selecting a registered page makes it the only page shown: a place of
    /// the stack is shown afterwards exactly if it holds the page of that id.
    pub proof fn lemma_selecting_shows_one(self, id: Seq<char>)
        requires
            self.valid(),
            self.registered(id),
        ensures
            self.selecting(id).valid(),
            self.selecting(id).selected_id() == Some(id),
            self.selecting(id).pages == self.pages,
            self.selected_id() == Some(id) ==> self.selecting(id) == self,
            forall|i: int|
                0 <= i < self.pages.len() ==> (self.selecting(id).shows(i)
                    <==> #[trigger] self.pages[i].id == id),
    {
        self.lemma_index_of(id);
    }

    /// Neither selecting a page nor an envelope for one changes which pages
    /// there are or their order, and both keep a valid stack valid.
    pub proof fn lemma_ids_kept(self, id: Seq<char>, envelope: Option<Seq<Seq<char>>>)
        requires
            self.valid(),
        ensures
            self.selecting(id).ids() == self.ids(),
            self.selecting(id).valid(),
            self.delivered(id, envelope).ids() == self.ids(),
            self.delivered(id, envelope).valid(),
    {
        if self.registered(id) {
            self.lemma_index_of(id);
        }
    }

    /// Tasks do not interfere: an envelope that comes for one page leaves
    /// every other page as it is, shown page and order included, and two
    /// envelopes for two pages give the same stack in either order.
    pub proof fn lemma_deliveries_independent(
        self,
        a: Seq<char>,
        for_a: Option<Seq<Seq<char>>>,
        b: Seq<char>,
        for_b: Option<Seq<Seq<char>>>,
    )
        requires
            self.valid(),
            a != b,
        ensures
            self.delivered(a, for_a).valid(),
            self.delivered(a, for_a).selected == self.selected,
            self.delivered(a, for_a).ids() == self.ids(),
            forall|i: int|
                0 <= i < self.pages.len() && i != self.index_of(a) ==> #[trigger] self.delivered(
                    a,
                    for_a,
                ).pages[i] == self.pages[i],
            self.registered(b) ==> self.delivered(a, for_a).pages[self.index_of(b)]
                == self.pages[self.index_of(b)],
            self.delivered(a, for_a).delivered(b, for_b) == self.delivered(b, for_b).delivered(
                a,
                for_a,
            ),
    {
        self.lemma_ids_kept(a, for_a);
        self.lemma_ids_kept(b, for_b);
        if self.registered(a) {
            self.lemma_index_of(a);
        }
        if self.registered(b) {
            self.lemma_index_of(b);
        }
        let after_a = self.delivered(a, for_a);
        let after_b = self.delivered(b, for_b);
        assert(after_a.delivered(b, for_b).pages =~= after_b.delivered(a, for_a).pages);
    }

    /// Registering a page under a new id keeps the stack valid, adds the
    /// page after the others and leaves the others as they are.
    pub proof fn lemma_with_page(self, page: PageText)
        requires
            self.valid(),
            !self.registered(page.id),
        ensures
            self.with_page(page).valid(),
            self.with_page(page).registered(page.id),
            self.with_page(page).index_of(page.id) == self.pages.len(),
            forall|id: Seq<char>|
                self.registered(id) ==> #[trigger] self.with_page(page).registered(id)
                    && self.with_page(page).index_of(id) == self.index_of(id),
    {
        let after = self.with_page(page);
        let ids = after.ids();
        assert forall|i: int, j: int|
            0 <= i < ids.len() && 0 <= j < ids.len() && i != j implies ids[i] != ids[j] by {
            if i < self.ids().len() {
                assert(self.ids().contains(self.ids()[i]));
            }
            if j < self.ids().len() {
                assert(self.ids().contains(self.ids()[j]));
            }
        }
        let n = self.pages.len() as int;
        assert forall|k: int| 0 <= k < n implies #[trigger] after.ids()[k] != page.id by {
            assert(self.ids().contains(self.ids()[k]));
        }
        lemma_position_is(after.ids(), page.id, n);
        lemma_position(after.ids(), page.id);
        assert forall|id: Seq<char>| self.registered(id) implies #[trigger] after.registered(id)
            && after.index_of(id) == self.index_of(id) by {
            self.lemma_index_of(id);
            lemma_position(self.ids(), id);
            let p = self.index_of(id);
            lemma_position_is(after.ids(), id, p);
        }
    }
}

/// The pages of the panel and the one that is shown.
#[derive(Debug, PartialEq, Eq)]
pub struct NavigationStack {
    pages: Vec<PageDescriptor>,
    selected: usize,
}

impl View for NavigationStack {
    type V = StackState;

    closed spec fn view(&self) -> StackState {
        StackState {
            pages: pages_text(self.pages@),
            selected: if self.pages@.len() == 0 {
                None
            } else {
                Some(self.selected as int)
            },
        }
    }
}

impl NavigationStack {
    #[verifier::type_invariant]
    spec fn well_formed(&self) -> bool {
        self@.valid()
    }

    /// A stack without pages.
    pub fn new() -> (stack: NavigationStack)
        ensures
            stack@ == StackState::empty(),
    {
        let stack = NavigationStack { pages: Vec::new(), selected: 0 };
        assert(stack@.pages =~= Seq::empty());
        stack
    }

    /// The place of the page registered under `id`.
    fn find(&self, id: &str) -> (r: Option<usize>)
        ensures
            r is Some <==> self@.registered(id@),
            r matches Some(i) ==> i == self@.index_of(id@) && i < self@.pages.len(),
    {
        let ghost ids = self@.ids();
        let mut i: usize = 0;
        while i < self.pages.len()
            invariant
                i <= self.pages.len(),
                ids == self@.ids(),
                ids.len() == self.pages.len(),
                forall|k: int| 0 <= k < i ==> #[trigger] ids[k] != id@,
            decreases self.pages.len() - i,
        {
            if same_text(self.pages[i].id.as_str(), id) {
                proof {
                    lemma_position_is(ids, id@, i as int);
                }
                return Some(i);
            }
            i += 1;
        }
        proof {
            lemma_position_is(ids, id@, i as int);
            lemma_position(ids, id@);
        }
        None
    }

    /// Whether a page is registered under `id`.
    pub fn contains(&self, id: &str) -> (r: bool)
        ensures
            r == self@.registered(id@),
    {
        self.find(id).is_some()
    }

    /// The number of pages.
    pub fn len(&self) -> (n: usize)
        ensures
            n == self@.pages.len(),
    {
        self.pages.len()
    }

    /// The pages, in the order in which they were registered.
    pub fn pages(&self) -> (pages: &Vec<PageDescriptor>)
        ensures
            pages_text(pages@) == self@.pages,
            self@.valid(),
    {
        proof {
            use_type_invariant(self);
        }
        &self.pages
    }

    /// The id of the page that is shown, if there is any page.
    pub fn selected(&self) -> (id: Option<&str>)
        ensures
            match id {
                Some(text) => Some(text@),
                None => None,
            } == self@.selected_id(),
    {
        proof {
            use_type_invariant(self);
        }
        if self.pages.len() == 0 {
            None
        } else {
            Some(self.pages[self.selected].id.as_str())
        }
    }

    /// Whether the page registered under `id` is the one shown.
    pub fn is_visible(&self, id: &str) -> (r: bool)
        ensures
            r == (self@.selected_id() == Some(id@)),
    {
        match self.selected() {
            Some(shown) => same_text(shown, id),
            None => false,
        }
    }

    /// Registers a page under `id`, after the pages that are there. Refuses
    /// an id that is taken, and then changes nothing.
    pub fn register(&mut self, id: &str, title: &str, icon: Option<&str>, widget: Widget) -> (r:
        Result<(), NavigationError>)
        ensures
            old(self)@.valid(),
            final(self)@.valid(),
            final(self)@.registered(id@),
            r == if old(self)@.registered(id@) {
                Err::<(), NavigationError>(NavigationError::InvalidPageId)
            } else {
                Ok::<(), NavigationError>(())
            },
            final(self)@ == old(self)@.with_page(
                PageText {
                    id: id@,
                    title: title@,
                    icon: match icon {
                        Some(name) => Some(name@),
                        None => None,
                    },
                    widget: widget@,
                },
            ),
    {
        proof {
            use_type_invariant(&*self);
        }
        if self.find(id).is_some() {
            return Err(NavigationError::InvalidPageId);
        }
        let icon = match icon {
            Some(name) => Some(name.to_owned()),
            None => None,
        };
        let page = PageDescriptor { id: id.to_owned(), title: title.to_owned(), icon, widget };
        let ghost before = self@;
        proof {
            before.lemma_with_page(page@);
        }
        let mut pages: Vec<PageDescriptor> = Vec::new();
        std::mem::swap(&mut pages, &mut self.pages);
        if pages.len() == 0 {
            self.selected = 0;
        }
        pages.push(page);
        proof {
            assert(pages_text(pages@) =~= before.pages.push(page@));
        }
        self.pages = pages;
        Ok(())
    }

    /// Shows the page registered under `id`. Refuses an id under which no
    /// page is registered, and then changes nothing.
    pub fn select(&mut self, id: &str) -> (r: Result<(), NavigationError>)
        ensures
            old(self)@.valid(),
            final(self)@.valid(),
            r == if old(self)@.registered(id@) {
                Ok::<(), NavigationError>(())
            } else {
                Err::<(), NavigationError>(NavigationError::InvalidPageId)
            },
            final(self)@ == old(self)@.selecting(id@),
            r is Ok ==> final(self)@.selected_id() == Some(id@),
    {
        proof {
            use_type_invariant(&*self);
        }
        match self.find(id) {
            Some(i) => {
                proof {
                    self@.lemma_selecting_shows_one(id@);
                }
                self.selected = i;
                Ok(())
            },
            None => Err(NavigationError::InvalidPageId),
        }
    }

    /// Hands the envelope of a task to the page registered under `id`, and
    /// tells whether the page changed what it displays. Every other page
    /// stays as it is. Refuses an id under which no page is registered.
    pub fn deliver(&mut self, id: &str, envelope: Option<Vec<String>>) -> (r: Result<
        bool,
        NavigationError,
    >)
        ensures
            old(self)@.valid(),
            final(self)@.valid(),
            r is Ok == old(self)@.registered(id@),
            r is Err ==> r == Err::<bool, NavigationError>(NavigationError::InvalidPageId),
            final(self)@ == old(self)@.delivered(id@, envelope_text(envelope)),
            r matches Ok(changed) ==> changed == (old(self)@.pages[old(self)@.index_of(
                id@,
            )].widget matches WidgetText::Async(page) && !page.completed && envelope is Some),
    {
        proof {
            use_type_invariant(&*self);
        }
        let ghost before = self@;
        match self.find(id) {
            Some(i) => {
                let mut pages: Vec<PageDescriptor> = Vec::new();
                std::mem::swap(&mut pages, &mut self.pages);
                let changed = match &mut pages[i].widget {
                    Widget::Async(page) => page.deliver(envelope),
                    _ => false,
                };
                proof {
                    let after = before.delivered(id@, envelope_text(envelope));
                    assert(pages_text(pages@) =~= after.pages);
                    assert(after.ids() =~= before.ids());
                }
                self.pages = pages;
                Ok(changed)
            },
            None => Err(NavigationError::InvalidPageId),
        }
    }
}

} // verus!
