//! Undo lists: what to do again in reverse when an operation is given up.

use vstd::prelude::*;

verus! {

/// One remembered step: what it undoes, in words, and the action that undoes it.
#[derive(Debug, PartialEq, Eq)]
pub struct ExitStackItem<A> {
    pub msg: String,
    pub action: A,
}

/// The compensating actions of an operation, oldest first.
///
/// An operation remembers an action after each step that may have to be
/// undone. Where it is given up, [`ExitStack::unwind`] hands the actions out,
/// newest first; once it is past the point of no return,
/// [`ExitStack::forget`] drops them.
#[derive(Debug, PartialEq, Eq)]
pub struct ExitStack<A> {
    history: Vec<ExitStackItem<A>>,
}

impl<A> View for ExitStack<A> {
    type V = Seq<(Seq<char>, A)>;

    closed spec fn view(&self) -> Seq<(Seq<char>, A)> {
        self.history@.map_values(|item: ExitStackItem<A>| (item.msg@, item.action))
    }
}

impl<A: DeepView> DeepView for ExitStack<A> {
    type V = Seq<(Seq<char>, A::V)>;

    open spec fn deep_view(&self) -> Seq<(Seq<char>, A::V)> {
        deep_entries(self@)
    }
}

/// Remembered steps with each action by its view.
pub open spec fn deep_entries<A: DeepView>(entries: Seq<(Seq<char>, A)>) -> Seq<(Seq<char>, A::V)> {
    entries.map_values(
        |entry: (Seq<char>, A)|
            {
                let (msg, action) = entry;
                (msg, action.deep_view())
            },
    )
}

/// The views of remembered steps with one more at their end.
pub proof fn lemma_deep_entries_push<A: DeepView>(
    entries: Seq<(Seq<char>, A)>,
    msg: Seq<char>,
    action: A,
)
    ensures
        deep_entries(entries.push((msg, action))) == deep_entries(entries).push(
            (msg, action.deep_view()),
        ),
{
    assert(deep_entries(entries.push((msg, action))) =~= deep_entries(entries).push(
        (msg, action.deep_view()),
    ));
}

/// The views of remembered steps in reverse.
pub proof fn lemma_deep_entries_reverse<A: DeepView>(entries: Seq<(Seq<char>, A)>)
    ensures
        deep_entries(entries.reverse()) == deep_entries(entries).reverse(),
{
    assert(deep_entries(entries.reverse()) =~= deep_entries(entries).reverse());
}

/// The views of steps that were handed out.
pub proof fn lemma_deep_items<A: DeepView>(items: Vec<ExitStackItem<A>>)
    ensures
        items.deep_view() == deep_entries(items_view(items@)),
{
    assert(items.deep_view() =~= deep_entries(items_view(items@)));
}

impl<A: DeepView> DeepView for ExitStackItem<A> {
    type V = (Seq<char>, A::V);

    open spec fn deep_view(&self) -> (Seq<char>, A::V) {
        (self.msg@, self.action.deep_view())
    }
}

/// The remembered steps of a list, each as its words and its action.
pub open spec fn items_view<A>(items: Seq<ExitStackItem<A>>) -> Seq<(Seq<char>, A)> {
    items.map_values(|item: ExitStackItem<A>| (item.msg@, item.action))
}

impl<A> Default for ExitStack<A> {
    fn default() -> (r: Self)
        ensures
            r@ == Seq::<(Seq<char>, A)>::empty(),
    {
        ExitStack::new()
    }
}

impl<A> ExitStack<A> {
    /// A list that remembers nothing.
    pub fn new() -> (r: Self)
        ensures
            r@ == Seq::<(Seq<char>, A)>::empty(),
    {
        let r = ExitStack { history: Vec::new() };
        assert(r@ =~= Seq::empty());
        r
    }

    /// How many actions are remembered.
    pub fn len(&self) -> (r: usize)
        ensures
            r == self@.len(),
    {
        self.history.len()
    }

    /// Whether nothing is remembered.
    pub fn is_empty(&self) -> (r: bool)
        ensures
            r == (self@.len() == 0),
    {
        self.history.len() == 0
    }

    /// Remembers `action`, which undoes what `msg` names, as the newest.
    pub fn remember(&mut self, msg: String, action: A)
        ensures
            final(self)@ == old(self)@.push((msg@, action)),
    {
        self.history.push(ExitStackItem { msg, action });
        assert(self@ =~= old(self)@.push((msg@, action)));
    }

    /// Drops every remembered action: none of them will run.
    pub fn forget(&mut self)
        ensures
            final(self)@ == Seq::<(Seq<char>, A)>::empty(),
    {
        self.history.clear();
        assert(self@ =~= Seq::empty());
    }

    /// Hands out every remembered action, newest first, and remembers none
    /// afterwards.
    pub fn unwind(&mut self) -> (r: Vec<ExitStackItem<A>>)
        ensures
            final(self)@ == Seq::<(Seq<char>, A)>::empty(),
            items_view(r@) == old(self)@.reverse(),
            r@.len() == old(self)@.len(),
            forall|i: int|
                0 <= i < r@.len() ==> ((#[trigger] r@[i]).msg@, r@[i].action) == old(self)@[r@.len()
                    - 1 - i],
    {
        let mut r: Vec<ExitStackItem<A>> = Vec::new();
        let ghost before = self.history@;
        while self.history.len() > 0
            invariant
                self.history@.len() + r@.len() == before.len(),
                self.history@ == before.subrange(0, self.history@.len() as int),
                forall|j: int| 0 <= j < r@.len() ==> r@[j] == before[before.len() - 1 - j],
            decreases self.history@.len(),
        {
            let item = self.history.pop().unwrap();
            r.push(item);
        }
        assert(self@ =~= Seq::empty());
        assert(items_view(r@) =~= items_view(before).reverse());
        r
    }
}

/// A result whose failure may be passed over.
pub trait ResultExt {
    /// Gives the result up: a failure is not handed on.
    fn ignore_errors(self);
}

impl<E> ResultExt for Result<(), E> {
    fn ignore_errors(self) {
    }
}

} // verus!
