//! Actions of native menus, found again by their tags.
//!
//! Native menu tags are monotonic so callbacks from a replaced menu cannot dispatch a different
//! action. Only the current main/Dock menu owns actions; tab churn must not grow a
//! process-lifetime action history.
use vstd::prelude::*;

verus! {

/// The abstract state of a [`MenuActionSet`]: the tag of its first action and its actions, the
/// `i`-th of which answers to tag `first_tag + i`.
pub struct MenuActionSetView<T> {
    pub first_tag: nat,
    pub actions: Seq<T>,
}

impl<T> MenuActionSetView<T> {
    /// The tag the next pushed action receives.
    pub open spec fn next_tag(self) -> nat {
        self.first_tag + self.actions.len()
    }

    /// Whether `tag` belongs to one of the actions.
    pub open spec fn owns(self, tag: int) -> bool {
        self.first_tag <= tag < self.next_tag()
    }

    /// The action answering to `tag`, if any.
    pub open spec fn lookup(self, tag: int) -> Option<T> {
        if self.owns(tag) {
            Some(self.actions[tag - self.first_tag])
        } else {
            None
        }
    }
}

/// The actions of one native menu, tagged consecutively from `first_tag`.
pub struct MenuActionSet<T> {
    first_tag: usize,
    actions: Vec<T>,
}

impl<T> View for MenuActionSet<T> {
    type V = MenuActionSetView<T>;

    closed spec fn view(&self) -> MenuActionSetView<T> {
        MenuActionSetView { first_tag: self.first_tag as nat, actions: self.actions@ }
    }
}

impl<T> MenuActionSet<T> {
    /// Every tag handed out fits in a `usize`.
    #[verifier::type_invariant]
    closed spec fn inv(self) -> bool {
        self@.next_tag() <= usize::MAX
    }

    /// An empty set whose first action will receive `first_tag`.
    pub fn new(first_tag: usize) -> (set: Self)
        ensures
            set@.first_tag == first_tag,
            set@.actions == Seq::<T>::empty(),
    {
        MenuActionSet { first_tag, actions: Vec::new() }
    }

    /// The tag the next pushed action receives.
    pub fn next_tag(&self) -> (tag: usize)
        ensures
            tag == self@.next_tag(),
    {
        proof {
            use_type_invariant(self);
        }
        self.first_tag + self.actions.len()
    }

    /// Adds an action and returns its tag. Tags must fit in an `isize`.
    pub fn push(&mut self, action: T) -> (tag: isize)
        requires
            old(self)@.next_tag() <= isize::MAX,
        ensures
            tag == old(self)@.next_tag(),
            final(self)@.first_tag == old(self)@.first_tag,
            final(self)@.actions == old(self)@.actions.push(action),
    {
        proof {
            use_type_invariant(&*self);
        }
        let tag = self.next_tag();
        let mut actions = Vec::new();
        std::mem::swap(&mut actions, &mut self.actions);
        actions.push(action);
        self.actions = actions;
        tag as isize
    }

    /// The action that `tag` answers to, if it belongs to this set.
    pub fn get(&self, tag: usize) -> (action: Option<&T>)
        ensures
            action == (match self@.lookup(tag as int) {
                Some(a) => Some(&a),
                None => None,
            }),
    {
        proof {
            use_type_invariant(self);
        }
        if tag < self.first_tag {
            return None;
        }
        let index = tag - self.first_tag;
        if index < self.actions.len() {
            Some(&self.actions[index])
        } else {
            None
        }
    }
}

impl<T> Default for MenuActionSet<T> {
    fn default() -> (set: Self)
        ensures
            set@.first_tag == 0,
            set@.actions == Seq::<T>::empty(),
    {
        Self::new(0)
    }
}

/// A pushed action is found again under the tag it was given, and the actions already there keep
/// theirs.
pub proof fn lemma_push_then_get<T>(v: MenuActionSetView<T>, action: T, tag: int)
    ensures
        ({
            let w = MenuActionSetView { first_tag: v.first_tag, actions: v.actions.push(action) };
            &&& w.lookup(v.next_tag() as int) == Some(action)
            &&& v.owns(tag) ==> w.lookup(tag) == v.lookup(tag)
            &&& w.next_tag() == v.next_tag() + 1
        }),
{
}

/// Stale tags are rejected: a set that starts at the next tag of another owns none of that
/// other set's tags, so a callback from a replaced menu finds no action.
pub proof fn lemma_replacement_rejects_stale_tags<T, U>(
    old_set: MenuActionSetView<T>,
    replacement: MenuActionSetView<U>,
    tag: int,
)
    requires
        replacement.first_tag >= old_set.next_tag(),
        old_set.owns(tag),
    ensures
        replacement.lookup(tag) is None,
{
}

} // verus!
