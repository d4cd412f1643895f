use vstd::prelude::*;

verus! {

/// A pane shows one item at a time.
pub struct Pane<I> {
    current_item: Option<I>,
}

impl<I> Pane<I> {
    pub closed spec fn spec_item(&self) -> Option<I> {
        self.current_item
    }

    /// An empty pane.
    pub fn new() -> (p: Pane<I>)
        ensures
            p.spec_item() is None,
    {
        Pane { current_item: None }
    }

    /// Shows an item in place of the current one.
    pub fn navigate_to(&mut self, item: I)
        ensures
            final(self).spec_item() == Some(item),
    {
        self.current_item = Some(item);
    }

    /// The item shown, if any.
    pub fn current_item(&self) -> (r: Option<&I>)
        ensures
            match r {
                Some(i) => self.spec_item() == Some(*i),
                None => self.spec_item() is None,
            },
    {
        match &self.current_item {
            Some(i) => Some(i),
            None => None,
        }
    }

    /// Whether the pane shows nothing.
    pub fn is_empty(&self) -> (b: bool)
        ensures
            b == self.spec_item() is None,
    {
        self.current_item.is_none()
    }

    /// Removes the item shown.
    pub fn clear(&mut self)
        ensures
            final(self).spec_item() is None,
    {
        self.current_item = None;
    }
}

/// The direction in which a pane group is split.
#[derive(Debug, Clone, Copy, PartialEq, Eq, Structural)]
pub enum Axis {
    /// Side by side.
    Horizontal,
    /// Top and bottom.
    Vertical,
}

/// A tree of panes: a single pane, or a split into two groups. `R` is the
/// split ratio, kept for the view that draws the split.
pub enum PaneGroup<P, R> {
    Pane(P),
    Split { axis: Axis, first: Box<PaneGroup<P, R>>, second: Box<PaneGroup<P, R>>, ratio: R },
}

/// The panes of a group, from the first (left or top) to the last.
pub open spec fn leaves<P, R>(g: PaneGroup<P, R>) -> Seq<P>
    decreases g,
{
    match g {
        PaneGroup::Pane(p) => seq![p],
        PaneGroup::Split { first, second, .. } => leaves(*first) + leaves(*second),
    }
}

impl<P, R> PaneGroup<P, R> {
    /// A group of a single pane.
    pub fn new(pane: P) -> (g: PaneGroup<P, R>)
        ensures
            g == PaneGroup::<P, R>::Pane(pane),
    {
        PaneGroup::Pane(pane)
    }

    /// Two groups side by side.
    pub fn horizontal_split(first: PaneGroup<P, R>, second: PaneGroup<P, R>, ratio: R) -> (g:
        PaneGroup<P, R>)
        ensures
            g == (PaneGroup::Split {
                axis: Axis::Horizontal,
                first: Box::new(first),
                second: Box::new(second),
                ratio,
            }),
    {
        PaneGroup::Split { axis: Axis::Horizontal, first: Box::new(first), second: Box::new(second), ratio }
    }

    /// Two groups one above the other.
    pub fn vertical_split(first: PaneGroup<P, R>, second: PaneGroup<P, R>, ratio: R) -> (g:
        PaneGroup<P, R>)
        ensures
            g == (PaneGroup::Split {
                axis: Axis::Vertical,
                first: Box::new(first),
                second: Box::new(second),
                ratio,
            }),
    {
        PaneGroup::Split { axis: Axis::Vertical, first: Box::new(first), second: Box::new(second), ratio }
    }

    /// All panes of the group, in order.
    pub fn panes(&self) -> (v: Vec<&P>)
        ensures
            v@.len() == leaves(*self).len(),
            forall|i: int| 0 <= i < v@.len() ==> *#[trigger] v@[i] == leaves(*self)[i],
        decreases self,
    {
        match self {
            PaneGroup::Pane(p) => {
                let mut v: Vec<&P> = Vec::new();
                v.push(p);
                v
            },
            PaneGroup::Split { first, second, .. } => {
                let mut v = first.panes();
                let w = second.panes();
                let ghost v0 = v@;
                let mut j: usize = 0;
                while j < w.len()
                    invariant
                        j <= w@.len(),
                        v@.len() == v0.len() + j,
                        forall|i: int| 0 <= i < v0.len() ==> v@[i] == v0[i],
                        forall|i: int| 0 <= i < j ==> v@[v0.len() + i] == w@[i],
                    decreases w@.len() - j,
                {
                    v.push(w[j]);
                    j = j + 1;
                }
                proof {
                    let l = leaves(*self);
                    assert(l == leaves(**first) + leaves(**second));
                    let lf = leaves(**first);
                    let ls = leaves(**second);
                    assert forall|i: int| 0 <= i < v@.len() implies *#[trigger] v@[i] == l[i] by {
                        if i < v0.len() {
                            assert(*v0[i] == lf[i]);
                            assert(l[i] == lf[i]);
                        } else {
                            let k = i - v0.len();
                            assert(v@[v0.len() + k] == w@[k]);
                            assert(*w@[k] == ls[k]);
                            assert(l[i] == ls[k]);
                        }
                    }
                }
                v
            },
        }
    }

    /// Whether the group is a split.
    pub fn is_split(&self) -> (b: bool)
        ensures
            b == self is Split,
    {
        match self {
            PaneGroup::Split { .. } => true,
            PaneGroup::Pane(_) => false,
        }
    }

    /// The split direction of a split group.
    pub fn axis(&self) -> (a: Option<Axis>)
        ensures
            match *self {
                PaneGroup::Split { axis, .. } => a == Some(axis),
                PaneGroup::Pane(_) => a is None,
            },
    {
        match self {
            PaneGroup::Split { axis, .. } => Some(*axis),
            PaneGroup::Pane(_) => None,
        }
    }

    /// The split ratio of a split group.
    pub fn ratio(&self) -> (r: Option<&R>)
        ensures
            match *self {
                PaneGroup::Split { ratio, .. } => r == Some(&ratio),
                PaneGroup::Pane(_) => r is None,
            },
    {
        match self {
            PaneGroup::Split { ratio, .. } => Some(ratio),
            PaneGroup::Pane(_) => None,
        }
    }
}

} // verus!
