use vstd::prelude::*;

verus! {

/// Where a dock sits in the workspace.
#[derive(Debug, Clone, Copy, PartialEq, Eq, Hash, Structural)]
pub enum DockPosition {
    Left,
    Right,
    Bottom,
}

impl DockPosition {
    /// Whether the dock is at a side (left or right).
    pub fn is_horizontal(&self) -> (b: bool)
        ensures
            b == (*self == DockPosition::Left || *self == DockPosition::Right),
    {
        match self {
            DockPosition::Left | DockPosition::Right => true,
            DockPosition::Bottom => false,
        }
    }

    /// Whether the dock is at the bottom.
    pub fn is_vertical(&self) -> (b: bool)
        ensures
            b == (*self == DockPosition::Bottom),
    {
        match self {
            DockPosition::Bottom => true,
            _ => false,
        }
    }
}

/// Every dock position is either horizontal or vertical, never both.
pub proof fn lemma_dock_orientation_exclusive(p: DockPosition)
    ensures
        (p == DockPosition::Left || p == DockPosition::Right) != (p == DockPosition::Bottom),
{
}

/// A dock: panels at one side of the workspace, one of them active. Its
/// size in pixels is kept by the view that draws it.
pub struct Dock<P> {
    position: DockPosition,
    panels: Vec<P>,
    active_panel_index: usize,
    visible: bool,
}

impl<P> Dock<P> {
    pub closed spec fn spec_position(&self) -> DockPosition {
        self.position
    }

    pub closed spec fn spec_panels(&self) -> Seq<P> {
        self.panels@
    }

    pub closed spec fn spec_active_index(&self) -> usize {
        self.active_panel_index
    }

    pub closed spec fn spec_visible(&self) -> bool {
        self.visible
    }

    /// The active index is the first panel or one of the panels.
    pub open spec fn wf(&self) -> bool {
        self.spec_active_index() == 0 || self.spec_active_index() < self.spec_panels().len()
    }

    /// An empty, visible dock at a position.
    pub fn new(position: DockPosition) -> (d: Dock<P>)
        ensures
            d.wf(),
            d.spec_position() == position,
            d.spec_panels().len() == 0,
            d.spec_active_index() == 0,
            d.spec_visible(),
    {
        Dock { position, panels: Vec::new(), active_panel_index: 0, visible: true }
    }

    /// Adds a panel at the end.
    pub fn add_panel(&mut self, panel: P)
        ensures
            final(self).spec_panels() == old(self).spec_panels().push(panel),
            final(self).spec_active_index() == old(self).spec_active_index(),
            final(self).spec_position() == old(self).spec_position(),
            final(self).spec_visible() == old(self).spec_visible(),
            old(self).wf() ==> final(self).wf(),
    {
        self.panels.push(panel);
    }

    /// The active panel, if the active index is a panel.
    pub fn active_panel(&self) -> (p: Option<&P>)
        ensures
            match p {
                Some(r) => self.spec_active_index() < self.spec_panels().len() && *r
                    == self.spec_panels()[self.spec_active_index() as int],
                None => self.spec_active_index() >= self.spec_panels().len(),
            },
    {
        if self.active_panel_index < self.panels.len() {
            Some(&self.panels[self.active_panel_index])
        } else {
            None
        }
    }

    /// All panels, in the order they were added.
    pub fn panels(&self) -> (s: &[P])
        ensures
            s@ == self.spec_panels(),
    {
        self.panels.as_slice()
    }

    /// Activates the panel at `index`; an index past the panels is ignored.
    pub fn activate_panel(&mut self, index: usize)
        ensures
            final(self).spec_active_index() == (if index < old(self).spec_panels().len() {
                index
            } else {
                old(self).spec_active_index()
            }),
            final(self).spec_panels() == old(self).spec_panels(),
            final(self).spec_position() == old(self).spec_position(),
            final(self).spec_visible() == old(self).spec_visible(),
            old(self).wf() ==> final(self).wf(),
    {
        if index < self.panels.len() {
            self.active_panel_index = index;
        }
    }

    pub fn position(&self) -> (p: DockPosition)
        ensures
            p == self.spec_position(),
    {
        self.position
    }

    pub fn is_visible(&self) -> (b: bool)
        ensures
            b == self.spec_visible(),
    {
        self.visible
    }

    pub fn set_visible(&mut self, visible: bool)
        ensures
            final(self).spec_visible() == visible,
            final(self).spec_panels() == old(self).spec_panels(),
            final(self).spec_active_index() == old(self).spec_active_index(),
            final(self).spec_position() == old(self).spec_position(),
    {
        self.visible = visible;
    }

    pub fn toggle_visibility(&mut self)
        ensures
            final(self).spec_visible() == !old(self).spec_visible(),
            final(self).spec_panels() == old(self).spec_panels(),
            final(self).spec_active_index() == old(self).spec_active_index(),
            final(self).spec_position() == old(self).spec_position(),
    {
        self.visible = !self.visible;
    }

    /// Whether the dock has no panels.
    pub fn is_empty(&self) -> (b: bool)
        ensures
            b == (self.spec_panels().len() == 0),
    {
        self.panels.len() == 0
    }
}

/// In a well-formed dock, there is an active panel exactly when the dock has
/// panels.
pub proof fn lemma_active_panel_iff_nonempty<P>(d: Dock<P>)
    requires
        d.wf(),
    ensures
        (d.spec_active_index() < d.spec_panels().len()) == (d.spec_panels().len() > 0),
{
}

} // verus!
