use vstd::prelude::*;

verus! {

/// The name of the compact view, in which the window shows only the timer.
pub open spec fn capsule_view() -> Seq<char> {
    seq!['c', 'a', 'p', 's', 'u', 'l', 'e']
}

/// What the shell remembers of the window between commands: the view the
/// front end last reported and the direction in which the window expands
/// from the capsule.
pub struct WindowLayout {
    pub view: Option<String>,
    pub expand_upward: bool,
}

/// Whether a layout shows the capsule.
pub open spec fn shows_capsule(layout: WindowLayout) -> bool {
    layout.view matches Some(v) && v@ == capsule_view()
}

impl Default for WindowLayout {
    /// No view reported yet; the window expands downward.
    fn default() -> (layout: WindowLayout)
        ensures
            layout.view is None,
            !layout.expand_upward,
    {
        WindowLayout { view: None, expand_upward: false }
    }
}

/// Whether `view` names the capsule.
pub fn is_capsule_view(view: &String) -> (b: bool)
    ensures
        b == (view@ == capsule_view()),
{
    proof { reveal_strlit("capsule"); }
    let capsule = String::from_str("capsule");
    assert(capsule@ =~= capsule_view());
    view.eq(&capsule)
}

impl WindowLayout {
    /// Whether the last reported view is the capsule.
    pub fn is_capsule(&self) -> (b: bool)
        ensures
            b == shows_capsule(*self),
    {
        match &self.view {
            Some(v) => is_capsule_view(v),
            None => false,
        }
    }

    /// Records the view the front end now shows. Returns whether the view is
    /// an expanded one, whose height the shell keeps as the height to expand
    /// the capsule to.
    pub fn record_view(&mut self, view: String) -> (expanded: bool)
        ensures
            expanded == (view@ != capsule_view()),
            final(self).view == Some(view),
            final(self).expand_upward == old(self).expand_upward,
    {
        let expanded = !is_capsule_view(&view);
        self.view = Some(view);
        expanded
    }

    /// Sets the expansion direction. Returns whether it changed, in which
    /// case the front end is told so it can turn its arrow.
    pub fn set_expand_upward(&mut self, expand_upward: bool) -> (changed: bool)
        ensures
            changed == (old(self).expand_upward != expand_upward),
            final(self).expand_upward == expand_upward,
            final(self).view == old(self).view,
    {
        let changed = self.expand_upward != expand_upward;
        self.expand_upward = expand_upward;
        changed
    }
}

} // verus!
