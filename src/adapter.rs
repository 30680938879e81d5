use vstd::prelude::*;
use crate::object::{bytes_equal, view_opt, ClipboardObject, ObjectView};

verus! {

/// What one read of the OS clipboard yields, given the contents last
/// observed: the contents when they differ from those, else nothing.
pub open spec fn observe_spec(last: Option<ObjectView>, current: ObjectView) -> Option<ObjectView> {
    if last == Some(current) {
        None
    } else {
        Some(current)
    }
}

/// What a `paste` that polls the OS clipboard and reads `reads` in turn
/// returns: the first read that differs from the contents last observed.
pub open spec fn next_paste(last: Option<ObjectView>, reads: Seq<ObjectView>) -> Option<ObjectView>
    decreases reads.len(),
{
    if reads.len() == 0 {
        None
    } else {
        match observe_spec(last, reads[0]) {
            Some(v) => Some(v),
            None => next_paste(last, reads.drop_first()),
        }
    }
}

/// One session's view of the clipboard: the contents that session last saw
/// or received. Each session holds its own, so that every session sees every
/// change: a read of the OS clipboard surfaces in a session exactly when it
/// differs from what that session last saw or received, and a value the
/// session wrote itself never comes back to it as a change.
pub struct ClipboardState {
    last: Option<ClipboardObject>,
}

impl ClipboardState {
    /// The contents last observed or written, if any.
    pub closed spec fn last_spec(&self) -> Option<ObjectView> {
        view_opt(self.last)
    }

    /// An adapter that has observed nothing yet, so that the first read
    /// surfaces whatever the clipboard holds.
    pub fn new() -> (r: ClipboardState)
        ensures
            r.last_spec() == None::<ObjectView>,
    {
        ClipboardState { last: None }
    }

    /// An adapter for a clipboard that was just set to empty text.
    pub fn cleared() -> (r: ClipboardState)
        ensures
            r.last_spec() == Some(ObjectView::Text(Seq::empty())),
    {
        ClipboardState { last: Some(ClipboardObject::empty_text()) }
    }

    /// Takes one read of the OS clipboard and returns it exactly when it
    /// differs from what this session last saw or received.
    pub fn observe(&mut self, current: ClipboardObject) -> (r: Option<ClipboardObject>)
        ensures
            view_opt(r) == observe_spec(old(self).last_spec(), current@),
            final(self).last_spec() == Some(current@),
    {
        let changed = match &self.last {
            Some(l) => !bytes_equal(l.payload(), current.payload()),
            None => true,
        };
        if changed {
            let out = current.duplicate();
            self.last = Some(current);
            Some(out)
        } else {
            self.last = Some(current);
            None
        }
    }

    /// Records that this session received `obj` and is writing it to the OS
    /// clipboard, so that the write does not surface as a change in it.
    pub fn record_copy(&mut self, obj: &ClipboardObject)
        ensures
            final(self).last_spec() == Some(obj@),
    {
        self.last = Some(obj.duplicate());
    }
}

/// Sessions with their own views each see a change: a read of `v` surfaces
/// in every session whose last seen or received contents differ from `v`,
/// whatever another session saw before.
pub proof fn lemma_every_session_sees_change(
    first: Option<ObjectView>,
    second: Option<ObjectView>,
    v: ObjectView,
)
    requires
        first != Some(v),
        second != Some(v),
    ensures
        observe_spec(first, v) == Some(v),
        observe_spec(second, v) == Some(v),
{
}

/// After a `copy` of `x`, the next `paste` never returns `x`, whatever the
/// clipboard is read to hold; so a `paste` never returns the value it
/// returned just before.
pub proof fn lemma_no_self_echo(x: ObjectView, reads: Seq<ObjectView>)
    ensures
        next_paste(Some(x), reads) != Some(x),
    decreases reads.len(),
{
    if reads.len() > 0 {
        lemma_no_self_echo(x, reads.drop_first());
    }
}

/// When the clipboard went from `a` through values no read saw to `c`, the
/// first read of `c` yields `c`, so long as `c` differs from `a`.
pub proof fn lemma_change_coalescing(a: ObjectView, c: ObjectView, later: Seq<ObjectView>)
    requires
        a != c,
    ensures
        next_paste(Some(a), seq![c] + later) == Some(c),
{
    assert((seq![c] + later)[0] == c);
}

} // verus!
