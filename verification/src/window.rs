use vstd::prelude::*;

verus! {

/// Window style bit of a window that does not accept input.
pub const WS_DISABLED: isize = 0x0800_0000;

/// A window of the desktop, known by its handle. The handle is only a name:
/// the window may be gone by the time it is used.
#[derive(Clone, Copy, Debug, PartialEq, Eq, Structural)]
pub struct Window {
    handle: isize,
}

/// What was read of one window while all windows were listed.
#[derive(Clone, Copy, Debug, PartialEq, Eq, Structural)]
pub struct WindowInfo {
    /// The handle of the window.
    pub handle: isize,
    /// The handle of its root ancestor.
    pub root: isize,
    /// Its window style bits.
    pub style: isize,
    /// The id of the process that owns it.
    pub process_id: u32,
}

/// Whether the style bits `style` mark a window as disabled.
pub open spec fn style_disabled(style: isize) -> bool {
    style & WS_DISABLED == WS_DISABLED
}

impl WindowInfo {
    /// Whether this window receives the close requests meant for the process
    /// `process_id`: it belongs to that process, it is its own root ancestor,
    /// and it is not disabled.
    pub open spec fn is_target_of(self, process_id: u32) -> bool {
        self.process_id == process_id && self.root == self.handle && !style_disabled(self.style)
    }

    /// The window that this record describes.
    pub open spec fn window(self) -> Window {
        Window::named(self.handle)
    }
}

impl Window {
    /// The handle of this window.
    pub closed spec fn id(self) -> isize {
        self.handle
    }

    /// The window with the handle `handle`.
    pub closed spec fn named(handle: isize) -> Window {
        Window { handle }
    }

    /// The top-level enabled windows of the process `process_id` among `all`,
    /// in the order in which `all` lists them.
    pub open spec fn targets_of(process_id: u32, all: Seq<WindowInfo>) -> Seq<Window> {
        all.filter(|info: WindowInfo| info.is_target_of(process_id)).map_values(
            |info: WindowInfo| info.window(),
        )
    }

    /// Names the window with the given handle.
    pub fn from_handle(handle: isize) -> (r: Self)
        ensures
            r.id() == handle,
            r == Window::named(handle),
    {
        Self { handle }
    }

    /// Turns the answer to "which window is at this point of the screen" into
    /// a window. The null handle means that no window is there, for example
    /// over the bare desktop, and gives `None`.
    pub fn from_point(found: isize) -> (r: Option<Self>)
        ensures
            r == (if found == 0 {
                None
            } else {
                Some(Window::named(found))
            }),
    {
        if found == 0 {
            return None;
        }
        Some(Self { handle: found })
    }

    /// Turns the answer to "which window has the focus" into a window. The
    /// null handle means that no window has it and gives `None`.
    pub fn from_foreground(found: isize) -> (r: Option<Self>)
        ensures
            r == (if found == 0 {
                None
            } else {
                Some(Window::named(found))
            }),
    {
        if found == 0 {
            return None;
        }
        Some(Self { handle: found })
    }

    /// Returns the handle of this window.
    pub fn handle(&self) -> (r: isize)
        ensures
            r == self.id(),
    {
        self.handle
    }

    /// True if this window is a top-level window: `root`, the handle of its
    /// root ancestor, is its own handle.
    pub fn is_root(&self, root: isize) -> (r: bool)
        ensures
            r == (root == self.id()),
    {
        self.handle == root
    }

    /// True if `style`, the style bits of this window, mark it as disabled.
    pub fn is_disabled(&self, style: isize) -> (r: bool)
        ensures
            r == style_disabled(style),
    {
        (style & WS_DISABLED) == WS_DISABLED
    }

    /// Names the windows with the given handles, in the same order.
    pub fn windows(handles: &Vec<isize>) -> (r: Vec<Self>)
        ensures
            r@ == handles@.map_values(|handle: isize| Window::named(handle)),
    {
        let mut result: Vec<Self> = Vec::new();
        let mut i: usize = 0;
        while i < handles.len()
            invariant
                0 <= i <= handles.len(),
                result@ == handles@.take(i as int).map_values(|handle: isize| Window::named(handle)),
            decreases handles.len() - i,
        {
            result.push(Self::from_handle(handles[i]));
            proof {
                assert(handles@.take(i + 1) =~= handles@.take(i as int).push(handles@[i as int]));
                assert(result@ =~= handles@.take(i + 1).map_values(
                    |handle: isize| Window::named(handle),
                ));
            }
            i = i + 1;
        }
        proof {
            assert(handles@.take(i as int) =~= handles@);
        }
        result
    }

    /// Selects from `all`, a listing of the windows that exist right now, the
    /// top-level enabled windows of the process `process_id`, in the order of
    /// the listing. The result is empty if the process shows no such window.
    pub fn top_level_enabled_windows_of(process_id: u32, all: &Vec<WindowInfo>) -> (r: Vec<Self>)
        ensures
            r@ == Self::targets_of(process_id, all@),
    {
        let ghost wanted = |info: WindowInfo| info.is_target_of(process_id);
        let ghost named = |info: WindowInfo| info.window();
        let mut result: Vec<Self> = Vec::new();
        let mut i: usize = 0;
        while i < all.len()
            invariant
                0 <= i <= all.len(),
                wanted == |info: WindowInfo| info.is_target_of(process_id),
                named == |info: WindowInfo| info.window(),
                result@ == all@.take(i as int).filter(wanted).map_values(named),
            decreases all.len() - i,
        {
            let info = all[i];
            proof {
                let before = all@.take(i as int);
                assert(all@.take(i + 1) =~= before.push(info));
                assert(before.push(info).drop_last() =~= before);
                reveal(Seq::filter);
                if wanted(info) {
                    assert(before.push(info).filter(wanted) =~= before.filter(wanted).push(info));
                    assert(before.filter(wanted).push(info).map_values(named) =~= before.filter(
                        wanted,
                    ).map_values(named).push(named(info)));
                } else {
                    assert(before.push(info).filter(wanted) =~= before.filter(wanted));
                }
            }
            let window = Self::from_handle(info.handle);
            if info.process_id == process_id && window.is_root(info.root) && !window.is_disabled(
                info.style,
            ) {
                result.push(window);
            }
            i = i + 1;
        }
        proof {
            assert(all@.take(i as int) =~= all@);
        }
        result
    }
}

/// A window is the window named by its handle, and by no other handle.
pub proof fn lemma_window_named(window: Window, handle: isize)
    ensures
        Window::named(window.id()) == window,
        Window::named(handle).id() == handle,
{
}

/// The selection holds exactly the windows of the listing that are targets of
/// the process: every selected window is one, and none is left out.
pub proof fn lemma_targets_are_exact(process_id: u32, all: Seq<WindowInfo>, window: Window)
    ensures
        Window::targets_of(process_id, all).contains(window) <==> (exists|i: int|
            0 <= i < all.len() && (#[trigger] all[i]).is_target_of(process_id) && all[i].window()
                == window),
{
    let wanted = |info: WindowInfo| info.is_target_of(process_id);
    let named = |info: WindowInfo| info.window();
    let kept = all.filter(wanted);
    let targets = Window::targets_of(process_id, all);
    assert(targets == kept.map_values(named));
    if targets.contains(window) {
        let j = choose|j: int| 0 <= j < targets.len() && targets[j] == window;
        assert(kept.contains(kept[j]));
        all.lemma_filter_pred(wanted, j);
        all.lemma_filter_contains_rev(wanted, kept[j]);
        let i = choose|i: int| 0 <= i < all.len() && all[i] == kept[j];
        assert(all[i].is_target_of(process_id) && all[i].window() == window);
    }
    if exists|i: int|
        0 <= i < all.len() && (#[trigger] all[i]).is_target_of(process_id) && all[i].window()
            == window {
        let i = choose|i: int|
            0 <= i < all.len() && (#[trigger] all[i]).is_target_of(process_id) && all[i].window()
                == window;
        all.lemma_filter_contains(wanted, i);
        let j = choose|j: int| 0 <= j < kept.len() && kept[j] == all[i];
        assert(targets[j] == window);
    }
}

} // verus!
