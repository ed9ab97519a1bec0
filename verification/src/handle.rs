use vstd::prelude::*;

verus! {

/// A renderable icon, in the three shapes the GUI sink accepts: a themed
/// name with an ordered fallback chain, a raw RGBA pixel buffer, or raw
/// encoded image bytes that the renderer decodes natively.
pub enum IconHandle {
    /// Look the icon up in the system icon theme under `name` at `size`,
    /// trying each name of `fallbacks` in order when `name` is missing.
    Named { name: String, size: u16, fallbacks: Vec<String> },
    /// Render a decoded 8-bit RGBA buffer of `width` x `height` pixels.
    Pixels { width: u32, height: u32, rgba: Vec<u8> },
    /// Hand the encoded bytes to the renderer unchanged.
    Raw { data: Vec<u8> },
}

/// Mathematical image of an [`IconHandle`].
pub enum HandleView {
    Named { name: Seq<char>, size: u16, fallbacks: Seq<Seq<char>> },
    Pixels { width: u32, height: u32, rgba: Seq<u8> },
    Raw { data: Seq<u8> },
}

impl View for IconHandle {
    type V = HandleView;

    open spec fn view(&self) -> HandleView {
        match self {
            IconHandle::Named { name, size, fallbacks } => HandleView::Named {
                name: name@,
                size: *size,
                fallbacks: fallbacks.deep_view(),
            },
            IconHandle::Pixels { width, height, rgba } => HandleView::Pixels {
                width: *width,
                height: *height,
                rgba: rgba@,
            },
            IconHandle::Raw { data } => HandleView::Raw { data: data@ },
        }
    }
}

/// View of an optional handle, for contracts over cached outcomes.
pub open spec fn opt_handle_view(o: Option<IconHandle>) -> Option<HandleView> {
    match o {
        Some(h) => Some(h@),
        None => None,
    }
}

fn clone_strings(v: &Vec<String>) -> (r: Vec<String>)
    ensures
        r.deep_view() == v.deep_view(),
{
    let mut r: Vec<String> = Vec::new();
    let mut i: usize = 0;
    while i < v.len()
        invariant
            i <= v.len(),
            r.len() == i,
            forall|j: int| 0 <= j < i ==> r.deep_view()[j] == v.deep_view()[j],
        decreases v.len() - i,
    {
        r.push(v[i].clone());
        i += 1;
    }
    proof {
        assert(r.deep_view() =~= v.deep_view());
    }
    r
}

pub(crate) fn clone_bytes(v: &Vec<u8>) -> (r: Vec<u8>)
    ensures
        r@ == v@,
{
    vstd::slice::slice_to_vec(v.as_slice())
}

impl Clone for IconHandle {
    fn clone(&self) -> (r: Self)
        ensures
            r@ == self@,
    {
        match self {
            IconHandle::Named { name, size, fallbacks } => IconHandle::Named {
                name: name.clone(),
                size: *size,
                fallbacks: clone_strings(fallbacks),
            },
            IconHandle::Pixels { width, height, rgba } => IconHandle::Pixels {
                width: *width,
                height: *height,
                rgba: clone_bytes(rgba),
            },
            IconHandle::Raw { data } => IconHandle::Raw { data: clone_bytes(data) },
        }
    }
}

/// Clone of a cached outcome, preserving its view.
pub(crate) fn clone_opt_handle(o: &Option<IconHandle>) -> (r: Option<IconHandle>)
    ensures
        opt_handle_view(r) == opt_handle_view(*o),
{
    match o {
        Some(h) => Some(h.clone()),
        None => None,
    }
}

} // verus!
