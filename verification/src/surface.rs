use vstd::prelude::*;

verus! {

/// Whether the format at `index` is the one to draw with: formats are listed
/// in order of preference, the first sRGB format is taken, and where there is
/// none the first format is.
pub open spec fn is_preferred_format(srgb: Seq<bool>, index: int) -> bool {
    &&& 0 <= index < srgb.len()
    &&& forall|k: int| 0 <= k < index ==> !srgb[k]
    &&& srgb[index] || (index == 0 && forall|k: int| 0 <= k < srgb.len() ==> !srgb[k])
}

/// Picks the texture format of the drawing surface among those it supports,
/// given for each, in order, whether it is an sRGB format. `None` when the
/// surface supports no format.
pub fn choose_surface_format(srgb: &[bool]) -> (choice: Option<usize>)
    ensures
        match choice {
            Some(index) => is_preferred_format(srgb@, index as int),
            None => srgb@.len() == 0,
        },
{
    let mut index: usize = 0;
    while index < srgb.len()
        invariant
            index <= srgb@.len(),
            forall|k: int| 0 <= k < index ==> !srgb@[k],
        decreases srgb@.len() - index,
    {
        if srgb[index] {
            return Some(index);
        }
        index = index + 1;
    }
    if srgb.len() > 0 {
        Some(0)
    } else {
        None
    }
}

/// Whether a window of this physical size can be drawn to: a window with a
/// side of zero pixels (minimised) is skipped.
pub fn can_present(width: u32, height: u32) -> (drawable: bool)
    ensures
        drawable == (width != 0 && height != 0),
{
    width != 0 && height != 0
}

/// The size that a surface of size `size` has after a request to resize it to
/// `width` by `height`: a request with a side of zero is ignored.
pub open spec fn resized(size: (u32, u32), width: u32, height: u32) -> (u32, u32) {
    if width > 0 && height > 0 {
        (width, height)
    } else {
        size
    }
}

/// The size in pixels of the drawing surface. Neither side is ever zero.
pub struct SurfaceSize {
    width: u32,
    height: u32,
}

impl View for SurfaceSize {
    type V = (u32, u32);

    closed spec fn view(&self) -> (u32, u32) {
        (self.width, self.height)
    }
}

impl SurfaceSize {
    #[verifier::type_invariant]
    spec fn has_positive_sides(self) -> bool {
        self.width > 0 && self.height > 0
    }

    /// The surface for a window of the given physical size, each side at
    /// least one pixel.
    pub fn initial(width: u32, height: u32) -> (size: Self)
        ensures
            size@ == (if width > 0 { width } else { 1u32 }, if height > 0 { height } else { 1u32 }),
    {
        let width = if width > 0 { width } else { 1 };
        let height = if height > 0 { height } else { 1 };
        SurfaceSize { width, height }
    }

    /// Resizes the surface to the given size, unless a side of it is zero;
    /// returns whether the surface has to be configured again.
    pub fn resize(&mut self, width: u32, height: u32) -> (changed: bool)
        ensures
            changed == (width > 0 && height > 0),
            final(self)@ == resized(old(self)@, width, height),
            width == 0 || height == 0 ==> final(self)@ == old(self)@,
            width > 0 && height > 0 ==> final(self)@ == (width, height),
    {
        if width > 0 && height > 0 {
            *self = SurfaceSize { width, height };
            true
        } else {
            false
        }
    }

    /// The width in pixels.
    pub fn width(&self) -> (width: u32)
        ensures
            width == self@.0,
            width > 0,
    {
        proof {
            use_type_invariant(self);
        }
        self.width
    }

    /// The height in pixels.
    pub fn height(&self) -> (height: u32)
        ensures
            height == self@.1,
            height > 0,
    {
        proof {
            use_type_invariant(self);
        }
        self.height
    }
}

/// Asking twice for the same size does no more than asking once.
pub proof fn lemma_resize_idempotent(size: (u32, u32), width: u32, height: u32)
    ensures
        resized(resized(size, width, height), width, height) == resized(size, width, height),
{
}

/// A request with a zero side leaves the surface as it was, whatever its size.
pub proof fn lemma_zero_side_ignored(size: (u32, u32), width: u32, height: u32)
    requires
        width == 0 || height == 0,
    ensures
        resized(size, width, height) == size,
{
}

/// A request with no zero side gives exactly the requested size.
pub proof fn lemma_resize_applies_request(size: (u32, u32), width: u32, height: u32)
    requires
        width > 0,
        height > 0,
    ensures
        resized(size, width, height) == (width, height),
{
}

/// A resize that is carried out leaves the surface at the requested size,
/// whatever size it had: the last request with no zero side decides.
pub proof fn lemma_resize_last_wins(size: (u32, u32), first: (u32, u32), width: u32, height: u32)
    requires
        width > 0,
        height > 0,
    ensures
        resized(resized(size, first.0, first.1), width, height) == (width, height),
{
}

} // verus!
