use vstd::prelude::*;

verus! {

/// A rendered raster image: PNG bytes together with the pixel size.
#[derive(Debug, Clone)]
pub struct Bitmap {
    /// The PNG-encoded image.
    pub data: Vec<u8>,
    pub width: u32,
    pub height: u32,
}

/// The value of a bitmap.
pub struct BitmapView {
    pub data: Seq<u8>,
    pub width: u32,
    pub height: u32,
}

impl View for Bitmap {
    type V = BitmapView;

    open spec fn view(&self) -> BitmapView {
        BitmapView { data: self.data@, width: self.width, height: self.height }
    }
}

impl Bitmap {
    /// An independent copy of this bitmap.
    pub fn duplicate(&self) -> (r: Bitmap)
        ensures
            r@ == self@,
    {
        Bitmap { data: self.data.clone(), width: self.width, height: self.height }
    }
}

} // verus!
