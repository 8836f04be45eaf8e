//! The image gallery of a block: loading the images and stepping through them.
use vstd::prelude::*;

verus! {

/// Kind of a media item when the server names none.
pub fn default_media_type() -> (kind: String)
    ensures
        kind@ == "image"@,
{
    String::from_str("image")
}

/// Images of a block, the one on screen, and the state of loading them.
/// The gallery never looks inside an image.
pub struct Gallery<T> {
    pub images: Vec<T>,
    pub loading: bool,
    pub error: Option<String>,
    pub current_index: usize,
}

impl<T> Gallery<T> {
    /// The position on screen is an image of the gallery, or the first
    /// place of an empty one.
    pub open spec fn index_in_range(&self) -> bool {
        self.current_index < self.images@.len() || (self.images@.len() == 0
            && self.current_index == 0)
    }

    /// An empty gallery.
    pub fn new() -> (g: Self)
        ensures
            g.images@.len() == 0,
            !g.loading,
            g.error is None,
            g.current_index == 0,
            g.index_in_range(),
    {
        Gallery { images: Vec::new(), loading: false, error: None, current_index: 0 }
    }

    /// Marks the gallery as loading before the images are requested.
    pub fn begin_load(&mut self)
        ensures
            final(self).loading,
            final(self).error is None,
            final(self).images@ == old(self).images@,
            final(self).current_index == old(self).current_index,
    {
        self.loading = true;
        self.error = None;
    }

    /// Takes in the answer: a new list starts at its first image; an error
    /// is kept for display and the images stay as they were.
    pub fn load_block_images(&mut self, answer: Result<Vec<T>, String>)
        ensures
            !final(self).loading,
            answer matches Ok(list) ==> final(self).images@ == list@ && final(self).current_index
                == 0 && final(self).error == old(self).error,
            answer matches Err(e) ==> final(self).images@ == old(self).images@
                && final(self).current_index == old(self).current_index && final(self).error
                == Some(e),
    {
        match answer {
            Ok(list) => {
                self.images = list;
                self.current_index = 0;
            },
            Err(e) => {
                self.error = Some(e);
            },
        }
        self.loading = false;
    }

    /// Steps back one image, staying at the first.
    pub fn prev_image(&mut self)
        ensures
            final(self).current_index == spec_prev_index(old(self).current_index as int),
            final(self).images@ == old(self).images@,
            old(self).index_in_range() ==> final(self).index_in_range(),
    {
        if self.current_index > 0 {
            self.current_index = self.current_index - 1;
        }
    }

    /// Steps forward one image, staying at the last.
    pub fn next_image(&mut self)
        ensures
            final(self).current_index == spec_next_index(
                old(self).current_index as int,
                old(self).images@.len() as int,
            ),
            final(self).images@ == old(self).images@,
            old(self).index_in_range() ==> final(self).index_in_range(),
    {
        let total = self.images.len();
        let last = if total > 0 {
            total - 1
        } else {
            0
        };
        if self.current_index < last {
            self.current_index = self.current_index + 1;
        }
    }

    /// The image on screen, if there is one.
    pub fn get_current_image(&self) -> (image: Option<&T>)
        ensures
            self.current_index < self.images@.len() ==> image == Some(
                &self.images@[self.current_index as int],
            ),
            self.current_index >= self.images@.len() ==> image is None,
    {
        if self.current_index < self.images.len() {
            Some(&self.images[self.current_index])
        } else {
            None
        }
    }
}

/// Position after "previous": one back, staying at the first image.
pub open spec fn spec_prev_index(index: int) -> int {
    if index > 0 {
        index - 1
    } else {
        index
    }
}

/// Position after "next" in a gallery of `len` images: one forward,
/// staying at the last image.
pub open spec fn spec_next_index(index: int, len: int) -> int {
    if index + 1 < len {
        index + 1
    } else {
        index
    }
}

/// Stepping forward and then back returns to the same image whenever there
/// was an image to step forward to; stepping back and then forward returns
/// whenever there was one to step back to.
pub proof fn lemma_next_then_prev(index: int, len: int)
    requires
        0 <= index,
    ensures
        index + 1 < len ==> spec_prev_index(spec_next_index(index, len)) == index,
        0 < index < len ==> spec_next_index(spec_prev_index(index), len) == index,
{
}

} // verus!
