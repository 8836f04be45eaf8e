//! A comment pinned to a point of an annotated image.
use vstd::prelude::*;
use vstd::string::*;

verus! {

/// Text given to a comment when it is placed.
pub open spec fn placeholder_comment_text() -> Seq<char> {
    "Comment text"@
}

/// A comment: where it is pinned, its text, and whether it is finished.
/// The position is never looked into.
pub struct Comment<P> {
    pub position: Option<P>,
    pub text: String,
    pub is_complete: bool,
}

impl<P> Comment<P> {
    /// A comment that is not placed yet.
    pub fn new() -> (c: Self)
        ensures
            c.position is None,
            c.text@ == Seq::<char>::empty(),
            !c.is_complete,
    {
        Comment { position: None, text: String::new(), is_complete: false }
    }

    /// Pins the comment at `p`.
    pub fn set_position(&mut self, p: P)
        ensures
            final(self).position == Some(p),
            final(self).text == old(self).text,
            final(self).is_complete == old(self).is_complete,
    {
        self.position = Some(p);
    }

    /// Sets the text, which finishes the comment.
    pub fn set_text(&mut self, text: String)
        ensures
            final(self).text == text,
            final(self).is_complete,
            final(self).position == old(self).position,
    {
        self.text = text;
        self.is_complete = true;
    }

    /// Clears the comment.
    pub fn reset(&mut self)
        ensures
            final(self).position is None,
            final(self).text@ == Seq::<char>::empty(),
            !final(self).is_complete,
    {
        self.position = None;
        self.text = String::new();
        self.is_complete = false;
    }

    /// A click on the image while the comment tool is active: any earlier
    /// comment is replaced by one pinned at the click, with placeholder text.
    pub fn on_comment_click(&mut self, click: P)
        ensures
            final(self).position == Some(click),
            final(self).text@ == placeholder_comment_text(),
            final(self).is_complete,
    {
        if self.position.is_some() {
            self.reset();
        }
        self.set_position(click);
        self.set_text(String::from_str("Comment text"));
    }

    /// Whether the comment's text is drawn next to its marker.
    pub fn shows_text(&self) -> (shown: bool)
        ensures
            shown == (self.position is Some && self.is_complete && self.text@.len() > 0),
    {
        self.position.is_some() && self.is_complete && self.text.as_str().unicode_len() > 0
    }
}

} // verus!
