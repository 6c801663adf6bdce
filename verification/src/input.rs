//! The input-box configuration.
//!
//! The dialog itself is drawn by the native engine; this is the plain
//! configuration handed to it: the prompt, an optional title and default
//! text, the box size, and whether only an accept button is shown.
//! Strings destined for the engine's C interface must not hold an
//! embedded NUL; the host validates them at the call boundary.

use vstd::prelude::*;

verus! {

/// The configuration of one input box.
#[derive(Debug, Clone)]
pub struct InputBox {
    max_count: i32,
    prompt: String,
    title: Option<String>,
    default_text: Option<String>,
    width: i32,
    height: i32,
    only_ok: bool,
}

impl InputBox {
    /// The longest input accepted, in bytes of the host buffer.
    pub closed spec fn spec_max_count(self) -> i32 {
        self.max_count
    }

    /// The prompt text.
    pub closed spec fn spec_prompt(self) -> Seq<char> {
        self.prompt@
    }

    /// The window title, if one was set.
    pub closed spec fn spec_title(self) -> Option<Seq<char>> {
        match self.title {
            Some(t) => Some(t@),
            None => None,
        }
    }

    /// The text the box opens with, if one was set.
    pub closed spec fn spec_default_text(self) -> Option<Seq<char>> {
        match self.default_text {
            Some(t) => Some(t@),
            None => None,
        }
    }

    /// The box width in pixels; 0 leaves it to the engine.
    pub closed spec fn spec_width(self) -> i32 {
        self.width
    }

    /// The box height in pixels; 0 leaves it to the engine.
    pub closed spec fn spec_height(self) -> i32 {
        self.height
    }

    /// Whether only the accept button is shown.
    pub closed spec fn spec_only_ok(self) -> bool {
        self.only_ok
    }

    /// A fresh configuration with the given input limit and prompt; no
    /// title, no default text, the engine's own size, and only an accept
    /// button.
    pub fn new(max_count: i32, prompt: &str) -> (b: InputBox)
        ensures
            b.spec_max_count() == max_count,
            b.spec_prompt() == prompt@,
            b.spec_title() is None,
            b.spec_default_text() is None,
            b.spec_width() == 0,
            b.spec_height() == 0,
            b.spec_only_ok(),
    {
        InputBox {
            max_count,
            prompt: prompt.to_owned(),
            title: None,
            default_text: None,
            width: 0,
            height: 0,
            only_ok: true,
        }
    }

    /// The same configuration with the given window title.
    pub fn with_title(self, title: &str) -> (b: InputBox)
        ensures
            b.spec_title() == Some(title@),
            b.spec_max_count() == self.spec_max_count(),
            b.spec_prompt() == self.spec_prompt(),
            b.spec_default_text() == self.spec_default_text(),
            b.spec_width() == self.spec_width(),
            b.spec_height() == self.spec_height(),
            b.spec_only_ok() == self.spec_only_ok(),
    {
        InputBox { title: Some(title.to_owned()), ..self }
    }

    /// The same configuration with the given default text.
    pub fn with_default_text(self, default_text: &str) -> (b: InputBox)
        ensures
            b.spec_default_text() == Some(default_text@),
            b.spec_max_count() == self.spec_max_count(),
            b.spec_prompt() == self.spec_prompt(),
            b.spec_title() == self.spec_title(),
            b.spec_width() == self.spec_width(),
            b.spec_height() == self.spec_height(),
            b.spec_only_ok() == self.spec_only_ok(),
    {
        InputBox { default_text: Some(default_text.to_owned()), ..self }
    }

    /// The same configuration with the given width.
    pub fn with_width(self, width: i32) -> (b: InputBox)
        ensures
            b.spec_width() == width,
            b.spec_max_count() == self.spec_max_count(),
            b.spec_prompt() == self.spec_prompt(),
            b.spec_title() == self.spec_title(),
            b.spec_default_text() == self.spec_default_text(),
            b.spec_height() == self.spec_height(),
            b.spec_only_ok() == self.spec_only_ok(),
    {
        InputBox { width, ..self }
    }

    /// The same configuration with the given height.
    pub fn with_height(self, height: i32) -> (b: InputBox)
        ensures
            b.spec_height() == height,
            b.spec_max_count() == self.spec_max_count(),
            b.spec_prompt() == self.spec_prompt(),
            b.spec_title() == self.spec_title(),
            b.spec_default_text() == self.spec_default_text(),
            b.spec_width() == self.spec_width(),
            b.spec_only_ok() == self.spec_only_ok(),
    {
        InputBox { height, ..self }
    }

    /// The same configuration with or without the only-accept-button
    /// option.
    pub fn with_only_ok(self, only_ok: bool) -> (b: InputBox)
        ensures
            b.spec_only_ok() == only_ok,
            b.spec_max_count() == self.spec_max_count(),
            b.spec_prompt() == self.spec_prompt(),
            b.spec_title() == self.spec_title(),
            b.spec_default_text() == self.spec_default_text(),
            b.spec_width() == self.spec_width(),
            b.spec_height() == self.spec_height(),
    {
        InputBox { only_ok, ..self }
    }

    /// The longest input accepted.
    pub fn max_count(&self) -> (v: i32)
        ensures
            v == self.spec_max_count(),
    {
        self.max_count
    }

    /// The prompt text.
    pub fn prompt(&self) -> (p: &String)
        ensures
            p@ == self.spec_prompt(),
    {
        &self.prompt
    }

    /// The window title, if one was set.
    pub fn title(&self) -> (t: Option<&String>)
        ensures
            (t matches Some(s) ==> self.spec_title() == Some(s@)),
            t is None <==> self.spec_title() is None,
    {
        match &self.title {
            Some(t) => Some(t),
            None => None,
        }
    }

    /// The text the box opens with, if one was set.
    pub fn default_text(&self) -> (t: Option<&String>)
        ensures
            (t matches Some(s) ==> self.spec_default_text() == Some(s@)),
            t is None <==> self.spec_default_text() is None,
    {
        match &self.default_text {
            Some(t) => Some(t),
            None => None,
        }
    }

    /// The box width; 0 leaves it to the engine.
    pub fn width(&self) -> (v: i32)
        ensures
            v == self.spec_width(),
    {
        self.width
    }

    /// The box height; 0 leaves it to the engine.
    pub fn height(&self) -> (v: i32)
        ensures
            v == self.spec_height(),
    {
        self.height
    }

    /// Whether only the accept button is shown.
    pub fn only_ok(&self) -> (v: bool)
        ensures
            v == self.spec_only_ok(),
    {
        self.only_ok
    }
}

} // verus!
