//! The flags that the keyboard sets and that drawing reads.
//!
//! Two kinds of flag live here. A toggle keeps its value until the same key
//! is pressed again. A one-shot request is set by a key and consumed by the
//! first frame that reads it.

use vstd::prelude::*;

verus! {

/// Number of textures that the tab key cycles through.
pub const TEXTURE_CHOICES: usize = 5;

/// A key, as far as the flags care.
#[derive(Clone, Copy, Debug, PartialEq, Eq, Structural)]
pub enum Key {
    /// Switches between the loaded model and the flat shape.
    Y,
    /// Asks for the next texture.
    Tab,
    /// Asks for a screenshot.
    P,
    /// Toggles the use of the last captured frame.
    L,
    /// Toggles the rotation.
    R,
    /// Toggles the depth overlay.
    Z,
    /// Toggles the cursor-driven background.
    B,
    /// Ends the program, unless the camera takes the key.
    Escape,
    /// Any other key.
    Other,
}

/// The flags of one window.
#[derive(Clone, Copy, Debug, PartialEq, Eq, Structural)]
pub struct KeyState {
    pub show_depth: bool,
    pub alt_shape: bool,
    pub alt_image: bool,
    pub tex_loop: bool,
    pub screenshot: bool,
    pub rotate: bool,
    pub tab: bool,
    pub tab_index: usize,
    pub background: bool,
}

impl Key {
    /// Whether a flag is bound to this key.
    pub open spec fn has_flag(self) -> bool {
        self != Key::Other && self != Key::Escape
    }
}

impl KeyState {
    /// All flags off, first texture chosen.
    pub open spec fn initial() -> KeyState {
        KeyState {
            show_depth: false,
            alt_shape: false,
            alt_image: false,
            tex_loop: false,
            screenshot: false,
            rotate: false,
            tab: false,
            tab_index: 0,
            background: false,
        }
    }

    /// The texture index names one of the choices.
    pub open spec fn wf(&self) -> bool {
        self.tab_index < TEXTURE_CHOICES
    }

    /// Whether the texture index names one of the choices.
    pub fn is_valid(&self) -> (valid: bool)
        ensures
            valid == self.wf(),
    {
        self.tab_index < TEXTURE_CHOICES
    }

    /// The flags after `key` went down.
    pub open spec fn pressed(self, key: Key) -> KeyState {
        match key {
            Key::Y => KeyState { alt_shape: !self.alt_shape, ..self },
            Key::Tab => KeyState { tab: !self.tab, ..self },
            Key::P => KeyState { screenshot: !self.screenshot, ..self },
            Key::L => KeyState { tex_loop: !self.tex_loop, ..self },
            Key::R => KeyState { rotate: !self.rotate, ..self },
            Key::Z => KeyState { show_depth: !self.show_depth, ..self },
            Key::B => KeyState { background: !self.background, ..self },
            Key::Escape => self,
            Key::Other => self,
        }
    }

    /// The texture index after a frame has looked at the tab request.
    pub open spec fn next_tab_index(self) -> usize {
        if self.tab {
            ((self.tab_index + 1) % (TEXTURE_CHOICES as int)) as usize
        } else {
            self.tab_index
        }
    }

    /// The flags after a frame has consumed the tab request.
    pub open spec fn tab_consumed(self) -> KeyState {
        KeyState { tab: false, tab_index: self.next_tab_index(), ..self }
    }

    /// The flags after a frame has consumed the screenshot request.
    pub open spec fn screenshot_consumed(self) -> KeyState {
        KeyState { screenshot: false, ..self }
    }

    /// The flags after a frame has consumed both requests: the one for the
    /// next texture and the one for a screenshot. Every other flag is a
    /// held one that no frame consumes, `tex_loop` among them: it keeps
    /// its value until its key is pressed again.
    pub open spec fn frame_consumed(self) -> KeyState {
        self.tab_consumed().screenshot_consumed()
    }

    /// The flags after `frames` frames without a key in between.
    pub open spec fn after_frames(self, frames: nat) -> KeyState
        decreases frames,
    {
        if frames == 0 {
            self
        } else {
            self.frame_consumed().after_frames((frames - 1) as nat)
        }
    }

    /// Number of the next `frames` frames that find a screenshot request.
    pub open spec fn screenshots_in(self, frames: nat) -> nat
        decreases frames,
    {
        if frames == 0 {
            0
        } else {
            (if self.screenshot {
                1nat
            } else {
                0nat
            }) + self.frame_consumed().screenshots_in((frames - 1) as nat)
        }
    }

    /// Number of the next `frames` frames that find a tab request.
    pub open spec fn advances_in(self, frames: nat) -> nat
        decreases frames,
    {
        if frames == 0 {
            0
        } else {
            (if self.tab {
                1nat
            } else {
                0nat
            }) + self.frame_consumed().advances_in((frames - 1) as nat)
        }
    }

    /// Flips the flag bound to `key`. Returns whether there is such a flag.
    pub fn press(&mut self, key: Key) -> (handled: bool)
        ensures
            *final(self) == old(self).pressed(key),
            handled == key.has_flag(),
    {
        match key {
            Key::Y => {
                self.alt_shape = !self.alt_shape;
                true
            },
            Key::Tab => {
                self.tab = !self.tab;
                true
            },
            Key::P => {
                self.screenshot = !self.screenshot;
                true
            },
            Key::L => {
                self.tex_loop = !self.tex_loop;
                true
            },
            Key::R => {
                self.rotate = !self.rotate;
                true
            },
            Key::Z => {
                self.show_depth = !self.show_depth;
                true
            },
            Key::B => {
                self.background = !self.background;
                true
            },
            Key::Escape => false,
            Key::Other => false,
        }
    }

    /// Consumes the tab request: on a request the texture index moves on by
    /// one, round the choices, and the request is gone. Returns the index to
    /// draw with.
    pub fn take_tab(&mut self) -> (index: usize)
        requires
            old(self).wf(),
        ensures
            *final(self) == old(self).tab_consumed(),
            index == old(self).next_tab_index(),
            index < TEXTURE_CHOICES,
            final(self).wf(),
    {
        if self.tab {
            self.tab = false;
            self.tab_index = (self.tab_index + 1) % TEXTURE_CHOICES;
        }
        self.tab_index
    }

    /// Consumes the screenshot request. Returns whether there was one.
    pub fn take_screenshot(&mut self) -> (requested: bool)
        ensures
            *final(self) == old(self).screenshot_consumed(),
            requested == old(self).screenshot,
    {
        let requested = self.screenshot;
        self.screenshot = false;
        requested
    }
}

impl Default for KeyState {
    fn default() -> (keys: Self)
        ensures
            keys == KeyState::initial(),
    {
        KeyState {
            show_depth: false,
            alt_shape: false,
            alt_image: false,
            tex_loop: false,
            screenshot: false,
            rotate: false,
            tab: false,
            tab_index: 0,
            background: false,
        }
    }
}

/// Every flag has one key of its own: a key with a flag changes the
/// flags, and two such keys change them differently.
pub proof fn lemma_one_key_per_flag(keys: KeyState, first: Key, second: Key)
    requires
        first.has_flag(),
        second.has_flag(),
        first != second,
    ensures
        keys.pressed(first) != keys,
        keys.pressed(first) != keys.pressed(second),
        keys.pressed(first).pressed(second) == keys.pressed(second).pressed(first),
{
}

/// A second press of the same key undoes the first.
pub proof fn lemma_press_twice(keys: KeyState, key: Key)
    ensures
        keys.pressed(key).pressed(key) == keys,
{
}

/// However many frames follow one request, one of them serves it: a
/// request for a screenshot gives one capture, a request for the next
/// texture one step, and the frames after the first change nothing.
pub proof fn lemma_request_served_by_one_frame(keys: KeyState, frames: nat)
    requires
        keys.wf(),
        frames >= 1,
    ensures
        keys.screenshots_in(frames) == (if keys.screenshot {
            1nat
        } else {
            0nat
        }),
        keys.advances_in(frames) == (if keys.tab {
            1nat
        } else {
            0nat
        }),
        keys.after_frames(frames) == keys.frame_consumed(),
        keys.after_frames(frames).tab_index == keys.next_tab_index(),
    decreases frames,
{
    let next = keys.frame_consumed();
    if frames == 1 {
        assert(next.after_frames(0) == next);
        assert(next.screenshots_in(0) == 0);
        assert(next.advances_in(0) == 0);
    } else {
        lemma_request_served_by_one_frame(next, (frames - 1) as nat);
    }
}

/// A consumed request stays consumed: a second frame finds nothing to do.
pub proof fn lemma_one_shot_consumed_once(keys: KeyState)
    requires
        keys.wf(),
    ensures
        !keys.tab_consumed().tab,
        keys.tab_consumed().tab_consumed() == keys.tab_consumed(),
        !keys.screenshot_consumed().screenshot,
        keys.screenshot_consumed().screenshot_consumed() == keys.screenshot_consumed(),
{
}

} // verus!
