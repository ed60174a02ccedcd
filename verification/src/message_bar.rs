//! The one-line message area at the bottom of the screen. Messages expire
//! a few seconds after they are posted; the caller supplies the current
//! time as plain milliseconds.

use crate::size::Size;
use vstd::prelude::*;

verus! {

/// How long a message stays on screen, in milliseconds.
pub const MESSAGE_LIFE_MS: u64 = 3000;

/// A message and the time it was posted.
pub struct Message {
    pub text: String,
    pub time_ms: u64,
}

impl Message {
    pub fn new(text: String, now_ms: u64) -> (m: Message)
        ensures
            m.text == text,
            m.time_ms == now_ms,
    {
        Message { text, time_ms: now_ms }
    }

    /// Whether the message is older than its lifetime at time `now_ms`.
    pub fn is_expired(&self, now_ms: u64) -> (b: bool)
        ensures
            b == (crate::view::sat_sub(now_ms as int, self.time_ms as int)
                > MESSAGE_LIFE_MS as int),
    {
        now_ms.saturating_sub(self.time_ms) > MESSAGE_LIFE_MS
    }
}

/// The message area: the current message, the redraw flag, the bar's size,
/// and whether the expired message has already been wiped from the screen.
pub struct MessageBar {
    pub message: Message,
    pub needs_redraw: bool,
    pub size: Size,
    pub message_cleared: bool,
}

impl MessageBar {
    pub fn default() -> (m: MessageBar)
        ensures
            m.message.text@ == Seq::<char>::empty(),
            m.message.time_ms == 0,
            !m.needs_redraw,
            m.size.width == 0 && m.size.height == 0,
            !m.message_cleared,
    {
        MessageBar {
            message: Message { text: String::new(), time_ms: 0 },
            needs_redraw: false,
            size: Size::default(),
            message_cleared: false,
        }
    }

    /// Posts a new message at time `now_ms`.
    pub fn update_message(&mut self, new_message: &str, now_ms: u64)
        ensures
            final(self).message.text@ == new_message@,
            final(self).message.time_ms == now_ms,
            !final(self).message_cleared,
            final(self).needs_redraw,
            final(self).size == old(self).size,
    {
        self.message = Message { text: new_message.to_owned(), time_ms: now_ms };
        self.message_cleared = false;
        self.mark_redraw(true);
    }

    pub fn set_needs_redraw(&mut self, value: bool)
        ensures
            *final(self) == (MessageBar { needs_redraw: value, ..*old(self) }),
    {
        self.needs_redraw = value;
    }

    pub fn mark_redraw(&mut self, val: bool)
        ensures
            *final(self) == (MessageBar { needs_redraw: val, ..*old(self) }),
    {
        self.needs_redraw = val;
    }

    /// The bar repaints when it was marked to, or when a still-displayed
    /// message has expired and must be wiped.
    pub fn needs_redraw(&self, now_ms: u64) -> (b: bool)
        ensures
            b == ((!self.message_cleared && crate::view::sat_sub(
                now_ms as int,
                self.message.time_ms as int,
            ) > MESSAGE_LIFE_MS as int) || self.needs_redraw),
    {
        (!self.message_cleared && self.message.is_expired(now_ms)) || self.needs_redraw
    }

    pub fn set_size(&mut self, size: Size)
        ensures
            final(self).size == size,
            final(self).needs_redraw,
            final(self).message == old(self).message,
            final(self).message_cleared == old(self).message_cleared,
    {
        self.size = size;
        self.mark_redraw(true);
    }

    pub fn resize(&mut self, size: Size)
        ensures
            final(self).size == size,
            final(self).needs_redraw,
            final(self).message == old(self).message,
            final(self).message_cleared == old(self).message_cleared,
    {
        self.set_size(size);
        self.mark_redraw(true);
    }

    /// The text the bar paints at time `now_ms`: the message while it is
    /// fresh, nothing once it has expired; an expired message is recorded
    /// as cleared.
    pub fn draw_text(&mut self, now_ms: u64) -> (s: String)
        ensures
            ({
                let expired = crate::view::sat_sub(now_ms as int, old(self).message.time_ms as int)
                    > MESSAGE_LIFE_MS as int;
                &&& final(self).message == old(self).message
                &&& final(self).size == old(self).size
                &&& final(self).needs_redraw == old(self).needs_redraw
                &&& final(self).message_cleared == (old(self).message_cleared || expired)
                &&& s@ == (if expired {
                    Seq::<char>::empty()
                } else {
                    old(self).message.text@
                })
            }),
    {
        if self.message.is_expired(now_ms) {
            self.message_cleared = true;
            String::new()
        } else {
            self.message.text.clone()
        }
    }
}

} // verus!
